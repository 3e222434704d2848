use vstd::prelude::*;

verus! {

/// Why a field could not be read from a payload.
#[derive(Debug, Clone, Copy, PartialEq, Eq, Structural)]
pub enum ParseError {
    /// Fewer bytes remain than the field's width.
    InsufficientData,
    /// The byte names no variant of the enumeration being read.
    Variant,
    /// A sequence of two-byte samples ends in a single byte.
    UnexpectedNumberOfBytes,
}

/// The unsigned number that `width` bytes of `s` starting at `at` encode,
/// least significant byte first (`width` is 1 to 4).
pub open spec fn le_value(s: Seq<u8>, at: int, width: nat) -> int {
    if width == 1 {
        s[at] as int
    } else if width == 2 {
        s[at] + 256 * s[at + 1]
    } else if width == 3 {
        s[at] + 256 * s[at + 1] + 65536 * s[at + 2]
    } else {
        s[at] + 256 * s[at + 1] + 65536 * s[at + 2] + 16777216 * s[at + 3]
    }
}

/// A forward-only reader over an owned byte buffer.
pub struct Cursor {
    data: Vec<u8>,
    pos: usize,
}

impl Cursor {
    #[verifier::type_invariant]
    spec fn inv(self) -> bool {
        self.pos <= self.data@.len()
    }

    /// All bytes of the buffer, read or not.
    pub closed spec fn bytes(self) -> Seq<u8> {
        self.data@
    }

    /// How many bytes have been read.
    pub closed spec fn pos(self) -> nat {
        self.pos as nat
    }

    /// How many bytes are left to read.
    pub open spec fn remaining(self) -> int {
        self.bytes().len() - self.pos()
    }

    /// The little-endian number in the next `width` bytes.
    pub open spec fn peek(self, width: nat) -> int {
        le_value(self.bytes(), self.pos() as int, width)
    }

    pub fn new(data: Vec<u8>) -> (r: Cursor)
        ensures
            r.bytes() == data@,
            r.pos() == 0,
    {
        Cursor { data, pos: 0 }
    }

    /// How many bytes are left to read.
    pub fn remaining_len(&self) -> (r: usize)
        ensures
            r == self.remaining(),
            self.pos() <= self.bytes().len(),
    {
        proof {
            use_type_invariant(self);
        }
        self.data.len() - self.pos
    }

    /// Moves past the next `width` bytes and returns the offset of the first.
    fn take(&mut self, width: usize) -> (r: Result<usize, ParseError>)
        requires
            1 <= width <= 4,
        ensures
            final(self).bytes() == old(self).bytes(),
            match r {
                Ok(at) => {
                    &&& old(self).remaining() >= width
                    &&& at == old(self).pos()
                    &&& final(self).pos() == old(self).pos() + width
                },
                Err(e) => {
                    &&& e == ParseError::InsufficientData
                    &&& old(self).remaining() < width
                    &&& final(self).pos() == old(self).pos()
                },
            },
    {
        proof {
            use_type_invariant(&*self);
        }
        if self.data.len() - self.pos < width {
            Err(ParseError::InsufficientData)
        } else {
            let at = self.pos;
            self.pos = self.pos + width;
            Ok(at)
        }
    }

    /// Reads one byte.
    pub fn read_u8(&mut self) -> (r: Result<u8, ParseError>)
        ensures
            final(self).bytes() == old(self).bytes(),
            match r {
                Ok(v) => {
                    &&& old(self).remaining() >= 1
                    &&& v == old(self).peek(1)
                    &&& final(self).pos() == old(self).pos() + 1
                },
                Err(e) => {
                    &&& e == ParseError::InsufficientData
                    &&& old(self).remaining() < 1
                    &&& final(self).pos() == old(self).pos()
                },
            },
    {
        let at = self.take(1)?;
        Ok(self.data[at])
    }

    /// Reads a two-byte little-endian number.
    pub fn read_u16(&mut self) -> (r: Result<u16, ParseError>)
        ensures
            final(self).bytes() == old(self).bytes(),
            match r {
                Ok(v) => {
                    &&& old(self).remaining() >= 2
                    &&& v == old(self).peek(2)
                    &&& final(self).pos() == old(self).pos() + 2
                },
                Err(e) => {
                    &&& e == ParseError::InsufficientData
                    &&& old(self).remaining() < 2
                    &&& final(self).pos() == old(self).pos()
                },
            },
    {
        let at = self.take(2)?;
        let b0 = self.data[at] as u16;
        let b1 = self.data[at + 1] as u16;
        Ok(b0 + 256 * b1)
    }

    /// Reads a three-byte little-endian number: `b0 + 256·b1 + 65536·b2`.
    pub fn read_u24(&mut self) -> (r: Result<u32, ParseError>)
        ensures
            final(self).bytes() == old(self).bytes(),
            match r {
                Ok(v) => {
                    &&& old(self).remaining() >= 3
                    &&& v == old(self).peek(3)
                    &&& v < 0x100_0000
                    &&& final(self).pos() == old(self).pos() + 3
                },
                Err(e) => {
                    &&& e == ParseError::InsufficientData
                    &&& old(self).remaining() < 3
                    &&& final(self).pos() == old(self).pos()
                },
            },
    {
        let at = self.take(3)?;
        let b0 = self.data[at] as u32;
        let b1 = self.data[at + 1] as u32;
        let b2 = self.data[at + 2] as u32;
        Ok(b0 + 256 * b1 + 65536 * b2)
    }

    /// Reads a four-byte little-endian number.
    pub fn read_u32(&mut self) -> (r: Result<u32, ParseError>)
        ensures
            final(self).bytes() == old(self).bytes(),
            match r {
                Ok(v) => {
                    &&& old(self).remaining() >= 4
                    &&& v == old(self).peek(4)
                    &&& final(self).pos() == old(self).pos() + 4
                },
                Err(e) => {
                    &&& e == ParseError::InsufficientData
                    &&& old(self).remaining() < 4
                    &&& final(self).pos() == old(self).pos()
                },
            },
    {
        let at = self.take(4)?;
        let b0 = self.data[at] as u32;
        let b1 = self.data[at + 1] as u32;
        let b2 = self.data[at + 2] as u32;
        let b3 = self.data[at + 3] as u32;
        Ok(b0 + 256 * b1 + 65536 * b2 + 16777216 * b3)
    }
}

/// A value read from a fixed number of bytes holding a little-endian number.
pub trait Parse: Sized {
    /// How many bytes one value takes.
    spec fn width() -> nat;

    /// Whether the number read names a value of the type.
    spec fn accepts(raw: int) -> bool;

    /// The number that this value is read from.
    spec fn raw(self) -> int;

    /// Two values read from the same number are the same value.
    proof fn lemma_raw_injective(a: Self, b: Self)
        requires
            a.raw() == b.raw(),
        ensures
            a == b,
    ;

    /// Reads one value; on success the cursor has moved past it.
    fn parse(cursor: &mut Cursor) -> (r: Result<Self, ParseError>)
        ensures
            final(cursor).bytes() == old(cursor).bytes(),
            match r {
                Ok(v) => {
                    &&& old(cursor).remaining() >= Self::width()
                    &&& Self::accepts(old(cursor).peek(Self::width()))
                    &&& v.raw() == old(cursor).peek(Self::width())
                    &&& final(cursor).pos() == old(cursor).pos() + Self::width()
                },
                Err(ParseError::InsufficientData) => {
                    &&& old(cursor).remaining() < Self::width()
                    &&& final(cursor).pos() == old(cursor).pos()
                },
                Err(ParseError::Variant) => {
                    &&& old(cursor).remaining() >= Self::width()
                    &&& !Self::accepts(old(cursor).peek(Self::width()))
                    &&& final(cursor).pos() == old(cursor).pos() + Self::width()
                },
                Err(ParseError::UnexpectedNumberOfBytes) => false,
            },
    ;
}

/// A closed enumeration whose variants are named by explicit one-byte codes.
pub trait Discriminant: Sized {
    /// The table from code to variant: `None` for a code that names no variant.
    spec fn variant_of(code: u8) -> Option<Self>;

    /// The code of a variant.
    spec fn code_of(self) -> u8;

    /// Looking up a variant's code gives the variant back.
    proof fn lemma_code_round_trip(v: Self)
        ensures
            Self::variant_of(v.code_of()) == Some(v),
    ;

    /// A variant found under a code has that code.
    proof fn lemma_variant_code(code: u8)
        ensures
            Self::variant_of(code) matches Some(v) ==> v.code_of() == code,
    ;

    /// Looks a code up in the table.
    fn from_code(code: u8) -> (r: Option<Self>)
        ensures
            r == Self::variant_of(code),
    ;

    /// The code of this variant.
    fn code(&self) -> (r: u8)
        ensures
            r == self.code_of(),
    ;
}

/// Reads one byte and looks it up in `E`'s table of codes.
pub fn decode_enum<E: Discriminant>(cursor: &mut Cursor) -> (r: Result<E, ParseError>)
    ensures
        final(cursor).bytes() == old(cursor).bytes(),
        match r {
            Ok(v) => {
                &&& old(cursor).remaining() >= 1
                &&& E::variant_of(old(cursor).peek(1) as u8) == Some(v)
                &&& final(cursor).pos() == old(cursor).pos() + 1
            },
            Err(ParseError::InsufficientData) => {
                &&& old(cursor).remaining() < 1
                &&& final(cursor).pos() == old(cursor).pos()
            },
            Err(ParseError::Variant) => {
                &&& old(cursor).remaining() >= 1
                &&& E::variant_of(old(cursor).peek(1) as u8) is None
                &&& final(cursor).pos() == old(cursor).pos() + 1
            },
            Err(ParseError::UnexpectedNumberOfBytes) => false,
        },
{
    let code = cursor.read_u8()?;
    match E::from_code(code) {
        Some(v) => Ok(v),
        None => Err(ParseError::Variant),
    }
}

impl Parse for u8 {
    open spec fn width() -> nat {
        1
    }

    open spec fn accepts(raw: int) -> bool {
        true
    }

    open spec fn raw(self) -> int {
        self as int
    }

    proof fn lemma_raw_injective(a: Self, b: Self) {
    }

    fn parse(cursor: &mut Cursor) -> (r: Result<Self, ParseError>) {
        cursor.read_u8()
    }
}

impl Parse for u16 {
    open spec fn width() -> nat {
        2
    }

    open spec fn accepts(raw: int) -> bool {
        true
    }

    open spec fn raw(self) -> int {
        self as int
    }

    proof fn lemma_raw_injective(a: Self, b: Self) {
    }

    fn parse(cursor: &mut Cursor) -> (r: Result<Self, ParseError>) {
        cursor.read_u16()
    }
}

impl Parse for u32 {
    open spec fn width() -> nat {
        4
    }

    open spec fn accepts(raw: int) -> bool {
        true
    }

    open spec fn raw(self) -> int {
        self as int
    }

    proof fn lemma_raw_injective(a: Self, b: Self) {
    }

    fn parse(cursor: &mut Cursor) -> (r: Result<Self, ParseError>) {
        cursor.read_u32()
    }
}

} // verus!

use vstd::prelude::*;

use crate::identifier::{
    belongs, belongs_to, identifier_of, lemma_selector_round_trip, selector, selector_of,
    with_selector, Identifier, ServiceKind,
};
use crate::parse::{le_value, Cursor, Discriminant, Parse, ParseError};
use crate::types::{
    le16_samples, Calories, Distance, DragFactor, DriveLength, DriveTime, ErgMachineType, Force,
    ForceCurveData, GameId, GameScore, HeartRate, IntervalCount, IntervalType, LogEntryDate,
    LogEntryTime, Pace, Power, RestDistance, RestTime, RowingState, SampleRate, Size, Speed,
    StrokeCount, StrokeDistance, StrokeRate, StrokeRecoveryTime, StrokeState, Time, Work,
    WorkoutDurationType, WorkoutState, WorkoutType, U24,
};

verus! {

/// A group of characteristics that share one namespace of identifiers.
pub trait Service: Sized {
    /// The service itself.
    spec fn kind() -> ServiceKind;

    /// The 1-based index of a characteristic within the service.
    spec fn index_of(self) -> u8;

    fn service() -> (r: ServiceKind)
        ensures
            r == Self::kind(),
    ;

    fn index(&self) -> (r: u8)
        ensures
            r == self.index_of(),
            1 <= r <= 15,
    ;

    /// The identifier of the characteristic.
    fn id(&self) -> (r: Identifier)
        ensures
            r.0 == with_selector(Self::kind().namespace_prefix(), self.index_of() as u128),
    {
        identifier_of(Self::service(), self.index())
    }

    /// Whether `characteristic` lies in the namespace of the service.
    fn characteristic_is_part_of_service(characteristic: Identifier) -> (r: bool)
        ensures
            r == belongs(Self::kind(), characteristic.0),
    {
        belongs_to(Self::service(), characteristic)
    }
}

/// A characteristic of one of the monitor's services.
#[derive(Debug, Clone, Copy, PartialEq, Eq, Structural)]
pub enum Pm5 {
    Information(Information),
    Control(Control),
    Rowing(Rowing),
    HeartRate(Heartrate),
}

impl Pm5 {
    /// The rowing characteristics that a client subscribes to.
    pub fn rowing() -> (r: Vec<Rowing>)
        ensures
            r@ == seq![Rowing::GeneralStatus, Rowing::StrokeData],
    {
        let r = vec![Rowing::GeneralStatus, Rowing::StrokeData];
        assert(r@ =~= seq![Rowing::GeneralStatus, Rowing::StrokeData]);
        r
    }
}

/// A decoded notification of the monitor.
#[derive(Debug, Clone, PartialEq, Eq)]
pub enum Pm5Data {
    Rowing(RowingData),
}

/// Why a notification could not be decoded.
#[derive(Debug, Clone, Copy, PartialEq, Eq, Structural)]
pub enum ServiceDataError {
    /// The payload does not hold the record.
    Data(ParseError),
    /// The identifier lies in the rowing namespace but names no characteristic.
    Id,
    /// The identifier lies in no namespace that is decoded.
    UnkownService,
    /// The characteristic is known but its record is not decoded yet.
    NotImplemented,
}

/// Characteristics of the device information service.
#[derive(Debug, Clone, Copy, PartialEq, Eq, Structural)]
pub enum Information {
    ModelNumber,
    SerialNumber,
    HardwareRevision,
    FirmwareRevision,
    ManufacturerName,
    MachineType,
}

impl Service for Information {
    open spec fn kind() -> ServiceKind {
        ServiceKind::Information
    }

    open spec fn index_of(self) -> u8 {
        match self {
            Information::ModelNumber => 1,
            Information::SerialNumber => 2,
            Information::HardwareRevision => 3,
            Information::FirmwareRevision => 4,
            Information::ManufacturerName => 5,
            Information::MachineType => 6,
        }
    }

    fn service() -> (r: ServiceKind) {
        ServiceKind::Information
    }

    fn index(&self) -> (r: u8) {
        match self {
            Information::ModelNumber => 1,
            Information::SerialNumber => 2,
            Information::HardwareRevision => 3,
            Information::FirmwareRevision => 4,
            Information::ManufacturerName => 5,
            Information::MachineType => 6,
        }
    }
}

/// Characteristics of the control service.
#[derive(Debug, Clone, Copy, PartialEq, Eq, Structural)]
pub enum Control {
    Receive,
    Transmit,
}

impl Service for Control {
    open spec fn kind() -> ServiceKind {
        ServiceKind::Control
    }

    open spec fn index_of(self) -> u8 {
        match self {
            Control::Receive => 1,
            Control::Transmit => 2,
        }
    }

    fn service() -> (r: ServiceKind) {
        ServiceKind::Control
    }

    fn index(&self) -> (r: u8) {
        match self {
            Control::Receive => 1,
            Control::Transmit => 2,
        }
    }
}

/// Characteristics of the heart-rate service.
#[derive(Debug, Clone, Copy, PartialEq, Eq, Structural)]
pub enum Heartrate {
    Receive,
}

impl Service for Heartrate {
    open spec fn kind() -> ServiceKind {
        ServiceKind::HeartRate
    }

    open spec fn index_of(self) -> u8 {
        1
    }

    fn service() -> (r: ServiceKind) {
        ServiceKind::HeartRate
    }

    fn index(&self) -> (r: u8) {
        1
    }
}

/// Characteristics of the rowing service, in the order of their indices.
#[derive(Debug, Clone, Copy, PartialEq, Eq, Structural)]
pub enum Rowing {
    GeneralStatus,
    AdditionalStatusOne,
    AdditionalStatusTwo,
    GeneralStatusRate,
    StrokeData,
    AdditionalStrokeData,
    SplitIntervalData,
    AdditionalSplitIntervalData,
    EndOfWorkoutSummaryData,
    AdditionalEndOfWorkoutSummaryData,
    HeartRateBeltInformation,
    AdditionalEndOfWorkoutSummaryDataTwo,
    ForceCurveData,
    AdditionalStatusThree,
    MultiplexedInformation,
}

impl Service for Rowing {
    open spec fn kind() -> ServiceKind {
        ServiceKind::Rowing
    }

    open spec fn index_of(self) -> u8 {
        match self {
            Rowing::GeneralStatus => 1,
            Rowing::AdditionalStatusOne => 2,
            Rowing::AdditionalStatusTwo => 3,
            Rowing::GeneralStatusRate => 4,
            Rowing::StrokeData => 5,
            Rowing::AdditionalStrokeData => 6,
            Rowing::SplitIntervalData => 7,
            Rowing::AdditionalSplitIntervalData => 8,
            Rowing::EndOfWorkoutSummaryData => 9,
            Rowing::AdditionalEndOfWorkoutSummaryData => 10,
            Rowing::HeartRateBeltInformation => 11,
            Rowing::AdditionalEndOfWorkoutSummaryDataTwo => 12,
            Rowing::ForceCurveData => 13,
            Rowing::AdditionalStatusThree => 14,
            Rowing::MultiplexedInformation => 15,
        }
    }

    fn service() -> (r: ServiceKind) {
        ServiceKind::Rowing
    }

    fn index(&self) -> (r: u8) {
        match self {
            Rowing::GeneralStatus => 1,
            Rowing::AdditionalStatusOne => 2,
            Rowing::AdditionalStatusTwo => 3,
            Rowing::GeneralStatusRate => 4,
            Rowing::StrokeData => 5,
            Rowing::AdditionalStrokeData => 6,
            Rowing::SplitIntervalData => 7,
            Rowing::AdditionalSplitIntervalData => 8,
            Rowing::EndOfWorkoutSummaryData => 9,
            Rowing::AdditionalEndOfWorkoutSummaryData => 10,
            Rowing::HeartRateBeltInformation => 11,
            Rowing::AdditionalEndOfWorkoutSummaryDataTwo => 12,
            Rowing::ForceCurveData => 13,
            Rowing::AdditionalStatusThree => 14,
            Rowing::MultiplexedInformation => 15,
        }
    }
}

impl Rowing {
    /// The characteristic with 1-based `index`, if there is one.
    pub open spec fn with_index(index: u128) -> Option<Rowing> {
        match index {
            1 => Some(Rowing::GeneralStatus),
            2 => Some(Rowing::AdditionalStatusOne),
            3 => Some(Rowing::AdditionalStatusTwo),
            4 => Some(Rowing::GeneralStatusRate),
            5 => Some(Rowing::StrokeData),
            6 => Some(Rowing::AdditionalStrokeData),
            7 => Some(Rowing::SplitIntervalData),
            8 => Some(Rowing::AdditionalSplitIntervalData),
            9 => Some(Rowing::EndOfWorkoutSummaryData),
            10 => Some(Rowing::AdditionalEndOfWorkoutSummaryData),
            11 => Some(Rowing::HeartRateBeltInformation),
            12 => Some(Rowing::AdditionalEndOfWorkoutSummaryDataTwo),
            13 => Some(Rowing::ForceCurveData),
            14 => Some(Rowing::AdditionalStatusThree),
            15 => Some(Rowing::MultiplexedInformation),
            _ => None,
        }
    }

    /// The characteristic with 1-based `index`, if there is one.
    pub fn from_index(index: u8) -> (r: Option<Rowing>)
        ensures
            r == Rowing::with_index(index as u128),
    {
        match index {
            1 => Some(Rowing::GeneralStatus),
            2 => Some(Rowing::AdditionalStatusOne),
            3 => Some(Rowing::AdditionalStatusTwo),
            4 => Some(Rowing::GeneralStatusRate),
            5 => Some(Rowing::StrokeData),
            6 => Some(Rowing::AdditionalStrokeData),
            7 => Some(Rowing::SplitIntervalData),
            8 => Some(Rowing::AdditionalSplitIntervalData),
            9 => Some(Rowing::EndOfWorkoutSummaryData),
            10 => Some(Rowing::AdditionalEndOfWorkoutSummaryData),
            11 => Some(Rowing::HeartRateBeltInformation),
            12 => Some(Rowing::AdditionalEndOfWorkoutSummaryDataTwo),
            13 => Some(Rowing::ForceCurveData),
            14 => Some(Rowing::AdditionalStatusThree),
            15 => Some(Rowing::MultiplexedInformation),
            _ => None,
        }
    }

    /// The rowing characteristic that `id` names, if any.
    pub fn from_identifier(id: Identifier) -> (r: Option<Rowing>)
        ensures
            r == rowing_of(id.0),
    {
        if belongs_to(ServiceKind::Rowing, id) {
            Rowing::from_index(selector_of(id))
        } else {
            None
        }
    }

    /// Reads the record of this characteristic from a whole payload.
    pub fn decode(&self, data: Vec<u8>) -> (r: Result<RowingData, ServiceDataError>)
        ensures
            match r {
                Ok(d) => d.characteristic() == *self && decoded(*self, data@) == Ok::<Seq<int>, ServiceDataError>(d.fields()),
                Err(e) => decoded(*self, data@) == Err::<Seq<int>, ServiceDataError>(e),
            },
    {
        let ghost s = data@;
        let mut cursor = Cursor::new(data);
        match self.field_layout() {
            Some(l) => match read_fields(&l, &mut cursor) {
                Ok(v) => Ok(self.build(&v)),
                Err(e) => Err(ServiceDataError::Data(e)),
            },
            None => match self {
                Rowing::ForceCurveData => match ForceCurveData::parse(&mut cursor) {
                    Ok(d) => Ok(RowingData::ForceCurveData { data: d }),
                    Err(e) => Err(ServiceDataError::Data(e)),
                },
                _ => Err(ServiceDataError::NotImplemented),
            },
        }
    }
}

/// The rowing characteristic that an identifier names: the one whose index
/// the selector holds, where the identifier lies in the rowing namespace.
pub open spec fn rowing_of(id: u128) -> Option<Rowing> {
    if belongs(ServiceKind::Rowing, id) {
        Rowing::with_index(selector(id))
    } else {
        None
    }
}

/// What decoding `s` as a record of `c` gives: the record's numbers in wire
/// order, or the first error met.
pub open spec fn decoded(c: Rowing, s: Seq<u8>) -> Result<Seq<int>, ServiceDataError> {
    match c.layout() {
        Some(l) => match read_layout(l, s) {
            Ok(vs) => Ok(vs),
            Err(e) => Err(ServiceDataError::Data(e)),
        },
        None => if c == Rowing::ForceCurveData {
            if s.len() % 2 == 0 {
                Ok(le16_samples(s, 0))
            } else {
                Err(ServiceDataError::Data(ParseError::UnexpectedNumberOfBytes))
            }
        } else {
            Err(ServiceDataError::NotImplemented)
        },
    }
}

/// Decoding of notifications addressed by identifier.
pub trait ServiceData {
    type Data;

    fn parse(uuid: Identifier, data: Vec<u8>) -> (r: Result<Self::Data, ServiceDataError>);
}

impl ServiceData for Rowing {
    type Data = RowingData;

    fn parse(uuid: Identifier, data: Vec<u8>) -> (r: Result<RowingData, ServiceDataError>)
        ensures
            match rowing_of(uuid.0) {
                None => r == Err::<RowingData, ServiceDataError>(ServiceDataError::Id),
                Some(c) => match r {
                    Ok(d) => d.characteristic() == c && decoded(c, data@) == Ok::<Seq<int>, ServiceDataError>(d.fields()),
                    Err(e) => decoded(c, data@) == Err::<Seq<int>, ServiceDataError>(e),
                },
            },
    {
        match Rowing::from_identifier(uuid) {
            Some(c) => c.decode(data),
            None => Err(ServiceDataError::Id),
        }
    }
}

impl ServiceData for Pm5 {
    type Data = Pm5Data;

    fn parse(uuid: Identifier, data: Vec<u8>) -> (r: Result<Pm5Data, ServiceDataError>)
        ensures
            !belongs(ServiceKind::Rowing, uuid.0) ==> r == Err::<Pm5Data, ServiceDataError>(
                ServiceDataError::UnkownService,
            ),
            belongs(ServiceKind::Rowing, uuid.0) ==> match rowing_of(uuid.0) {
                None => r == Err::<Pm5Data, ServiceDataError>(ServiceDataError::Id),
                Some(c) => match r {
                    Ok(Pm5Data::Rowing(d)) => d.characteristic() == c && decoded(c, data@) == Ok::<
                        Seq<int>,
                        ServiceDataError,
                    >(d.fields()),
                    Err(e) => decoded(c, data@) == Err::<Seq<int>, ServiceDataError>(e),
                },
            },
    {
        if Rowing::characteristic_is_part_of_service(uuid) {
            match Rowing::parse(uuid, data) {
                Ok(d) => Ok(Pm5Data::Rowing(d)),
                Err(e) => Err(e),
            }
        } else {
            Err(ServiceDataError::UnkownService)
        }
    }
}

/// Every rowing characteristic is named by its own identifier: decoding the
/// identifier gives the characteristic back, so no two share one.
pub proof fn lemma_rowing_identifier_round_trip(c: Rowing)
    ensures
        rowing_of(with_selector(ServiceKind::Rowing.namespace_prefix(), c.index_of() as u128))
            == Some(c),
{
    lemma_selector_round_trip(ServiceKind::Rowing, c.index_of() as u128);
}

/// Two rowing characteristics with the same identifier are the same.
pub proof fn lemma_rowing_identifiers_distinct(a: Rowing, b: Rowing)
    requires
        with_selector(ServiceKind::Rowing.namespace_prefix(), a.index_of() as u128) == with_selector(
            ServiceKind::Rowing.namespace_prefix(),
            b.index_of() as u128,
        ),
    ensures
        a == b,
{
    lemma_rowing_identifier_round_trip(a);
    lemma_rowing_identifier_round_trip(b);
}

/// An identifier in the rowing namespace whose selector is zero names no
/// rowing characteristic.
pub proof fn lemma_rowing_selector_zero(id: u128)
    requires
        belongs(ServiceKind::Rowing, id),
        selector(id) == 0,
    ensures
        rowing_of(id) is None,
{
}

/// A force-curve payload of even length `n` decodes to its `n / 2` two-byte
/// little-endian samples in order; one of odd length fails on its last byte.
pub proof fn lemma_force_curve_samples(s: Seq<u8>)
    ensures
        s.len() % 2 == 0 ==> {
            &&& decoded(Rowing::ForceCurveData, s) == Ok::<Seq<int>, ServiceDataError>(
                le16_samples(s, 0),
            )
            &&& le16_samples(s, 0).len() == s.len() / 2
            &&& forall|i: int|
                0 <= i < s.len() / 2 ==> #[trigger] le16_samples(s, 0)[i] == s[2 * i] + 256 * s[2
                    * i + 1]
        },
        s.len() % 2 == 1 ==> decoded(Rowing::ForceCurveData, s) == Err::<Seq<int>, ServiceDataError>(
            ServiceDataError::Data(ParseError::UnexpectedNumberOfBytes),
        ),
{
}

/// The enumerations that appear as fields of rowing records.
#[derive(Debug, Clone, Copy, PartialEq, Eq, Structural)]
pub enum StatusKind {
    WorkoutType,
    IntervalType,
    WorkoutState,
    RowingState,
    StrokeState,
    WorkoutDurationType,
    ErgMachineType,
    SampleRate,
}

impl StatusKind {
    /// Whether `code` names a variant of the enumeration.
    pub open spec fn accepts(self, code: u8) -> bool {
        match self {
            StatusKind::WorkoutType => WorkoutType::variant_of(code) is Some,
            StatusKind::IntervalType => IntervalType::variant_of(code) is Some,
            StatusKind::WorkoutState => WorkoutState::variant_of(code) is Some,
            StatusKind::RowingState => RowingState::variant_of(code) is Some,
            StatusKind::StrokeState => StrokeState::variant_of(code) is Some,
            StatusKind::WorkoutDurationType => WorkoutDurationType::variant_of(code) is Some,
            StatusKind::ErgMachineType => ErgMachineType::variant_of(code) is Some,
            StatusKind::SampleRate => SampleRate::variant_of(code) is Some,
        }
    }

    /// Whether `code` names a variant of the enumeration.
    pub fn accepts_code(&self, code: u8) -> (r: bool)
        ensures
            r == self.accepts(code),
    {
        match self {
            StatusKind::WorkoutType => WorkoutType::from_code(code).is_some(),
            StatusKind::IntervalType => IntervalType::from_code(code).is_some(),
            StatusKind::WorkoutState => WorkoutState::from_code(code).is_some(),
            StatusKind::RowingState => RowingState::from_code(code).is_some(),
            StatusKind::StrokeState => StrokeState::from_code(code).is_some(),
            StatusKind::WorkoutDurationType => WorkoutDurationType::from_code(code).is_some(),
            StatusKind::ErgMachineType => ErgMachineType::from_code(code).is_some(),
            StatusKind::SampleRate => SampleRate::from_code(code).is_some(),
        }
    }
}

/// The shape of one field of a record on the wire.
#[derive(Debug, Clone, Copy, PartialEq, Eq, Structural)]
pub enum Field {
    U8,
    U16,
    U24,
    U32,
    /// One byte holding the code of an enumeration.
    Status(StatusKind),
}

impl Field {
    /// How many bytes the field takes.
    pub open spec fn width(self) -> nat {
        match self {
            Field::U8 => 1,
            Field::U16 => 2,
            Field::U24 => 3,
            Field::U32 => 4,
            Field::Status(_) => 1,
        }
    }

    /// Whether the number read for the field is a value of it: only codes of
    /// an enumeration can fail.
    pub open spec fn admits(self, value: int) -> bool {
        match self {
            Field::Status(k) => 0 <= value < 0x100 && k.accepts(value as u8),
            _ => true,
        }
    }

    /// Whether `value` is a number that the field can hold.
    pub open spec fn holds(self, value: int) -> bool {
        match self {
            Field::U8 => 0 <= value < 0x100,
            Field::U16 => 0 <= value < 0x1_0000,
            Field::U24 => 0 <= value < 0x100_0000,
            Field::U32 => 0 <= value < 0x1_0000_0000,
            Field::Status(k) => 0 <= value < 0x100 && k.accepts(value as u8),
        }
    }
}

/// How many bytes the fields of `l` take together.
pub open spec fn layout_width(l: Seq<Field>) -> nat
    decreases l.len(),
{
    if l.len() == 0 {
        0
    } else {
        layout_width(l.drop_last()) + l.last().width()
    }
}

/// Reading the fields of `l` one after another from the start of `s`: their
/// numbers in order, or the error at the first field that cannot be read.
/// Bytes after the last field are not looked at.
pub open spec fn read_layout(l: Seq<Field>, s: Seq<u8>) -> Result<Seq<int>, ParseError>
    decreases l.len(),
{
    if l.len() == 0 {
        Ok(Seq::empty())
    } else {
        match read_layout(l.drop_last(), s) {
            Err(e) => Err(e),
            Ok(vs) => {
                let at = layout_width(l.drop_last()) as int;
                let f = l.last();
                if s.len() < at + f.width() {
                    Err(ParseError::InsufficientData)
                } else if !f.admits(le_value(s, at, f.width())) {
                    Err(ParseError::Variant)
                } else {
                    Ok(vs.push(le_value(s, at, f.width())))
                }
            },
        }
    }
}

proof fn lemma_error_persists(l: Seq<Field>, s: Seq<u8>, k: int)
    requires
        0 <= k <= l.len(),
        read_layout(l.take(k), s) is Err,
    ensures
        read_layout(l, s) == read_layout(l.take(k), s),
    decreases l.len(),
{
    if k == l.len() {
        assert(l.take(k) =~= l);
    } else {
        assert(l.drop_last().take(k) =~= l.take(k));
        lemma_error_persists(l.drop_last(), s, k);
    }
}

/// Reads one field.
fn read_field(f: Field, cursor: &mut Cursor) -> (r: Result<u32, ParseError>)
    ensures
        final(cursor).bytes() == old(cursor).bytes(),
        match r {
            Ok(v) => {
                &&& old(cursor).remaining() >= f.width()
                &&& v == old(cursor).peek(f.width())
                &&& f.admits(v as int)
                &&& f.holds(v as int)
                &&& final(cursor).pos() == old(cursor).pos() + f.width()
            },
            Err(e) => {
                ||| e == ParseError::InsufficientData && old(cursor).remaining() < f.width()
                ||| e == ParseError::Variant && old(cursor).remaining() >= f.width() && !f.admits(
                    old(cursor).peek(f.width()),
                )
            },
        },
{
    match f {
        Field::U8 => match cursor.read_u8() {
            Ok(b) => Ok(b as u32),
            Err(e) => Err(e),
        },
        Field::U16 => match cursor.read_u16() {
            Ok(b) => Ok(b as u32),
            Err(e) => Err(e),
        },
        Field::U24 => cursor.read_u24(),
        Field::U32 => cursor.read_u32(),
        Field::Status(k) => match cursor.read_u8() {
            Ok(b) => {
                if k.accepts_code(b) {
                    Ok(b as u32)
                } else {
                    Err(ParseError::Variant)
                }
            },
            Err(e) => Err(e),
        },
    }
}

/// Reads the fields of `layout` in order from the start of the cursor's buffer.
pub fn read_fields(layout: &Vec<Field>, cursor: &mut Cursor) -> (r: Result<Vec<u32>, ParseError>)
    requires
        old(cursor).pos() == 0,
    ensures
        final(cursor).bytes() == old(cursor).bytes(),
        match r {
            Ok(v) => {
                &&& read_layout(layout@, old(cursor).bytes()) == Ok::<Seq<int>, ParseError>(v@.map_values(|x: u32| x as int))
                &&& v@.len() == layout@.len()
                &&& forall|j: int| 0 <= j < v@.len() ==> #[trigger] layout@[j].holds(v@[j] as int)
            },
            Err(e) => read_layout(layout@, old(cursor).bytes()) == Err::<Seq<int>, ParseError>(e),
        },
{
    let ghost s = cursor.bytes();
    let mut vals: Vec<u32> = Vec::new();
    let mut i: usize = 0;
    assert(layout@.take(0) =~= Seq::<Field>::empty());
    assert(vals@.map_values(|x: u32| x as int) =~= Seq::<int>::empty());
    while i < layout.len()
        invariant
            i <= layout@.len(),
            cursor.bytes() == s,
            s == old(cursor).bytes(),
            cursor.pos() == layout_width(layout@.take(i as int)),
            vals@.len() == i,
            read_layout(layout@.take(i as int), s) == Ok::<Seq<int>, ParseError>(
                vals@.map_values(|x: u32| x as int),
            ),
            forall|j: int| 0 <= j < i ==> #[trigger] layout@[j].holds(vals@[j] as int),
        decreases layout@.len() - i,
    {
        let f = layout[i];
        let ghost before = vals@.map_values(|x: u32| x as int);
        proof {
            assert(layout@.take(i + 1).drop_last() =~= layout@.take(i as int));
            assert(layout@.take(i + 1).last() == f);
        }
        match read_field(f, cursor) {
            Ok(v) => {
                vals.push(v);
                proof {
                    assert(vals@.map_values(|x: u32| x as int) =~= before.push(v as int));
                }
            },
            Err(e) => {
                proof {
                    assert(read_layout(layout@.take(i + 1), s) == Err::<Seq<int>, ParseError>(e));
                    lemma_error_persists(layout@, s, i + 1);
                }
                return Err(e);
            },
        }
        i = i + 1;
    }
    proof {
        assert(layout@.take(i as int) =~= layout@);
    }
    Ok(vals)
}

/// The variant of `E` whose code is `code`, which must name one.
fn variant<E: Discriminant>(code: u32) -> (r: E)
    requires
        code < 0x100,
        E::variant_of(code as u8) is Some,
    ensures
        r.code_of() == code,
{
    match E::from_code(code as u8) {
        Some(x) => {
            proof {
                E::lemma_variant_code(code as u8);
            }
            x
        },
        None => unreached(),
    }
}

/// A decoded notification of one rowing characteristic.
#[derive(Debug, Clone, PartialEq, Eq)]
pub enum RowingData {
    GeneralStatus {
        elapsed_time: Time,
        distance: Distance,
        workout_type: WorkoutType,
        interval_type: IntervalType,
        workout_state: WorkoutState,
        rowing_state: RowingState,
        stroke_state: StrokeState,
        total_work_distance: Distance,
        workout_duration: Time,
        workout_duration_type: WorkoutDurationType,
        drag_factor: DragFactor,
    },
    AdditionalStatusOne {
        elapsed_time: Time,
        speed: Speed,
        stroke_rate: StrokeRate,
        heart_rate: HeartRate,
        current_pace: Pace,
        average_pace: Pace,
        rest_distance: RestDistance,
        /// Three bytes on the wire, where the other rest times take two.
        rest_time: Time,
        machine_type: ErgMachineType,
    },
    AdditionalStatusTwo {
        elapsed_time: Time,
        interval_count: IntervalCount,
        average_power: Power,
        total_calories: Calories,
        split_interval_avg_pace: Pace,
        split_interval_avg_power: Power,
        split_interval_avg_calories: Calories,
        last_split_time: Time,
        last_split_distance: Distance,
    },
    GeneralStatusRate {
        interval: SampleRate,
    },
    StrokeData {
        elapsed_time: Time,
        distance: Distance,
        drive_length: DriveLength,
        drive_time: DriveTime,
        stroke_recovery: StrokeRecoveryTime,
        stroke_distance: StrokeDistance,
        peak_drive_force: Force,
        avg_drive_force: Force,
        work_per_stroke: Work,
        stroke_count: StrokeCount,
    },
    AdditionalStrokeData {
        elapsed_time: Time,
        stroke_power: Power,
        stroke_calories: Calories,
        stroke_count: StrokeCount,
        projected_work_time: Time,
        projected_work_distance: Distance,
    },
    SplitIntervalData {
        elapsed_time: Time,
        distance: Distance,
        split_interval_time: Time,
        split_interval_distance: Distance,
        interval_rest_time: RestTime,
        interval_rest_distance: RestDistance,
        split_interval_type: IntervalType,
        split_interval_number: IntervalCount,
    },
    AdditionalSplitIntervalData {
        elapsed_time: Time,
        split_interval_avg_stroke_rate: StrokeRate,
        split_interval_work_heartrate: HeartRate,
        split_interval_rest_heartrate: HeartRate,
        split_interval_avg_pace: Pace,
        split_interval_total_calories: Calories,
        split_interval_avg_calories: Calories,
        split_interval_speed: Speed,
        split_interval_power: Power,
        split_avg_drag_factor: DragFactor,
        split_interval_number: IntervalCount,
        erg_machine_type: ErgMachineType,
    },
    EndOfWorkoutSummaryData {
        log_entry_date: LogEntryDate,
        log_entry_time: LogEntryTime,
        elapsed_time: Time,
        distance: Distance,
        avg_stroke_rate: StrokeRate,
        ending_heartrate: HeartRate,
        avg_heartrate: HeartRate,
        min_heartrate: HeartRate,
        max_heartrate: HeartRate,
        drag_factor_avg: DragFactor,
        recover_heartrate: HeartRate,
        workout_type: WorkoutType,
        avg_pace: Pace,
    },
    AdditionalEndOfWorkoutSummaryData {
        log_entry_date: LogEntryDate,
        log_entry_time: LogEntryTime,
        split_interval_type: IntervalType,
        split_interval_size: Size,
        split_interval_count: IntervalCount,
        total_calories: Calories,
        watts: Work,
        total_rest_distance: Distance,
        interval_rest_time: RestTime,
        avg_calories: Calories,
    },
    HeartRateBeltInformation {
        manufacturer_id: u8,
        device_type: u8,
        belt_id: u32,
    },
    AdditionalEndOfWorkoutSummaryDataTwo {
        log_entry_date: LogEntryDate,
        log_entry_time: LogEntryTime,
        avg_pace: Pace,
        game_id: GameId,
        game_score: GameScore,
        erg_machine_type: ErgMachineType,
    },
    ForceCurveData { data: ForceCurveData },
    AdditionalStatusThree {},
    MultiplexedInformation {},
}

impl RowingData {
    /// The characteristic that the record was read from.
    pub open spec fn characteristic(self) -> Rowing {
        match self {
            RowingData::GeneralStatus { .. } => Rowing::GeneralStatus,
            RowingData::AdditionalStatusOne { .. } => Rowing::AdditionalStatusOne,
            RowingData::AdditionalStatusTwo { .. } => Rowing::AdditionalStatusTwo,
            RowingData::GeneralStatusRate { .. } => Rowing::GeneralStatusRate,
            RowingData::StrokeData { .. } => Rowing::StrokeData,
            RowingData::AdditionalStrokeData { .. } => Rowing::AdditionalStrokeData,
            RowingData::SplitIntervalData { .. } => Rowing::SplitIntervalData,
            RowingData::AdditionalSplitIntervalData { .. } => Rowing::AdditionalSplitIntervalData,
            RowingData::EndOfWorkoutSummaryData { .. } => Rowing::EndOfWorkoutSummaryData,
            RowingData::AdditionalEndOfWorkoutSummaryData { .. } => Rowing::AdditionalEndOfWorkoutSummaryData,
            RowingData::HeartRateBeltInformation { .. } => Rowing::HeartRateBeltInformation,
            RowingData::AdditionalEndOfWorkoutSummaryDataTwo { .. } => Rowing::AdditionalEndOfWorkoutSummaryDataTwo,
            RowingData::ForceCurveData { .. } => Rowing::ForceCurveData,
            RowingData::AdditionalStatusThree { .. } => Rowing::AdditionalStatusThree,
            RowingData::MultiplexedInformation { .. } => Rowing::MultiplexedInformation,
        }
    }

    /// The numbers that the record was read from, in wire order: the force
    /// samples of a force curve, else one number per field (an enumeration
    /// by its code).
    pub open spec fn fields(self) -> Seq<int> {
        match self {
            RowingData::GeneralStatus { elapsed_time, distance, workout_type, interval_type, workout_state, rowing_state, stroke_state, total_work_distance, workout_duration, workout_duration_type, drag_factor } => seq![
                elapsed_time.raw(),
                distance.raw(),
                workout_type.raw(),
                interval_type.raw(),
                workout_state.raw(),
                rowing_state.raw(),
                stroke_state.raw(),
                total_work_distance.raw(),
                workout_duration.raw(),
                workout_duration_type.raw(),
                drag_factor.raw(),
            ],
            RowingData::AdditionalStatusOne { elapsed_time, speed, stroke_rate, heart_rate, current_pace, average_pace, rest_distance, rest_time, machine_type } => seq![
                elapsed_time.raw(),
                speed.raw(),
                stroke_rate.raw(),
                heart_rate.raw(),
                current_pace.raw(),
                average_pace.raw(),
                rest_distance.raw(),
                rest_time.raw(),
                machine_type.raw(),
            ],
            RowingData::AdditionalStatusTwo { elapsed_time, interval_count, average_power, total_calories, split_interval_avg_pace, split_interval_avg_power, split_interval_avg_calories, last_split_time, last_split_distance } => seq![
                elapsed_time.raw(),
                interval_count.raw(),
                average_power.raw(),
                total_calories.raw(),
                split_interval_avg_pace.raw(),
                split_interval_avg_power.raw(),
                split_interval_avg_calories.raw(),
                last_split_time.raw(),
                last_split_distance.raw(),
            ],
            RowingData::GeneralStatusRate { interval } => seq![
                interval.raw(),
            ],
            RowingData::StrokeData { elapsed_time, distance, drive_length, drive_time, stroke_recovery, stroke_distance, peak_drive_force, avg_drive_force, work_per_stroke, stroke_count } => seq![
                elapsed_time.raw(),
                distance.raw(),
                drive_length.raw(),
                drive_time.raw(),
                stroke_recovery.raw(),
                stroke_distance.raw(),
                peak_drive_force.raw(),
                avg_drive_force.raw(),
                work_per_stroke.raw(),
                stroke_count.raw(),
            ],
            RowingData::AdditionalStrokeData { elapsed_time, stroke_power, stroke_calories, stroke_count, projected_work_time, projected_work_distance } => seq![
                elapsed_time.raw(),
                stroke_power.raw(),
                stroke_calories.raw(),
                stroke_count.raw(),
                projected_work_time.raw(),
                projected_work_distance.raw(),
            ],
            RowingData::SplitIntervalData { elapsed_time, distance, split_interval_time, split_interval_distance, interval_rest_time, interval_rest_distance, split_interval_type, split_interval_number } => seq![
                elapsed_time.raw(),
                distance.raw(),
                split_interval_time.raw(),
                split_interval_distance.raw(),
                interval_rest_time.raw(),
                interval_rest_distance.raw(),
                split_interval_type.raw(),
                split_interval_number.raw(),
            ],
            RowingData::AdditionalSplitIntervalData { elapsed_time, split_interval_avg_stroke_rate, split_interval_work_heartrate, split_interval_rest_heartrate, split_interval_avg_pace, split_interval_total_calories, split_interval_avg_calories, split_interval_speed, split_interval_power, split_avg_drag_factor, split_interval_number, erg_machine_type } => seq![
                elapsed_time.raw(),
                split_interval_avg_stroke_rate.raw(),
                split_interval_work_heartrate.raw(),
                split_interval_rest_heartrate.raw(),
                split_interval_avg_pace.raw(),
                split_interval_total_calories.raw(),
                split_interval_avg_calories.raw(),
                split_interval_speed.raw(),
                split_interval_power.raw(),
                split_avg_drag_factor.raw(),
                split_interval_number.raw(),
                erg_machine_type.raw(),
            ],
            RowingData::EndOfWorkoutSummaryData { log_entry_date, log_entry_time, elapsed_time, distance, avg_stroke_rate, ending_heartrate, avg_heartrate, min_heartrate, max_heartrate, drag_factor_avg, recover_heartrate, workout_type, avg_pace } => seq![
                log_entry_date.raw(),
                log_entry_time.raw(),
                elapsed_time.raw(),
                distance.raw(),
                avg_stroke_rate.raw(),
                ending_heartrate.raw(),
                avg_heartrate.raw(),
                min_heartrate.raw(),
                max_heartrate.raw(),
                drag_factor_avg.raw(),
                recover_heartrate.raw(),
                workout_type.raw(),
                avg_pace.raw(),
            ],
            RowingData::AdditionalEndOfWorkoutSummaryData { log_entry_date, log_entry_time, split_interval_type, split_interval_size, split_interval_count, total_calories, watts, total_rest_distance, interval_rest_time, avg_calories } => seq![
                log_entry_date.raw(),
                log_entry_time.raw(),
                split_interval_type.raw(),
                split_interval_size.raw(),
                split_interval_count.raw(),
                total_calories.raw(),
                watts.raw(),
                total_rest_distance.raw(),
                interval_rest_time.raw(),
                avg_calories.raw(),
            ],
            RowingData::HeartRateBeltInformation { manufacturer_id, device_type, belt_id } => seq![
                manufacturer_id as int,
                device_type as int,
                belt_id as int,
            ],
            RowingData::AdditionalEndOfWorkoutSummaryDataTwo { log_entry_date, log_entry_time, avg_pace, game_id, game_score, erg_machine_type } => seq![
                log_entry_date.raw(),
                log_entry_time.raw(),
                avg_pace.raw(),
                game_id.raw(),
                game_score.raw(),
                erg_machine_type.raw(),
            ],
            RowingData::ForceCurveData { data } => data.samples(),
            RowingData::AdditionalStatusThree {} => Seq::empty(),
            RowingData::MultiplexedInformation {} => Seq::empty(),
        }
    }
}

impl Rowing {
    /// The fields of the characteristic's record, in wire order; `None` for a
    /// record of variable length or one that is not decoded.
    pub open spec fn layout(self) -> Option<Seq<Field>> {
        match self {
            Rowing::GeneralStatus => Some(seq![Field::U24, Field::U24, Field::Status(StatusKind::WorkoutType), Field::Status(StatusKind::IntervalType), Field::Status(StatusKind::WorkoutState), Field::Status(StatusKind::RowingState), Field::Status(StatusKind::StrokeState), Field::U24, Field::U24, Field::Status(StatusKind::WorkoutDurationType), Field::U8]),
            Rowing::AdditionalStatusOne => Some(seq![Field::U24, Field::U16, Field::U8, Field::U8, Field::U16, Field::U16, Field::U16, Field::U24, Field::Status(StatusKind::ErgMachineType)]),
            Rowing::AdditionalStatusTwo => Some(seq![Field::U24, Field::U8, Field::U16, Field::U16, Field::U16, Field::U16, Field::U16, Field::U24, Field::U24]),
            Rowing::GeneralStatusRate => Some(seq![Field::Status(StatusKind::SampleRate)]),
            Rowing::StrokeData => Some(seq![Field::U24, Field::U24, Field::U8, Field::U8, Field::U16, Field::U16, Field::U16, Field::U16, Field::U16, Field::U16]),
            Rowing::AdditionalStrokeData => Some(seq![Field::U24, Field::U16, Field::U16, Field::U16, Field::U24, Field::U24]),
            Rowing::SplitIntervalData => Some(seq![Field::U24, Field::U24, Field::U24, Field::U24, Field::U16, Field::U16, Field::Status(StatusKind::IntervalType), Field::U8]),
            Rowing::AdditionalSplitIntervalData => Some(seq![Field::U24, Field::U8, Field::U8, Field::U8, Field::U16, Field::U16, Field::U16, Field::U16, Field::U16, Field::U8, Field::U8, Field::Status(StatusKind::ErgMachineType)]),
            Rowing::EndOfWorkoutSummaryData => Some(seq![Field::U16, Field::U16, Field::U24, Field::U24, Field::U8, Field::U8, Field::U8, Field::U8, Field::U8, Field::U8, Field::U8, Field::Status(StatusKind::WorkoutType), Field::U16]),
            Rowing::AdditionalEndOfWorkoutSummaryData => Some(seq![Field::U16, Field::U16, Field::Status(StatusKind::IntervalType), Field::U8, Field::U8, Field::U16, Field::U16, Field::U24, Field::U16, Field::U16]),
            Rowing::HeartRateBeltInformation => Some(seq![Field::U8, Field::U8, Field::U32]),
            Rowing::AdditionalEndOfWorkoutSummaryDataTwo => Some(seq![Field::U16, Field::U16, Field::U16, Field::U8, Field::U16, Field::Status(StatusKind::ErgMachineType)]),
            _ => None,
        }
    }

    /// The fields of the characteristic's record, if it has a fixed layout.
    pub fn field_layout(&self) -> (r: Option<Vec<Field>>)
        ensures
            r matches Some(l) ==> self.layout() == Some(l@),
            r is None <==> self.layout() is None,
    {
        match self {
            Rowing::GeneralStatus => {
                let l = vec![Field::U24, Field::U24, Field::Status(StatusKind::WorkoutType), Field::Status(StatusKind::IntervalType), Field::Status(StatusKind::WorkoutState), Field::Status(StatusKind::RowingState), Field::Status(StatusKind::StrokeState), Field::U24, Field::U24, Field::Status(StatusKind::WorkoutDurationType), Field::U8];
                assert(l@ =~= self.layout().unwrap());
                Some(l)
            },
            Rowing::AdditionalStatusOne => {
                let l = vec![Field::U24, Field::U16, Field::U8, Field::U8, Field::U16, Field::U16, Field::U16, Field::U24, Field::Status(StatusKind::ErgMachineType)];
                assert(l@ =~= self.layout().unwrap());
                Some(l)
            },
            Rowing::AdditionalStatusTwo => {
                let l = vec![Field::U24, Field::U8, Field::U16, Field::U16, Field::U16, Field::U16, Field::U16, Field::U24, Field::U24];
                assert(l@ =~= self.layout().unwrap());
                Some(l)
            },
            Rowing::GeneralStatusRate => {
                let l = vec![Field::Status(StatusKind::SampleRate)];
                assert(l@ =~= self.layout().unwrap());
                Some(l)
            },
            Rowing::StrokeData => {
                let l = vec![Field::U24, Field::U24, Field::U8, Field::U8, Field::U16, Field::U16, Field::U16, Field::U16, Field::U16, Field::U16];
                assert(l@ =~= self.layout().unwrap());
                Some(l)
            },
            Rowing::AdditionalStrokeData => {
                let l = vec![Field::U24, Field::U16, Field::U16, Field::U16, Field::U24, Field::U24];
                assert(l@ =~= self.layout().unwrap());
                Some(l)
            },
            Rowing::SplitIntervalData => {
                let l = vec![Field::U24, Field::U24, Field::U24, Field::U24, Field::U16, Field::U16, Field::Status(StatusKind::IntervalType), Field::U8];
                assert(l@ =~= self.layout().unwrap());
                Some(l)
            },
            Rowing::AdditionalSplitIntervalData => {
                let l = vec![Field::U24, Field::U8, Field::U8, Field::U8, Field::U16, Field::U16, Field::U16, Field::U16, Field::U16, Field::U8, Field::U8, Field::Status(StatusKind::ErgMachineType)];
                assert(l@ =~= self.layout().unwrap());
                Some(l)
            },
            Rowing::EndOfWorkoutSummaryData => {
                let l = vec![Field::U16, Field::U16, Field::U24, Field::U24, Field::U8, Field::U8, Field::U8, Field::U8, Field::U8, Field::U8, Field::U8, Field::Status(StatusKind::WorkoutType), Field::U16];
                assert(l@ =~= self.layout().unwrap());
                Some(l)
            },
            Rowing::AdditionalEndOfWorkoutSummaryData => {
                let l = vec![Field::U16, Field::U16, Field::Status(StatusKind::IntervalType), Field::U8, Field::U8, Field::U16, Field::U16, Field::U24, Field::U16, Field::U16];
                assert(l@ =~= self.layout().unwrap());
                Some(l)
            },
            Rowing::HeartRateBeltInformation => {
                let l = vec![Field::U8, Field::U8, Field::U32];
                assert(l@ =~= self.layout().unwrap());
                Some(l)
            },
            Rowing::AdditionalEndOfWorkoutSummaryDataTwo => {
                let l = vec![Field::U16, Field::U16, Field::U16, Field::U8, Field::U16, Field::Status(StatusKind::ErgMachineType)];
                assert(l@ =~= self.layout().unwrap());
                Some(l)
            },
            _ => None,
        }
    }

    /// The record of this characteristic whose fields hold `v`.
    fn build(&self, v: &Vec<u32>) -> (r: RowingData)
        requires
            self.layout() matches Some(l) && v@.len() == l.len()
                && forall|j: int| 0 <= j < l.len() ==> #[trigger] l[j].holds(v@[j] as int),
        ensures
            r.characteristic() == *self,
            r.fields() == v@.map_values(|x: u32| x as int),
    {
        let ghost l = self.layout().unwrap();
        match self {
            Rowing::GeneralStatus => {
                assert(l[0].holds(v@[0] as int));
                assert(l[1].holds(v@[1] as int));
                assert(l[2].holds(v@[2] as int));
                assert(l[3].holds(v@[3] as int));
                assert(l[4].holds(v@[4] as int));
                assert(l[5].holds(v@[5] as int));
                assert(l[6].holds(v@[6] as int));
                assert(l[7].holds(v@[7] as int));
                assert(l[8].holds(v@[8] as int));
                assert(l[9].holds(v@[9] as int));
                assert(l[10].holds(v@[10] as int));
                let r = RowingData::GeneralStatus {
                    elapsed_time: Time(U24::from_raw(v[0])),
                    distance: Distance(U24::from_raw(v[1])),
                    workout_type: variant::<WorkoutType>(v[2]),
                    interval_type: variant::<IntervalType>(v[3]),
                    workout_state: variant::<WorkoutState>(v[4]),
                    rowing_state: variant::<RowingState>(v[5]),
                    stroke_state: variant::<StrokeState>(v[6]),
                    total_work_distance: Distance(U24::from_raw(v[7])),
                    workout_duration: Time(U24::from_raw(v[8])),
                    workout_duration_type: variant::<WorkoutDurationType>(v[9]),
                    drag_factor: DragFactor(v[10] as u8),
                };
                assert(r.fields() =~= v@.map_values(|x: u32| x as int));
                r
            },
            Rowing::AdditionalStatusOne => {
                assert(l[0].holds(v@[0] as int));
                assert(l[1].holds(v@[1] as int));
                assert(l[2].holds(v@[2] as int));
                assert(l[3].holds(v@[3] as int));
                assert(l[4].holds(v@[4] as int));
                assert(l[5].holds(v@[5] as int));
                assert(l[6].holds(v@[6] as int));
                assert(l[7].holds(v@[7] as int));
                assert(l[8].holds(v@[8] as int));
                let r = RowingData::AdditionalStatusOne {
                    elapsed_time: Time(U24::from_raw(v[0])),
                    speed: Speed(v[1] as u16),
                    stroke_rate: StrokeRate(v[2] as u8),
                    heart_rate: HeartRate(v[3] as u8),
                    current_pace: Pace(v[4] as u16),
                    average_pace: Pace(v[5] as u16),
                    rest_distance: RestDistance(v[6] as u16),
                    rest_time: Time(U24::from_raw(v[7])),
                    machine_type: variant::<ErgMachineType>(v[8]),
                };
                assert(r.fields() =~= v@.map_values(|x: u32| x as int));
                r
            },
            Rowing::AdditionalStatusTwo => {
                assert(l[0].holds(v@[0] as int));
                assert(l[1].holds(v@[1] as int));
                assert(l[2].holds(v@[2] as int));
                assert(l[3].holds(v@[3] as int));
                assert(l[4].holds(v@[4] as int));
                assert(l[5].holds(v@[5] as int));
                assert(l[6].holds(v@[6] as int));
                assert(l[7].holds(v@[7] as int));
                assert(l[8].holds(v@[8] as int));
                let r = RowingData::AdditionalStatusTwo {
                    elapsed_time: Time(U24::from_raw(v[0])),
                    interval_count: IntervalCount(v[1] as u8),
                    average_power: Power(v[2] as u16),
                    total_calories: Calories(v[3] as u16),
                    split_interval_avg_pace: Pace(v[4] as u16),
                    split_interval_avg_power: Power(v[5] as u16),
                    split_interval_avg_calories: Calories(v[6] as u16),
                    last_split_time: Time(U24::from_raw(v[7])),
                    last_split_distance: Distance(U24::from_raw(v[8])),
                };
                assert(r.fields() =~= v@.map_values(|x: u32| x as int));
                r
            },
            Rowing::GeneralStatusRate => {
                assert(l[0].holds(v@[0] as int));
                let r = RowingData::GeneralStatusRate {
                    interval: variant::<SampleRate>(v[0]),
                };
                assert(r.fields() =~= v@.map_values(|x: u32| x as int));
                r
            },
            Rowing::StrokeData => {
                assert(l[0].holds(v@[0] as int));
                assert(l[1].holds(v@[1] as int));
                assert(l[2].holds(v@[2] as int));
                assert(l[3].holds(v@[3] as int));
                assert(l[4].holds(v@[4] as int));
                assert(l[5].holds(v@[5] as int));
                assert(l[6].holds(v@[6] as int));
                assert(l[7].holds(v@[7] as int));
                assert(l[8].holds(v@[8] as int));
                assert(l[9].holds(v@[9] as int));
                let r = RowingData::StrokeData {
                    elapsed_time: Time(U24::from_raw(v[0])),
                    distance: Distance(U24::from_raw(v[1])),
                    drive_length: DriveLength(v[2] as u8),
                    drive_time: DriveTime(v[3] as u8),
                    stroke_recovery: StrokeRecoveryTime(v[4] as u16),
                    stroke_distance: StrokeDistance(v[5] as u16),
                    peak_drive_force: Force(v[6] as u16),
                    avg_drive_force: Force(v[7] as u16),
                    work_per_stroke: Work(v[8] as u16),
                    stroke_count: StrokeCount(v[9] as u16),
                };
                assert(r.fields() =~= v@.map_values(|x: u32| x as int));
                r
            },
            Rowing::AdditionalStrokeData => {
                assert(l[0].holds(v@[0] as int));
                assert(l[1].holds(v@[1] as int));
                assert(l[2].holds(v@[2] as int));
                assert(l[3].holds(v@[3] as int));
                assert(l[4].holds(v@[4] as int));
                assert(l[5].holds(v@[5] as int));
                let r = RowingData::AdditionalStrokeData {
                    elapsed_time: Time(U24::from_raw(v[0])),
                    stroke_power: Power(v[1] as u16),
                    stroke_calories: Calories(v[2] as u16),
                    stroke_count: StrokeCount(v[3] as u16),
                    projected_work_time: Time(U24::from_raw(v[4])),
                    projected_work_distance: Distance(U24::from_raw(v[5])),
                };
                assert(r.fields() =~= v@.map_values(|x: u32| x as int));
                r
            },
            Rowing::SplitIntervalData => {
                assert(l[0].holds(v@[0] as int));
                assert(l[1].holds(v@[1] as int));
                assert(l[2].holds(v@[2] as int));
                assert(l[3].holds(v@[3] as int));
                assert(l[4].holds(v@[4] as int));
                assert(l[5].holds(v@[5] as int));
                assert(l[6].holds(v@[6] as int));
                assert(l[7].holds(v@[7] as int));
                let r = RowingData::SplitIntervalData {
                    elapsed_time: Time(U24::from_raw(v[0])),
                    distance: Distance(U24::from_raw(v[1])),
                    split_interval_time: Time(U24::from_raw(v[2])),
                    split_interval_distance: Distance(U24::from_raw(v[3])),
                    interval_rest_time: RestTime(v[4] as u16),
                    interval_rest_distance: RestDistance(v[5] as u16),
                    split_interval_type: variant::<IntervalType>(v[6]),
                    split_interval_number: IntervalCount(v[7] as u8),
                };
                assert(r.fields() =~= v@.map_values(|x: u32| x as int));
                r
            },
            Rowing::AdditionalSplitIntervalData => {
                assert(l[0].holds(v@[0] as int));
                assert(l[1].holds(v@[1] as int));
                assert(l[2].holds(v@[2] as int));
                assert(l[3].holds(v@[3] as int));
                assert(l[4].holds(v@[4] as int));
                assert(l[5].holds(v@[5] as int));
                assert(l[6].holds(v@[6] as int));
                assert(l[7].holds(v@[7] as int));
                assert(l[8].holds(v@[8] as int));
                assert(l[9].holds(v@[9] as int));
                assert(l[10].holds(v@[10] as int));
                assert(l[11].holds(v@[11] as int));
                let r = RowingData::AdditionalSplitIntervalData {
                    elapsed_time: Time(U24::from_raw(v[0])),
                    split_interval_avg_stroke_rate: StrokeRate(v[1] as u8),
                    split_interval_work_heartrate: HeartRate(v[2] as u8),
                    split_interval_rest_heartrate: HeartRate(v[3] as u8),
                    split_interval_avg_pace: Pace(v[4] as u16),
                    split_interval_total_calories: Calories(v[5] as u16),
                    split_interval_avg_calories: Calories(v[6] as u16),
                    split_interval_speed: Speed(v[7] as u16),
                    split_interval_power: Power(v[8] as u16),
                    split_avg_drag_factor: DragFactor(v[9] as u8),
                    split_interval_number: IntervalCount(v[10] as u8),
                    erg_machine_type: variant::<ErgMachineType>(v[11]),
                };
                assert(r.fields() =~= v@.map_values(|x: u32| x as int));
                r
            },
            Rowing::EndOfWorkoutSummaryData => {
                assert(l[0].holds(v@[0] as int));
                assert(l[1].holds(v@[1] as int));
                assert(l[2].holds(v@[2] as int));
                assert(l[3].holds(v@[3] as int));
                assert(l[4].holds(v@[4] as int));
                assert(l[5].holds(v@[5] as int));
                assert(l[6].holds(v@[6] as int));
                assert(l[7].holds(v@[7] as int));
                assert(l[8].holds(v@[8] as int));
                assert(l[9].holds(v@[9] as int));
                assert(l[10].holds(v@[10] as int));
                assert(l[11].holds(v@[11] as int));
                assert(l[12].holds(v@[12] as int));
                let r = RowingData::EndOfWorkoutSummaryData {
                    log_entry_date: LogEntryDate(v[0] as u16),
                    log_entry_time: LogEntryTime(v[1] as u16),
                    elapsed_time: Time(U24::from_raw(v[2])),
                    distance: Distance(U24::from_raw(v[3])),
                    avg_stroke_rate: StrokeRate(v[4] as u8),
                    ending_heartrate: HeartRate(v[5] as u8),
                    avg_heartrate: HeartRate(v[6] as u8),
                    min_heartrate: HeartRate(v[7] as u8),
                    max_heartrate: HeartRate(v[8] as u8),
                    drag_factor_avg: DragFactor(v[9] as u8),
                    recover_heartrate: HeartRate(v[10] as u8),
                    workout_type: variant::<WorkoutType>(v[11]),
                    avg_pace: Pace(v[12] as u16),
                };
                assert(r.fields() =~= v@.map_values(|x: u32| x as int));
                r
            },
            Rowing::AdditionalEndOfWorkoutSummaryData => {
                assert(l[0].holds(v@[0] as int));
                assert(l[1].holds(v@[1] as int));
                assert(l[2].holds(v@[2] as int));
                assert(l[3].holds(v@[3] as int));
                assert(l[4].holds(v@[4] as int));
                assert(l[5].holds(v@[5] as int));
                assert(l[6].holds(v@[6] as int));
                assert(l[7].holds(v@[7] as int));
                assert(l[8].holds(v@[8] as int));
                assert(l[9].holds(v@[9] as int));
                let r = RowingData::AdditionalEndOfWorkoutSummaryData {
                    log_entry_date: LogEntryDate(v[0] as u16),
                    log_entry_time: LogEntryTime(v[1] as u16),
                    split_interval_type: variant::<IntervalType>(v[2]),
                    split_interval_size: Size(v[3] as u8),
                    split_interval_count: IntervalCount(v[4] as u8),
                    total_calories: Calories(v[5] as u16),
                    watts: Work(v[6] as u16),
                    total_rest_distance: Distance(U24::from_raw(v[7])),
                    interval_rest_time: RestTime(v[8] as u16),
                    avg_calories: Calories(v[9] as u16),
                };
                assert(r.fields() =~= v@.map_values(|x: u32| x as int));
                r
            },
            Rowing::HeartRateBeltInformation => {
                assert(l[0].holds(v@[0] as int));
                assert(l[1].holds(v@[1] as int));
                assert(l[2].holds(v@[2] as int));
                let r = RowingData::HeartRateBeltInformation {
                    manufacturer_id: v[0] as u8,
                    device_type: v[1] as u8,
                    belt_id: v[2],
                };
                assert(r.fields() =~= v@.map_values(|x: u32| x as int));
                r
            },
            Rowing::AdditionalEndOfWorkoutSummaryDataTwo => {
                assert(l[0].holds(v@[0] as int));
                assert(l[1].holds(v@[1] as int));
                assert(l[2].holds(v@[2] as int));
                assert(l[3].holds(v@[3] as int));
                assert(l[4].holds(v@[4] as int));
                assert(l[5].holds(v@[5] as int));
                let r = RowingData::AdditionalEndOfWorkoutSummaryDataTwo {
                    log_entry_date: LogEntryDate(v[0] as u16),
                    log_entry_time: LogEntryTime(v[1] as u16),
                    avg_pace: Pace(v[2] as u16),
                    game_id: GameId(v[3] as u8),
                    game_score: GameScore(v[4] as u16),
                    erg_machine_type: variant::<ErgMachineType>(v[5]),
                };
                assert(r.fields() =~= v@.map_values(|x: u32| x as int));
                r
            },
            _ => unreached(),
        }
    }
}

} // verus!

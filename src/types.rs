use vstd::prelude::*;

use crate::parse::{decode_enum, le_value, Cursor, Discriminant, Parse, ParseError};

verus! {

/// An unsigned number read from exactly three bytes, held in a `u32`.
#[derive(Debug, Clone, Copy, PartialEq, Eq, Structural)]
pub struct U24(u32);

impl U24 {
    #[verifier::type_invariant]
    spec fn inv(self) -> bool {
        self.0 < 0x100_0000
    }

    /// The number held.
    pub closed spec fn value(self) -> nat {
        self.0 as nat
    }

    /// The value `v`, if it fits in 24 bits.
    pub fn new(v: u32) -> (r: Option<U24>)
        ensures
            r matches Some(u) ==> u.value() == v,
            r is None <==> v >= 0x100_0000,
    {
        if v < 0x100_0000 {
            Some(U24(v))
        } else {
            None
        }
    }

    pub(crate) fn from_raw(v: u32) -> (r: U24)
        requires
            v < 0x100_0000,
        ensures
            r.value() == v,
    {
        U24(v)
    }

    /// The number held, always below 2^24.
    pub fn get(&self) -> (r: u32)
        ensures
            r == self.value(),
            r < 0x100_0000,
    {
        proof {
            use_type_invariant(self);
        }
        self.0
    }
}

impl Parse for U24 {
    open spec fn width() -> nat {
        3
    }

    open spec fn accepts(raw: int) -> bool {
        true
    }

    open spec fn raw(self) -> int {
        self.value() as int
    }

    proof fn lemma_raw_injective(a: Self, b: Self) {
    }

    fn parse(cursor: &mut Cursor) -> (r: Result<Self, ParseError>) {
        match cursor.read_u24() {
            Ok(v) => Ok(U24(v)),
            Err(e) => Err(e),
        }
    }
}

/// Elapsed or split time, in hundredths of a second.
#[derive(Debug, Clone, Copy, PartialEq, Eq, Structural)]
pub struct Time(pub U24);

impl Parse for Time {
    open spec fn width() -> nat {
        3
    }

    open spec fn accepts(raw: int) -> bool {
        true
    }

    open spec fn raw(self) -> int {
        self.0.raw()
    }

    proof fn lemma_raw_injective(a: Self, b: Self) {
        U24::lemma_raw_injective(a.0, b.0);
    }

    fn parse(cursor: &mut Cursor) -> (r: Result<Self, ParseError>) {
        match U24::parse(cursor) {
            Ok(v) => Ok(Time(v)),
            Err(e) => Err(e),
        }
    }
}

/// Time of day at which a workout was logged, as the device packs it.
#[derive(Debug, Clone, Copy, PartialEq, Eq, Structural)]
pub struct LogEntryTime(pub u16);

impl Parse for LogEntryTime {
    open spec fn width() -> nat {
        2
    }

    open spec fn accepts(raw: int) -> bool {
        true
    }

    open spec fn raw(self) -> int {
        self.0 as int
    }

    proof fn lemma_raw_injective(a: Self, b: Self) {
    }

    fn parse(cursor: &mut Cursor) -> (r: Result<Self, ParseError>) {
        match u16::parse(cursor) {
            Ok(v) => Ok(LogEntryTime(v)),
            Err(e) => Err(e),
        }
    }
}

/// Date on which a workout was logged, as the device packs it.
#[derive(Debug, Clone, Copy, PartialEq, Eq, Structural)]
pub struct LogEntryDate(pub u16);

impl Parse for LogEntryDate {
    open spec fn width() -> nat {
        2
    }

    open spec fn accepts(raw: int) -> bool {
        true
    }

    open spec fn raw(self) -> int {
        self.0 as int
    }

    proof fn lemma_raw_injective(a: Self, b: Self) {
    }

    fn parse(cursor: &mut Cursor) -> (r: Result<Self, ParseError>) {
        match u16::parse(cursor) {
            Ok(v) => Ok(LogEntryDate(v)),
            Err(e) => Err(e),
        }
    }
}

/// Recovery time of a stroke, in hundredths of a second.
#[derive(Debug, Clone, Copy, PartialEq, Eq, Structural)]
pub struct StrokeRecoveryTime(pub u16);

impl Parse for StrokeRecoveryTime {
    open spec fn width() -> nat {
        2
    }

    open spec fn accepts(raw: int) -> bool {
        true
    }

    open spec fn raw(self) -> int {
        self.0 as int
    }

    proof fn lemma_raw_injective(a: Self, b: Self) {
    }

    fn parse(cursor: &mut Cursor) -> (r: Result<Self, ParseError>) {
        match u16::parse(cursor) {
            Ok(v) => Ok(StrokeRecoveryTime(v)),
            Err(e) => Err(e),
        }
    }
}

/// Distance, in tenths of a metre.
#[derive(Debug, Clone, Copy, PartialEq, Eq, Structural)]
pub struct Distance(pub U24);

impl Parse for Distance {
    open spec fn width() -> nat {
        3
    }

    open spec fn accepts(raw: int) -> bool {
        true
    }

    open spec fn raw(self) -> int {
        self.0.raw()
    }

    proof fn lemma_raw_injective(a: Self, b: Self) {
        U24::lemma_raw_injective(a.0, b.0);
    }

    fn parse(cursor: &mut Cursor) -> (r: Result<Self, ParseError>) {
        match U24::parse(cursor) {
            Ok(v) => Ok(Distance(v)),
            Err(e) => Err(e),
        }
    }
}

/// Rest time, in seconds.
#[derive(Debug, Clone, Copy, PartialEq, Eq, Structural)]
pub struct RestTime(pub u16);

impl Parse for RestTime {
    open spec fn width() -> nat {
        2
    }

    open spec fn accepts(raw: int) -> bool {
        true
    }

    open spec fn raw(self) -> int {
        self.0 as int
    }

    proof fn lemma_raw_injective(a: Self, b: Self) {
    }

    fn parse(cursor: &mut Cursor) -> (r: Result<Self, ParseError>) {
        match u16::parse(cursor) {
            Ok(v) => Ok(RestTime(v)),
            Err(e) => Err(e),
        }
    }
}

/// Rest distance, in metres.
#[derive(Debug, Clone, Copy, PartialEq, Eq, Structural)]
pub struct RestDistance(pub u16);

impl Parse for RestDistance {
    open spec fn width() -> nat {
        2
    }

    open spec fn accepts(raw: int) -> bool {
        true
    }

    open spec fn raw(self) -> int {
        self.0 as int
    }

    proof fn lemma_raw_injective(a: Self, b: Self) {
    }

    fn parse(cursor: &mut Cursor) -> (r: Result<Self, ParseError>) {
        match u16::parse(cursor) {
            Ok(v) => Ok(RestDistance(v)),
            Err(e) => Err(e),
        }
    }
}

/// Pace, in hundredths of a second per 500 metres.
#[derive(Debug, Clone, Copy, PartialEq, Eq, Structural)]
pub struct Pace(pub u16);

impl Parse for Pace {
    open spec fn width() -> nat {
        2
    }

    open spec fn accepts(raw: int) -> bool {
        true
    }

    open spec fn raw(self) -> int {
        self.0 as int
    }

    proof fn lemma_raw_injective(a: Self, b: Self) {
    }

    fn parse(cursor: &mut Cursor) -> (r: Result<Self, ParseError>) {
        match u16::parse(cursor) {
            Ok(v) => Ok(Pace(v)),
            Err(e) => Err(e),
        }
    }
}

/// Speed, in thousandths of a metre per second.
#[derive(Debug, Clone, Copy, PartialEq, Eq, Structural)]
pub struct Speed(pub u16);

impl Parse for Speed {
    open spec fn width() -> nat {
        2
    }

    open spec fn accepts(raw: int) -> bool {
        true
    }

    open spec fn raw(self) -> int {
        self.0 as int
    }

    proof fn lemma_raw_injective(a: Self, b: Self) {
    }

    fn parse(cursor: &mut Cursor) -> (r: Result<Self, ParseError>) {
        match u16::parse(cursor) {
            Ok(v) => Ok(Speed(v)),
            Err(e) => Err(e),
        }
    }
}

/// Strokes per minute.
#[derive(Debug, Clone, Copy, PartialEq, Eq, Structural)]
pub struct StrokeRate(pub u8);

impl Parse for StrokeRate {
    open spec fn width() -> nat {
        1
    }

    open spec fn accepts(raw: int) -> bool {
        true
    }

    open spec fn raw(self) -> int {
        self.0 as int
    }

    proof fn lemma_raw_injective(a: Self, b: Self) {
    }

    fn parse(cursor: &mut Cursor) -> (r: Result<Self, ParseError>) {
        match u8::parse(cursor) {
            Ok(v) => Ok(StrokeRate(v)),
            Err(e) => Err(e),
        }
    }
}

/// Heart rate, in beats per minute.
#[derive(Debug, Clone, Copy, PartialEq, Eq, Structural)]
pub struct HeartRate(pub u8);

impl Parse for HeartRate {
    open spec fn width() -> nat {
        1
    }

    open spec fn accepts(raw: int) -> bool {
        true
    }

    open spec fn raw(self) -> int {
        self.0 as int
    }

    proof fn lemma_raw_injective(a: Self, b: Self) {
    }

    fn parse(cursor: &mut Cursor) -> (r: Result<Self, ParseError>) {
        match u8::parse(cursor) {
            Ok(v) => Ok(HeartRate(v)),
            Err(e) => Err(e),
        }
    }
}

/// Drag factor of the flywheel.
#[derive(Debug, Clone, Copy, PartialEq, Eq, Structural)]
pub struct DragFactor(pub u8);

impl Parse for DragFactor {
    open spec fn width() -> nat {
        1
    }

    open spec fn accepts(raw: int) -> bool {
        true
    }

    open spec fn raw(self) -> int {
        self.0 as int
    }

    proof fn lemma_raw_injective(a: Self, b: Self) {
    }

    fn parse(cursor: &mut Cursor) -> (r: Result<Self, ParseError>) {
        match u8::parse(cursor) {
            Ok(v) => Ok(DragFactor(v)),
            Err(e) => Err(e),
        }
    }
}

/// Number of an interval or split.
#[derive(Debug, Clone, Copy, PartialEq, Eq, Structural)]
pub struct IntervalCount(pub u8);

impl Parse for IntervalCount {
    open spec fn width() -> nat {
        1
    }

    open spec fn accepts(raw: int) -> bool {
        true
    }

    open spec fn raw(self) -> int {
        self.0 as int
    }

    proof fn lemma_raw_injective(a: Self, b: Self) {
    }

    fn parse(cursor: &mut Cursor) -> (r: Result<Self, ParseError>) {
        match u8::parse(cursor) {
            Ok(v) => Ok(IntervalCount(v)),
            Err(e) => Err(e),
        }
    }
}

/// Power, in watts.
#[derive(Debug, Clone, Copy, PartialEq, Eq, Structural)]
pub struct Power(pub u16);

impl Parse for Power {
    open spec fn width() -> nat {
        2
    }

    open spec fn accepts(raw: int) -> bool {
        true
    }

    open spec fn raw(self) -> int {
        self.0 as int
    }

    proof fn lemma_raw_injective(a: Self, b: Self) {
    }

    fn parse(cursor: &mut Cursor) -> (r: Result<Self, ParseError>) {
        match u16::parse(cursor) {
            Ok(v) => Ok(Power(v)),
            Err(e) => Err(e),
        }
    }
}

/// Length of a drive, in hundredths of a metre.
#[derive(Debug, Clone, Copy, PartialEq, Eq, Structural)]
pub struct DriveLength(pub u8);

impl Parse for DriveLength {
    open spec fn width() -> nat {
        1
    }

    open spec fn accepts(raw: int) -> bool {
        true
    }

    open spec fn raw(self) -> int {
        self.0 as int
    }

    proof fn lemma_raw_injective(a: Self, b: Self) {
    }

    fn parse(cursor: &mut Cursor) -> (r: Result<Self, ParseError>) {
        match u8::parse(cursor) {
            Ok(v) => Ok(DriveLength(v)),
            Err(e) => Err(e),
        }
    }
}

/// Duration of a drive, in hundredths of a second.
#[derive(Debug, Clone, Copy, PartialEq, Eq, Structural)]
pub struct DriveTime(pub u8);

impl Parse for DriveTime {
    open spec fn width() -> nat {
        1
    }

    open spec fn accepts(raw: int) -> bool {
        true
    }

    open spec fn raw(self) -> int {
        self.0 as int
    }

    proof fn lemma_raw_injective(a: Self, b: Self) {
    }

    fn parse(cursor: &mut Cursor) -> (r: Result<Self, ParseError>) {
        match u8::parse(cursor) {
            Ok(v) => Ok(DriveTime(v)),
            Err(e) => Err(e),
        }
    }
}

/// Calories.
#[derive(Debug, Clone, Copy, PartialEq, Eq, Structural)]
pub struct Calories(pub u16);

impl Parse for Calories {
    open spec fn width() -> nat {
        2
    }

    open spec fn accepts(raw: int) -> bool {
        true
    }

    open spec fn raw(self) -> int {
        self.0 as int
    }

    proof fn lemma_raw_injective(a: Self, b: Self) {
    }

    fn parse(cursor: &mut Cursor) -> (r: Result<Self, ParseError>) {
        match u16::parse(cursor) {
            Ok(v) => Ok(Calories(v)),
            Err(e) => Err(e),
        }
    }
}

/// Distance of a stroke, in hundredths of a metre.
#[derive(Debug, Clone, Copy, PartialEq, Eq, Structural)]
pub struct StrokeDistance(pub u16);

impl Parse for StrokeDistance {
    open spec fn width() -> nat {
        2
    }

    open spec fn accepts(raw: int) -> bool {
        true
    }

    open spec fn raw(self) -> int {
        self.0 as int
    }

    proof fn lemma_raw_injective(a: Self, b: Self) {
    }

    fn parse(cursor: &mut Cursor) -> (r: Result<Self, ParseError>) {
        match u16::parse(cursor) {
            Ok(v) => Ok(StrokeDistance(v)),
            Err(e) => Err(e),
        }
    }
}

/// Force, in tenths of a pound.
#[derive(Debug, Clone, Copy, PartialEq, Eq, Structural)]
pub struct Force(pub u16);

impl Parse for Force {
    open spec fn width() -> nat {
        2
    }

    open spec fn accepts(raw: int) -> bool {
        true
    }

    open spec fn raw(self) -> int {
        self.0 as int
    }

    proof fn lemma_raw_injective(a: Self, b: Self) {
    }

    fn parse(cursor: &mut Cursor) -> (r: Result<Self, ParseError>) {
        match u16::parse(cursor) {
            Ok(v) => Ok(Force(v)),
            Err(e) => Err(e),
        }
    }
}

/// Work, in tenths of a joule.
#[derive(Debug, Clone, Copy, PartialEq, Eq, Structural)]
pub struct Work(pub u16);

impl Parse for Work {
    open spec fn width() -> nat {
        2
    }

    open spec fn accepts(raw: int) -> bool {
        true
    }

    open spec fn raw(self) -> int {
        self.0 as int
    }

    proof fn lemma_raw_injective(a: Self, b: Self) {
    }

    fn parse(cursor: &mut Cursor) -> (r: Result<Self, ParseError>) {
        match u16::parse(cursor) {
            Ok(v) => Ok(Work(v)),
            Err(e) => Err(e),
        }
    }
}

/// Size of a split or interval.
#[derive(Debug, Clone, Copy, PartialEq, Eq, Structural)]
pub struct Size(pub u8);

impl Parse for Size {
    open spec fn width() -> nat {
        1
    }

    open spec fn accepts(raw: int) -> bool {
        true
    }

    open spec fn raw(self) -> int {
        self.0 as int
    }

    proof fn lemma_raw_injective(a: Self, b: Self) {
    }

    fn parse(cursor: &mut Cursor) -> (r: Result<Self, ParseError>) {
        match u8::parse(cursor) {
            Ok(v) => Ok(Size(v)),
            Err(e) => Err(e),
        }
    }
}

/// Number of strokes.
#[derive(Debug, Clone, Copy, PartialEq, Eq, Structural)]
pub struct StrokeCount(pub u16);

impl Parse for StrokeCount {
    open spec fn width() -> nat {
        2
    }

    open spec fn accepts(raw: int) -> bool {
        true
    }

    open spec fn raw(self) -> int {
        self.0 as int
    }

    proof fn lemma_raw_injective(a: Self, b: Self) {
    }

    fn parse(cursor: &mut Cursor) -> (r: Result<Self, ParseError>) {
        match u16::parse(cursor) {
            Ok(v) => Ok(StrokeCount(v)),
            Err(e) => Err(e),
        }
    }
}

/// Identifier of a game.
#[derive(Debug, Clone, Copy, PartialEq, Eq, Structural)]
pub struct GameId(pub u8);

impl Parse for GameId {
    open spec fn width() -> nat {
        1
    }

    open spec fn accepts(raw: int) -> bool {
        true
    }

    open spec fn raw(self) -> int {
        self.0 as int
    }

    proof fn lemma_raw_injective(a: Self, b: Self) {
    }

    fn parse(cursor: &mut Cursor) -> (r: Result<Self, ParseError>) {
        match u8::parse(cursor) {
            Ok(v) => Ok(GameId(v)),
            Err(e) => Err(e),
        }
    }
}

/// Score of a game.
#[derive(Debug, Clone, Copy, PartialEq, Eq, Structural)]
pub struct GameScore(pub u16);

impl Parse for GameScore {
    open spec fn width() -> nat {
        2
    }

    open spec fn accepts(raw: int) -> bool {
        true
    }

    open spec fn raw(self) -> int {
        self.0 as int
    }

    proof fn lemma_raw_injective(a: Self, b: Self) {
    }

    fn parse(cursor: &mut Cursor) -> (r: Result<Self, ParseError>) {
        match u16::parse(cursor) {
            Ok(v) => Ok(GameScore(v)),
            Err(e) => Err(e),
        }
    }
}

/// How often the general status is sent.
#[derive(Debug, Clone, Copy, PartialEq, Eq, Structural)]
pub enum SampleRate {
    Slow,
    Default,
    Fast,
    Fastest,
}

impl Discriminant for SampleRate {
    open spec fn variant_of(code: u8) -> Option<Self> {
        match code {
            0 => Some(SampleRate::Slow),
            1 => Some(SampleRate::Default),
            2 => Some(SampleRate::Fast),
            3 => Some(SampleRate::Fastest),
            _ => None,
        }
    }

    open spec fn code_of(self) -> u8 {
        match self {
            SampleRate::Slow => 0,
            SampleRate::Default => 1,
            SampleRate::Fast => 2,
            SampleRate::Fastest => 3,
        }
    }

    proof fn lemma_code_round_trip(v: Self) {
    }

    proof fn lemma_variant_code(code: u8) {
    }

    fn from_code(code: u8) -> (r: Option<Self>) {
        match code {
            0 => Some(SampleRate::Slow),
            1 => Some(SampleRate::Default),
            2 => Some(SampleRate::Fast),
            3 => Some(SampleRate::Fastest),
            _ => None,
        }
    }

    fn code(&self) -> (r: u8) {
        match self {
            SampleRate::Slow => 0,
            SampleRate::Default => 1,
            SampleRate::Fast => 2,
            SampleRate::Fastest => 3,
        }
    }
}

impl Parse for SampleRate {
    open spec fn width() -> nat {
        1
    }

    open spec fn accepts(raw: int) -> bool {
        0 <= raw < 256 && Self::variant_of(raw as u8) is Some
    }

    open spec fn raw(self) -> int {
        self.code_of() as int
    }

    proof fn lemma_raw_injective(a: Self, b: Self) {
        Self::lemma_code_round_trip(a);
        Self::lemma_code_round_trip(b);
    }

    fn parse(cursor: &mut Cursor) -> (r: Result<Self, ParseError>) {
        let r = decode_enum::<SampleRate>(cursor);
        proof {
            if let Ok(v) = r {
                Self::lemma_variant_code(old(cursor).peek(1) as u8);
            }
        }
        r
    }
}

/// Operational state of the monitor.
#[derive(Debug, Clone, Copy, PartialEq, Eq, Structural)]
pub enum OperationalState {
    /// Reset state.
    Reset,
    /// Ready state.
    Ready,
    /// Workout state.
    Workout,
    /// Warm-up state.
    Warmup,
    /// Race state.
    Race,
    /// Power-off state.
    Poweroff,
    /// Pause state.
    Pause,
    /// Invoke boot loader state.
    Invokebootloader,
    /// Power-off ship state.
    PoweroffShip,
    /// Idle charge state.
    IdleCharge,
    /// Idle state.
    Idle,
    /// Manufacturing test state.
    Mfgtest,
    /// Firmware update state.
    Fwupdate,
    /// Drag factor state.
    Dragfactor,
    /// Drag factor calibration state.
    Dfcalibration,
}

impl Discriminant for OperationalState {
    open spec fn variant_of(code: u8) -> Option<Self> {
        match code {
            0 => Some(OperationalState::Reset),
            1 => Some(OperationalState::Ready),
            2 => Some(OperationalState::Workout),
            3 => Some(OperationalState::Warmup),
            4 => Some(OperationalState::Race),
            5 => Some(OperationalState::Poweroff),
            6 => Some(OperationalState::Pause),
            7 => Some(OperationalState::Invokebootloader),
            8 => Some(OperationalState::PoweroffShip),
            9 => Some(OperationalState::IdleCharge),
            10 => Some(OperationalState::Idle),
            11 => Some(OperationalState::Mfgtest),
            12 => Some(OperationalState::Fwupdate),
            13 => Some(OperationalState::Dragfactor),
            100 => Some(OperationalState::Dfcalibration),
            _ => None,
        }
    }

    open spec fn code_of(self) -> u8 {
        match self {
            OperationalState::Reset => 0,
            OperationalState::Ready => 1,
            OperationalState::Workout => 2,
            OperationalState::Warmup => 3,
            OperationalState::Race => 4,
            OperationalState::Poweroff => 5,
            OperationalState::Pause => 6,
            OperationalState::Invokebootloader => 7,
            OperationalState::PoweroffShip => 8,
            OperationalState::IdleCharge => 9,
            OperationalState::Idle => 10,
            OperationalState::Mfgtest => 11,
            OperationalState::Fwupdate => 12,
            OperationalState::Dragfactor => 13,
            OperationalState::Dfcalibration => 100,
        }
    }

    proof fn lemma_code_round_trip(v: Self) {
    }

    proof fn lemma_variant_code(code: u8) {
    }

    fn from_code(code: u8) -> (r: Option<Self>) {
        match code {
            0 => Some(OperationalState::Reset),
            1 => Some(OperationalState::Ready),
            2 => Some(OperationalState::Workout),
            3 => Some(OperationalState::Warmup),
            4 => Some(OperationalState::Race),
            5 => Some(OperationalState::Poweroff),
            6 => Some(OperationalState::Pause),
            7 => Some(OperationalState::Invokebootloader),
            8 => Some(OperationalState::PoweroffShip),
            9 => Some(OperationalState::IdleCharge),
            10 => Some(OperationalState::Idle),
            11 => Some(OperationalState::Mfgtest),
            12 => Some(OperationalState::Fwupdate),
            13 => Some(OperationalState::Dragfactor),
            100 => Some(OperationalState::Dfcalibration),
            _ => None,
        }
    }

    fn code(&self) -> (r: u8) {
        match self {
            OperationalState::Reset => 0,
            OperationalState::Ready => 1,
            OperationalState::Workout => 2,
            OperationalState::Warmup => 3,
            OperationalState::Race => 4,
            OperationalState::Poweroff => 5,
            OperationalState::Pause => 6,
            OperationalState::Invokebootloader => 7,
            OperationalState::PoweroffShip => 8,
            OperationalState::IdleCharge => 9,
            OperationalState::Idle => 10,
            OperationalState::Mfgtest => 11,
            OperationalState::Fwupdate => 12,
            OperationalState::Dragfactor => 13,
            OperationalState::Dfcalibration => 100,
        }
    }
}

impl Parse for OperationalState {
    open spec fn width() -> nat {
        1
    }

    open spec fn accepts(raw: int) -> bool {
        0 <= raw < 256 && Self::variant_of(raw as u8) is Some
    }

    open spec fn raw(self) -> int {
        self.code_of() as int
    }

    proof fn lemma_raw_injective(a: Self, b: Self) {
        Self::lemma_code_round_trip(a);
        Self::lemma_code_round_trip(b);
    }

    fn parse(cursor: &mut Cursor) -> (r: Result<Self, ParseError>) {
        let r = decode_enum::<OperationalState>(cursor);
        proof {
            if let Ok(v) = r {
                Self::lemma_variant_code(old(cursor).peek(1) as u8);
            }
        }
        r
    }
}

/// Model of the ergometer.
#[derive(Debug, Clone, Copy, PartialEq, Eq, Structural)]
pub enum ErgModelType {
    /// Model D/E type.
    TypeD,
    /// Model C/B type.
    TypeC,
    /// Model A type.
    TypeA,
}

impl Discriminant for ErgModelType {
    open spec fn variant_of(code: u8) -> Option<Self> {
        match code {
            0 => Some(ErgModelType::TypeD),
            1 => Some(ErgModelType::TypeC),
            2 => Some(ErgModelType::TypeA),
            _ => None,
        }
    }

    open spec fn code_of(self) -> u8 {
        match self {
            ErgModelType::TypeD => 0,
            ErgModelType::TypeC => 1,
            ErgModelType::TypeA => 2,
        }
    }

    proof fn lemma_code_round_trip(v: Self) {
    }

    proof fn lemma_variant_code(code: u8) {
    }

    fn from_code(code: u8) -> (r: Option<Self>) {
        match code {
            0 => Some(ErgModelType::TypeD),
            1 => Some(ErgModelType::TypeC),
            2 => Some(ErgModelType::TypeA),
            _ => None,
        }
    }

    fn code(&self) -> (r: u8) {
        match self {
            ErgModelType::TypeD => 0,
            ErgModelType::TypeC => 1,
            ErgModelType::TypeA => 2,
        }
    }
}

impl Parse for ErgModelType {
    open spec fn width() -> nat {
        1
    }

    open spec fn accepts(raw: int) -> bool {
        0 <= raw < 256 && Self::variant_of(raw as u8) is Some
    }

    open spec fn raw(self) -> int {
        self.code_of() as int
    }

    proof fn lemma_raw_injective(a: Self, b: Self) {
        Self::lemma_code_round_trip(a);
        Self::lemma_code_round_trip(b);
    }

    fn parse(cursor: &mut Cursor) -> (r: Result<Self, ParseError>) {
        let r = decode_enum::<ErgModelType>(cursor);
        proof {
            if let Ok(v) = r {
                Self::lemma_variant_code(old(cursor).peek(1) as u8);
            }
        }
        r
    }
}

/// Kind of machine the monitor is fitted to.
#[derive(Debug, Clone, Copy, PartialEq, Eq, Structural)]
pub enum ErgMachineType {
    /// Model D, static type.
    StaticD,
    /// Model C, static type.
    StaticC,
    /// Model A, static type.
    StaticA,
    /// Model B, static type.
    StaticB,
    /// Model E, static type.
    StaticE,
    /// Rower simulator type.
    StaticSimulator,
    /// Dynamic, static type.
    StaticDynamic,
    /// Model A, slides type.
    SlidesA,
    /// Model B, slides type.
    SlidesB,
    /// Model C, slides type.
    SlidesC,
    /// Model D, slides type.
    SlidesD,
    /// Model E, slides type.
    SlidesE,
    /// Dynamic, linked type.
    LinkedDynamic,
    /// Dynomometer, static type.
    StaticDyno,
    /// Ski Erg, static type.
    StaticSki,
    /// Ski simulator type.
    StaticSkiSimulator,
    /// Bike, no arms type.
    Bike,
    /// Bike, arms type.
    BikeArms,
    /// Bike, no arms type.
    BikeNoarms,
    /// Bike simulator type.
    BikeSimulator,
    /// Multi-erg row type.
    MultiergRow,
    /// Multi-erg ski type.
    MultiergSki,
    /// Multi-erg bike type.
    MultiergBike,
    /// Number of machine types.
    Num,
}

impl Discriminant for ErgMachineType {
    open spec fn variant_of(code: u8) -> Option<Self> {
        match code {
            0 => Some(ErgMachineType::StaticD),
            1 => Some(ErgMachineType::StaticC),
            2 => Some(ErgMachineType::StaticA),
            3 => Some(ErgMachineType::StaticB),
            5 => Some(ErgMachineType::StaticE),
            7 => Some(ErgMachineType::StaticSimulator),
            8 => Some(ErgMachineType::StaticDynamic),
            16 => Some(ErgMachineType::SlidesA),
            17 => Some(ErgMachineType::SlidesB),
            18 => Some(ErgMachineType::SlidesC),
            19 => Some(ErgMachineType::SlidesD),
            20 => Some(ErgMachineType::SlidesE),
            32 => Some(ErgMachineType::LinkedDynamic),
            64 => Some(ErgMachineType::StaticDyno),
            128 => Some(ErgMachineType::StaticSki),
            143 => Some(ErgMachineType::StaticSkiSimulator),
            192 => Some(ErgMachineType::Bike),
            193 => Some(ErgMachineType::BikeArms),
            194 => Some(ErgMachineType::BikeNoarms),
            207 => Some(ErgMachineType::BikeSimulator),
            224 => Some(ErgMachineType::MultiergRow),
            225 => Some(ErgMachineType::MultiergSki),
            226 => Some(ErgMachineType::MultiergBike),
            227 => Some(ErgMachineType::Num),
            _ => None,
        }
    }

    open spec fn code_of(self) -> u8 {
        match self {
            ErgMachineType::StaticD => 0,
            ErgMachineType::StaticC => 1,
            ErgMachineType::StaticA => 2,
            ErgMachineType::StaticB => 3,
            ErgMachineType::StaticE => 5,
            ErgMachineType::StaticSimulator => 7,
            ErgMachineType::StaticDynamic => 8,
            ErgMachineType::SlidesA => 16,
            ErgMachineType::SlidesB => 17,
            ErgMachineType::SlidesC => 18,
            ErgMachineType::SlidesD => 19,
            ErgMachineType::SlidesE => 20,
            ErgMachineType::LinkedDynamic => 32,
            ErgMachineType::StaticDyno => 64,
            ErgMachineType::StaticSki => 128,
            ErgMachineType::StaticSkiSimulator => 143,
            ErgMachineType::Bike => 192,
            ErgMachineType::BikeArms => 193,
            ErgMachineType::BikeNoarms => 194,
            ErgMachineType::BikeSimulator => 207,
            ErgMachineType::MultiergRow => 224,
            ErgMachineType::MultiergSki => 225,
            ErgMachineType::MultiergBike => 226,
            ErgMachineType::Num => 227,
        }
    }

    proof fn lemma_code_round_trip(v: Self) {
    }

    proof fn lemma_variant_code(code: u8) {
    }

    fn from_code(code: u8) -> (r: Option<Self>) {
        match code {
            0 => Some(ErgMachineType::StaticD),
            1 => Some(ErgMachineType::StaticC),
            2 => Some(ErgMachineType::StaticA),
            3 => Some(ErgMachineType::StaticB),
            5 => Some(ErgMachineType::StaticE),
            7 => Some(ErgMachineType::StaticSimulator),
            8 => Some(ErgMachineType::StaticDynamic),
            16 => Some(ErgMachineType::SlidesA),
            17 => Some(ErgMachineType::SlidesB),
            18 => Some(ErgMachineType::SlidesC),
            19 => Some(ErgMachineType::SlidesD),
            20 => Some(ErgMachineType::SlidesE),
            32 => Some(ErgMachineType::LinkedDynamic),
            64 => Some(ErgMachineType::StaticDyno),
            128 => Some(ErgMachineType::StaticSki),
            143 => Some(ErgMachineType::StaticSkiSimulator),
            192 => Some(ErgMachineType::Bike),
            193 => Some(ErgMachineType::BikeArms),
            194 => Some(ErgMachineType::BikeNoarms),
            207 => Some(ErgMachineType::BikeSimulator),
            224 => Some(ErgMachineType::MultiergRow),
            225 => Some(ErgMachineType::MultiergSki),
            226 => Some(ErgMachineType::MultiergBike),
            227 => Some(ErgMachineType::Num),
            _ => None,
        }
    }

    fn code(&self) -> (r: u8) {
        match self {
            ErgMachineType::StaticD => 0,
            ErgMachineType::StaticC => 1,
            ErgMachineType::StaticA => 2,
            ErgMachineType::StaticB => 3,
            ErgMachineType::StaticE => 5,
            ErgMachineType::StaticSimulator => 7,
            ErgMachineType::StaticDynamic => 8,
            ErgMachineType::SlidesA => 16,
            ErgMachineType::SlidesB => 17,
            ErgMachineType::SlidesC => 18,
            ErgMachineType::SlidesD => 19,
            ErgMachineType::SlidesE => 20,
            ErgMachineType::LinkedDynamic => 32,
            ErgMachineType::StaticDyno => 64,
            ErgMachineType::StaticSki => 128,
            ErgMachineType::StaticSkiSimulator => 143,
            ErgMachineType::Bike => 192,
            ErgMachineType::BikeArms => 193,
            ErgMachineType::BikeNoarms => 194,
            ErgMachineType::BikeSimulator => 207,
            ErgMachineType::MultiergRow => 224,
            ErgMachineType::MultiergSki => 225,
            ErgMachineType::MultiergBike => 226,
            ErgMachineType::Num => 227,
        }
    }
}

impl Parse for ErgMachineType {
    open spec fn width() -> nat {
        1
    }

    open spec fn accepts(raw: int) -> bool {
        0 <= raw < 256 && Self::variant_of(raw as u8) is Some
    }

    open spec fn raw(self) -> int {
        self.code_of() as int
    }

    proof fn lemma_raw_injective(a: Self, b: Self) {
        Self::lemma_code_round_trip(a);
        Self::lemma_code_round_trip(b);
    }

    fn parse(cursor: &mut Cursor) -> (r: Result<Self, ParseError>) {
        let r = decode_enum::<ErgMachineType>(cursor);
        proof {
            if let Ok(v) = r {
                Self::lemma_variant_code(old(cursor).peek(1) as u8);
            }
        }
        r
    }
}

/// Kind of workout.
#[derive(Debug, Clone, Copy, PartialEq, Eq, Structural)]
pub enum WorkoutType {
    /// JustRow, no splits.
    JustrowNosplits,
    /// JustRow, splits.
    JustrowSplits,
    /// Fixed distance, no splits.
    FixeddistNosplits,
    /// Fixed distance, splits.
    FixeddistSplits,
    /// Fixed time, no splits.
    FixedtimeNosplits,
    /// Fixed time, splits.
    FixedtimeSplits,
    /// Fixed time interval.
    FixedtimeInterval,
    /// Fixed distance interval.
    FixeddistInterval,
    /// Variable interval.
    VariableInterval,
    /// Variable interval, undefined rest.
    VariableUndefinedrestInterval,
    /// Fixed calorie, splits.
    FixedcalorieSplits,
    /// Fixed watt-minute, splits.
    FixedwattminuteSplits,
    /// Fixed calorie interval.
    FixedcalsInterval,
    /// Number of workout types.
    Num,
}

impl Discriminant for WorkoutType {
    open spec fn variant_of(code: u8) -> Option<Self> {
        match code {
            0 => Some(WorkoutType::JustrowNosplits),
            1 => Some(WorkoutType::JustrowSplits),
            2 => Some(WorkoutType::FixeddistNosplits),
            3 => Some(WorkoutType::FixeddistSplits),
            4 => Some(WorkoutType::FixedtimeNosplits),
            5 => Some(WorkoutType::FixedtimeSplits),
            6 => Some(WorkoutType::FixedtimeInterval),
            7 => Some(WorkoutType::FixeddistInterval),
            8 => Some(WorkoutType::VariableInterval),
            9 => Some(WorkoutType::VariableUndefinedrestInterval),
            10 => Some(WorkoutType::FixedcalorieSplits),
            11 => Some(WorkoutType::FixedwattminuteSplits),
            12 => Some(WorkoutType::FixedcalsInterval),
            13 => Some(WorkoutType::Num),
            _ => None,
        }
    }

    open spec fn code_of(self) -> u8 {
        match self {
            WorkoutType::JustrowNosplits => 0,
            WorkoutType::JustrowSplits => 1,
            WorkoutType::FixeddistNosplits => 2,
            WorkoutType::FixeddistSplits => 3,
            WorkoutType::FixedtimeNosplits => 4,
            WorkoutType::FixedtimeSplits => 5,
            WorkoutType::FixedtimeInterval => 6,
            WorkoutType::FixeddistInterval => 7,
            WorkoutType::VariableInterval => 8,
            WorkoutType::VariableUndefinedrestInterval => 9,
            WorkoutType::FixedcalorieSplits => 10,
            WorkoutType::FixedwattminuteSplits => 11,
            WorkoutType::FixedcalsInterval => 12,
            WorkoutType::Num => 13,
        }
    }

    proof fn lemma_code_round_trip(v: Self) {
    }

    proof fn lemma_variant_code(code: u8) {
    }

    fn from_code(code: u8) -> (r: Option<Self>) {
        match code {
            0 => Some(WorkoutType::JustrowNosplits),
            1 => Some(WorkoutType::JustrowSplits),
            2 => Some(WorkoutType::FixeddistNosplits),
            3 => Some(WorkoutType::FixeddistSplits),
            4 => Some(WorkoutType::FixedtimeNosplits),
            5 => Some(WorkoutType::FixedtimeSplits),
            6 => Some(WorkoutType::FixedtimeInterval),
            7 => Some(WorkoutType::FixeddistInterval),
            8 => Some(WorkoutType::VariableInterval),
            9 => Some(WorkoutType::VariableUndefinedrestInterval),
            10 => Some(WorkoutType::FixedcalorieSplits),
            11 => Some(WorkoutType::FixedwattminuteSplits),
            12 => Some(WorkoutType::FixedcalsInterval),
            13 => Some(WorkoutType::Num),
            _ => None,
        }
    }

    fn code(&self) -> (r: u8) {
        match self {
            WorkoutType::JustrowNosplits => 0,
            WorkoutType::JustrowSplits => 1,
            WorkoutType::FixeddistNosplits => 2,
            WorkoutType::FixeddistSplits => 3,
            WorkoutType::FixedtimeNosplits => 4,
            WorkoutType::FixedtimeSplits => 5,
            WorkoutType::FixedtimeInterval => 6,
            WorkoutType::FixeddistInterval => 7,
            WorkoutType::VariableInterval => 8,
            WorkoutType::VariableUndefinedrestInterval => 9,
            WorkoutType::FixedcalorieSplits => 10,
            WorkoutType::FixedwattminuteSplits => 11,
            WorkoutType::FixedcalsInterval => 12,
            WorkoutType::Num => 13,
        }
    }
}

impl Parse for WorkoutType {
    open spec fn width() -> nat {
        1
    }

    open spec fn accepts(raw: int) -> bool {
        0 <= raw < 256 && Self::variant_of(raw as u8) is Some
    }

    open spec fn raw(self) -> int {
        self.code_of() as int
    }

    proof fn lemma_raw_injective(a: Self, b: Self) {
        Self::lemma_code_round_trip(a);
        Self::lemma_code_round_trip(b);
    }

    fn parse(cursor: &mut Cursor) -> (r: Result<Self, ParseError>) {
        let r = decode_enum::<WorkoutType>(cursor);
        proof {
            if let Ok(v) = r {
                Self::lemma_variant_code(old(cursor).peek(1) as u8);
            }
        }
        r
    }
}

/// Kind of interval.
#[derive(Debug, Clone, Copy, PartialEq, Eq, Structural)]
pub enum IntervalType {
    /// Time interval type.
    Time,
    /// Distance interval type.
    Dist,
    /// Rest interval type.
    Rest,
    /// Time undefined rest interval type.
    TimerestUndefined,
    /// Distance undefined rest interval type.
    DistancerestUndefined,
    /// Undefined rest interval type.
    RestUndefined,
    /// Calorie interval type.
    Calorie,
    /// Calorie undefined rest interval type.
    CalorierestUndefined,
    /// Watt-minute interval type.
    Wattminute,
    /// Watt-minute undefined rest interval type.
    WattminuterestUndefined,
    /// No interval type.
    NoInterval,
}

impl Discriminant for IntervalType {
    open spec fn variant_of(code: u8) -> Option<Self> {
        match code {
            0 => Some(IntervalType::Time),
            1 => Some(IntervalType::Dist),
            2 => Some(IntervalType::Rest),
            3 => Some(IntervalType::TimerestUndefined),
            4 => Some(IntervalType::DistancerestUndefined),
            5 => Some(IntervalType::RestUndefined),
            6 => Some(IntervalType::Calorie),
            7 => Some(IntervalType::CalorierestUndefined),
            8 => Some(IntervalType::Wattminute),
            9 => Some(IntervalType::WattminuterestUndefined),
            255 => Some(IntervalType::NoInterval),
            _ => None,
        }
    }

    open spec fn code_of(self) -> u8 {
        match self {
            IntervalType::Time => 0,
            IntervalType::Dist => 1,
            IntervalType::Rest => 2,
            IntervalType::TimerestUndefined => 3,
            IntervalType::DistancerestUndefined => 4,
            IntervalType::RestUndefined => 5,
            IntervalType::Calorie => 6,
            IntervalType::CalorierestUndefined => 7,
            IntervalType::Wattminute => 8,
            IntervalType::WattminuterestUndefined => 9,
            IntervalType::NoInterval => 255,
        }
    }

    proof fn lemma_code_round_trip(v: Self) {
    }

    proof fn lemma_variant_code(code: u8) {
    }

    fn from_code(code: u8) -> (r: Option<Self>) {
        match code {
            0 => Some(IntervalType::Time),
            1 => Some(IntervalType::Dist),
            2 => Some(IntervalType::Rest),
            3 => Some(IntervalType::TimerestUndefined),
            4 => Some(IntervalType::DistancerestUndefined),
            5 => Some(IntervalType::RestUndefined),
            6 => Some(IntervalType::Calorie),
            7 => Some(IntervalType::CalorierestUndefined),
            8 => Some(IntervalType::Wattminute),
            9 => Some(IntervalType::WattminuterestUndefined),
            255 => Some(IntervalType::NoInterval),
            _ => None,
        }
    }

    fn code(&self) -> (r: u8) {
        match self {
            IntervalType::Time => 0,
            IntervalType::Dist => 1,
            IntervalType::Rest => 2,
            IntervalType::TimerestUndefined => 3,
            IntervalType::DistancerestUndefined => 4,
            IntervalType::RestUndefined => 5,
            IntervalType::Calorie => 6,
            IntervalType::CalorierestUndefined => 7,
            IntervalType::Wattminute => 8,
            IntervalType::WattminuterestUndefined => 9,
            IntervalType::NoInterval => 255,
        }
    }
}

impl Parse for IntervalType {
    open spec fn width() -> nat {
        1
    }

    open spec fn accepts(raw: int) -> bool {
        0 <= raw < 256 && Self::variant_of(raw as u8) is Some
    }

    open spec fn raw(self) -> int {
        self.code_of() as int
    }

    proof fn lemma_raw_injective(a: Self, b: Self) {
        Self::lemma_code_round_trip(a);
        Self::lemma_code_round_trip(b);
    }

    fn parse(cursor: &mut Cursor) -> (r: Result<Self, ParseError>) {
        let r = decode_enum::<IntervalType>(cursor);
        proof {
            if let Ok(v) = r {
                Self::lemma_variant_code(old(cursor).peek(1) as u8);
            }
        }
        r
    }
}

/// State of a workout.
#[derive(Debug, Clone, Copy, PartialEq, Eq, Structural)]
pub enum WorkoutState {
    /// Wait to begin state.
    WaitToBegin,
    /// Workout row state.
    WorkoutRow,
    /// Countdown pause state.
    CountdownPause,
    /// Interval rest state.
    IntervalRest,
    /// Interval work time state.
    IntervalWorkTime,
    /// Interval work distance state.
    IntervalWorkDistance,
    /// Interval rest end to work time state.
    IntervalRestEndToWorkTime,
    /// Interval rest end to work distance state.
    IntervalRestEndToWorkDistance,
    /// Interval work time to rest state.
    IntervalWorkTimeToRest,
    /// Interval work distance to rest state.
    IntervalWorkDistanceToRest,
    /// Workout end state.
    WorkoutEnd,
    /// Workout terminate state.
    Terminate,
    /// Workout logged state.
    WorkoutLogged,
    /// Workout rearm state.
    Rearm,
}

impl Discriminant for WorkoutState {
    open spec fn variant_of(code: u8) -> Option<Self> {
        match code {
            0 => Some(WorkoutState::WaitToBegin),
            1 => Some(WorkoutState::WorkoutRow),
            2 => Some(WorkoutState::CountdownPause),
            3 => Some(WorkoutState::IntervalRest),
            4 => Some(WorkoutState::IntervalWorkTime),
            5 => Some(WorkoutState::IntervalWorkDistance),
            6 => Some(WorkoutState::IntervalRestEndToWorkTime),
            7 => Some(WorkoutState::IntervalRestEndToWorkDistance),
            8 => Some(WorkoutState::IntervalWorkTimeToRest),
            9 => Some(WorkoutState::IntervalWorkDistanceToRest),
            10 => Some(WorkoutState::WorkoutEnd),
            11 => Some(WorkoutState::Terminate),
            12 => Some(WorkoutState::WorkoutLogged),
            13 => Some(WorkoutState::Rearm),
            _ => None,
        }
    }

    open spec fn code_of(self) -> u8 {
        match self {
            WorkoutState::WaitToBegin => 0,
            WorkoutState::WorkoutRow => 1,
            WorkoutState::CountdownPause => 2,
            WorkoutState::IntervalRest => 3,
            WorkoutState::IntervalWorkTime => 4,
            WorkoutState::IntervalWorkDistance => 5,
            WorkoutState::IntervalRestEndToWorkTime => 6,
            WorkoutState::IntervalRestEndToWorkDistance => 7,
            WorkoutState::IntervalWorkTimeToRest => 8,
            WorkoutState::IntervalWorkDistanceToRest => 9,
            WorkoutState::WorkoutEnd => 10,
            WorkoutState::Terminate => 11,
            WorkoutState::WorkoutLogged => 12,
            WorkoutState::Rearm => 13,
        }
    }

    proof fn lemma_code_round_trip(v: Self) {
    }

    proof fn lemma_variant_code(code: u8) {
    }

    fn from_code(code: u8) -> (r: Option<Self>) {
        match code {
            0 => Some(WorkoutState::WaitToBegin),
            1 => Some(WorkoutState::WorkoutRow),
            2 => Some(WorkoutState::CountdownPause),
            3 => Some(WorkoutState::IntervalRest),
            4 => Some(WorkoutState::IntervalWorkTime),
            5 => Some(WorkoutState::IntervalWorkDistance),
            6 => Some(WorkoutState::IntervalRestEndToWorkTime),
            7 => Some(WorkoutState::IntervalRestEndToWorkDistance),
            8 => Some(WorkoutState::IntervalWorkTimeToRest),
            9 => Some(WorkoutState::IntervalWorkDistanceToRest),
            10 => Some(WorkoutState::WorkoutEnd),
            11 => Some(WorkoutState::Terminate),
            12 => Some(WorkoutState::WorkoutLogged),
            13 => Some(WorkoutState::Rearm),
            _ => None,
        }
    }

    fn code(&self) -> (r: u8) {
        match self {
            WorkoutState::WaitToBegin => 0,
            WorkoutState::WorkoutRow => 1,
            WorkoutState::CountdownPause => 2,
            WorkoutState::IntervalRest => 3,
            WorkoutState::IntervalWorkTime => 4,
            WorkoutState::IntervalWorkDistance => 5,
            WorkoutState::IntervalRestEndToWorkTime => 6,
            WorkoutState::IntervalRestEndToWorkDistance => 7,
            WorkoutState::IntervalWorkTimeToRest => 8,
            WorkoutState::IntervalWorkDistanceToRest => 9,
            WorkoutState::WorkoutEnd => 10,
            WorkoutState::Terminate => 11,
            WorkoutState::WorkoutLogged => 12,
            WorkoutState::Rearm => 13,
        }
    }
}

impl Parse for WorkoutState {
    open spec fn width() -> nat {
        1
    }

    open spec fn accepts(raw: int) -> bool {
        0 <= raw < 256 && Self::variant_of(raw as u8) is Some
    }

    open spec fn raw(self) -> int {
        self.code_of() as int
    }

    proof fn lemma_raw_injective(a: Self, b: Self) {
        Self::lemma_code_round_trip(a);
        Self::lemma_code_round_trip(b);
    }

    fn parse(cursor: &mut Cursor) -> (r: Result<Self, ParseError>) {
        let r = decode_enum::<WorkoutState>(cursor);
        proof {
            if let Ok(v) = r {
                Self::lemma_variant_code(old(cursor).peek(1) as u8);
            }
        }
        r
    }
}

/// Whether rowing is under way.
#[derive(Debug, Clone, Copy, PartialEq, Eq, Structural)]
pub enum RowingState {
    /// Inactive.
    Inactive,
    /// Active.
    Active,
}

impl Discriminant for RowingState {
    open spec fn variant_of(code: u8) -> Option<Self> {
        match code {
            0 => Some(RowingState::Inactive),
            1 => Some(RowingState::Active),
            _ => None,
        }
    }

    open spec fn code_of(self) -> u8 {
        match self {
            RowingState::Inactive => 0,
            RowingState::Active => 1,
        }
    }

    proof fn lemma_code_round_trip(v: Self) {
    }

    proof fn lemma_variant_code(code: u8) {
    }

    fn from_code(code: u8) -> (r: Option<Self>) {
        match code {
            0 => Some(RowingState::Inactive),
            1 => Some(RowingState::Active),
            _ => None,
        }
    }

    fn code(&self) -> (r: u8) {
        match self {
            RowingState::Inactive => 0,
            RowingState::Active => 1,
        }
    }
}

impl Parse for RowingState {
    open spec fn width() -> nat {
        1
    }

    open spec fn accepts(raw: int) -> bool {
        0 <= raw < 256 && Self::variant_of(raw as u8) is Some
    }

    open spec fn raw(self) -> int {
        self.code_of() as int
    }

    proof fn lemma_raw_injective(a: Self, b: Self) {
        Self::lemma_code_round_trip(a);
        Self::lemma_code_round_trip(b);
    }

    fn parse(cursor: &mut Cursor) -> (r: Result<Self, ParseError>) {
        let r = decode_enum::<RowingState>(cursor);
        proof {
            if let Ok(v) = r {
                Self::lemma_variant_code(old(cursor).peek(1) as u8);
            }
        }
        r
    }
}

/// Phase of a stroke.
#[derive(Debug, Clone, Copy, PartialEq, Eq, Structural)]
pub enum StrokeState {
    /// FW to reach min speed state.
    WaitingForWheelToReachMinSpeedState,
    /// FW to accelerate state.
    WaitingForWheelToAccelerateState,
    /// Driving state.
    DrivingState,
    /// Dwelling after drive state.
    DwellingAfterDriveState,
    /// Recovery state.
    RecoveryState,
}

impl Discriminant for StrokeState {
    open spec fn variant_of(code: u8) -> Option<Self> {
        match code {
            0 => Some(StrokeState::WaitingForWheelToReachMinSpeedState),
            1 => Some(StrokeState::WaitingForWheelToAccelerateState),
            2 => Some(StrokeState::DrivingState),
            3 => Some(StrokeState::DwellingAfterDriveState),
            4 => Some(StrokeState::RecoveryState),
            _ => None,
        }
    }

    open spec fn code_of(self) -> u8 {
        match self {
            StrokeState::WaitingForWheelToReachMinSpeedState => 0,
            StrokeState::WaitingForWheelToAccelerateState => 1,
            StrokeState::DrivingState => 2,
            StrokeState::DwellingAfterDriveState => 3,
            StrokeState::RecoveryState => 4,
        }
    }

    proof fn lemma_code_round_trip(v: Self) {
    }

    proof fn lemma_variant_code(code: u8) {
    }

    fn from_code(code: u8) -> (r: Option<Self>) {
        match code {
            0 => Some(StrokeState::WaitingForWheelToReachMinSpeedState),
            1 => Some(StrokeState::WaitingForWheelToAccelerateState),
            2 => Some(StrokeState::DrivingState),
            3 => Some(StrokeState::DwellingAfterDriveState),
            4 => Some(StrokeState::RecoveryState),
            _ => None,
        }
    }

    fn code(&self) -> (r: u8) {
        match self {
            StrokeState::WaitingForWheelToReachMinSpeedState => 0,
            StrokeState::WaitingForWheelToAccelerateState => 1,
            StrokeState::DrivingState => 2,
            StrokeState::DwellingAfterDriveState => 3,
            StrokeState::RecoveryState => 4,
        }
    }
}

impl Parse for StrokeState {
    open spec fn width() -> nat {
        1
    }

    open spec fn accepts(raw: int) -> bool {
        0 <= raw < 256 && Self::variant_of(raw as u8) is Some
    }

    open spec fn raw(self) -> int {
        self.code_of() as int
    }

    proof fn lemma_raw_injective(a: Self, b: Self) {
        Self::lemma_code_round_trip(a);
        Self::lemma_code_round_trip(b);
    }

    fn parse(cursor: &mut Cursor) -> (r: Result<Self, ParseError>) {
        let r = decode_enum::<StrokeState>(cursor);
        proof {
            if let Ok(v) = r {
                Self::lemma_variant_code(old(cursor).peek(1) as u8);
            }
        }
        r
    }
}

/// Unit in which a workout duration is given.
#[derive(Debug, Clone, Copy, PartialEq, Eq, Structural)]
pub enum WorkoutDurationType {
    Time,
    Calories,
    Distance,
    WattMin,
}

impl Discriminant for WorkoutDurationType {
    open spec fn variant_of(code: u8) -> Option<Self> {
        match code {
            0 => Some(WorkoutDurationType::Time),
            64 => Some(WorkoutDurationType::Calories),
            128 => Some(WorkoutDurationType::Distance),
            192 => Some(WorkoutDurationType::WattMin),
            _ => None,
        }
    }

    open spec fn code_of(self) -> u8 {
        match self {
            WorkoutDurationType::Time => 0,
            WorkoutDurationType::Calories => 64,
            WorkoutDurationType::Distance => 128,
            WorkoutDurationType::WattMin => 192,
        }
    }

    proof fn lemma_code_round_trip(v: Self) {
    }

    proof fn lemma_variant_code(code: u8) {
    }

    fn from_code(code: u8) -> (r: Option<Self>) {
        match code {
            0 => Some(WorkoutDurationType::Time),
            64 => Some(WorkoutDurationType::Calories),
            128 => Some(WorkoutDurationType::Distance),
            192 => Some(WorkoutDurationType::WattMin),
            _ => None,
        }
    }

    fn code(&self) -> (r: u8) {
        match self {
            WorkoutDurationType::Time => 0,
            WorkoutDurationType::Calories => 64,
            WorkoutDurationType::Distance => 128,
            WorkoutDurationType::WattMin => 192,
        }
    }
}

impl Parse for WorkoutDurationType {
    open spec fn width() -> nat {
        1
    }

    open spec fn accepts(raw: int) -> bool {
        0 <= raw < 256 && Self::variant_of(raw as u8) is Some
    }

    open spec fn raw(self) -> int {
        self.code_of() as int
    }

    proof fn lemma_raw_injective(a: Self, b: Self) {
        Self::lemma_code_round_trip(a);
        Self::lemma_code_round_trip(b);
    }

    fn parse(cursor: &mut Cursor) -> (r: Result<Self, ParseError>) {
        let r = decode_enum::<WorkoutDurationType>(cursor);
        proof {
            if let Ok(v) = r {
                Self::lemma_variant_code(old(cursor).peek(1) as u8);
            }
        }
        r
    }
}

/// Units shown on the display.
#[derive(Debug, Clone, Copy, PartialEq, Eq, Structural)]
pub enum DisplayUnitType {
    /// Time/meters display units.
    TimeMeters,
    /// Pace display units.
    Pace,
    /// Watts display units.
    Watts,
    /// Caloric burn rate display units.
    CaloricBurnRate,
    /// Calorie display units.
    Calories,
}

impl Discriminant for DisplayUnitType {
    open spec fn variant_of(code: u8) -> Option<Self> {
        match code {
            0 => Some(DisplayUnitType::TimeMeters),
            1 => Some(DisplayUnitType::Pace),
            2 => Some(DisplayUnitType::Watts),
            3 => Some(DisplayUnitType::CaloricBurnRate),
            4 => Some(DisplayUnitType::Calories),
            _ => None,
        }
    }

    open spec fn code_of(self) -> u8 {
        match self {
            DisplayUnitType::TimeMeters => 0,
            DisplayUnitType::Pace => 1,
            DisplayUnitType::Watts => 2,
            DisplayUnitType::CaloricBurnRate => 3,
            DisplayUnitType::Calories => 4,
        }
    }

    proof fn lemma_code_round_trip(v: Self) {
    }

    proof fn lemma_variant_code(code: u8) {
    }

    fn from_code(code: u8) -> (r: Option<Self>) {
        match code {
            0 => Some(DisplayUnitType::TimeMeters),
            1 => Some(DisplayUnitType::Pace),
            2 => Some(DisplayUnitType::Watts),
            3 => Some(DisplayUnitType::CaloricBurnRate),
            4 => Some(DisplayUnitType::Calories),
            _ => None,
        }
    }

    fn code(&self) -> (r: u8) {
        match self {
            DisplayUnitType::TimeMeters => 0,
            DisplayUnitType::Pace => 1,
            DisplayUnitType::Watts => 2,
            DisplayUnitType::CaloricBurnRate => 3,
            DisplayUnitType::Calories => 4,
        }
    }
}

impl Parse for DisplayUnitType {
    open spec fn width() -> nat {
        1
    }

    open spec fn accepts(raw: int) -> bool {
        0 <= raw < 256 && Self::variant_of(raw as u8) is Some
    }

    open spec fn raw(self) -> int {
        self.code_of() as int
    }

    proof fn lemma_raw_injective(a: Self, b: Self) {
        Self::lemma_code_round_trip(a);
        Self::lemma_code_round_trip(b);
    }

    fn parse(cursor: &mut Cursor) -> (r: Result<Self, ParseError>) {
        let r = decode_enum::<DisplayUnitType>(cursor);
        proof {
            if let Ok(v) = r {
                Self::lemma_variant_code(old(cursor).peek(1) as u8);
            }
        }
        r
    }
}

/// Layout of the display.
#[derive(Debug, Clone, Copy, PartialEq, Eq, Structural)]
pub enum DisplayFormatType {
    /// Standard display type.
    Standard,
    /// Force curve display type.
    ForceVelocity,
    /// Pace boats display type.
    PaceBoat,
    /// Store rate/heart rate display type.
    PerStroke,
    /// Large format display type.
    Simple,
    /// Target display type.
    Target,
}

impl Discriminant for DisplayFormatType {
    open spec fn variant_of(code: u8) -> Option<Self> {
        match code {
            0 => Some(DisplayFormatType::Standard),
            1 => Some(DisplayFormatType::ForceVelocity),
            2 => Some(DisplayFormatType::PaceBoat),
            3 => Some(DisplayFormatType::PerStroke),
            4 => Some(DisplayFormatType::Simple),
            5 => Some(DisplayFormatType::Target),
            _ => None,
        }
    }

    open spec fn code_of(self) -> u8 {
        match self {
            DisplayFormatType::Standard => 0,
            DisplayFormatType::ForceVelocity => 1,
            DisplayFormatType::PaceBoat => 2,
            DisplayFormatType::PerStroke => 3,
            DisplayFormatType::Simple => 4,
            DisplayFormatType::Target => 5,
        }
    }

    proof fn lemma_code_round_trip(v: Self) {
    }

    proof fn lemma_variant_code(code: u8) {
    }

    fn from_code(code: u8) -> (r: Option<Self>) {
        match code {
            0 => Some(DisplayFormatType::Standard),
            1 => Some(DisplayFormatType::ForceVelocity),
            2 => Some(DisplayFormatType::PaceBoat),
            3 => Some(DisplayFormatType::PerStroke),
            4 => Some(DisplayFormatType::Simple),
            5 => Some(DisplayFormatType::Target),
            _ => None,
        }
    }

    fn code(&self) -> (r: u8) {
        match self {
            DisplayFormatType::Standard => 0,
            DisplayFormatType::ForceVelocity => 1,
            DisplayFormatType::PaceBoat => 2,
            DisplayFormatType::PerStroke => 3,
            DisplayFormatType::Simple => 4,
            DisplayFormatType::Target => 5,
        }
    }
}

impl Parse for DisplayFormatType {
    open spec fn width() -> nat {
        1
    }

    open spec fn accepts(raw: int) -> bool {
        0 <= raw < 256 && Self::variant_of(raw as u8) is Some
    }

    open spec fn raw(self) -> int {
        self.code_of() as int
    }

    proof fn lemma_raw_injective(a: Self, b: Self) {
        Self::lemma_code_round_trip(a);
        Self::lemma_code_round_trip(b);
    }

    fn parse(cursor: &mut Cursor) -> (r: Result<Self, ParseError>) {
        let r = decode_enum::<DisplayFormatType>(cursor);
        proof {
            if let Ok(v) = r {
                Self::lemma_variant_code(old(cursor).peek(1) as u8);
            }
        }
        r
    }
}

/// Stored workout selected.
#[derive(Debug, Clone, Copy, PartialEq, Eq, Structural)]
pub enum WorkoutNumber {
    /// Programmed.
    Programmed,
    /// Standard list 1.
    Default1,
    /// Standard list 2.
    Default2,
    /// Standard list 3.
    Default3,
    /// Standard list 4.
    Default4,
    /// Standard list 5.
    Default5,
    /// Custom list 1.
    Custom1,
    /// Custom list 2.
    Custom2,
    /// Custom list 3.
    Custom3,
    /// Custom list 4.
    Custom4,
    /// Custom list 5.
    Custom5,
    /// Favorite list 1.
    Msd1,
    /// Favorite list 2.
    Msd2,
    /// Favorite list 3.
    Msd3,
    /// Favorite list 4.
    Msd4,
    /// Favorite list 5.
    Msd5,
    /// Number of workouts.
    Num,
}

impl Discriminant for WorkoutNumber {
    open spec fn variant_of(code: u8) -> Option<Self> {
        match code {
            0 => Some(WorkoutNumber::Programmed),
            1 => Some(WorkoutNumber::Default1),
            2 => Some(WorkoutNumber::Default2),
            3 => Some(WorkoutNumber::Default3),
            4 => Some(WorkoutNumber::Default4),
            5 => Some(WorkoutNumber::Default5),
            6 => Some(WorkoutNumber::Custom1),
            7 => Some(WorkoutNumber::Custom2),
            8 => Some(WorkoutNumber::Custom3),
            9 => Some(WorkoutNumber::Custom4),
            10 => Some(WorkoutNumber::Custom5),
            11 => Some(WorkoutNumber::Msd1),
            12 => Some(WorkoutNumber::Msd2),
            13 => Some(WorkoutNumber::Msd3),
            14 => Some(WorkoutNumber::Msd4),
            15 => Some(WorkoutNumber::Msd5),
            16 => Some(WorkoutNumber::Num),
            _ => None,
        }
    }

    open spec fn code_of(self) -> u8 {
        match self {
            WorkoutNumber::Programmed => 0,
            WorkoutNumber::Default1 => 1,
            WorkoutNumber::Default2 => 2,
            WorkoutNumber::Default3 => 3,
            WorkoutNumber::Default4 => 4,
            WorkoutNumber::Default5 => 5,
            WorkoutNumber::Custom1 => 6,
            WorkoutNumber::Custom2 => 7,
            WorkoutNumber::Custom3 => 8,
            WorkoutNumber::Custom4 => 9,
            WorkoutNumber::Custom5 => 10,
            WorkoutNumber::Msd1 => 11,
            WorkoutNumber::Msd2 => 12,
            WorkoutNumber::Msd3 => 13,
            WorkoutNumber::Msd4 => 14,
            WorkoutNumber::Msd5 => 15,
            WorkoutNumber::Num => 16,
        }
    }

    proof fn lemma_code_round_trip(v: Self) {
    }

    proof fn lemma_variant_code(code: u8) {
    }

    fn from_code(code: u8) -> (r: Option<Self>) {
        match code {
            0 => Some(WorkoutNumber::Programmed),
            1 => Some(WorkoutNumber::Default1),
            2 => Some(WorkoutNumber::Default2),
            3 => Some(WorkoutNumber::Default3),
            4 => Some(WorkoutNumber::Default4),
            5 => Some(WorkoutNumber::Default5),
            6 => Some(WorkoutNumber::Custom1),
            7 => Some(WorkoutNumber::Custom2),
            8 => Some(WorkoutNumber::Custom3),
            9 => Some(WorkoutNumber::Custom4),
            10 => Some(WorkoutNumber::Custom5),
            11 => Some(WorkoutNumber::Msd1),
            12 => Some(WorkoutNumber::Msd2),
            13 => Some(WorkoutNumber::Msd3),
            14 => Some(WorkoutNumber::Msd4),
            15 => Some(WorkoutNumber::Msd5),
            16 => Some(WorkoutNumber::Num),
            _ => None,
        }
    }

    fn code(&self) -> (r: u8) {
        match self {
            WorkoutNumber::Programmed => 0,
            WorkoutNumber::Default1 => 1,
            WorkoutNumber::Default2 => 2,
            WorkoutNumber::Default3 => 3,
            WorkoutNumber::Default4 => 4,
            WorkoutNumber::Default5 => 5,
            WorkoutNumber::Custom1 => 6,
            WorkoutNumber::Custom2 => 7,
            WorkoutNumber::Custom3 => 8,
            WorkoutNumber::Custom4 => 9,
            WorkoutNumber::Custom5 => 10,
            WorkoutNumber::Msd1 => 11,
            WorkoutNumber::Msd2 => 12,
            WorkoutNumber::Msd3 => 13,
            WorkoutNumber::Msd4 => 14,
            WorkoutNumber::Msd5 => 15,
            WorkoutNumber::Num => 16,
        }
    }
}

impl Parse for WorkoutNumber {
    open spec fn width() -> nat {
        1
    }

    open spec fn accepts(raw: int) -> bool {
        0 <= raw < 256 && Self::variant_of(raw as u8) is Some
    }

    open spec fn raw(self) -> int {
        self.code_of() as int
    }

    proof fn lemma_raw_injective(a: Self, b: Self) {
        Self::lemma_code_round_trip(a);
        Self::lemma_code_round_trip(b);
    }

    fn parse(cursor: &mut Cursor) -> (r: Result<Self, ParseError>) {
        let r = decode_enum::<WorkoutNumber>(cursor);
        proof {
            if let Ok(v) = r {
                Self::lemma_variant_code(old(cursor).peek(1) as u8);
            }
        }
        r
    }
}

/// Whether workout programming is enabled.
#[derive(Debug, Clone, Copy, PartialEq, Eq, Structural)]
pub enum WorkoutProgrammingMode {
    /// Disable.
    Disable,
    /// Enable.
    Enable,
}

impl Discriminant for WorkoutProgrammingMode {
    open spec fn variant_of(code: u8) -> Option<Self> {
        match code {
            0 => Some(WorkoutProgrammingMode::Disable),
            1 => Some(WorkoutProgrammingMode::Enable),
            _ => None,
        }
    }

    open spec fn code_of(self) -> u8 {
        match self {
            WorkoutProgrammingMode::Disable => 0,
            WorkoutProgrammingMode::Enable => 1,
        }
    }

    proof fn lemma_code_round_trip(v: Self) {
    }

    proof fn lemma_variant_code(code: u8) {
    }

    fn from_code(code: u8) -> (r: Option<Self>) {
        match code {
            0 => Some(WorkoutProgrammingMode::Disable),
            1 => Some(WorkoutProgrammingMode::Enable),
            _ => None,
        }
    }

    fn code(&self) -> (r: u8) {
        match self {
            WorkoutProgrammingMode::Disable => 0,
            WorkoutProgrammingMode::Enable => 1,
        }
    }
}

impl Parse for WorkoutProgrammingMode {
    open spec fn width() -> nat {
        1
    }

    open spec fn accepts(raw: int) -> bool {
        0 <= raw < 256 && Self::variant_of(raw as u8) is Some
    }

    open spec fn raw(self) -> int {
        self.code_of() as int
    }

    proof fn lemma_raw_injective(a: Self, b: Self) {
        Self::lemma_code_round_trip(a);
        Self::lemma_code_round_trip(b);
    }

    fn parse(cursor: &mut Cursor) -> (r: Result<Self, ParseError>) {
        let r = decode_enum::<WorkoutProgrammingMode>(cursor);
        proof {
            if let Ok(v) = r {
                Self::lemma_variant_code(old(cursor).peek(1) as u8);
            }
        }
        r
    }
}

/// Trend of the stroke rate.
#[derive(Debug, Clone, Copy, PartialEq, Eq, Structural)]
pub enum StrokeRateState {
    /// Idle state.
    Idle,
    /// Steady state.
    Steady,
    /// Increasing state.
    Increasing,
    /// Decreasing state.
    Decreasing,
}

impl Discriminant for StrokeRateState {
    open spec fn variant_of(code: u8) -> Option<Self> {
        match code {
            0 => Some(StrokeRateState::Idle),
            1 => Some(StrokeRateState::Steady),
            2 => Some(StrokeRateState::Increasing),
            3 => Some(StrokeRateState::Decreasing),
            _ => None,
        }
    }

    open spec fn code_of(self) -> u8 {
        match self {
            StrokeRateState::Idle => 0,
            StrokeRateState::Steady => 1,
            StrokeRateState::Increasing => 2,
            StrokeRateState::Decreasing => 3,
        }
    }

    proof fn lemma_code_round_trip(v: Self) {
    }

    proof fn lemma_variant_code(code: u8) {
    }

    fn from_code(code: u8) -> (r: Option<Self>) {
        match code {
            0 => Some(StrokeRateState::Idle),
            1 => Some(StrokeRateState::Steady),
            2 => Some(StrokeRateState::Increasing),
            3 => Some(StrokeRateState::Decreasing),
            _ => None,
        }
    }

    fn code(&self) -> (r: u8) {
        match self {
            StrokeRateState::Idle => 0,
            StrokeRateState::Steady => 1,
            StrokeRateState::Increasing => 2,
            StrokeRateState::Decreasing => 3,
        }
    }
}

impl Parse for StrokeRateState {
    open spec fn width() -> nat {
        1
    }

    open spec fn accepts(raw: int) -> bool {
        0 <= raw < 256 && Self::variant_of(raw as u8) is Some
    }

    open spec fn raw(self) -> int {
        self.code_of() as int
    }

    proof fn lemma_raw_injective(a: Self, b: Self) {
        Self::lemma_code_round_trip(a);
        Self::lemma_code_round_trip(b);
    }

    fn parse(cursor: &mut Cursor) -> (r: Result<Self, ParseError>) {
        let r = decode_enum::<StrokeRateState>(cursor);
        proof {
            if let Ok(v) = r {
                Self::lemma_variant_code(old(cursor).peek(1) as u8);
            }
        }
        r
    }
}

/// How a race starts.
#[derive(Debug, Clone, Copy, PartialEq, Eq, Structural)]
pub enum StartType {
    /// Random type.
    Random,
    /// Countdown type.
    Countdown,
    /// Random modified type.
    RandomModified,
    /// Immediate type.
    Immediate,
    /// Wait for flywheel type.
    WaitForFlyWheel,
}

impl Discriminant for StartType {
    open spec fn variant_of(code: u8) -> Option<Self> {
        match code {
            0 => Some(StartType::Random),
            1 => Some(StartType::Countdown),
            2 => Some(StartType::RandomModified),
            3 => Some(StartType::Immediate),
            4 => Some(StartType::WaitForFlyWheel),
            _ => None,
        }
    }

    open spec fn code_of(self) -> u8 {
        match self {
            StartType::Random => 0,
            StartType::Countdown => 1,
            StartType::RandomModified => 2,
            StartType::Immediate => 3,
            StartType::WaitForFlyWheel => 4,
        }
    }

    proof fn lemma_code_round_trip(v: Self) {
    }

    proof fn lemma_variant_code(code: u8) {
    }

    fn from_code(code: u8) -> (r: Option<Self>) {
        match code {
            0 => Some(StartType::Random),
            1 => Some(StartType::Countdown),
            2 => Some(StartType::RandomModified),
            3 => Some(StartType::Immediate),
            4 => Some(StartType::WaitForFlyWheel),
            _ => None,
        }
    }

    fn code(&self) -> (r: u8) {
        match self {
            StartType::Random => 0,
            StartType::Countdown => 1,
            StartType::RandomModified => 2,
            StartType::Immediate => 3,
            StartType::WaitForFlyWheel => 4,
        }
    }
}

impl Parse for StartType {
    open spec fn width() -> nat {
        1
    }

    open spec fn accepts(raw: int) -> bool {
        0 <= raw < 256 && Self::variant_of(raw as u8) is Some
    }

    open spec fn raw(self) -> int {
        self.code_of() as int
    }

    proof fn lemma_raw_injective(a: Self, b: Self) {
        Self::lemma_code_round_trip(a);
        Self::lemma_code_round_trip(b);
    }

    fn parse(cursor: &mut Cursor) -> (r: Result<Self, ParseError>) {
        let r = decode_enum::<StartType>(cursor);
        proof {
            if let Ok(v) = r {
                Self::lemma_variant_code(old(cursor).peek(1) as u8);
            }
        }
        r
    }
}

/// Race operation requested.
#[derive(Debug, Clone, Copy, PartialEq, Eq, Structural)]
pub enum RaceOperationType {
    /// Disable type.
    Disable,
    /// Participation request type.
    ParticipationRequest,
    /// Sleep type.
    Sleep,
    /// Erg initialization type.
    ErgInit,
    /// Physical address/lane initialization type.
    PhyAddrInit,
    /// Race warmup type.
    RaceWarmup,
    /// Race initialization type.
    RaceInit,
    /// Time synchronization type.
    TimeSync,
    /// Race wait to start type.
    RaceWaitToStart,
    /// Race start type.
    Start,
    /// Race false start type.
    FalseStart,
    /// Race terminate type.
    Terminate,
    /// Race idle type.
    Idle,
    /// Tach simulator enable type.
    TachSimEnable,
    /// Tach simulator disable type.
    TachSimDisable,
}

impl Discriminant for RaceOperationType {
    open spec fn variant_of(code: u8) -> Option<Self> {
        match code {
            0 => Some(RaceOperationType::Disable),
            1 => Some(RaceOperationType::ParticipationRequest),
            2 => Some(RaceOperationType::Sleep),
            3 => Some(RaceOperationType::ErgInit),
            4 => Some(RaceOperationType::PhyAddrInit),
            5 => Some(RaceOperationType::RaceWarmup),
            6 => Some(RaceOperationType::RaceInit),
            7 => Some(RaceOperationType::TimeSync),
            8 => Some(RaceOperationType::RaceWaitToStart),
            9 => Some(RaceOperationType::Start),
            10 => Some(RaceOperationType::FalseStart),
            11 => Some(RaceOperationType::Terminate),
            12 => Some(RaceOperationType::Idle),
            13 => Some(RaceOperationType::TachSimEnable),
            14 => Some(RaceOperationType::TachSimDisable),
            _ => None,
        }
    }

    open spec fn code_of(self) -> u8 {
        match self {
            RaceOperationType::Disable => 0,
            RaceOperationType::ParticipationRequest => 1,
            RaceOperationType::Sleep => 2,
            RaceOperationType::ErgInit => 3,
            RaceOperationType::PhyAddrInit => 4,
            RaceOperationType::RaceWarmup => 5,
            RaceOperationType::RaceInit => 6,
            RaceOperationType::TimeSync => 7,
            RaceOperationType::RaceWaitToStart => 8,
            RaceOperationType::Start => 9,
            RaceOperationType::FalseStart => 10,
            RaceOperationType::Terminate => 11,
            RaceOperationType::Idle => 12,
            RaceOperationType::TachSimEnable => 13,
            RaceOperationType::TachSimDisable => 14,
        }
    }

    proof fn lemma_code_round_trip(v: Self) {
    }

    proof fn lemma_variant_code(code: u8) {
    }

    fn from_code(code: u8) -> (r: Option<Self>) {
        match code {
            0 => Some(RaceOperationType::Disable),
            1 => Some(RaceOperationType::ParticipationRequest),
            2 => Some(RaceOperationType::Sleep),
            3 => Some(RaceOperationType::ErgInit),
            4 => Some(RaceOperationType::PhyAddrInit),
            5 => Some(RaceOperationType::RaceWarmup),
            6 => Some(RaceOperationType::RaceInit),
            7 => Some(RaceOperationType::TimeSync),
            8 => Some(RaceOperationType::RaceWaitToStart),
            9 => Some(RaceOperationType::Start),
            10 => Some(RaceOperationType::FalseStart),
            11 => Some(RaceOperationType::Terminate),
            12 => Some(RaceOperationType::Idle),
            13 => Some(RaceOperationType::TachSimEnable),
            14 => Some(RaceOperationType::TachSimDisable),
            _ => None,
        }
    }

    fn code(&self) -> (r: u8) {
        match self {
            RaceOperationType::Disable => 0,
            RaceOperationType::ParticipationRequest => 1,
            RaceOperationType::Sleep => 2,
            RaceOperationType::ErgInit => 3,
            RaceOperationType::PhyAddrInit => 4,
            RaceOperationType::RaceWarmup => 5,
            RaceOperationType::RaceInit => 6,
            RaceOperationType::TimeSync => 7,
            RaceOperationType::RaceWaitToStart => 8,
            RaceOperationType::Start => 9,
            RaceOperationType::FalseStart => 10,
            RaceOperationType::Terminate => 11,
            RaceOperationType::Idle => 12,
            RaceOperationType::TachSimEnable => 13,
            RaceOperationType::TachSimDisable => 14,
        }
    }
}

impl Parse for RaceOperationType {
    open spec fn width() -> nat {
        1
    }

    open spec fn accepts(raw: int) -> bool {
        0 <= raw < 256 && Self::variant_of(raw as u8) is Some
    }

    open spec fn raw(self) -> int {
        self.code_of() as int
    }

    proof fn lemma_raw_injective(a: Self, b: Self) {
        Self::lemma_code_round_trip(a);
        Self::lemma_code_round_trip(b);
    }

    fn parse(cursor: &mut Cursor) -> (r: Result<Self, ParseError>) {
        let r = decode_enum::<RaceOperationType>(cursor);
        proof {
            if let Ok(v) = r {
                Self::lemma_variant_code(old(cursor).peek(1) as u8);
            }
        }
        r
    }
}

/// State of a race.
#[derive(Debug, Clone, Copy, PartialEq, Eq, Structural)]
pub enum RaceState {
    /// Race idle state.
    Idle,
    /// Race countdown state.
    Countdown,
    /// Race rowing state.
    Rowing,
    /// Race interval rest state.
    IntervalRest,
    /// Race end interval state.
    EndInterval,
    /// Race end workout state.
    EndWorkoutRace,
    /// Race terminate workout state.
    TerminateWorkoutRace,
    /// Race false start state.
    Falsestart,
    /// Race inactive state.
    Inactive,
}

impl Discriminant for RaceState {
    open spec fn variant_of(code: u8) -> Option<Self> {
        match code {
            0 => Some(RaceState::Idle),
            1 => Some(RaceState::Countdown),
            2 => Some(RaceState::Rowing),
            3 => Some(RaceState::IntervalRest),
            4 => Some(RaceState::EndInterval),
            5 => Some(RaceState::EndWorkoutRace),
            6 => Some(RaceState::TerminateWorkoutRace),
            7 => Some(RaceState::Falsestart),
            8 => Some(RaceState::Inactive),
            _ => None,
        }
    }

    open spec fn code_of(self) -> u8 {
        match self {
            RaceState::Idle => 0,
            RaceState::Countdown => 1,
            RaceState::Rowing => 2,
            RaceState::IntervalRest => 3,
            RaceState::EndInterval => 4,
            RaceState::EndWorkoutRace => 5,
            RaceState::TerminateWorkoutRace => 6,
            RaceState::Falsestart => 7,
            RaceState::Inactive => 8,
        }
    }

    proof fn lemma_code_round_trip(v: Self) {
    }

    proof fn lemma_variant_code(code: u8) {
    }

    fn from_code(code: u8) -> (r: Option<Self>) {
        match code {
            0 => Some(RaceState::Idle),
            1 => Some(RaceState::Countdown),
            2 => Some(RaceState::Rowing),
            3 => Some(RaceState::IntervalRest),
            4 => Some(RaceState::EndInterval),
            5 => Some(RaceState::EndWorkoutRace),
            6 => Some(RaceState::TerminateWorkoutRace),
            7 => Some(RaceState::Falsestart),
            8 => Some(RaceState::Inactive),
            _ => None,
        }
    }

    fn code(&self) -> (r: u8) {
        match self {
            RaceState::Idle => 0,
            RaceState::Countdown => 1,
            RaceState::Rowing => 2,
            RaceState::IntervalRest => 3,
            RaceState::EndInterval => 4,
            RaceState::EndWorkoutRace => 5,
            RaceState::TerminateWorkoutRace => 6,
            RaceState::Falsestart => 7,
            RaceState::Inactive => 8,
        }
    }
}

impl Parse for RaceState {
    open spec fn width() -> nat {
        1
    }

    open spec fn accepts(raw: int) -> bool {
        0 <= raw < 256 && Self::variant_of(raw as u8) is Some
    }

    open spec fn raw(self) -> int {
        self.code_of() as int
    }

    proof fn lemma_raw_injective(a: Self, b: Self) {
        Self::lemma_code_round_trip(a);
        Self::lemma_code_round_trip(b);
    }

    fn parse(cursor: &mut Cursor) -> (r: Result<Self, ParseError>) {
        let r = decode_enum::<RaceState>(cursor);
        proof {
            if let Ok(v) = r {
                Self::lemma_variant_code(old(cursor).peek(1) as u8);
            }
        }
        r
    }
}

/// Kind of race.
#[derive(Debug, Clone, Copy, PartialEq, Eq, Structural)]
pub enum RaceType {
    /// Fixed distance, individual type.
    FixeddistSingleerg,
    /// Fixed time, individual type.
    FixedtimeSingleerg,
    /// Fixed distance, team type.
    FixeddistTeamerg,
    /// Fixed time, team type.
    FixedtimeTeamerg,
    /// Workout race start type.
    Workoutracestart,
    /// Fixed calorie, individual type.
    FixedcalSingleerg,
    /// Fixed calorie, team type.
    FixedcalTeamerg,
    /// Fixed distance, relay individual type.
    FixeddistRelaySingleerg,
    /// Fixed time, relay individual type.
    FixedtimeRelaySingleerg,
    /// Fixed calorie, relay individual type.
    FixedcalRelaySingleerg,
    /// Fixed distance, relay team type.
    FixeddistRelayTeamerg,
    /// Fixed time, relay team type.
    FixedtimeRelayTeamerg,
    /// Fixed calorie, relay team type.
    FixedcalRelayTeamerg,
    /// Fixed distance, multiactivity individual type, sequential use.
    FixeddistMultiactivitySequentialSingleerg,
    /// Fixed time, multiactivity individual type, sequential use.
    FixedtimeMultiactivitySequentialSingleerg,
    /// Fixed calorie, multiactivity individual type, sequential use.
    FixedcalMultiactivitySequentialSingleerg,
    /// Fixed distance, multiactivity team type, sequential use.
    FixeddistMultiactivitySequentialTeamerg,
    /// Fixed time, multiactivity team type, sequential use.
    FixedtimeMultiactivitySequentialTeamerg,
    /// Fixed calorie, multiactivity team type, sequential use.
    FixedcalMultiactivitySequentialTeamerg,
    /// Fixed distance, Ergathlon type.
    FixeddistErgathlon,
    /// Fixed time, Ergathlon type.
    FixedtimeErgathlon,
    /// Fixed calorie, Ergathlon type.
    FixedcalErgathlon,
    /// Fixed distance, multiactivity individual type, simultaneous use.
    FixeddistMultiactivitySimultaneousSingleerg,
    /// Fixed time, multiactivity individual type, simultaneous use.
    FixedtimeMultiactivitySimultaneousSingleerg,
    /// Fixed calorie, multiactivity individual type, simultaneous use.
    FixedcalMultiactivitySimultaneousSingleerg,
    /// Fixed distance, multiactivity team type, simultaneous use.
    FixeddistMultiactivitySimultaneousTeamerg,
    /// Fixed time, multiactivity team type, simultaneous use.
    FixedtimeMultiactivitySimultaneousTeamerg,
    /// Fixed calorie, multiactivity team type, simultaneous use.
    FixedcalMultiactivitySimultaneousTeamerg,
    /// Fixed distance, Biathlon type.
    FixeddistBiathlon,
    /// Fixed calorie, Biathlon type.
    FixedcalBiathlon,
    /// Fixed distance, no change prompt, relay individual type.
    FixeddistRelayNochangeSingleerg,
    /// Fixed time, no change prompt, relay individual type.
    FixedtimeRelayNochangeSingleerg,
    /// Fixed calorie, no change prompt, relay individual type.
    FixedcalRelayNochangeSingleerg,
    /// Fixed time, calorie score, individual type.
    FixedtimeCalscoreSingleerg,
    /// Fixed time, calorie score, team type.
    FixedtimeCalscoreTeamerg,
    /// Fixed time, calorie score, individual type.
    FixeddistTimecapSingleerg,
    /// Fixed time, calorie score, team type.
    FixedcalTimecapSingleerg,
}

impl Discriminant for RaceType {
    open spec fn variant_of(code: u8) -> Option<Self> {
        match code {
            0 => Some(RaceType::FixeddistSingleerg),
            1 => Some(RaceType::FixedtimeSingleerg),
            2 => Some(RaceType::FixeddistTeamerg),
            3 => Some(RaceType::FixedtimeTeamerg),
            4 => Some(RaceType::Workoutracestart),
            5 => Some(RaceType::FixedcalSingleerg),
            6 => Some(RaceType::FixedcalTeamerg),
            7 => Some(RaceType::FixeddistRelaySingleerg),
            8 => Some(RaceType::FixedtimeRelaySingleerg),
            9 => Some(RaceType::FixedcalRelaySingleerg),
            10 => Some(RaceType::FixeddistRelayTeamerg),
            11 => Some(RaceType::FixedtimeRelayTeamerg),
            12 => Some(RaceType::FixedcalRelayTeamerg),
            13 => Some(RaceType::FixeddistMultiactivitySequentialSingleerg),
            14 => Some(RaceType::FixedtimeMultiactivitySequentialSingleerg),
            15 => Some(RaceType::FixedcalMultiactivitySequentialSingleerg),
            16 => Some(RaceType::FixeddistMultiactivitySequentialTeamerg),
            17 => Some(RaceType::FixedtimeMultiactivitySequentialTeamerg),
            18 => Some(RaceType::FixedcalMultiactivitySequentialTeamerg),
            19 => Some(RaceType::FixeddistErgathlon),
            20 => Some(RaceType::FixedtimeErgathlon),
            21 => Some(RaceType::FixedcalErgathlon),
            22 => Some(RaceType::FixeddistMultiactivitySimultaneousSingleerg),
            23 => Some(RaceType::FixedtimeMultiactivitySimultaneousSingleerg),
            24 => Some(RaceType::FixedcalMultiactivitySimultaneousSingleerg),
            25 => Some(RaceType::FixeddistMultiactivitySimultaneousTeamerg),
            26 => Some(RaceType::FixedtimeMultiactivitySimultaneousTeamerg),
            27 => Some(RaceType::FixedcalMultiactivitySimultaneousTeamerg),
            28 => Some(RaceType::FixeddistBiathlon),
            29 => Some(RaceType::FixedcalBiathlon),
            30 => Some(RaceType::FixeddistRelayNochangeSingleerg),
            31 => Some(RaceType::FixedtimeRelayNochangeSingleerg),
            32 => Some(RaceType::FixedcalRelayNochangeSingleerg),
            33 => Some(RaceType::FixedtimeCalscoreSingleerg),
            34 => Some(RaceType::FixedtimeCalscoreTeamerg),
            35 => Some(RaceType::FixeddistTimecapSingleerg),
            36 => Some(RaceType::FixedcalTimecapSingleerg),
            _ => None,
        }
    }

    open spec fn code_of(self) -> u8 {
        match self {
            RaceType::FixeddistSingleerg => 0,
            RaceType::FixedtimeSingleerg => 1,
            RaceType::FixeddistTeamerg => 2,
            RaceType::FixedtimeTeamerg => 3,
            RaceType::Workoutracestart => 4,
            RaceType::FixedcalSingleerg => 5,
            RaceType::FixedcalTeamerg => 6,
            RaceType::FixeddistRelaySingleerg => 7,
            RaceType::FixedtimeRelaySingleerg => 8,
            RaceType::FixedcalRelaySingleerg => 9,
            RaceType::FixeddistRelayTeamerg => 10,
            RaceType::FixedtimeRelayTeamerg => 11,
            RaceType::FixedcalRelayTeamerg => 12,
            RaceType::FixeddistMultiactivitySequentialSingleerg => 13,
            RaceType::FixedtimeMultiactivitySequentialSingleerg => 14,
            RaceType::FixedcalMultiactivitySequentialSingleerg => 15,
            RaceType::FixeddistMultiactivitySequentialTeamerg => 16,
            RaceType::FixedtimeMultiactivitySequentialTeamerg => 17,
            RaceType::FixedcalMultiactivitySequentialTeamerg => 18,
            RaceType::FixeddistErgathlon => 19,
            RaceType::FixedtimeErgathlon => 20,
            RaceType::FixedcalErgathlon => 21,
            RaceType::FixeddistMultiactivitySimultaneousSingleerg => 22,
            RaceType::FixedtimeMultiactivitySimultaneousSingleerg => 23,
            RaceType::FixedcalMultiactivitySimultaneousSingleerg => 24,
            RaceType::FixeddistMultiactivitySimultaneousTeamerg => 25,
            RaceType::FixedtimeMultiactivitySimultaneousTeamerg => 26,
            RaceType::FixedcalMultiactivitySimultaneousTeamerg => 27,
            RaceType::FixeddistBiathlon => 28,
            RaceType::FixedcalBiathlon => 29,
            RaceType::FixeddistRelayNochangeSingleerg => 30,
            RaceType::FixedtimeRelayNochangeSingleerg => 31,
            RaceType::FixedcalRelayNochangeSingleerg => 32,
            RaceType::FixedtimeCalscoreSingleerg => 33,
            RaceType::FixedtimeCalscoreTeamerg => 34,
            RaceType::FixeddistTimecapSingleerg => 35,
            RaceType::FixedcalTimecapSingleerg => 36,
        }
    }

    proof fn lemma_code_round_trip(v: Self) {
    }

    proof fn lemma_variant_code(code: u8) {
    }

    fn from_code(code: u8) -> (r: Option<Self>) {
        match code {
            0 => Some(RaceType::FixeddistSingleerg),
            1 => Some(RaceType::FixedtimeSingleerg),
            2 => Some(RaceType::FixeddistTeamerg),
            3 => Some(RaceType::FixedtimeTeamerg),
            4 => Some(RaceType::Workoutracestart),
            5 => Some(RaceType::FixedcalSingleerg),
            6 => Some(RaceType::FixedcalTeamerg),
            7 => Some(RaceType::FixeddistRelaySingleerg),
            8 => Some(RaceType::FixedtimeRelaySingleerg),
            9 => Some(RaceType::FixedcalRelaySingleerg),
            10 => Some(RaceType::FixeddistRelayTeamerg),
            11 => Some(RaceType::FixedtimeRelayTeamerg),
            12 => Some(RaceType::FixedcalRelayTeamerg),
            13 => Some(RaceType::FixeddistMultiactivitySequentialSingleerg),
            14 => Some(RaceType::FixedtimeMultiactivitySequentialSingleerg),
            15 => Some(RaceType::FixedcalMultiactivitySequentialSingleerg),
            16 => Some(RaceType::FixeddistMultiactivitySequentialTeamerg),
            17 => Some(RaceType::FixedtimeMultiactivitySequentialTeamerg),
            18 => Some(RaceType::FixedcalMultiactivitySequentialTeamerg),
            19 => Some(RaceType::FixeddistErgathlon),
            20 => Some(RaceType::FixedtimeErgathlon),
            21 => Some(RaceType::FixedcalErgathlon),
            22 => Some(RaceType::FixeddistMultiactivitySimultaneousSingleerg),
            23 => Some(RaceType::FixedtimeMultiactivitySimultaneousSingleerg),
            24 => Some(RaceType::FixedcalMultiactivitySimultaneousSingleerg),
            25 => Some(RaceType::FixeddistMultiactivitySimultaneousTeamerg),
            26 => Some(RaceType::FixedtimeMultiactivitySimultaneousTeamerg),
            27 => Some(RaceType::FixedcalMultiactivitySimultaneousTeamerg),
            28 => Some(RaceType::FixeddistBiathlon),
            29 => Some(RaceType::FixedcalBiathlon),
            30 => Some(RaceType::FixeddistRelayNochangeSingleerg),
            31 => Some(RaceType::FixedtimeRelayNochangeSingleerg),
            32 => Some(RaceType::FixedcalRelayNochangeSingleerg),
            33 => Some(RaceType::FixedtimeCalscoreSingleerg),
            34 => Some(RaceType::FixedtimeCalscoreTeamerg),
            35 => Some(RaceType::FixeddistTimecapSingleerg),
            36 => Some(RaceType::FixedcalTimecapSingleerg),
            _ => None,
        }
    }

    fn code(&self) -> (r: u8) {
        match self {
            RaceType::FixeddistSingleerg => 0,
            RaceType::FixedtimeSingleerg => 1,
            RaceType::FixeddistTeamerg => 2,
            RaceType::FixedtimeTeamerg => 3,
            RaceType::Workoutracestart => 4,
            RaceType::FixedcalSingleerg => 5,
            RaceType::FixedcalTeamerg => 6,
            RaceType::FixeddistRelaySingleerg => 7,
            RaceType::FixedtimeRelaySingleerg => 8,
            RaceType::FixedcalRelaySingleerg => 9,
            RaceType::FixeddistRelayTeamerg => 10,
            RaceType::FixedtimeRelayTeamerg => 11,
            RaceType::FixedcalRelayTeamerg => 12,
            RaceType::FixeddistMultiactivitySequentialSingleerg => 13,
            RaceType::FixedtimeMultiactivitySequentialSingleerg => 14,
            RaceType::FixedcalMultiactivitySequentialSingleerg => 15,
            RaceType::FixeddistMultiactivitySequentialTeamerg => 16,
            RaceType::FixedtimeMultiactivitySequentialTeamerg => 17,
            RaceType::FixedcalMultiactivitySequentialTeamerg => 18,
            RaceType::FixeddistErgathlon => 19,
            RaceType::FixedtimeErgathlon => 20,
            RaceType::FixedcalErgathlon => 21,
            RaceType::FixeddistMultiactivitySimultaneousSingleerg => 22,
            RaceType::FixedtimeMultiactivitySimultaneousSingleerg => 23,
            RaceType::FixedcalMultiactivitySimultaneousSingleerg => 24,
            RaceType::FixeddistMultiactivitySimultaneousTeamerg => 25,
            RaceType::FixedtimeMultiactivitySimultaneousTeamerg => 26,
            RaceType::FixedcalMultiactivitySimultaneousTeamerg => 27,
            RaceType::FixeddistBiathlon => 28,
            RaceType::FixedcalBiathlon => 29,
            RaceType::FixeddistRelayNochangeSingleerg => 30,
            RaceType::FixedtimeRelayNochangeSingleerg => 31,
            RaceType::FixedcalRelayNochangeSingleerg => 32,
            RaceType::FixedtimeCalscoreSingleerg => 33,
            RaceType::FixedtimeCalscoreTeamerg => 34,
            RaceType::FixeddistTimecapSingleerg => 35,
            RaceType::FixedcalTimecapSingleerg => 36,
        }
    }
}

impl Parse for RaceType {
    open spec fn width() -> nat {
        1
    }

    open spec fn accepts(raw: int) -> bool {
        0 <= raw < 256 && Self::variant_of(raw as u8) is Some
    }

    open spec fn raw(self) -> int {
        self.code_of() as int
    }

    proof fn lemma_raw_injective(a: Self, b: Self) {
        Self::lemma_code_round_trip(a);
        Self::lemma_code_round_trip(b);
    }

    fn parse(cursor: &mut Cursor) -> (r: Result<Self, ParseError>) {
        let r = decode_enum::<RaceType>(cursor);
        proof {
            if let Ok(v) = r {
                Self::lemma_variant_code(old(cursor).peek(1) as u8);
            }
        }
        r
    }
}

/// Stage of a race start.
#[derive(Debug, Clone, Copy, PartialEq, Eq, Structural)]
pub enum RaceStartState {
    /// Init state.
    Init,
    /// Prepare state.
    Prepare,
    /// Wait ready state.
    WaitReady,
    /// Wait attention state.
    WaitAttention,
    /// Wait row state.
    WaitRow,
    /// Countdown state.
    Countdown,
    /// Row state.
    Row,
    /// False start state.
    FalseStart,
}

impl Discriminant for RaceStartState {
    open spec fn variant_of(code: u8) -> Option<Self> {
        match code {
            0 => Some(RaceStartState::Init),
            1 => Some(RaceStartState::Prepare),
            2 => Some(RaceStartState::WaitReady),
            3 => Some(RaceStartState::WaitAttention),
            4 => Some(RaceStartState::WaitRow),
            5 => Some(RaceStartState::Countdown),
            6 => Some(RaceStartState::Row),
            7 => Some(RaceStartState::FalseStart),
            _ => None,
        }
    }

    open spec fn code_of(self) -> u8 {
        match self {
            RaceStartState::Init => 0,
            RaceStartState::Prepare => 1,
            RaceStartState::WaitReady => 2,
            RaceStartState::WaitAttention => 3,
            RaceStartState::WaitRow => 4,
            RaceStartState::Countdown => 5,
            RaceStartState::Row => 6,
            RaceStartState::FalseStart => 7,
        }
    }

    proof fn lemma_code_round_trip(v: Self) {
    }

    proof fn lemma_variant_code(code: u8) {
    }

    fn from_code(code: u8) -> (r: Option<Self>) {
        match code {
            0 => Some(RaceStartState::Init),
            1 => Some(RaceStartState::Prepare),
            2 => Some(RaceStartState::WaitReady),
            3 => Some(RaceStartState::WaitAttention),
            4 => Some(RaceStartState::WaitRow),
            5 => Some(RaceStartState::Countdown),
            6 => Some(RaceStartState::Row),
            7 => Some(RaceStartState::FalseStart),
            _ => None,
        }
    }

    fn code(&self) -> (r: u8) {
        match self {
            RaceStartState::Init => 0,
            RaceStartState::Prepare => 1,
            RaceStartState::WaitReady => 2,
            RaceStartState::WaitAttention => 3,
            RaceStartState::WaitRow => 4,
            RaceStartState::Countdown => 5,
            RaceStartState::Row => 6,
            RaceStartState::FalseStart => 7,
        }
    }
}

impl Parse for RaceStartState {
    open spec fn width() -> nat {
        1
    }

    open spec fn accepts(raw: int) -> bool {
        0 <= raw < 256 && Self::variant_of(raw as u8) is Some
    }

    open spec fn raw(self) -> int {
        self.code_of() as int
    }

    proof fn lemma_raw_injective(a: Self, b: Self) {
        Self::lemma_code_round_trip(a);
        Self::lemma_code_round_trip(b);
    }

    fn parse(cursor: &mut Cursor) -> (r: Result<Self, ParseError>) {
        let r = decode_enum::<RaceStartState>(cursor);
        proof {
            if let Ok(v) = r {
                Self::lemma_variant_code(old(cursor).peek(1) as u8);
            }
        }
        r
    }
}

/// Kind of screen.
#[derive(Debug, Clone, Copy, PartialEq, Eq, Structural)]
pub enum ScreenType {
    NoScreen,
    /// Workout type.
    Workout,
    /// Race type.
    Race,
    /// CSAFE type.
    Csafe,
    /// Diagnostic type.
    Diag,
    /// Manufacturing type.
    Mfg,
}

impl Discriminant for ScreenType {
    open spec fn variant_of(code: u8) -> Option<Self> {
        match code {
            0 => Some(ScreenType::NoScreen),
            1 => Some(ScreenType::Workout),
            2 => Some(ScreenType::Race),
            3 => Some(ScreenType::Csafe),
            4 => Some(ScreenType::Diag),
            5 => Some(ScreenType::Mfg),
            _ => None,
        }
    }

    open spec fn code_of(self) -> u8 {
        match self {
            ScreenType::NoScreen => 0,
            ScreenType::Workout => 1,
            ScreenType::Race => 2,
            ScreenType::Csafe => 3,
            ScreenType::Diag => 4,
            ScreenType::Mfg => 5,
        }
    }

    proof fn lemma_code_round_trip(v: Self) {
    }

    proof fn lemma_variant_code(code: u8) {
    }

    fn from_code(code: u8) -> (r: Option<Self>) {
        match code {
            0 => Some(ScreenType::NoScreen),
            1 => Some(ScreenType::Workout),
            2 => Some(ScreenType::Race),
            3 => Some(ScreenType::Csafe),
            4 => Some(ScreenType::Diag),
            5 => Some(ScreenType::Mfg),
            _ => None,
        }
    }

    fn code(&self) -> (r: u8) {
        match self {
            ScreenType::NoScreen => 0,
            ScreenType::Workout => 1,
            ScreenType::Race => 2,
            ScreenType::Csafe => 3,
            ScreenType::Diag => 4,
            ScreenType::Mfg => 5,
        }
    }
}

impl Parse for ScreenType {
    open spec fn width() -> nat {
        1
    }

    open spec fn accepts(raw: int) -> bool {
        0 <= raw < 256 && Self::variant_of(raw as u8) is Some
    }

    open spec fn raw(self) -> int {
        self.code_of() as int
    }

    proof fn lemma_raw_injective(a: Self, b: Self) {
        Self::lemma_code_round_trip(a);
        Self::lemma_code_round_trip(b);
    }

    fn parse(cursor: &mut Cursor) -> (r: Result<Self, ParseError>) {
        let r = decode_enum::<ScreenType>(cursor);
        proof {
            if let Ok(v) = r {
                Self::lemma_variant_code(old(cursor).peek(1) as u8);
            }
        }
        r
    }
}

/// Workout screen action.
#[derive(Debug, Clone, Copy, PartialEq, Eq, Structural)]
pub enum ScreenValueWorkoutType {
    /// None value.
    NoValue,
    /// Prepare to workout type.
    PrepareToRowWorkout,
    /// Terminate workout type.
    TerminateWorkout,
    /// Rearm workout type.
    RearmWorkout,
    /// Refresh local copies of logcard structures.
    RefreshLogCard,
    /// Prepare to race start.
    PrepareToRaceStart,
    /// Goto to main screen.
    GoToMainScreen,
    /// Log device busy warning.
    LogCardBusyWarning,
    /// Log device select user.
    LogCardSelectUser,
    /// Reset race parameters.
    ResetRaceParams,
    /// Cable test slave indication.
    CableTestSlave,
    /// Fish game.
    FishGame,
    /// Display participant info.
    DisplayParticipantInfo,
    /// Display participant info w/ confirmation.
    DisplayParticipantInfoConfirm,
    /// Display type set to target.
    ChangedisPlayTypeTarget,
    /// Display type set to standard.
    ChangedisPlayTypeStandard,
    /// Display type set to forcevelocity.
    ChangedisPlayTypeForceVelocity,
    /// Display type set to Paceboat.
    ChangedisPlayTypePaceBoat,
    /// Display type set to perstroke.
    ChangedisPlayTypePerStroke,
    /// Display type set to simple.
    ChangedisPlayTypeSimple,
    /// Units type set to timemeters.
    ChangeUnitsTypeTimeMeters,
    /// Units type set to pace.
    ChangeUnitsTypePace,
    /// Units type set to watts.
    ChangeUnitsTypeWatts,
    /// Units type set to caloric burn rate.
    ChangeUnitsTypeCaloricBurnRate,
    /// Basic target game.
    TargetGameBasic,
    /// Advanced target game.
    TargetGameAdvanced,
    /// Dart game.
    DartGame,
    /// USB wait ready.
    GoToUsbWaitReady,
    /// Tach cable test disable.
    TachCableTestDisable,
    /// Tach simulator disable.
    TachSimDisable,
    /// Tach simulator enable, rate = 1:12.
    TachSimEnableRate1,
    /// Tach simulator enable, rate = 1:35.
    TachSimEnableRate2,
    /// Tach simulator enable, rate = 1:42.
    TachSimEnableRate3,
    /// Tach simulator enable, rate = 3:04.
    TachSimEnableRate4,
    /// Tach simulator enable, rate = 3:14.
    TachSimEnableRate5,
    /// Tach cable test enable.
    TachCableTestEnable,
    /// Units type set to calories.
    ChangeUnitsYypeCalories,
    /// Virtual key select A.
    VirtualkeyA,
    /// Virtual key select B.
    VirtualkeyB,
    /// Virtual key select C.
    VirtualkeyC,
    /// Virtual key select D.
    VirtualkeyD,
    /// Virtual key select E.
    VirtualkeyE,
    /// Virtual key select Units.
    VirtualkeyUnits,
    /// Virtual key select Display.
    VirtualkeyDisplay,
    /// Virtual key select Menu.
    VirtualkeyMenu,
    /// Tach simulator enable, rate = random.
    TachSimEnableRateRandom,
    /// Screen redraw.
    ScreenRedraw,
}

impl Discriminant for ScreenValueWorkoutType {
    open spec fn variant_of(code: u8) -> Option<Self> {
        match code {
            0 => Some(ScreenValueWorkoutType::NoValue),
            1 => Some(ScreenValueWorkoutType::PrepareToRowWorkout),
            2 => Some(ScreenValueWorkoutType::TerminateWorkout),
            3 => Some(ScreenValueWorkoutType::RearmWorkout),
            4 => Some(ScreenValueWorkoutType::RefreshLogCard),
            5 => Some(ScreenValueWorkoutType::PrepareToRaceStart),
            6 => Some(ScreenValueWorkoutType::GoToMainScreen),
            7 => Some(ScreenValueWorkoutType::LogCardBusyWarning),
            8 => Some(ScreenValueWorkoutType::LogCardSelectUser),
            9 => Some(ScreenValueWorkoutType::ResetRaceParams),
            10 => Some(ScreenValueWorkoutType::CableTestSlave),
            11 => Some(ScreenValueWorkoutType::FishGame),
            12 => Some(ScreenValueWorkoutType::DisplayParticipantInfo),
            13 => Some(ScreenValueWorkoutType::DisplayParticipantInfoConfirm),
            20 => Some(ScreenValueWorkoutType::ChangedisPlayTypeTarget),
            21 => Some(ScreenValueWorkoutType::ChangedisPlayTypeStandard),
            22 => Some(ScreenValueWorkoutType::ChangedisPlayTypeForceVelocity),
            23 => Some(ScreenValueWorkoutType::ChangedisPlayTypePaceBoat),
            24 => Some(ScreenValueWorkoutType::ChangedisPlayTypePerStroke),
            25 => Some(ScreenValueWorkoutType::ChangedisPlayTypeSimple),
            30 => Some(ScreenValueWorkoutType::ChangeUnitsTypeTimeMeters),
            31 => Some(ScreenValueWorkoutType::ChangeUnitsTypePace),
            32 => Some(ScreenValueWorkoutType::ChangeUnitsTypeWatts),
            33 => Some(ScreenValueWorkoutType::ChangeUnitsTypeCaloricBurnRate),
            34 => Some(ScreenValueWorkoutType::TargetGameBasic),
            35 => Some(ScreenValueWorkoutType::TargetGameAdvanced),
            36 => Some(ScreenValueWorkoutType::DartGame),
            37 => Some(ScreenValueWorkoutType::GoToUsbWaitReady),
            38 => Some(ScreenValueWorkoutType::TachCableTestDisable),
            39 => Some(ScreenValueWorkoutType::TachSimDisable),
            40 => Some(ScreenValueWorkoutType::TachSimEnableRate1),
            41 => Some(ScreenValueWorkoutType::TachSimEnableRate2),
            42 => Some(ScreenValueWorkoutType::TachSimEnableRate3),
            43 => Some(ScreenValueWorkoutType::TachSimEnableRate4),
            44 => Some(ScreenValueWorkoutType::TachSimEnableRate5),
            45 => Some(ScreenValueWorkoutType::TachCableTestEnable),
            46 => Some(ScreenValueWorkoutType::ChangeUnitsYypeCalories),
            47 => Some(ScreenValueWorkoutType::VirtualkeyA),
            48 => Some(ScreenValueWorkoutType::VirtualkeyB),
            49 => Some(ScreenValueWorkoutType::VirtualkeyC),
            50 => Some(ScreenValueWorkoutType::VirtualkeyD),
            51 => Some(ScreenValueWorkoutType::VirtualkeyE),
            52 => Some(ScreenValueWorkoutType::VirtualkeyUnits),
            53 => Some(ScreenValueWorkoutType::VirtualkeyDisplay),
            54 => Some(ScreenValueWorkoutType::VirtualkeyMenu),
            55 => Some(ScreenValueWorkoutType::TachSimEnableRateRandom),
            255 => Some(ScreenValueWorkoutType::ScreenRedraw),
            _ => None,
        }
    }

    open spec fn code_of(self) -> u8 {
        match self {
            ScreenValueWorkoutType::NoValue => 0,
            ScreenValueWorkoutType::PrepareToRowWorkout => 1,
            ScreenValueWorkoutType::TerminateWorkout => 2,
            ScreenValueWorkoutType::RearmWorkout => 3,
            ScreenValueWorkoutType::RefreshLogCard => 4,
            ScreenValueWorkoutType::PrepareToRaceStart => 5,
            ScreenValueWorkoutType::GoToMainScreen => 6,
            ScreenValueWorkoutType::LogCardBusyWarning => 7,
            ScreenValueWorkoutType::LogCardSelectUser => 8,
            ScreenValueWorkoutType::ResetRaceParams => 9,
            ScreenValueWorkoutType::CableTestSlave => 10,
            ScreenValueWorkoutType::FishGame => 11,
            ScreenValueWorkoutType::DisplayParticipantInfo => 12,
            ScreenValueWorkoutType::DisplayParticipantInfoConfirm => 13,
            ScreenValueWorkoutType::ChangedisPlayTypeTarget => 20,
            ScreenValueWorkoutType::ChangedisPlayTypeStandard => 21,
            ScreenValueWorkoutType::ChangedisPlayTypeForceVelocity => 22,
            ScreenValueWorkoutType::ChangedisPlayTypePaceBoat => 23,
            ScreenValueWorkoutType::ChangedisPlayTypePerStroke => 24,
            ScreenValueWorkoutType::ChangedisPlayTypeSimple => 25,
            ScreenValueWorkoutType::ChangeUnitsTypeTimeMeters => 30,
            ScreenValueWorkoutType::ChangeUnitsTypePace => 31,
            ScreenValueWorkoutType::ChangeUnitsTypeWatts => 32,
            ScreenValueWorkoutType::ChangeUnitsTypeCaloricBurnRate => 33,
            ScreenValueWorkoutType::TargetGameBasic => 34,
            ScreenValueWorkoutType::TargetGameAdvanced => 35,
            ScreenValueWorkoutType::DartGame => 36,
            ScreenValueWorkoutType::GoToUsbWaitReady => 37,
            ScreenValueWorkoutType::TachCableTestDisable => 38,
            ScreenValueWorkoutType::TachSimDisable => 39,
            ScreenValueWorkoutType::TachSimEnableRate1 => 40,
            ScreenValueWorkoutType::TachSimEnableRate2 => 41,
            ScreenValueWorkoutType::TachSimEnableRate3 => 42,
            ScreenValueWorkoutType::TachSimEnableRate4 => 43,
            ScreenValueWorkoutType::TachSimEnableRate5 => 44,
            ScreenValueWorkoutType::TachCableTestEnable => 45,
            ScreenValueWorkoutType::ChangeUnitsYypeCalories => 46,
            ScreenValueWorkoutType::VirtualkeyA => 47,
            ScreenValueWorkoutType::VirtualkeyB => 48,
            ScreenValueWorkoutType::VirtualkeyC => 49,
            ScreenValueWorkoutType::VirtualkeyD => 50,
            ScreenValueWorkoutType::VirtualkeyE => 51,
            ScreenValueWorkoutType::VirtualkeyUnits => 52,
            ScreenValueWorkoutType::VirtualkeyDisplay => 53,
            ScreenValueWorkoutType::VirtualkeyMenu => 54,
            ScreenValueWorkoutType::TachSimEnableRateRandom => 55,
            ScreenValueWorkoutType::ScreenRedraw => 255,
        }
    }

    proof fn lemma_code_round_trip(v: Self) {
    }

    proof fn lemma_variant_code(code: u8) {
    }

    fn from_code(code: u8) -> (r: Option<Self>) {
        match code {
            0 => Some(ScreenValueWorkoutType::NoValue),
            1 => Some(ScreenValueWorkoutType::PrepareToRowWorkout),
            2 => Some(ScreenValueWorkoutType::TerminateWorkout),
            3 => Some(ScreenValueWorkoutType::RearmWorkout),
            4 => Some(ScreenValueWorkoutType::RefreshLogCard),
            5 => Some(ScreenValueWorkoutType::PrepareToRaceStart),
            6 => Some(ScreenValueWorkoutType::GoToMainScreen),
            7 => Some(ScreenValueWorkoutType::LogCardBusyWarning),
            8 => Some(ScreenValueWorkoutType::LogCardSelectUser),
            9 => Some(ScreenValueWorkoutType::ResetRaceParams),
            10 => Some(ScreenValueWorkoutType::CableTestSlave),
            11 => Some(ScreenValueWorkoutType::FishGame),
            12 => Some(ScreenValueWorkoutType::DisplayParticipantInfo),
            13 => Some(ScreenValueWorkoutType::DisplayParticipantInfoConfirm),
            20 => Some(ScreenValueWorkoutType::ChangedisPlayTypeTarget),
            21 => Some(ScreenValueWorkoutType::ChangedisPlayTypeStandard),
            22 => Some(ScreenValueWorkoutType::ChangedisPlayTypeForceVelocity),
            23 => Some(ScreenValueWorkoutType::ChangedisPlayTypePaceBoat),
            24 => Some(ScreenValueWorkoutType::ChangedisPlayTypePerStroke),
            25 => Some(ScreenValueWorkoutType::ChangedisPlayTypeSimple),
            30 => Some(ScreenValueWorkoutType::ChangeUnitsTypeTimeMeters),
            31 => Some(ScreenValueWorkoutType::ChangeUnitsTypePace),
            32 => Some(ScreenValueWorkoutType::ChangeUnitsTypeWatts),
            33 => Some(ScreenValueWorkoutType::ChangeUnitsTypeCaloricBurnRate),
            34 => Some(ScreenValueWorkoutType::TargetGameBasic),
            35 => Some(ScreenValueWorkoutType::TargetGameAdvanced),
            36 => Some(ScreenValueWorkoutType::DartGame),
            37 => Some(ScreenValueWorkoutType::GoToUsbWaitReady),
            38 => Some(ScreenValueWorkoutType::TachCableTestDisable),
            39 => Some(ScreenValueWorkoutType::TachSimDisable),
            40 => Some(ScreenValueWorkoutType::TachSimEnableRate1),
            41 => Some(ScreenValueWorkoutType::TachSimEnableRate2),
            42 => Some(ScreenValueWorkoutType::TachSimEnableRate3),
            43 => Some(ScreenValueWorkoutType::TachSimEnableRate4),
            44 => Some(ScreenValueWorkoutType::TachSimEnableRate5),
            45 => Some(ScreenValueWorkoutType::TachCableTestEnable),
            46 => Some(ScreenValueWorkoutType::ChangeUnitsYypeCalories),
            47 => Some(ScreenValueWorkoutType::VirtualkeyA),
            48 => Some(ScreenValueWorkoutType::VirtualkeyB),
            49 => Some(ScreenValueWorkoutType::VirtualkeyC),
            50 => Some(ScreenValueWorkoutType::VirtualkeyD),
            51 => Some(ScreenValueWorkoutType::VirtualkeyE),
            52 => Some(ScreenValueWorkoutType::VirtualkeyUnits),
            53 => Some(ScreenValueWorkoutType::VirtualkeyDisplay),
            54 => Some(ScreenValueWorkoutType::VirtualkeyMenu),
            55 => Some(ScreenValueWorkoutType::TachSimEnableRateRandom),
            255 => Some(ScreenValueWorkoutType::ScreenRedraw),
            _ => None,
        }
    }

    fn code(&self) -> (r: u8) {
        match self {
            ScreenValueWorkoutType::NoValue => 0,
            ScreenValueWorkoutType::PrepareToRowWorkout => 1,
            ScreenValueWorkoutType::TerminateWorkout => 2,
            ScreenValueWorkoutType::RearmWorkout => 3,
            ScreenValueWorkoutType::RefreshLogCard => 4,
            ScreenValueWorkoutType::PrepareToRaceStart => 5,
            ScreenValueWorkoutType::GoToMainScreen => 6,
            ScreenValueWorkoutType::LogCardBusyWarning => 7,
            ScreenValueWorkoutType::LogCardSelectUser => 8,
            ScreenValueWorkoutType::ResetRaceParams => 9,
            ScreenValueWorkoutType::CableTestSlave => 10,
            ScreenValueWorkoutType::FishGame => 11,
            ScreenValueWorkoutType::DisplayParticipantInfo => 12,
            ScreenValueWorkoutType::DisplayParticipantInfoConfirm => 13,
            ScreenValueWorkoutType::ChangedisPlayTypeTarget => 20,
            ScreenValueWorkoutType::ChangedisPlayTypeStandard => 21,
            ScreenValueWorkoutType::ChangedisPlayTypeForceVelocity => 22,
            ScreenValueWorkoutType::ChangedisPlayTypePaceBoat => 23,
            ScreenValueWorkoutType::ChangedisPlayTypePerStroke => 24,
            ScreenValueWorkoutType::ChangedisPlayTypeSimple => 25,
            ScreenValueWorkoutType::ChangeUnitsTypeTimeMeters => 30,
            ScreenValueWorkoutType::ChangeUnitsTypePace => 31,
            ScreenValueWorkoutType::ChangeUnitsTypeWatts => 32,
            ScreenValueWorkoutType::ChangeUnitsTypeCaloricBurnRate => 33,
            ScreenValueWorkoutType::TargetGameBasic => 34,
            ScreenValueWorkoutType::TargetGameAdvanced => 35,
            ScreenValueWorkoutType::DartGame => 36,
            ScreenValueWorkoutType::GoToUsbWaitReady => 37,
            ScreenValueWorkoutType::TachCableTestDisable => 38,
            ScreenValueWorkoutType::TachSimDisable => 39,
            ScreenValueWorkoutType::TachSimEnableRate1 => 40,
            ScreenValueWorkoutType::TachSimEnableRate2 => 41,
            ScreenValueWorkoutType::TachSimEnableRate3 => 42,
            ScreenValueWorkoutType::TachSimEnableRate4 => 43,
            ScreenValueWorkoutType::TachSimEnableRate5 => 44,
            ScreenValueWorkoutType::TachCableTestEnable => 45,
            ScreenValueWorkoutType::ChangeUnitsYypeCalories => 46,
            ScreenValueWorkoutType::VirtualkeyA => 47,
            ScreenValueWorkoutType::VirtualkeyB => 48,
            ScreenValueWorkoutType::VirtualkeyC => 49,
            ScreenValueWorkoutType::VirtualkeyD => 50,
            ScreenValueWorkoutType::VirtualkeyE => 51,
            ScreenValueWorkoutType::VirtualkeyUnits => 52,
            ScreenValueWorkoutType::VirtualkeyDisplay => 53,
            ScreenValueWorkoutType::VirtualkeyMenu => 54,
            ScreenValueWorkoutType::TachSimEnableRateRandom => 55,
            ScreenValueWorkoutType::ScreenRedraw => 255,
        }
    }
}

impl Parse for ScreenValueWorkoutType {
    open spec fn width() -> nat {
        1
    }

    open spec fn accepts(raw: int) -> bool {
        0 <= raw < 256 && Self::variant_of(raw as u8) is Some
    }

    open spec fn raw(self) -> int {
        self.code_of() as int
    }

    proof fn lemma_raw_injective(a: Self, b: Self) {
        Self::lemma_code_round_trip(a);
        Self::lemma_code_round_trip(b);
    }

    fn parse(cursor: &mut Cursor) -> (r: Result<Self, ParseError>) {
        let r = decode_enum::<ScreenValueWorkoutType>(cursor);
        proof {
            if let Ok(v) = r {
                Self::lemma_variant_code(old(cursor).peek(1) as u8);
            }
        }
        r
    }
}

/// Race screen action.
#[derive(Debug, Clone, Copy, PartialEq, Eq, Structural)]
pub enum ScreenValueRaceType {
    /// None value.
    NoValue,
    /// Set physical address.
    SetPhysicalAddr,
    /// Confirm physical address.
    ConfirmPhysicalAddr,
    /// Warmup for race.
    WarmupForRace,
    /// Prepare to race.
    PrepareToRace,
    /// False start race.
    FalseStartRace,
    /// Terminate race.
    TerminateRace,
    /// Automatically set physical address.
    AutosetPhysAddr,
    /// Indication that participant list is being set.
    SetParticipantList,
    /// Indication that race time sync is occuring.
    SyncRaceTime,
    /// Preparation for sleeping erg.
    PrepareToSleep,
    /// Reset race parameters.
    ResetRaceParams,
    /// Set default communication parameters.
    SetDefaultCommParams,
    /// Enter race idle.
    RaceIdle,
    /// Display current erg physical address.
    ErgAddressStatus,
    /// Enter race idle row.
    RaceIdleRow,
    /// Display race bitmap.
    DisplayRaceBitmap,
    /// Display race text string.
    DisplayRaceTextString,
    /// Set logical address.
    SetLogicalAddr,
    /// Confirm logical address.
    ConfirmLogicalAddr,
    /// Discover secondary Ergs.
    ErgSlaveDiscovery,
    /// Goto to main screen.
    GotoMainScreen,
    /// Reset Erg.
    ResetErg,
    /// Set units type to default.
    SetUnitsTypeDefault,
    /// Tach simulator disable.
    TachSimDisable,
    /// Tach simulator enable, rate = 1:12.
    TachSimEnableRate1,
    /// Tach simulator enable, rate = 1:35.
    TachSimEnableRate2,
    /// Tach simulator enable, rate = 1:42.
    TachSimEnableRate3,
    /// Tach simulator enable, rate = 3:04.
    TachSimEnableRate4,
    /// Tach simulator enable, rate = 3:14.
    TachSimEnableRate5,
    /// Tach cable test enable.
    TachCableTestEnable,
    /// Ergathlon mode disable.
    ErgaThlonModeDisable,
    /// RS-485 firmware update in progress.
    Rs485FirmwareUpdateProgress,
    /// Terminate race and preserve results.
    TerminateRaceAndPreserveResults,
    /// Tach simulator enable, rate = random.
    TachSimEnableRateRandom,
    /// Screen redraw.
    ScreenRedraw,
}

impl Discriminant for ScreenValueRaceType {
    open spec fn variant_of(code: u8) -> Option<Self> {
        match code {
            0 => Some(ScreenValueRaceType::NoValue),
            1 => Some(ScreenValueRaceType::SetPhysicalAddr),
            2 => Some(ScreenValueRaceType::ConfirmPhysicalAddr),
            3 => Some(ScreenValueRaceType::WarmupForRace),
            4 => Some(ScreenValueRaceType::PrepareToRace),
            5 => Some(ScreenValueRaceType::FalseStartRace),
            6 => Some(ScreenValueRaceType::TerminateRace),
            7 => Some(ScreenValueRaceType::AutosetPhysAddr),
            8 => Some(ScreenValueRaceType::SetParticipantList),
            9 => Some(ScreenValueRaceType::SyncRaceTime),
            10 => Some(ScreenValueRaceType::PrepareToSleep),
            11 => Some(ScreenValueRaceType::ResetRaceParams),
            12 => Some(ScreenValueRaceType::SetDefaultCommParams),
            13 => Some(ScreenValueRaceType::RaceIdle),
            14 => Some(ScreenValueRaceType::ErgAddressStatus),
            15 => Some(ScreenValueRaceType::RaceIdleRow),
            16 => Some(ScreenValueRaceType::DisplayRaceBitmap),
            17 => Some(ScreenValueRaceType::DisplayRaceTextString),
            18 => Some(ScreenValueRaceType::SetLogicalAddr),
            19 => Some(ScreenValueRaceType::ConfirmLogicalAddr),
            20 => Some(ScreenValueRaceType::ErgSlaveDiscovery),
            21 => Some(ScreenValueRaceType::GotoMainScreen),
            22 => Some(ScreenValueRaceType::ResetErg),
            23 => Some(ScreenValueRaceType::SetUnitsTypeDefault),
            39 => Some(ScreenValueRaceType::TachSimDisable),
            40 => Some(ScreenValueRaceType::TachSimEnableRate1),
            41 => Some(ScreenValueRaceType::TachSimEnableRate2),
            42 => Some(ScreenValueRaceType::TachSimEnableRate3),
            43 => Some(ScreenValueRaceType::TachSimEnableRate4),
            44 => Some(ScreenValueRaceType::TachSimEnableRate5),
            45 => Some(ScreenValueRaceType::TachCableTestEnable),
            46 => Some(ScreenValueRaceType::ErgaThlonModeDisable),
            47 => Some(ScreenValueRaceType::Rs485FirmwareUpdateProgress),
            48 => Some(ScreenValueRaceType::TerminateRaceAndPreserveResults),
            49 => Some(ScreenValueRaceType::TachSimEnableRateRandom),
            255 => Some(ScreenValueRaceType::ScreenRedraw),
            _ => None,
        }
    }

    open spec fn code_of(self) -> u8 {
        match self {
            ScreenValueRaceType::NoValue => 0,
            ScreenValueRaceType::SetPhysicalAddr => 1,
            ScreenValueRaceType::ConfirmPhysicalAddr => 2,
            ScreenValueRaceType::WarmupForRace => 3,
            ScreenValueRaceType::PrepareToRace => 4,
            ScreenValueRaceType::FalseStartRace => 5,
            ScreenValueRaceType::TerminateRace => 6,
            ScreenValueRaceType::AutosetPhysAddr => 7,
            ScreenValueRaceType::SetParticipantList => 8,
            ScreenValueRaceType::SyncRaceTime => 9,
            ScreenValueRaceType::PrepareToSleep => 10,
            ScreenValueRaceType::ResetRaceParams => 11,
            ScreenValueRaceType::SetDefaultCommParams => 12,
            ScreenValueRaceType::RaceIdle => 13,
            ScreenValueRaceType::ErgAddressStatus => 14,
            ScreenValueRaceType::RaceIdleRow => 15,
            ScreenValueRaceType::DisplayRaceBitmap => 16,
            ScreenValueRaceType::DisplayRaceTextString => 17,
            ScreenValueRaceType::SetLogicalAddr => 18,
            ScreenValueRaceType::ConfirmLogicalAddr => 19,
            ScreenValueRaceType::ErgSlaveDiscovery => 20,
            ScreenValueRaceType::GotoMainScreen => 21,
            ScreenValueRaceType::ResetErg => 22,
            ScreenValueRaceType::SetUnitsTypeDefault => 23,
            ScreenValueRaceType::TachSimDisable => 39,
            ScreenValueRaceType::TachSimEnableRate1 => 40,
            ScreenValueRaceType::TachSimEnableRate2 => 41,
            ScreenValueRaceType::TachSimEnableRate3 => 42,
            ScreenValueRaceType::TachSimEnableRate4 => 43,
            ScreenValueRaceType::TachSimEnableRate5 => 44,
            ScreenValueRaceType::TachCableTestEnable => 45,
            ScreenValueRaceType::ErgaThlonModeDisable => 46,
            ScreenValueRaceType::Rs485FirmwareUpdateProgress => 47,
            ScreenValueRaceType::TerminateRaceAndPreserveResults => 48,
            ScreenValueRaceType::TachSimEnableRateRandom => 49,
            ScreenValueRaceType::ScreenRedraw => 255,
        }
    }

    proof fn lemma_code_round_trip(v: Self) {
    }

    proof fn lemma_variant_code(code: u8) {
    }

    fn from_code(code: u8) -> (r: Option<Self>) {
        match code {
            0 => Some(ScreenValueRaceType::NoValue),
            1 => Some(ScreenValueRaceType::SetPhysicalAddr),
            2 => Some(ScreenValueRaceType::ConfirmPhysicalAddr),
            3 => Some(ScreenValueRaceType::WarmupForRace),
            4 => Some(ScreenValueRaceType::PrepareToRace),
            5 => Some(ScreenValueRaceType::FalseStartRace),
            6 => Some(ScreenValueRaceType::TerminateRace),
            7 => Some(ScreenValueRaceType::AutosetPhysAddr),
            8 => Some(ScreenValueRaceType::SetParticipantList),
            9 => Some(ScreenValueRaceType::SyncRaceTime),
            10 => Some(ScreenValueRaceType::PrepareToSleep),
            11 => Some(ScreenValueRaceType::ResetRaceParams),
            12 => Some(ScreenValueRaceType::SetDefaultCommParams),
            13 => Some(ScreenValueRaceType::RaceIdle),
            14 => Some(ScreenValueRaceType::ErgAddressStatus),
            15 => Some(ScreenValueRaceType::RaceIdleRow),
            16 => Some(ScreenValueRaceType::DisplayRaceBitmap),
            17 => Some(ScreenValueRaceType::DisplayRaceTextString),
            18 => Some(ScreenValueRaceType::SetLogicalAddr),
            19 => Some(ScreenValueRaceType::ConfirmLogicalAddr),
            20 => Some(ScreenValueRaceType::ErgSlaveDiscovery),
            21 => Some(ScreenValueRaceType::GotoMainScreen),
            22 => Some(ScreenValueRaceType::ResetErg),
            23 => Some(ScreenValueRaceType::SetUnitsTypeDefault),
            39 => Some(ScreenValueRaceType::TachSimDisable),
            40 => Some(ScreenValueRaceType::TachSimEnableRate1),
            41 => Some(ScreenValueRaceType::TachSimEnableRate2),
            42 => Some(ScreenValueRaceType::TachSimEnableRate3),
            43 => Some(ScreenValueRaceType::TachSimEnableRate4),
            44 => Some(ScreenValueRaceType::TachSimEnableRate5),
            45 => Some(ScreenValueRaceType::TachCableTestEnable),
            46 => Some(ScreenValueRaceType::ErgaThlonModeDisable),
            47 => Some(ScreenValueRaceType::Rs485FirmwareUpdateProgress),
            48 => Some(ScreenValueRaceType::TerminateRaceAndPreserveResults),
            49 => Some(ScreenValueRaceType::TachSimEnableRateRandom),
            255 => Some(ScreenValueRaceType::ScreenRedraw),
            _ => None,
        }
    }

    fn code(&self) -> (r: u8) {
        match self {
            ScreenValueRaceType::NoValue => 0,
            ScreenValueRaceType::SetPhysicalAddr => 1,
            ScreenValueRaceType::ConfirmPhysicalAddr => 2,
            ScreenValueRaceType::WarmupForRace => 3,
            ScreenValueRaceType::PrepareToRace => 4,
            ScreenValueRaceType::FalseStartRace => 5,
            ScreenValueRaceType::TerminateRace => 6,
            ScreenValueRaceType::AutosetPhysAddr => 7,
            ScreenValueRaceType::SetParticipantList => 8,
            ScreenValueRaceType::SyncRaceTime => 9,
            ScreenValueRaceType::PrepareToSleep => 10,
            ScreenValueRaceType::ResetRaceParams => 11,
            ScreenValueRaceType::SetDefaultCommParams => 12,
            ScreenValueRaceType::RaceIdle => 13,
            ScreenValueRaceType::ErgAddressStatus => 14,
            ScreenValueRaceType::RaceIdleRow => 15,
            ScreenValueRaceType::DisplayRaceBitmap => 16,
            ScreenValueRaceType::DisplayRaceTextString => 17,
            ScreenValueRaceType::SetLogicalAddr => 18,
            ScreenValueRaceType::ConfirmLogicalAddr => 19,
            ScreenValueRaceType::ErgSlaveDiscovery => 20,
            ScreenValueRaceType::GotoMainScreen => 21,
            ScreenValueRaceType::ResetErg => 22,
            ScreenValueRaceType::SetUnitsTypeDefault => 23,
            ScreenValueRaceType::TachSimDisable => 39,
            ScreenValueRaceType::TachSimEnableRate1 => 40,
            ScreenValueRaceType::TachSimEnableRate2 => 41,
            ScreenValueRaceType::TachSimEnableRate3 => 42,
            ScreenValueRaceType::TachSimEnableRate4 => 43,
            ScreenValueRaceType::TachSimEnableRate5 => 44,
            ScreenValueRaceType::TachCableTestEnable => 45,
            ScreenValueRaceType::ErgaThlonModeDisable => 46,
            ScreenValueRaceType::Rs485FirmwareUpdateProgress => 47,
            ScreenValueRaceType::TerminateRaceAndPreserveResults => 48,
            ScreenValueRaceType::TachSimEnableRateRandom => 49,
            ScreenValueRaceType::ScreenRedraw => 255,
        }
    }
}

impl Parse for ScreenValueRaceType {
    open spec fn width() -> nat {
        1
    }

    open spec fn accepts(raw: int) -> bool {
        0 <= raw < 256 && Self::variant_of(raw as u8) is Some
    }

    open spec fn raw(self) -> int {
        self.code_of() as int
    }

    proof fn lemma_raw_injective(a: Self, b: Self) {
        Self::lemma_code_round_trip(a);
        Self::lemma_code_round_trip(b);
    }

    fn parse(cursor: &mut Cursor) -> (r: Result<Self, ParseError>) {
        let r = decode_enum::<ScreenValueRaceType>(cursor);
        proof {
            if let Ok(v) = r {
                Self::lemma_variant_code(old(cursor).peek(1) as u8);
            }
        }
        r
    }
}

/// CSAFE screen action.
#[derive(Debug, Clone, Copy, PartialEq, Eq, Structural)]
pub enum ScreenValueCsafe {
    /// None value.
    NoValue,
    /// Enter user ID.
    UserId,
    /// Prepare to workout.
    PrepareToRowWorkout,
    /// Goto to main screen.
    GotoMainScreen,
    /// Goto custom screen.
    Custom,
    /// Open racing channel.
    RaceChanOpen,
    /// Close racing channel.
    RaceChanClose,
    /// Screen redraw.
    ScreenRedraw,
}

impl Discriminant for ScreenValueCsafe {
    open spec fn variant_of(code: u8) -> Option<Self> {
        match code {
            0 => Some(ScreenValueCsafe::NoValue),
            1 => Some(ScreenValueCsafe::UserId),
            2 => Some(ScreenValueCsafe::PrepareToRowWorkout),
            3 => Some(ScreenValueCsafe::GotoMainScreen),
            4 => Some(ScreenValueCsafe::Custom),
            250 => Some(ScreenValueCsafe::RaceChanOpen),
            251 => Some(ScreenValueCsafe::RaceChanClose),
            255 => Some(ScreenValueCsafe::ScreenRedraw),
            _ => None,
        }
    }

    open spec fn code_of(self) -> u8 {
        match self {
            ScreenValueCsafe::NoValue => 0,
            ScreenValueCsafe::UserId => 1,
            ScreenValueCsafe::PrepareToRowWorkout => 2,
            ScreenValueCsafe::GotoMainScreen => 3,
            ScreenValueCsafe::Custom => 4,
            ScreenValueCsafe::RaceChanOpen => 250,
            ScreenValueCsafe::RaceChanClose => 251,
            ScreenValueCsafe::ScreenRedraw => 255,
        }
    }

    proof fn lemma_code_round_trip(v: Self) {
    }

    proof fn lemma_variant_code(code: u8) {
    }

    fn from_code(code: u8) -> (r: Option<Self>) {
        match code {
            0 => Some(ScreenValueCsafe::NoValue),
            1 => Some(ScreenValueCsafe::UserId),
            2 => Some(ScreenValueCsafe::PrepareToRowWorkout),
            3 => Some(ScreenValueCsafe::GotoMainScreen),
            4 => Some(ScreenValueCsafe::Custom),
            250 => Some(ScreenValueCsafe::RaceChanOpen),
            251 => Some(ScreenValueCsafe::RaceChanClose),
            255 => Some(ScreenValueCsafe::ScreenRedraw),
            _ => None,
        }
    }

    fn code(&self) -> (r: u8) {
        match self {
            ScreenValueCsafe::NoValue => 0,
            ScreenValueCsafe::UserId => 1,
            ScreenValueCsafe::PrepareToRowWorkout => 2,
            ScreenValueCsafe::GotoMainScreen => 3,
            ScreenValueCsafe::Custom => 4,
            ScreenValueCsafe::RaceChanOpen => 250,
            ScreenValueCsafe::RaceChanClose => 251,
            ScreenValueCsafe::ScreenRedraw => 255,
        }
    }
}

impl Parse for ScreenValueCsafe {
    open spec fn width() -> nat {
        1
    }

    open spec fn accepts(raw: int) -> bool {
        0 <= raw < 256 && Self::variant_of(raw as u8) is Some
    }

    open spec fn raw(self) -> int {
        self.code_of() as int
    }

    proof fn lemma_raw_injective(a: Self, b: Self) {
        Self::lemma_code_round_trip(a);
        Self::lemma_code_round_trip(b);
    }

    fn parse(cursor: &mut Cursor) -> (r: Result<Self, ParseError>) {
        let r = decode_enum::<ScreenValueCsafe>(cursor);
        proof {
            if let Ok(v) = r {
                Self::lemma_variant_code(old(cursor).peek(1) as u8);
            }
        }
        r
    }
}

/// Progress of a screen action.
#[derive(Debug, Clone, Copy, PartialEq, Eq, Structural)]
pub enum ScreenStatus {
    Inactive,
    Pending,
    Inprogress,
}

impl Discriminant for ScreenStatus {
    open spec fn variant_of(code: u8) -> Option<Self> {
        match code {
            0 => Some(ScreenStatus::Inactive),
            1 => Some(ScreenStatus::Pending),
            2 => Some(ScreenStatus::Inprogress),
            _ => None,
        }
    }

    open spec fn code_of(self) -> u8 {
        match self {
            ScreenStatus::Inactive => 0,
            ScreenStatus::Pending => 1,
            ScreenStatus::Inprogress => 2,
        }
    }

    proof fn lemma_code_round_trip(v: Self) {
    }

    proof fn lemma_variant_code(code: u8) {
    }

    fn from_code(code: u8) -> (r: Option<Self>) {
        match code {
            0 => Some(ScreenStatus::Inactive),
            1 => Some(ScreenStatus::Pending),
            2 => Some(ScreenStatus::Inprogress),
            _ => None,
        }
    }

    fn code(&self) -> (r: u8) {
        match self {
            ScreenStatus::Inactive => 0,
            ScreenStatus::Pending => 1,
            ScreenStatus::Inprogress => 2,
        }
    }
}

impl Parse for ScreenStatus {
    open spec fn width() -> nat {
        1
    }

    open spec fn accepts(raw: int) -> bool {
        0 <= raw < 256 && Self::variant_of(raw as u8) is Some
    }

    open spec fn raw(self) -> int {
        self.code_of() as int
    }

    proof fn lemma_raw_injective(a: Self, b: Self) {
        Self::lemma_code_round_trip(a);
        Self::lemma_code_round_trip(b);
    }

    fn parse(cursor: &mut Cursor) -> (r: Result<Self, ParseError>) {
        let r = decode_enum::<ScreenStatus>(cursor);
        proof {
            if let Ok(v) = r {
                Self::lemma_variant_code(old(cursor).peek(1) as u8);
            }
        }
        r
    }
}

/// Kind of status report.
#[derive(Debug, Clone, Copy, PartialEq, Eq, Structural)]
pub enum StatusType {
    /// None.
    NoStatus,
    /// Battery level 1 warning, status value = (current battery level/max battery value) * 100.
    BatteryLevel1Warning,
    /// Battery level 2 warning, status value = (current battery level/max battery value) * 100.
    BatteryLevel2Warning,
    /// Log device state, status value = log device status.
    LogDeviceState,
    /// Power source, status value = power source status.
    PowerSourceState,
    /// Log device workout logged, status value = workout logged status.
    LogcardWorkoutloggedStatus,
    /// Flywheel, status value = not turning, turning.
    FlywheelState,
    /// Bad utility, status value = correct utilty, wrong utility.
    BadUtilityState,
    /// Firmware update, status value = no update pending, update pending, update complete.
    FwUpdateStatus,
    /// Unsupported USB host device, status value = unused.
    UnsupportedUsbHostDevice,
    /// USB host drive, status value = uninitialized, initialized.
    UsbDriveState,
    /// Load control, status value = all loads allowed, usb host not allowed, backlight not allowed, neither allowed.
    LoadControlStatus,
    /// USB log book, status value = directory missing/corrupt, file missing/corrupt, validated.
    UsbLogbookStatus,
    /// Log storage capacity warning, status value = current used capacity.
    LogStorageCapactyWarningStatus,
    /// Full calibration warning, status value = unused.
    FactoryCalibrationWarning,
    /// Verify calibration warning, status value = unused.
    VerifyCalibrationWarning,
    /// Service calibration warning, status value = unused.
    ServiceCalibrationWarning,
}

impl Discriminant for StatusType {
    open spec fn variant_of(code: u8) -> Option<Self> {
        match code {
            0 => Some(StatusType::NoStatus),
            1 => Some(StatusType::BatteryLevel1Warning),
            2 => Some(StatusType::BatteryLevel2Warning),
            3 => Some(StatusType::LogDeviceState),
            4 => Some(StatusType::PowerSourceState),
            5 => Some(StatusType::LogcardWorkoutloggedStatus),
            6 => Some(StatusType::FlywheelState),
            7 => Some(StatusType::BadUtilityState),
            8 => Some(StatusType::FwUpdateStatus),
            9 => Some(StatusType::UnsupportedUsbHostDevice),
            10 => Some(StatusType::UsbDriveState),
            11 => Some(StatusType::LoadControlStatus),
            12 => Some(StatusType::UsbLogbookStatus),
            13 => Some(StatusType::LogStorageCapactyWarningStatus),
            14 => Some(StatusType::FactoryCalibrationWarning),
            15 => Some(StatusType::VerifyCalibrationWarning),
            16 => Some(StatusType::ServiceCalibrationWarning),
            _ => None,
        }
    }

    open spec fn code_of(self) -> u8 {
        match self {
            StatusType::NoStatus => 0,
            StatusType::BatteryLevel1Warning => 1,
            StatusType::BatteryLevel2Warning => 2,
            StatusType::LogDeviceState => 3,
            StatusType::PowerSourceState => 4,
            StatusType::LogcardWorkoutloggedStatus => 5,
            StatusType::FlywheelState => 6,
            StatusType::BadUtilityState => 7,
            StatusType::FwUpdateStatus => 8,
            StatusType::UnsupportedUsbHostDevice => 9,
            StatusType::UsbDriveState => 10,
            StatusType::LoadControlStatus => 11,
            StatusType::UsbLogbookStatus => 12,
            StatusType::LogStorageCapactyWarningStatus => 13,
            StatusType::FactoryCalibrationWarning => 14,
            StatusType::VerifyCalibrationWarning => 15,
            StatusType::ServiceCalibrationWarning => 16,
        }
    }

    proof fn lemma_code_round_trip(v: Self) {
    }

    proof fn lemma_variant_code(code: u8) {
    }

    fn from_code(code: u8) -> (r: Option<Self>) {
        match code {
            0 => Some(StatusType::NoStatus),
            1 => Some(StatusType::BatteryLevel1Warning),
            2 => Some(StatusType::BatteryLevel2Warning),
            3 => Some(StatusType::LogDeviceState),
            4 => Some(StatusType::PowerSourceState),
            5 => Some(StatusType::LogcardWorkoutloggedStatus),
            6 => Some(StatusType::FlywheelState),
            7 => Some(StatusType::BadUtilityState),
            8 => Some(StatusType::FwUpdateStatus),
            9 => Some(StatusType::UnsupportedUsbHostDevice),
            10 => Some(StatusType::UsbDriveState),
            11 => Some(StatusType::LoadControlStatus),
            12 => Some(StatusType::UsbLogbookStatus),
            13 => Some(StatusType::LogStorageCapactyWarningStatus),
            14 => Some(StatusType::FactoryCalibrationWarning),
            15 => Some(StatusType::VerifyCalibrationWarning),
            16 => Some(StatusType::ServiceCalibrationWarning),
            _ => None,
        }
    }

    fn code(&self) -> (r: u8) {
        match self {
            StatusType::NoStatus => 0,
            StatusType::BatteryLevel1Warning => 1,
            StatusType::BatteryLevel2Warning => 2,
            StatusType::LogDeviceState => 3,
            StatusType::PowerSourceState => 4,
            StatusType::LogcardWorkoutloggedStatus => 5,
            StatusType::FlywheelState => 6,
            StatusType::BadUtilityState => 7,
            StatusType::FwUpdateStatus => 8,
            StatusType::UnsupportedUsbHostDevice => 9,
            StatusType::UsbDriveState => 10,
            StatusType::LoadControlStatus => 11,
            StatusType::UsbLogbookStatus => 12,
            StatusType::LogStorageCapactyWarningStatus => 13,
            StatusType::FactoryCalibrationWarning => 14,
            StatusType::VerifyCalibrationWarning => 15,
            StatusType::ServiceCalibrationWarning => 16,
        }
    }
}

impl Parse for StatusType {
    open spec fn width() -> nat {
        1
    }

    open spec fn accepts(raw: int) -> bool {
        0 <= raw < 256 && Self::variant_of(raw as u8) is Some
    }

    open spec fn raw(self) -> int {
        self.code_of() as int
    }

    proof fn lemma_raw_injective(a: Self, b: Self) {
        Self::lemma_code_round_trip(a);
        Self::lemma_code_round_trip(b);
    }

    fn parse(cursor: &mut Cursor) -> (r: Result<Self, ParseError>) {
        let r = decode_enum::<StatusType>(cursor);
        proof {
            if let Ok(v) = r {
                Self::lemma_variant_code(old(cursor).peek(1) as u8);
            }
        }
        r
    }
}

/// Rate at which the display refreshes.
#[derive(Debug, Clone, Copy, PartialEq, Eq, Structural)]
pub enum DisplayUpdateRate {
    /// 5Hz.
    Hz5,
    /// 4Hz.
    Hz4,
    /// 2Hz.
    Hz2,
}

impl Discriminant for DisplayUpdateRate {
    open spec fn variant_of(code: u8) -> Option<Self> {
        match code {
            0 => Some(DisplayUpdateRate::Hz5),
            1 => Some(DisplayUpdateRate::Hz4),
            2 => Some(DisplayUpdateRate::Hz2),
            _ => None,
        }
    }

    open spec fn code_of(self) -> u8 {
        match self {
            DisplayUpdateRate::Hz5 => 0,
            DisplayUpdateRate::Hz4 => 1,
            DisplayUpdateRate::Hz2 => 2,
        }
    }

    proof fn lemma_code_round_trip(v: Self) {
    }

    proof fn lemma_variant_code(code: u8) {
    }

    fn from_code(code: u8) -> (r: Option<Self>) {
        match code {
            0 => Some(DisplayUpdateRate::Hz5),
            1 => Some(DisplayUpdateRate::Hz4),
            2 => Some(DisplayUpdateRate::Hz2),
            _ => None,
        }
    }

    fn code(&self) -> (r: u8) {
        match self {
            DisplayUpdateRate::Hz5 => 0,
            DisplayUpdateRate::Hz4 => 1,
            DisplayUpdateRate::Hz2 => 2,
        }
    }
}

impl Parse for DisplayUpdateRate {
    open spec fn width() -> nat {
        1
    }

    open spec fn accepts(raw: int) -> bool {
        0 <= raw < 256 && Self::variant_of(raw as u8) is Some
    }

    open spec fn raw(self) -> int {
        self.code_of() as int
    }

    proof fn lemma_raw_injective(a: Self, b: Self) {
        Self::lemma_code_round_trip(a);
        Self::lemma_code_round_trip(b);
    }

    fn parse(cursor: &mut Cursor) -> (r: Result<Self, ParseError>) {
        let r = decode_enum::<DisplayUpdateRate>(cursor);
        proof {
            if let Ok(v) = r {
                Self::lemma_variant_code(old(cursor).peek(1) as u8);
            }
        }
        r
    }
}

/// The two-byte little-endian numbers that follow offset `at` in `s`, in order.
pub open spec fn le16_samples(s: Seq<u8>, at: int) -> Seq<int> {
    Seq::new(((s.len() - at) / 2) as nat, |i: int| le_value(s, at + 2 * i, 2))
}

/// The force samples of one stroke, in order.
#[derive(Debug, Clone, PartialEq, Eq)]
pub struct ForceCurveData(pub Vec<Force>);

impl ForceCurveData {
    /// The samples as numbers.
    pub open spec fn samples(self) -> Seq<int> {
        self.0@.map_values(|f: Force| f.0 as int)
    }

    /// Reads two-byte samples until the buffer is used up; the buffer must
    /// hold an even number of bytes.
    pub fn parse(cursor: &mut Cursor) -> (r: Result<ForceCurveData, ParseError>)
        ensures
            final(cursor).bytes() == old(cursor).bytes(),
            match r {
                Ok(d) => {
                    &&& old(cursor).remaining() % 2 == 0
                    &&& d.samples() == le16_samples(old(cursor).bytes(), old(cursor).pos() as int)
                    &&& final(cursor).remaining() == 0
                },
                Err(e) => {
                    &&& e == ParseError::UnexpectedNumberOfBytes
                    &&& old(cursor).remaining() % 2 == 1
                },
            },
    {
        let ghost s = cursor.bytes();
        let ghost start = cursor.pos() as int;
        let mut out: Vec<Force> = Vec::new();
        let mut left = cursor.remaining_len();
        while left >= 2
            invariant
                cursor.bytes() == s,
                start <= s.len(),
                cursor.pos() == start + 2 * out@.len(),
                left == cursor.remaining(),
                forall|i: int|
                    0 <= i < out@.len() ==> out@[i].0 as int == le_value(s, start + 2 * i, 2),
            decreases left,
        {
            match cursor.read_u16() {
                Ok(v) => out.push(Force(v)),
                Err(e) => {
                    return Err(e);
                },
            }
            left = cursor.remaining_len();
        }
        if left == 1 {
            Err(ParseError::UnexpectedNumberOfBytes)
        } else {
            let d = ForceCurveData(out);
            assert(d.samples() =~= le16_samples(s, start));
            Ok(d)
        }
    }
}

} // verus!

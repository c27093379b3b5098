//! Small value types: sample amounts, positions, time signatures, pixel
//! geometry.
use vstd::prelude::*;
use std::time::Duration;

verus! {

/// No `Duration` holds more than this many whole microseconds: its
/// seconds are a `u64`.
pub open spec fn max_micros() -> int {
    18446744073709551616int * 1000000int
}

/// The whole microseconds a duration holds, as `Duration::as_micros`
/// gives them: a value of the duration alone.
pub uninterp spec fn duration_micros(time: Duration) -> u128;

/// `Duration::as_micros`: the whole microseconds the duration holds, named
/// by `duration_micros`, which no duration holds `max_micros()` of.
#[verifier::external_body]
fn duration_as_micros(time: &Duration) -> (r: u128)
    ensures
        r == duration_micros(*time),
        r < max_micros(),
{
    time.as_micros()
}

/// The duration of `micros` microseconds, as `Duration::from_micros` makes
/// it: a value of the number alone.
pub uninterp spec fn micros_duration(micros: u64) -> Duration;

/// `Duration::from_micros`: the duration of that many microseconds, named
/// by `micros_duration`; it holds that many whole microseconds.
#[verifier::external_body]
fn duration_from_micros(micros: u64) -> (r: Duration)
    ensures
        r == micros_duration(micros),
        duration_micros(r) == micros,
{
    Duration::from_micros(micros)
}

/// The samples in `micros` microseconds at `samplerate`, rounded down and
/// kept to its low 32 bits.
pub open spec fn samples_of_micros(micros: int, samplerate: u32) -> u32 {
    (micros * samplerate / 1000000) as u32
}

/// The whole microseconds that `amount` samples last at `samplerate`.
pub open spec fn micros_of_samples(amount: u32, samplerate: u32) -> u64 {
    (amount * 1000000 / samplerate as int) as u64
}

/// Good helper to be sample-accurate.
#[derive(Debug, Clone, Copy, PartialEq, Eq, PartialOrd, Structural)]
pub struct SampleAmount {
    amount: u32,
}

impl SampleAmount {
    /// The number of samples.
    pub closed spec fn spec_amount(self) -> u32 {
        self.amount
    }

    pub fn new(amount: u32) -> (r: Self)
        ensures
            r.spec_amount() == amount,
    {
        SampleAmount { amount }
    }

    pub fn get(&self) -> (r: u32)
        ensures
            r == self.spec_amount(),
    {
        self.amount
    }

    /// The samples in `micros` microseconds at `samplerate`.
    pub fn from_micros(micros: u128, samplerate: u32) -> (r: Self)
        requires
            micros < max_micros(),
        ensures
            r.spec_amount() == samples_of_micros(micros as int, samplerate),
    {
        assert(micros * samplerate < max_micros() * 4294967296) by (nonlinear_arith)
            requires
                micros < max_micros(),
                samplerate < 4294967296,
        ;
        let amount: u128 = micros * (samplerate as u128) / 1_000_000;
        SampleAmount { amount: amount as u32 }
    }

    /// The samples in `time` at `samplerate`.
    pub fn from_time(time: Duration, samplerate: u32) -> (r: Self)
        ensures
            r.spec_amount() == samples_of_micros(duration_micros(time) as int, samplerate),
    {
        let micros = duration_as_micros(&time);
        Self::from_micros(micros, samplerate)
    }

    /// The whole microseconds the samples last at `samplerate`.
    pub fn as_micros(self, samplerate: u32) -> (r: u64)
        requires
            samplerate > 0,
        ensures
            r == micros_of_samples(self.spec_amount(), samplerate),
    {
        assert(self.amount * 1000000 <= 4294967295 * 1000000) by (nonlinear_arith)
            requires
                self.amount <= 4294967295,
        ;
        (self.amount as u64) * 1_000_000 / (samplerate as u64)
    }

    /// How long the samples last at `samplerate`.
    pub fn as_time(self, samplerate: u32) -> (r: Duration)
        requires
            samplerate > 0,
        ensures
            r == micros_duration(micros_of_samples(self.spec_amount(), samplerate)),
            duration_micros(r) == micros_of_samples(self.spec_amount(), samplerate),
    {
        duration_from_micros(self.as_micros(samplerate))
    }
}

/// The samples in the time that `amount` samples last, at the same
/// sample rate, are at most `amount`: both ways round down.
pub proof fn law_samples_time_roundtrip(amount: u32, samplerate: u32)
    requires
        samplerate > 0,
    ensures
        samples_of_micros(micros_of_samples(amount, samplerate) as int, samplerate) <= amount,
{
    let a = amount as int;
    let sr = samplerate as int;
    let m = a * 1000000 / sr;
    assert(m * sr <= a * 1000000) by (nonlinear_arith)
        requires
            sr > 0,
            m == a * 1000000 / sr,
    ;
    assert(0 <= m <= a * 1000000) by (nonlinear_arith)
        requires
            sr > 0,
            a >= 0,
            m == a * 1000000 / sr,
    ;
    assert(a * 1000000 <= 4294967295 * 1000000) by (nonlinear_arith)
        requires
            a <= 4294967295,
    ;
    assert(micros_of_samples(amount, samplerate) == m);
    assert(m * sr / 1000000 <= a) by (nonlinear_arith)
        requires
            m * sr <= a * 1000000,
            m >= 0,
            sr > 0,
    ;
    assert(0 <= m * sr / 1000000) by (nonlinear_arith)
        requires
            m >= 0,
            sr > 0,
    ;
}

/// Represents Audio\MIDI physical out pin.
#[derive(Debug, Clone, PartialEq, PartialOrd)]
pub struct HardwareSocket {
    index: u32,
    name: String,
}

impl HardwareSocket {
    /// The index of the socket.
    pub closed spec fn spec_index(&self) -> u32 {
        self.index
    }

    /// The name of the socket.
    pub closed spec fn spec_name(&self) -> Seq<char> {
        self.name@
    }

    pub fn new(index: u32, name: String) -> (r: Self)
        ensures
            r.spec_index() == index,
            r.spec_name() == name@,
    {
        HardwareSocket { index, name }
    }

    /// The socket of REAPER's virtual keyboard.
    pub fn virtual_keyboard() -> (r: Self)
        ensures
            r.spec_index() == 62,
            r.spec_name() == "Virtual Keyboard"@,
    {
        HardwareSocket { index: 62, name: "Virtual Keyboard".to_owned() }
    }

    pub fn index(&self) -> (r: u32)
        ensures
            r == self.spec_index(),
    {
        self.index
    }

    pub fn name(&self) -> (r: &str)
        ensures
            r@ == self.spec_name(),
    {
        self.name.as_str()
    }
}

/// Position in project.
///
/// Internally holds only [Duration] from project start.
#[derive(Debug, Clone, Copy, PartialEq, Eq, PartialOrd, Ord, Hash, Default)]
pub struct Position {
    as_duration: Duration,
}

impl Position {
    /// The time from the project start.
    pub closed spec fn spec_duration(self) -> Duration {
        self.as_duration
    }

    pub fn new(duration_from_project_start: Duration) -> (r: Self)
        ensures
            r.spec_duration() == duration_from_project_start,
    {
        Position { as_duration: duration_from_project_start }
    }

    pub fn as_duration(&self) -> (r: Duration)
        ensures
            r == self.spec_duration(),
    {
        self.as_duration
    }
}

/// Something whose length from a start position can be told.
pub trait GetLength {
    fn get_length(&self, start: Position) -> Duration;
}

impl GetLength for Duration {
    /// A duration is its own length.
    fn get_length(&self, _start: Position) -> (r: Duration)
        ensures
            r == *self,
    {
        *self
    }
}

/// Pan law of a track or take.
#[derive(Debug, Clone, Copy, PartialEq, Eq, Structural)]
pub enum PanLaw {
    Default,
    Minus6dB,
    Minus3dB,
    Zero,
    Minus3dBCompensated,
    Minus6dBCompensated,
}

/// How pan is applied.
#[derive(Clone, Copy, Debug, PartialEq, Eq, Structural)]
pub enum PanLawMode {
    SineTaper,
    HybridTaperDeprecated,
    LinearTaper,
    HybridTaper,
}

impl PanLawMode {
    /// The integer that stands for the variant.
    pub open spec fn spec_int_value(self) -> i32 {
        match self {
            PanLawMode::SineTaper => 0,
            PanLawMode::HybridTaperDeprecated => 1,
            PanLawMode::LinearTaper => 2,
            PanLawMode::HybridTaper => 3,
        }
    }

    /// The variant that an integer stands for, if any.
    pub open spec fn spec_from_int(value: i32) -> Option<PanLawMode> {
        if value == 0 {
            Some(PanLawMode::SineTaper)
        } else if value == 1 {
            Some(PanLawMode::HybridTaperDeprecated)
        } else if value == 2 {
            Some(PanLawMode::LinearTaper)
        } else if value == 3 {
            Some(PanLawMode::HybridTaper)
        } else {
            None
        }
    }

    /// The integer that stands for the variant.
    pub fn int_value(&self) -> (r: i32)
        ensures
            r == self.spec_int_value(),
            PanLawMode::spec_from_int(r) == Some(*self),
    {
        match self {
            PanLawMode::SineTaper => 0,
            PanLawMode::HybridTaperDeprecated => 1,
            PanLawMode::LinearTaper => 2,
            PanLawMode::HybridTaper => 3,
        }
    }

    /// The variant that an integer stands for, if any.
    pub fn from_int(value: i32) -> (r: Option<PanLawMode>)
        ensures
            r == PanLawMode::spec_from_int(value),
            r matches Some(v) ==> v.spec_int_value() == value,
    {
        if value == 0 {
            Some(PanLawMode::SineTaper)
        } else if value == 1 {
            Some(PanLawMode::HybridTaperDeprecated)
        } else if value == 2 {
            Some(PanLawMode::LinearTaper)
        } else if value == 3 {
            Some(PanLawMode::HybridTaper)
        } else {
            None
        }
    }
}

/// Which time range of a project.
#[derive(Debug, Clone, Copy, PartialEq, Eq, Hash, Structural)]
pub enum TimeRangeKind {
    TimeSelection,
    LoopSelection,
}

/// Straightforward TimeSignature, that can be used as
/// [Project] parameter.
///
/// Not sure it should be used in complex musical analysis.
#[derive(Debug, Clone, Copy, PartialEq, Eq, PartialOrd, Ord, Structural)]
pub struct TimeSignature {
    pub numerator: u32,
    pub denominator: u32,
}

impl TimeSignature {
    pub fn new(numerator: u32, denominator: u32) -> (r: Self)
        ensures
            r.numerator == numerator,
            r.denominator == denominator,
    {
        TimeSignature { numerator, denominator }
    }

    pub fn get(&self) -> (r: (u32, u32))
        ensures
            r == (self.numerator, self.denominator),
    {
        (self.numerator, self.denominator)
    }
}

/// A point on screen.
#[derive(Debug, Clone, Eq, PartialEq, Copy, PartialOrd, Ord, Hash, Structural)]
pub struct PositionPixel {
    pub x: u32,
    pub y: u32,
}

/// A size on screen.
#[derive(Debug, Clone, Eq, PartialEq, Copy, PartialOrd, Ord, Hash, Structural)]
pub struct DimensionsPixel {
    pub width: u32,
    pub height: u32,
}

/// A rectangle on screen.
#[derive(Debug, Clone, Eq, PartialEq, Copy, PartialOrd, Ord, Hash, Structural)]
pub struct RectPixel {
    x: u32,
    y: u32,
    width: u32,
    height: u32,
}

impl RectPixel {
    /// The left edge.
    pub closed spec fn spec_x(self) -> u32 {
        self.x
    }

    /// The top edge.
    pub closed spec fn spec_y(self) -> u32 {
        self.y
    }

    /// The width.
    pub closed spec fn spec_width(self) -> u32 {
        self.width
    }

    /// The height.
    pub closed spec fn spec_height(self) -> u32 {
        self.height
    }

    pub fn new(x: u32, y: u32, width: u32, height: u32) -> (r: Self)
        ensures
            r.spec_x() == x,
            r.spec_y() == y,
            r.spec_width() == width,
            r.spec_height() == height,
    {
        RectPixel { x, y, width, height }
    }

    pub fn left(&self) -> (r: u32)
        ensures
            r == self.spec_x(),
    {
        self.x
    }

    pub fn top(&self) -> (r: u32)
        ensures
            r == self.spec_y(),
    {
        self.y
    }

    pub fn right(&self) -> (r: u32)
        requires
            self.spec_x() + self.spec_width() <= u32::MAX,
        ensures
            r == self.spec_x() + self.spec_width(),
    {
        self.x + self.width
    }

    pub fn bot(&self) -> (r: u32)
        requires
            self.spec_y() + self.spec_height() <= u32::MAX,
        ensures
            r == self.spec_y() + self.spec_height(),
    {
        self.y + self.height
    }

    pub fn position(&self) -> (r: PositionPixel)
        ensures
            r == (PositionPixel { x: self.spec_x(), y: self.spec_y() }),
    {
        PositionPixel { x: self.x, y: self.y }
    }

    pub fn dimensions(&self) -> (r: DimensionsPixel)
        ensures
            r == (DimensionsPixel { width: self.spec_width(), height: self.spec_height() }),
    {
        DimensionsPixel { width: self.width, height: self.height }
    }
}

/// REAPER's number for each PanLawMode: SineTaper is 0, HybridTaperDeprecated is 1, LinearTaper is 2, HybridTaper is 3. Those are the only
/// numbers that name one, and each names the one it is the number of.
pub proof fn law_pan_law_mode_numbers(value: i32)
    ensures
        PanLawMode::SineTaper.spec_int_value() == 0,
        PanLawMode::HybridTaperDeprecated.spec_int_value() == 1,
        PanLawMode::LinearTaper.spec_int_value() == 2,
        PanLawMode::HybridTaper.spec_int_value() == 3,
        PanLawMode::spec_from_int(value) is Some <==> (value == 0 || value == 1 || value == 2 || value == 3),
        PanLawMode::spec_from_int(value) matches Some(m) ==> m.spec_int_value() == value,
{
}

/// One second's worth of samples lasts a million microseconds, and a
/// million microseconds hold as many samples as the rate, at any rate.
pub proof fn law_one_second_of_samples(samplerate: u32)
    requires
        samplerate > 0,
    ensures
        micros_of_samples(samplerate, samplerate) == 1000000,
        samples_of_micros(1000000, samplerate) == samplerate,
{
    assert(samplerate * 1000000 / samplerate as int == 1000000) by (nonlinear_arith)
        requires
            samplerate > 0,
    ;
    assert(1000000 * samplerate / 1000000 == samplerate) by (nonlinear_arith);
}

} // verus!

use vstd::prelude::*;
use vstd::string::*;
use crate::midi_text::{decimal, digit_char, lemma_digit_char};

verus! {

/// Represents MediaItemTake midi CC shape kind.
#[derive(Copy, Clone, Debug, PartialEq, Eq, Structural, Hash, Default)]
pub enum CcShapeKind {
    #[default]
    Square,
    Linear,
    SlowStartEnd,
    FastStart,
    FastEnd,
    Beizer,
}

/// Appends the decimal digit `d` to `s`.
fn push_digit(s: &mut String, d: u8)
    requires
        d < 10,
    ensures
        final(s)@ == old(s)@ + seq![digit_char(d)],
{
    let digits = "0123456789";
    proof {
        reveal_strlit("0123456789");
        lemma_digit_char(d);
    }
    let at: usize = d as usize;
    let one = digits.substring_char(at, at + 1);
    assert(digits@[at as int] == digit_char(d));
    assert(one@ =~= seq![digit_char(d)]);
    s.append(one);
}

/// The text that names a value with no shape: the words, then the value
/// in decimal, as `{:?}` writes a `u8`.
fn shape_error(value: u8) -> (r: String)
    ensures
        r@ == "not a cc shape: "@ + decimal(value),
{
    let mut s = String::from_str("not a cc shape: ");
    if value >= 100 {
        push_digit(&mut s, value / 100);
    }
    if value >= 10 {
        push_digit(&mut s, (value / 10) % 10);
    }
    push_digit(&mut s, value % 10);
    assert(s@ =~= "not a cc shape: "@ + decimal(value));
    s
}

impl CcShapeKind {
    /// The raw flag bits of a shape.
    pub open spec fn spec_raw(self) -> u8 {
        match self {
            CcShapeKind::Square => 0,
            CcShapeKind::Linear => 16,
            CcShapeKind::SlowStartEnd => 32,
            CcShapeKind::FastStart => 48,
            CcShapeKind::FastEnd => 64,
            CcShapeKind::Beizer => 80,
        }
    }

    /// The shape that raw flag bits name, if any.
    pub open spec fn spec_from_raw(value: u8) -> Option<CcShapeKind> {
        if value == 0 {
            Some(CcShapeKind::Square)
        } else if value == 16 {
            Some(CcShapeKind::Linear)
        } else if value == 32 {
            Some(CcShapeKind::SlowStartEnd)
        } else if value == 48 {
            Some(CcShapeKind::FastStart)
        } else if value == 64 {
            Some(CcShapeKind::FastEnd)
        } else if value == 80 {
            Some(CcShapeKind::Beizer)
        } else {
            None
        }
    }

    /// CcShapeKind from u8. Returns Err if there is no such variant.
    pub fn from_raw(value: u8) -> (r: Result<Self, String>)
        ensures
            r is Ok <==> Self::spec_from_raw(value) is Some,
            r matches Ok(k) ==> Self::spec_from_raw(value) == Some(k),
            r matches Err(e) ==> e@ == "not a cc shape: "@ + decimal(value),
    {
        if value == 0 {
            Ok(CcShapeKind::Square)
        } else if value == 16 {
            Ok(CcShapeKind::Linear)
        } else if value == 32 {
            Ok(CcShapeKind::SlowStartEnd)
        } else if value == 48 {
            Ok(CcShapeKind::FastStart)
        } else if value == 64 {
            Ok(CcShapeKind::FastEnd)
        } else if value == 80 {
            Ok(CcShapeKind::Beizer)
        } else {
            Err(shape_error(value))
        }
    }

    /// u8 representation of CcShapeKind
    pub fn to_raw(&self) -> (r: u8)
        ensures
            r == self.spec_raw(),
    {
        match self {
            CcShapeKind::Square => 0,
            CcShapeKind::Linear => 16,
            CcShapeKind::SlowStartEnd => 32,
            CcShapeKind::FastStart => 48,
            CcShapeKind::FastEnd => 64,
            CcShapeKind::Beizer => 80,
        }
    }
}

/// Reading back the raw value of a shape gives the shape.
pub proof fn law_shape_roundtrip(k: CcShapeKind)
    ensures
        CcShapeKind::spec_from_raw(k.spec_raw()) == Some(k),
{
}

/// REAPER's shape bits in an event's flag byte: 16 times the shape's place
/// in the order square, linear, slow start/end, fast start, fast end,
/// bezier. Those six values are the only ones that name a shape, and each
/// names the shape whose bits it is.
pub proof fn law_shape_bits(value: u8)
    ensures
        CcShapeKind::Square.spec_raw() == 0,
        CcShapeKind::Linear.spec_raw() == 16,
        CcShapeKind::SlowStartEnd.spec_raw() == 32,
        CcShapeKind::FastStart.spec_raw() == 48,
        CcShapeKind::FastEnd.spec_raw() == 64,
        CcShapeKind::Beizer.spec_raw() == 80,
        CcShapeKind::spec_from_raw(value) is Some <==> (value % 16 == 0 && value <= 80),
        CcShapeKind::spec_from_raw(value) matches Some(k) ==> k.spec_raw() == value,
{
}

} // verus!

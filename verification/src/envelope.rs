//! Envelope settings and their raw values.
use vstd::prelude::*;

verus! {

/// Shape of an envelope point.
#[derive(Clone, Copy, Debug, PartialEq, Eq, Structural)]
pub enum EnvelopePointShape {
    Linear,
    Square,
    SlowStartEnd,
    FastStart,
    FastEnd,
    Beizer,
}

impl EnvelopePointShape {
    /// The integer that stands for the variant.
    pub open spec fn spec_int_value(self) -> i32 {
        match self {
            EnvelopePointShape::Linear => 0,
            EnvelopePointShape::Square => 1,
            EnvelopePointShape::SlowStartEnd => 2,
            EnvelopePointShape::FastStart => 3,
            EnvelopePointShape::FastEnd => 4,
            EnvelopePointShape::Beizer => 5,
        }
    }

    /// The variant that an integer stands for, if any.
    pub open spec fn spec_from_int(value: i32) -> Option<EnvelopePointShape> {
        if value == 0 {
            Some(EnvelopePointShape::Linear)
        } else if value == 1 {
            Some(EnvelopePointShape::Square)
        } else if value == 2 {
            Some(EnvelopePointShape::SlowStartEnd)
        } else if value == 3 {
            Some(EnvelopePointShape::FastStart)
        } else if value == 4 {
            Some(EnvelopePointShape::FastEnd)
        } else if value == 5 {
            Some(EnvelopePointShape::Beizer)
        } else {
            None
        }
    }

    /// The integer that stands for the variant.
    pub fn int_value(&self) -> (r: i32)
        ensures
            r == self.spec_int_value(),
            EnvelopePointShape::spec_from_int(r) == Some(*self),
    {
        match self {
            EnvelopePointShape::Linear => 0,
            EnvelopePointShape::Square => 1,
            EnvelopePointShape::SlowStartEnd => 2,
            EnvelopePointShape::FastStart => 3,
            EnvelopePointShape::FastEnd => 4,
            EnvelopePointShape::Beizer => 5,
        }
    }

    /// The variant that an integer stands for, if any.
    pub fn from_int(value: i32) -> (r: Option<EnvelopePointShape>)
        ensures
            r == EnvelopePointShape::spec_from_int(value),
            r matches Some(v) ==> v.spec_int_value() == value,
    {
        if value == 0 {
            Some(EnvelopePointShape::Linear)
        } else if value == 1 {
            Some(EnvelopePointShape::Square)
        } else if value == 2 {
            Some(EnvelopePointShape::SlowStartEnd)
        } else if value == 3 {
            Some(EnvelopePointShape::FastStart)
        } else if value == 4 {
            Some(EnvelopePointShape::FastEnd)
        } else if value == 5 {
            Some(EnvelopePointShape::Beizer)
        } else {
            None
        }
    }
}

/// If Envelope corresponds to send or receive.
#[derive(Debug, Clone, Copy, PartialEq, Eq, Structural)]
pub enum EnvelopeSendInfo {
    TrackSend(usize),
    TrackReceive(usize),
    HardwareOut(usize),
}

/// The automation item index REAPER takes for an envelope call: `-1` for
/// the envelope itself, else the item's index cut to an `i32`; with bit
/// `0x10000000` set where the call is to see the raw points rather than
/// only the visible ones.
pub open spec fn spec_automation_item_idx(only_visible: bool, a_itm: Option<usize>) -> i32 {
    let base: i32 = match a_itm {
        None => -1i32,
        Some(index) => index as i32,
    };
    if only_visible {
        base
    } else {
        base | 0x10000000i32
    }
}

/// The automation item index REAPER takes for an envelope call.
pub fn automation_item_idx(only_visible: bool, a_itm: Option<usize>) -> (r: i32)
    ensures
        r == spec_automation_item_idx(only_visible, a_itm),
{
    let a_itm: i32 = match a_itm {
        None => -1,
        Some(index) => index as i32,
    };
    if only_visible {
        a_itm
    } else {
        a_itm | 0x10000000
    }
}

/// REAPER's number for each EnvelopePointShape: Linear is 0, Square is 1, SlowStartEnd is 2, FastStart is 3, FastEnd is 4, Beizer is 5. Those are the only
/// numbers that name one, and each names the one it is the number of.
pub proof fn law_envelope_point_shape_numbers(value: i32)
    ensures
        EnvelopePointShape::Linear.spec_int_value() == 0,
        EnvelopePointShape::Square.spec_int_value() == 1,
        EnvelopePointShape::SlowStartEnd.spec_int_value() == 2,
        EnvelopePointShape::FastStart.spec_int_value() == 3,
        EnvelopePointShape::FastEnd.spec_int_value() == 4,
        EnvelopePointShape::Beizer.spec_int_value() == 5,
        EnvelopePointShape::spec_from_int(value) is Some <==> (value == 0 || value == 1 || value == 2 || value == 3 || value == 4 || value == 5),
        EnvelopePointShape::spec_from_int(value) matches Some(m) ==> m.spec_int_value() == value,
{
}

} // verus!

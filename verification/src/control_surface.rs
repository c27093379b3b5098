//! Control surface settings.
use vstd::prelude::*;

verus! {

/// How a control surface records.
#[derive(Clone, Copy, Debug, PartialEq, Eq, Structural)]
pub enum CSurfRecMode {
    SplitForTakes,
    /// tape
    Replace,
}

impl CSurfRecMode {
    /// The integer that stands for the variant.
    pub open spec fn spec_int_value(self) -> i32 {
        match self {
            CSurfRecMode::SplitForTakes => 0,
            CSurfRecMode::Replace => 1,
        }
    }

    /// The variant that an integer stands for, if any.
    pub open spec fn spec_from_int(value: i32) -> Option<CSurfRecMode> {
        if value == 0 {
            Some(CSurfRecMode::SplitForTakes)
        } else if value == 1 {
            Some(CSurfRecMode::Replace)
        } else {
            None
        }
    }

    /// The integer that stands for the variant.
    pub fn int_value(&self) -> (r: i32)
        ensures
            r == self.spec_int_value(),
            CSurfRecMode::spec_from_int(r) == Some(*self),
    {
        match self {
            CSurfRecMode::SplitForTakes => 0,
            CSurfRecMode::Replace => 1,
        }
    }

    /// The variant that an integer stands for, if any.
    pub fn from_int(value: i32) -> (r: Option<CSurfRecMode>)
        ensures
            r == CSurfRecMode::spec_from_int(value),
            r matches Some(v) ==> v.spec_int_value() == value,
    {
        if value == 0 {
            Some(CSurfRecMode::SplitForTakes)
        } else if value == 1 {
            Some(CSurfRecMode::Replace)
        } else {
            None
        }
    }
}


/// REAPER's number for each CSurfRecMode: SplitForTakes is 0, Replace is 1. Those are the only
/// numbers that name one, and each names the one it is the number of.
pub proof fn law_c_surf_rec_mode_numbers(value: i32)
    ensures
        CSurfRecMode::SplitForTakes.spec_int_value() == 0,
        CSurfRecMode::Replace.spec_int_value() == 1,
        CSurfRecMode::spec_from_int(value) is Some <==> (value == 0 || value == 1),
        CSurfRecMode::spec_from_int(value) matches Some(m) ==> m.spec_int_value() == value,
{
}

} // verus!

//! Item settings and their raw values.
use vstd::prelude::*;

verus! {

/// Solo override of an item.
#[derive(Clone, Copy, Debug, PartialEq, Eq, Structural)]
pub enum ItemSoloOverride {
    Soloed,
    NoOverride,
    NotSoloed,
}

impl ItemSoloOverride {
    /// The integer that stands for the variant.
    pub open spec fn spec_int_value(self) -> i32 {
        match self {
            ItemSoloOverride::Soloed => -1i32,
            ItemSoloOverride::NoOverride => 0,
            ItemSoloOverride::NotSoloed => 1,
        }
    }

    /// The variant that an integer stands for, if any.
    pub open spec fn spec_from_int(value: i32) -> Option<ItemSoloOverride> {
        if value == -1i32 {
            Some(ItemSoloOverride::Soloed)
        } else if value == 0 {
            Some(ItemSoloOverride::NoOverride)
        } else if value == 1 {
            Some(ItemSoloOverride::NotSoloed)
        } else {
            None
        }
    }

    /// The integer that stands for the variant.
    pub fn int_value(&self) -> (r: i32)
        ensures
            r == self.spec_int_value(),
            ItemSoloOverride::spec_from_int(r) == Some(*self),
    {
        match self {
            ItemSoloOverride::Soloed => -1i32,
            ItemSoloOverride::NoOverride => 0,
            ItemSoloOverride::NotSoloed => 1,
        }
    }

    /// The variant that an integer stands for, if any.
    pub fn from_int(value: i32) -> (r: Option<ItemSoloOverride>)
        ensures
            r == ItemSoloOverride::spec_from_int(value),
            r matches Some(v) ==> v.spec_int_value() == value,
    {
        if value == -1i32 {
            Some(ItemSoloOverride::Soloed)
        } else if value == 0 {
            Some(ItemSoloOverride::NoOverride)
        } else if value == 1 {
            Some(ItemSoloOverride::NotSoloed)
        } else {
            None
        }
    }
}

/// Item fade-in\\fade-out shape.
#[derive(Clone, Copy, Debug, PartialEq, Eq, Structural)]
pub enum ItemFadeShape {
    Linear,
    EqualPower,
    SlightInner,
    FastEnd,
    FastStart,
    SlowStartEnd,
    Beizer,
}

impl ItemFadeShape {
    /// The integer that stands for the variant.
    pub open spec fn spec_int_value(self) -> i32 {
        match self {
            ItemFadeShape::Linear => 0,
            ItemFadeShape::EqualPower => 1,
            ItemFadeShape::SlightInner => 2,
            ItemFadeShape::FastEnd => 3,
            ItemFadeShape::FastStart => 4,
            ItemFadeShape::SlowStartEnd => 5,
            ItemFadeShape::Beizer => 6,
        }
    }

    /// The variant that an integer stands for, if any.
    pub open spec fn spec_from_int(value: i32) -> Option<ItemFadeShape> {
        if value == 0 {
            Some(ItemFadeShape::Linear)
        } else if value == 1 {
            Some(ItemFadeShape::EqualPower)
        } else if value == 2 {
            Some(ItemFadeShape::SlightInner)
        } else if value == 3 {
            Some(ItemFadeShape::FastEnd)
        } else if value == 4 {
            Some(ItemFadeShape::FastStart)
        } else if value == 5 {
            Some(ItemFadeShape::SlowStartEnd)
        } else if value == 6 {
            Some(ItemFadeShape::Beizer)
        } else {
            None
        }
    }

    /// The integer that stands for the variant.
    pub fn int_value(&self) -> (r: i32)
        ensures
            r == self.spec_int_value(),
            ItemFadeShape::spec_from_int(r) == Some(*self),
    {
        match self {
            ItemFadeShape::Linear => 0,
            ItemFadeShape::EqualPower => 1,
            ItemFadeShape::SlightInner => 2,
            ItemFadeShape::FastEnd => 3,
            ItemFadeShape::FastStart => 4,
            ItemFadeShape::SlowStartEnd => 5,
            ItemFadeShape::Beizer => 6,
        }
    }

    /// The variant that an integer stands for, if any.
    pub fn from_int(value: i32) -> (r: Option<ItemFadeShape>)
        ensures
            r == ItemFadeShape::spec_from_int(value),
            r matches Some(v) ==> v.spec_int_value() == value,
    {
        if value == 0 {
            Some(ItemFadeShape::Linear)
        } else if value == 1 {
            Some(ItemFadeShape::EqualPower)
        } else if value == 2 {
            Some(ItemFadeShape::SlightInner)
        } else if value == 3 {
            Some(ItemFadeShape::FastEnd)
        } else if value == 4 {
            Some(ItemFadeShape::FastStart)
        } else if value == 5 {
            Some(ItemFadeShape::SlowStartEnd)
        } else if value == 6 {
            Some(ItemFadeShape::Beizer)
        } else {
            None
        }
    }
}


/// REAPER's number for each ItemSoloOverride: Soloed is -1, NoOverride is 0, NotSoloed is 1. Those are the only
/// numbers that name one, and each names the one it is the number of.
pub proof fn law_item_solo_override_numbers(value: i32)
    ensures
        ItemSoloOverride::Soloed.spec_int_value() == -1,
        ItemSoloOverride::NoOverride.spec_int_value() == 0,
        ItemSoloOverride::NotSoloed.spec_int_value() == 1,
        ItemSoloOverride::spec_from_int(value) is Some <==> (value == -1 || value == 0 || value == 1),
        ItemSoloOverride::spec_from_int(value) matches Some(m) ==> m.spec_int_value() == value,
{
}

/// REAPER's number for each ItemFadeShape: Linear is 0, EqualPower is 1, SlightInner is 2, FastEnd is 3, FastStart is 4, SlowStartEnd is 5, Beizer is 6. Those are the only
/// numbers that name one, and each names the one it is the number of.
pub proof fn law_item_fade_shape_numbers(value: i32)
    ensures
        ItemFadeShape::Linear.spec_int_value() == 0,
        ItemFadeShape::EqualPower.spec_int_value() == 1,
        ItemFadeShape::SlightInner.spec_int_value() == 2,
        ItemFadeShape::FastEnd.spec_int_value() == 3,
        ItemFadeShape::FastStart.spec_int_value() == 4,
        ItemFadeShape::SlowStartEnd.spec_int_value() == 5,
        ItemFadeShape::Beizer.spec_int_value() == 6,
        ItemFadeShape::spec_from_int(value) is Some <==> (value == 0 || value == 1 || value == 2 || value == 3 || value == 4 || value == 5 || value == 6),
        ItemFadeShape::spec_from_int(value) matches Some(m) ==> m.spec_int_value() == value,
{
}

} // verus!

//! Media source settings.
use vstd::prelude::*;
use std::time::Duration;

verus! {

/// If a section/reverse block, retrieves offset/len/reverse.
#[derive(Debug, Clone, Copy, PartialEq)]
pub struct SourceSectionInfo {
    offset: Duration,
    length: Duration,
    reversed: bool,
}

/// Unit of source loudness normalization.
#[allow(non_camel_case_types)]
#[derive(Debug, PartialEq, PartialOrd, Ord, Eq, Hash, Copy, Clone, Structural)]
pub enum SourceNoramlizeUnit {
    LUFS_I,
    RMS_I,
    Peak,
    TruePeak,
    LUFS_M,
    LUFS_S,
}

impl SourceNoramlizeUnit {
    /// The integer that stands for the variant.
    pub open spec fn spec_int_value(self) -> i32 {
        match self {
            SourceNoramlizeUnit::LUFS_I => 0,
            SourceNoramlizeUnit::RMS_I => 1,
            SourceNoramlizeUnit::Peak => 2,
            SourceNoramlizeUnit::TruePeak => 3,
            SourceNoramlizeUnit::LUFS_M => 4,
            SourceNoramlizeUnit::LUFS_S => 5,
        }
    }

    /// The variant that an integer stands for, if any.
    pub open spec fn spec_from_int(value: i32) -> Option<SourceNoramlizeUnit> {
        if value == 0 {
            Some(SourceNoramlizeUnit::LUFS_I)
        } else if value == 1 {
            Some(SourceNoramlizeUnit::RMS_I)
        } else if value == 2 {
            Some(SourceNoramlizeUnit::Peak)
        } else if value == 3 {
            Some(SourceNoramlizeUnit::TruePeak)
        } else if value == 4 {
            Some(SourceNoramlizeUnit::LUFS_M)
        } else if value == 5 {
            Some(SourceNoramlizeUnit::LUFS_S)
        } else {
            None
        }
    }

    /// The integer that stands for the variant.
    pub fn int_value(&self) -> (r: i32)
        ensures
            r == self.spec_int_value(),
            SourceNoramlizeUnit::spec_from_int(r) == Some(*self),
    {
        match self {
            SourceNoramlizeUnit::LUFS_I => 0,
            SourceNoramlizeUnit::RMS_I => 1,
            SourceNoramlizeUnit::Peak => 2,
            SourceNoramlizeUnit::TruePeak => 3,
            SourceNoramlizeUnit::LUFS_M => 4,
            SourceNoramlizeUnit::LUFS_S => 5,
        }
    }

    /// The variant that an integer stands for, if any.
    pub fn from_int(value: i32) -> (r: Option<SourceNoramlizeUnit>)
        ensures
            r == SourceNoramlizeUnit::spec_from_int(value),
            r matches Some(v) ==> v.spec_int_value() == value,
    {
        if value == 0 {
            Some(SourceNoramlizeUnit::LUFS_I)
        } else if value == 1 {
            Some(SourceNoramlizeUnit::RMS_I)
        } else if value == 2 {
            Some(SourceNoramlizeUnit::Peak)
        } else if value == 3 {
            Some(SourceNoramlizeUnit::TruePeak)
        } else if value == 4 {
            Some(SourceNoramlizeUnit::LUFS_M)
        } else if value == 5 {
            Some(SourceNoramlizeUnit::LUFS_S)
        } else {
            None
        }
    }
}


/// REAPER's number for each SourceNoramlizeUnit: LUFS_I is 0, RMS_I is 1, Peak is 2, TruePeak is 3, LUFS_M is 4, LUFS_S is 5. Those are the only
/// numbers that name one, and each names the one it is the number of.
pub proof fn law_source_noramlize_unit_numbers(value: i32)
    ensures
        SourceNoramlizeUnit::LUFS_I.spec_int_value() == 0,
        SourceNoramlizeUnit::RMS_I.spec_int_value() == 1,
        SourceNoramlizeUnit::Peak.spec_int_value() == 2,
        SourceNoramlizeUnit::TruePeak.spec_int_value() == 3,
        SourceNoramlizeUnit::LUFS_M.spec_int_value() == 4,
        SourceNoramlizeUnit::LUFS_S.spec_int_value() == 5,
        SourceNoramlizeUnit::spec_from_int(value) is Some <==> (value == 0 || value == 1 || value == 2 || value == 3 || value == 4 || value == 5),
        SourceNoramlizeUnit::spec_from_int(value) matches Some(m) ==> m.spec_int_value() == value,
{
}

} // verus!

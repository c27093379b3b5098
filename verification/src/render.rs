//! Render settings of a project and their raw values.
use vstd::prelude::*;
use std::time::Duration;
use crate::midi_text::{split_on, split_text, tokens_view};

verus! {

/// Which part of a project is rendered.
#[derive(Clone, Copy, Debug, PartialEq, Eq, Structural)]
pub enum BoundsMode {
    Custom,
    EntireProject,
    TimeSelection,
    AllRegions,
    SelectedItems,
    SelectedRegions,
}

impl BoundsMode {
    /// The integer that stands for the variant.
    pub open spec fn spec_int_value(self) -> u32 {
        match self {
            BoundsMode::Custom => 0,
            BoundsMode::EntireProject => 1,
            BoundsMode::TimeSelection => 2,
            BoundsMode::AllRegions => 3,
            BoundsMode::SelectedItems => 4,
            BoundsMode::SelectedRegions => 5,
        }
    }

    /// The variant that an integer stands for, if any.
    pub open spec fn spec_from_int(value: u32) -> Option<BoundsMode> {
        if value == 0 {
            Some(BoundsMode::Custom)
        } else if value == 1 {
            Some(BoundsMode::EntireProject)
        } else if value == 2 {
            Some(BoundsMode::TimeSelection)
        } else if value == 3 {
            Some(BoundsMode::AllRegions)
        } else if value == 4 {
            Some(BoundsMode::SelectedItems)
        } else if value == 5 {
            Some(BoundsMode::SelectedRegions)
        } else {
            None
        }
    }

    /// The integer that stands for the variant.
    pub fn int_value(&self) -> (r: u32)
        ensures
            r == self.spec_int_value(),
            BoundsMode::spec_from_int(r) == Some(*self),
    {
        match self {
            BoundsMode::Custom => 0,
            BoundsMode::EntireProject => 1,
            BoundsMode::TimeSelection => 2,
            BoundsMode::AllRegions => 3,
            BoundsMode::SelectedItems => 4,
            BoundsMode::SelectedRegions => 5,
        }
    }

    /// The variant that an integer stands for, if any.
    pub fn from_int(value: u32) -> (r: Option<BoundsMode>)
        ensures
            r == BoundsMode::spec_from_int(value),
            r matches Some(v) ==> v.spec_int_value() == value,
    {
        if value == 0 {
            Some(BoundsMode::Custom)
        } else if value == 1 {
            Some(BoundsMode::EntireProject)
        } else if value == 2 {
            Some(BoundsMode::TimeSelection)
        } else if value == 3 {
            Some(BoundsMode::AllRegions)
        } else if value == 4 {
            Some(BoundsMode::SelectedItems)
        } else if value == 5 {
            Some(BoundsMode::SelectedRegions)
        } else {
            None
        }
    }
}

/// What is rendered.
#[derive(Clone, Copy, Debug, PartialEq, Eq, Structural)]
pub enum RenderMode {
    MasterMix,
    MasterAndStems,
    Stems,
    RenderMatrix,
    SelectedItems,
    SelectedItemsViaMaster,
}

impl RenderMode {
    /// The integer that stands for the variant.
    pub open spec fn spec_int_value(self) -> u32 {
        match self {
            RenderMode::MasterMix => 0,
            RenderMode::MasterAndStems => 1,
            RenderMode::Stems => 2,
            RenderMode::RenderMatrix => 8,
            RenderMode::SelectedItems => 32,
            RenderMode::SelectedItemsViaMaster => 64,
        }
    }

    /// The variant that an integer stands for, if any.
    pub open spec fn spec_from_int(value: u32) -> Option<RenderMode> {
        if value == 0 {
            Some(RenderMode::MasterMix)
        } else if value == 1 {
            Some(RenderMode::MasterAndStems)
        } else if value == 2 {
            Some(RenderMode::Stems)
        } else if value == 8 {
            Some(RenderMode::RenderMatrix)
        } else if value == 32 {
            Some(RenderMode::SelectedItems)
        } else if value == 64 {
            Some(RenderMode::SelectedItemsViaMaster)
        } else {
            None
        }
    }

    /// The integer that stands for the variant.
    pub fn int_value(&self) -> (r: u32)
        ensures
            r == self.spec_int_value(),
            RenderMode::spec_from_int(r) == Some(*self),
    {
        match self {
            RenderMode::MasterMix => 0,
            RenderMode::MasterAndStems => 1,
            RenderMode::Stems => 2,
            RenderMode::RenderMatrix => 8,
            RenderMode::SelectedItems => 32,
            RenderMode::SelectedItemsViaMaster => 64,
        }
    }

    /// The variant that an integer stands for, if any.
    pub fn from_int(value: u32) -> (r: Option<RenderMode>)
        ensures
            r == RenderMode::spec_from_int(value),
            r matches Some(v) ==> v.spec_int_value() == value,
    {
        if value == 0 {
            Some(RenderMode::MasterMix)
        } else if value == 1 {
            Some(RenderMode::MasterAndStems)
        } else if value == 2 {
            Some(RenderMode::Stems)
        } else if value == 8 {
            Some(RenderMode::RenderMatrix)
        } else if value == 32 {
            Some(RenderMode::SelectedItems)
        } else if value == 64 {
            Some(RenderMode::SelectedItemsViaMaster)
        } else {
            None
        }
    }
}

/// Render settings of a project.
#[derive(Debug, Clone, Copy, PartialEq, Eq, Structural)]
pub struct RenderSettings {
    pub mode: RenderMode,
    /// Render tracks with mono media to mono files.
    pub use_mono: bool,
    /// Add rendered files to project.
    pub add_to_project: bool,
}

/// The raw value of render settings: the mode's number, with bit 16 for
/// mono.
pub open spec fn render_settings_raw(s: RenderSettings) -> u32 {
    s.mode.spec_int_value() | (if s.use_mono {
        16u32
    } else {
        0u32
    })
}

/// A raw value can be read as render settings: without bit 16 it is the
/// number of a mode.
pub open spec fn render_settings_readable(value: u32) -> bool {
    RenderMode::spec_from_int(value & !16u32) is Some
}

impl RenderSettings {
    pub fn new(mode: RenderMode, use_mono: bool, add_to_project: bool) -> (r: Self)
        ensures
            r == (RenderSettings { mode, use_mono, add_to_project }),
    {
        RenderSettings { mode, use_mono, add_to_project }
    }

    /// The raw value of the settings; whether rendered files are added to
    /// the project is not part of it.
    pub fn to_raw(&self) -> (r: u32)
        ensures
            r == render_settings_raw(*self),
    {
        let mono: u32 = if self.use_mono {
            16
        } else {
            0
        };
        self.mode.int_value() | mono
    }

    /// The settings of a raw value, with rendered files not added to the
    /// project.
    pub fn from_raw(value: u32) -> (r: Self)
        requires
            render_settings_readable(value),
        ensures
            r.mode == RenderMode::spec_from_int(value & !16u32)->0,
            r.use_mono == (value & 16 != 0),
            !r.add_to_project,
    {
        let int_mode = value & !16u32;
        let use_mono = value & 16 != 0;
        match RenderMode::from_int(int_mode) {
            Some(mode) => RenderSettings { mode, use_mono, add_to_project: false },
            None => {
                proof {
                    assert(false);
                }
                RenderSettings { mode: RenderMode::MasterMix, use_mono, add_to_project: false }
            },
        }
    }
}

/// Render settings read back from their raw value are unchanged, but for
/// whether rendered files are added to the project, which the raw value
/// does not hold.
pub proof fn law_render_settings_roundtrip(s: RenderSettings)
    ensures
        render_settings_readable(render_settings_raw(s)),
        RenderMode::spec_from_int(render_settings_raw(s) & !16u32) == Some(s.mode),
        (render_settings_raw(s) & 16 != 0) == s.use_mono,
{
    let v = s.mode.spec_int_value();
    let m: u32 = if s.use_mono {
        16
    } else {
        0
    };
    assert(((v | m) & !16u32) == v && (((v | m) & 16u32) != 0) == (m == 16)) by (bit_vector)
        requires
            v == 0 || v == 1 || v == 2 || v == 8 || v == 32 || v == 64,
            m == 0 || m == 16,
    ;
}

/// The bits that are flags of [RenderTailFlags].
pub open spec fn render_tail_all_bits() -> u32 {
    63
}

/// Which bounds modes a render tail applies to.
#[derive(Debug, Clone, Copy, PartialEq, Eq, Structural)]
pub struct RenderTailFlags {
    bits: u32,
}

impl RenderTailFlags {
    /// The bit of the flag for custom bounds.
    pub const IN_CUSTOM_BOUNDS: u32 = 1;

    /// The bit of the flag for the entire project.
    pub const IN_ENTIRE_PROJECT: u32 = 2;

    /// The bit of the flag for the time selection.
    pub const IN_TIME_SELECTION: u32 = 4;

    /// The bit of the flag for all regions.
    pub const IN_ALL_REGIONS: u32 = 8;

    /// The bit of the flag for selected items.
    pub const IN_SELECTED_ITEMS: u32 = 16;

    /// The bit of the flag for selected regions.
    pub const IN_SELECTED_REGIONS: u32 = 32;

    /// The bits of the set flags.
    pub closed spec fn spec_bits(self) -> u32 {
        self.bits
    }

    /// The bits of the set flags.
    pub fn bits(&self) -> (r: u32)
        ensures
            r == self.spec_bits(),
    {
        self.bits
    }

    /// The flags of `bits`, or `None` where a bit is no flag.
    pub fn from_bits(bits: u32) -> (r: Option<Self>)
        ensures
            bits & !render_tail_all_bits() == 0 ==> (r matches Some(f) && f.spec_bits() == bits),
            bits & !render_tail_all_bits() != 0 ==> r is None,
    {
        if bits & !63u32 == 0 {
            Some(RenderTailFlags { bits })
        } else {
            None
        }
    }

    /// The flags of `bits`, dropping the bits that are no flag.
    pub fn from_bits_truncate(bits: u32) -> (r: Self)
        ensures
            r.spec_bits() == bits & render_tail_all_bits(),
    {
        RenderTailFlags { bits: bits & 63 }
    }

    /// Every flag of `other` is set.
    pub fn contains(&self, other: RenderTailFlags) -> (r: bool)
        ensures
            r == (self.spec_bits() & other.spec_bits() == other.spec_bits()),
    {
        self.bits & other.bits == other.bits
    }
}

/// The tail a render adds, and where.
#[derive(Debug, Clone, Copy, PartialEq, Eq)]
pub struct RenderTail {
    pub tail: Duration,
    pub flags: RenderTailFlags,
}

impl RenderTail {
    pub fn new(tail: Duration, flags: RenderTailFlags) -> (r: Self)
        ensures
            r.tail == tail,
            r.flags == flags,
    {
        RenderTail { tail, flags }
    }
}

/// Returned by [Project::focused_fx]
#[derive(Debug, Clone, Copy, PartialEq, Eq, Hash, Structural)]
pub struct FocusedFxResult {
    pub track_index: i32,
    pub item_index: Option<usize>,
    pub take_index: Option<usize>,
    pub fx_index: usize,
}

/// The file names a project renders to, from its render-targets string,
/// where they stand separated by `;`.
pub fn render_targets(targets: &str) -> (r: Vec<String>)
    ensures
        tokens_view(r@) == split_on(targets@, ';'),
{
    split_text(targets, ';')
}

/// REAPER's number for each BoundsMode: Custom is 0, EntireProject is 1, TimeSelection is 2, AllRegions is 3, SelectedItems is 4, SelectedRegions is 5. Those are the only
/// numbers that name one, and each names the one it is the number of.
pub proof fn law_bounds_mode_numbers(value: u32)
    ensures
        BoundsMode::Custom.spec_int_value() == 0,
        BoundsMode::EntireProject.spec_int_value() == 1,
        BoundsMode::TimeSelection.spec_int_value() == 2,
        BoundsMode::AllRegions.spec_int_value() == 3,
        BoundsMode::SelectedItems.spec_int_value() == 4,
        BoundsMode::SelectedRegions.spec_int_value() == 5,
        BoundsMode::spec_from_int(value) is Some <==> (value == 0 || value == 1 || value == 2 || value == 3 || value == 4 || value == 5),
        BoundsMode::spec_from_int(value) matches Some(m) ==> m.spec_int_value() == value,
{
}

/// REAPER's number for each RenderMode: MasterMix is 0, MasterAndStems is 1, Stems is 2, RenderMatrix is 8, SelectedItems is 32, SelectedItemsViaMaster is 64. Those are the only
/// numbers that name one, and each names the one it is the number of.
pub proof fn law_render_mode_numbers(value: u32)
    ensures
        RenderMode::MasterMix.spec_int_value() == 0,
        RenderMode::MasterAndStems.spec_int_value() == 1,
        RenderMode::Stems.spec_int_value() == 2,
        RenderMode::RenderMatrix.spec_int_value() == 8,
        RenderMode::SelectedItems.spec_int_value() == 32,
        RenderMode::SelectedItemsViaMaster.spec_int_value() == 64,
        RenderMode::spec_from_int(value) is Some <==> (value == 0 || value == 1 || value == 2 || value == 8 || value == 32 || value == 64),
        RenderMode::spec_from_int(value) matches Some(m) ==> m.spec_int_value() == value,
{
}

/// The raw render settings are the mode's number, 16 more when mono.
pub proof fn law_render_settings_value(s: RenderSettings)
    ensures
        render_settings_raw(s) == s.mode.spec_int_value() + (if s.use_mono { 16int } else { 0int }),
{
    let v = s.mode.spec_int_value();
    assert(v | 16u32 == v + 16 && v | 0u32 == v) by (bit_vector)
        requires
            v == 0 || v == 1 || v == 2 || v == 8 || v == 32 || v == 64,
    ;
}

} // verus!

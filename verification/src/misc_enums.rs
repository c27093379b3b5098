//! Small enumerations of REAPER settings and their raw values.
use vstd::prelude::*;
use crate::misc_types::HardwareSocket;

verus! {

/// An action section: the main one, or another by id.
pub enum Section {
    Main,
    Id(u32),
}

impl Section {
    pub fn id(&self) -> (r: u32)
        ensures
            r == match self {
                Section::Main => 0u32,
                Section::Id(id) => *id,
            },
    {
        match self {
            Section::Main => 0,
            Section::Id(id) => *id,
        }
    }
}

/// Track automation mode.
#[derive(Clone, Copy, Debug, PartialEq, Eq, Structural)]
pub enum AutomationMode {
    Off,
    TrimRead,
    Read,
    Touch,
    Write,
    Latch,
    Bypass,
}

impl AutomationMode {
    /// The integer that stands for the variant.
    pub open spec fn spec_int_value(self) -> i32 {
        match self {
            AutomationMode::Off => -1i32,
            AutomationMode::TrimRead => 0,
            AutomationMode::Read => 1,
            AutomationMode::Touch => 2,
            AutomationMode::Write => 3,
            AutomationMode::Latch => 4,
            AutomationMode::Bypass => 5,
        }
    }

    /// The variant that an integer stands for, if any.
    pub open spec fn spec_from_int(value: i32) -> Option<AutomationMode> {
        if value == -1i32 {
            Some(AutomationMode::Off)
        } else if value == 0 {
            Some(AutomationMode::TrimRead)
        } else if value == 1 {
            Some(AutomationMode::Read)
        } else if value == 2 {
            Some(AutomationMode::Touch)
        } else if value == 3 {
            Some(AutomationMode::Write)
        } else if value == 4 {
            Some(AutomationMode::Latch)
        } else if value == 5 {
            Some(AutomationMode::Bypass)
        } else {
            None
        }
    }

    /// The integer that stands for the variant.
    pub fn int_value(&self) -> (r: i32)
        ensures
            r == self.spec_int_value(),
            AutomationMode::spec_from_int(r) == Some(*self),
    {
        match self {
            AutomationMode::Off => -1i32,
            AutomationMode::TrimRead => 0,
            AutomationMode::Read => 1,
            AutomationMode::Touch => 2,
            AutomationMode::Write => 3,
            AutomationMode::Latch => 4,
            AutomationMode::Bypass => 5,
        }
    }

    /// The variant that an integer stands for, if any.
    pub fn from_int(value: i32) -> (r: Option<AutomationMode>)
        ensures
            r == AutomationMode::spec_from_int(value),
            r matches Some(v) ==> v.spec_int_value() == value,
    {
        if value == -1i32 {
            Some(AutomationMode::Off)
        } else if value == 0 {
            Some(AutomationMode::TrimRead)
        } else if value == 1 {
            Some(AutomationMode::Read)
        } else if value == 2 {
            Some(AutomationMode::Touch)
        } else if value == 3 {
            Some(AutomationMode::Write)
        } else if value == 4 {
            Some(AutomationMode::Latch)
        } else if value == 5 {
            Some(AutomationMode::Bypass)
        } else {
            None
        }
    }
}

/// Buttons of a message box.
#[derive(Clone, Copy, Debug, PartialEq, Eq, Structural)]
pub enum MessageBoxType {
    OkButton,
    OkCancel,
    AbortRetryIgnore,
    YesNoCancel,
    YesNo,
    RetryCancel,
}

impl MessageBoxType {
    /// The integer that stands for the variant.
    pub open spec fn spec_int_value(self) -> i32 {
        match self {
            MessageBoxType::OkButton => 0,
            MessageBoxType::OkCancel => 1,
            MessageBoxType::AbortRetryIgnore => 2,
            MessageBoxType::YesNoCancel => 3,
            MessageBoxType::YesNo => 4,
            MessageBoxType::RetryCancel => 5,
        }
    }

    /// The variant that an integer stands for, if any.
    pub open spec fn spec_from_int(value: i32) -> Option<MessageBoxType> {
        if value == 0 {
            Some(MessageBoxType::OkButton)
        } else if value == 1 {
            Some(MessageBoxType::OkCancel)
        } else if value == 2 {
            Some(MessageBoxType::AbortRetryIgnore)
        } else if value == 3 {
            Some(MessageBoxType::YesNoCancel)
        } else if value == 4 {
            Some(MessageBoxType::YesNo)
        } else if value == 5 {
            Some(MessageBoxType::RetryCancel)
        } else {
            None
        }
    }

    /// The integer that stands for the variant.
    pub fn int_value(&self) -> (r: i32)
        ensures
            r == self.spec_int_value(),
            MessageBoxType::spec_from_int(r) == Some(*self),
    {
        match self {
            MessageBoxType::OkButton => 0,
            MessageBoxType::OkCancel => 1,
            MessageBoxType::AbortRetryIgnore => 2,
            MessageBoxType::YesNoCancel => 3,
            MessageBoxType::YesNo => 4,
            MessageBoxType::RetryCancel => 5,
        }
    }

    /// The variant that an integer stands for, if any.
    pub fn from_int(value: i32) -> (r: Option<MessageBoxType>)
        ensures
            r == MessageBoxType::spec_from_int(value),
            r matches Some(v) ==> v.spec_int_value() == value,
    {
        if value == 0 {
            Some(MessageBoxType::OkButton)
        } else if value == 1 {
            Some(MessageBoxType::OkCancel)
        } else if value == 2 {
            Some(MessageBoxType::AbortRetryIgnore)
        } else if value == 3 {
            Some(MessageBoxType::YesNoCancel)
        } else if value == 4 {
            Some(MessageBoxType::YesNo)
        } else if value == 5 {
            Some(MessageBoxType::RetryCancel)
        } else {
            None
        }
    }
}

/// The button a message box was closed with.
#[derive(Clone, Copy, Debug, PartialEq, Eq, Structural)]
pub enum MessageBoxValue {
    OkButton,
    Cancel,
    Abort,
    Retry,
    Ignore,
    Yes,
    No,
}

impl MessageBoxValue {
    /// The integer that stands for the variant.
    pub open spec fn spec_int_value(self) -> i32 {
        match self {
            MessageBoxValue::OkButton => 1,
            MessageBoxValue::Cancel => 2,
            MessageBoxValue::Abort => 3,
            MessageBoxValue::Retry => 4,
            MessageBoxValue::Ignore => 5,
            MessageBoxValue::Yes => 6,
            MessageBoxValue::No => 7,
        }
    }

    /// The variant that an integer stands for, if any.
    pub open spec fn spec_from_int(value: i32) -> Option<MessageBoxValue> {
        if value == 1 {
            Some(MessageBoxValue::OkButton)
        } else if value == 2 {
            Some(MessageBoxValue::Cancel)
        } else if value == 3 {
            Some(MessageBoxValue::Abort)
        } else if value == 4 {
            Some(MessageBoxValue::Retry)
        } else if value == 5 {
            Some(MessageBoxValue::Ignore)
        } else if value == 6 {
            Some(MessageBoxValue::Yes)
        } else if value == 7 {
            Some(MessageBoxValue::No)
        } else {
            None
        }
    }

    /// The integer that stands for the variant.
    pub fn int_value(&self) -> (r: i32)
        ensures
            r == self.spec_int_value(),
            MessageBoxValue::spec_from_int(r) == Some(*self),
    {
        match self {
            MessageBoxValue::OkButton => 1,
            MessageBoxValue::Cancel => 2,
            MessageBoxValue::Abort => 3,
            MessageBoxValue::Retry => 4,
            MessageBoxValue::Ignore => 5,
            MessageBoxValue::Yes => 6,
            MessageBoxValue::No => 7,
        }
    }

    /// The variant that an integer stands for, if any.
    pub fn from_int(value: i32) -> (r: Option<MessageBoxValue>)
        ensures
            r == MessageBoxValue::spec_from_int(value),
            r matches Some(v) ==> v.spec_int_value() == value,
    {
        if value == 1 {
            Some(MessageBoxValue::OkButton)
        } else if value == 2 {
            Some(MessageBoxValue::Cancel)
        } else if value == 3 {
            Some(MessageBoxValue::Abort)
        } else if value == 4 {
            Some(MessageBoxValue::Retry)
        } else if value == 5 {
            Some(MessageBoxValue::Ignore)
        } else if value == 6 {
            Some(MessageBoxValue::Yes)
        } else if value == 7 {
            Some(MessageBoxValue::No)
        } else {
            None
        }
    }
}

/// A direction to move in.
#[derive(Clone, Copy, Debug, PartialEq, Eq, Structural)]
pub enum Direction {
    Right,
    Left,
}

/// Track solo state.
#[derive(Clone, Copy, Debug, PartialEq, Eq, Structural)]
pub enum SoloMode {
    NotSoloed,
    Soloed,
    SoloedInPlace,
    SafeSoloed,
    SafeSoloedInPlace,
}

impl SoloMode {
    /// The integer that stands for the variant.
    pub open spec fn spec_int_value(self) -> i32 {
        match self {
            SoloMode::NotSoloed => 0,
            SoloMode::Soloed => 1,
            SoloMode::SoloedInPlace => 2,
            SoloMode::SafeSoloed => 5,
            SoloMode::SafeSoloedInPlace => 6,
        }
    }

    /// The variant that an integer stands for, if any.
    pub open spec fn spec_from_int(value: i32) -> Option<SoloMode> {
        if value == 0 {
            Some(SoloMode::NotSoloed)
        } else if value == 1 {
            Some(SoloMode::Soloed)
        } else if value == 2 {
            Some(SoloMode::SoloedInPlace)
        } else if value == 5 {
            Some(SoloMode::SafeSoloed)
        } else if value == 6 {
            Some(SoloMode::SafeSoloedInPlace)
        } else {
            None
        }
    }

    /// The integer that stands for the variant.
    pub fn int_value(&self) -> (r: i32)
        ensures
            r == self.spec_int_value(),
            SoloMode::spec_from_int(r) == Some(*self),
    {
        match self {
            SoloMode::NotSoloed => 0,
            SoloMode::Soloed => 1,
            SoloMode::SoloedInPlace => 2,
            SoloMode::SafeSoloed => 5,
            SoloMode::SafeSoloedInPlace => 6,
        }
    }

    /// The variant that an integer stands for, if any.
    pub fn from_int(value: i32) -> (r: Option<SoloMode>)
        ensures
            r == SoloMode::spec_from_int(value),
            r matches Some(v) ==> v.spec_int_value() == value,
    {
        if value == 0 {
            Some(SoloMode::NotSoloed)
        } else if value == 1 {
            Some(SoloMode::Soloed)
        } else if value == 2 {
            Some(SoloMode::SoloedInPlace)
        } else if value == 5 {
            Some(SoloMode::SafeSoloed)
        } else if value == 6 {
            Some(SoloMode::SafeSoloedInPlace)
        } else {
            None
        }
    }
}

/// Track recording mode
#[derive(Clone, Copy, Debug, PartialEq, Eq, Structural)]
pub enum RecMode {
    Input,
    StereoOut,
    Disabled,
    StereoOutWithLatencyComp,
    MidiOut,
    MonoOut,
    MonoOutWithLatencyComp,
    MidiOverdub,
    MidiReplace,
}

impl RecMode {
    /// The integer that stands for the variant.
    pub open spec fn spec_int_value(self) -> i32 {
        match self {
            RecMode::Input => 0,
            RecMode::StereoOut => 1,
            RecMode::Disabled => 2,
            RecMode::StereoOutWithLatencyComp => 3,
            RecMode::MidiOut => 4,
            RecMode::MonoOut => 5,
            RecMode::MonoOutWithLatencyComp => 6,
            RecMode::MidiOverdub => 7,
            RecMode::MidiReplace => 8,
        }
    }

    /// The variant that an integer stands for, if any.
    pub open spec fn spec_from_int(value: i32) -> Option<RecMode> {
        if value == 0 {
            Some(RecMode::Input)
        } else if value == 1 {
            Some(RecMode::StereoOut)
        } else if value == 2 {
            Some(RecMode::Disabled)
        } else if value == 3 {
            Some(RecMode::StereoOutWithLatencyComp)
        } else if value == 4 {
            Some(RecMode::MidiOut)
        } else if value == 5 {
            Some(RecMode::MonoOut)
        } else if value == 6 {
            Some(RecMode::MonoOutWithLatencyComp)
        } else if value == 7 {
            Some(RecMode::MidiOverdub)
        } else if value == 8 {
            Some(RecMode::MidiReplace)
        } else {
            None
        }
    }

    /// The integer that stands for the variant.
    pub fn int_value(&self) -> (r: i32)
        ensures
            r == self.spec_int_value(),
            RecMode::spec_from_int(r) == Some(*self),
    {
        match self {
            RecMode::Input => 0,
            RecMode::StereoOut => 1,
            RecMode::Disabled => 2,
            RecMode::StereoOutWithLatencyComp => 3,
            RecMode::MidiOut => 4,
            RecMode::MonoOut => 5,
            RecMode::MonoOutWithLatencyComp => 6,
            RecMode::MidiOverdub => 7,
            RecMode::MidiReplace => 8,
        }
    }

    /// The variant that an integer stands for, if any.
    pub fn from_int(value: i32) -> (r: Option<RecMode>)
        ensures
            r == RecMode::spec_from_int(value),
            r matches Some(v) ==> v.spec_int_value() == value,
    {
        if value == 0 {
            Some(RecMode::Input)
        } else if value == 1 {
            Some(RecMode::StereoOut)
        } else if value == 2 {
            Some(RecMode::Disabled)
        } else if value == 3 {
            Some(RecMode::StereoOutWithLatencyComp)
        } else if value == 4 {
            Some(RecMode::MidiOut)
        } else if value == 5 {
            Some(RecMode::MonoOut)
        } else if value == 6 {
            Some(RecMode::MonoOutWithLatencyComp)
        } else if value == 7 {
            Some(RecMode::MidiOverdub)
        } else if value == 8 {
            Some(RecMode::MidiReplace)
        } else {
            None
        }
    }
}

/// Time base of an item or track.
#[derive(Clone, Copy, Debug, PartialEq, Eq, Structural)]
pub enum TimeMode {
    /// Project default
    Default,
    Time,
    /// position length rate
    BeatsFull,
    BeatsOnlyPosition,
}

impl TimeMode {
    /// The integer that stands for the variant.
    pub open spec fn spec_int_value(self) -> i32 {
        match self {
            TimeMode::Default => -1i32,
            TimeMode::Time => 0,
            TimeMode::BeatsFull => 1,
            TimeMode::BeatsOnlyPosition => 2,
        }
    }

    /// The variant that an integer stands for, if any.
    pub open spec fn spec_from_int(value: i32) -> Option<TimeMode> {
        if value == -1i32 {
            Some(TimeMode::Default)
        } else if value == 0 {
            Some(TimeMode::Time)
        } else if value == 1 {
            Some(TimeMode::BeatsFull)
        } else if value == 2 {
            Some(TimeMode::BeatsOnlyPosition)
        } else {
            None
        }
    }

    /// The integer that stands for the variant.
    pub fn int_value(&self) -> (r: i32)
        ensures
            r == self.spec_int_value(),
            TimeMode::spec_from_int(r) == Some(*self),
    {
        match self {
            TimeMode::Default => -1i32,
            TimeMode::Time => 0,
            TimeMode::BeatsFull => 1,
            TimeMode::BeatsOnlyPosition => 2,
        }
    }

    /// The variant that an integer stands for, if any.
    pub fn from_int(value: i32) -> (r: Option<TimeMode>)
        ensures
            r == TimeMode::spec_from_int(value),
            r matches Some(v) ==> v.spec_int_value() == value,
    {
        if value == -1i32 {
            Some(TimeMode::Default)
        } else if value == 0 {
            Some(TimeMode::Time)
        } else if value == 1 {
            Some(TimeMode::BeatsFull)
        } else if value == 2 {
            Some(TimeMode::BeatsOnlyPosition)
        } else {
            None
        }
    }
}

/// Where a track records its output from.
#[derive(Clone, Copy, Debug, PartialEq, Eq, Structural)]
pub enum RecOutMode {
    PostFader,
    PreFX,
    /// pre-fader
    PostFX,
}

impl RecOutMode {
    /// The raw value of a mode.
    pub open spec fn spec_raw(self) -> u32 {
        match self {
            RecOutMode::PostFader => 0,
            RecOutMode::PreFX => 1,
            RecOutMode::PostFX => 2,
        }
    }

    /// The mode a raw value names, if any.
    pub open spec fn spec_from_raw(mode: u32) -> Option<RecOutMode> {
        if mode == 0 {
            Some(RecOutMode::PostFader)
        } else if mode == 1 {
            Some(RecOutMode::PreFX)
        } else if mode == 2 {
            Some(RecOutMode::PostFX)
        } else {
            None
        }
    }

    pub fn from_raw(mode: u32) -> (r: Option<Self>)
        ensures
            r == RecOutMode::spec_from_raw(mode),
    {
        match mode {
            0 => Some(RecOutMode::PostFader),
            1 => Some(RecOutMode::PreFX),
            2 => Some(RecOutMode::PostFX),
            _ => None,
        }
    }

    pub fn to_raw(&self) -> (r: u32)
        ensures
            r == self.spec_raw(),
    {
        match self {
            RecOutMode::PostFader => 0,
            RecOutMode::PreFX => 1,
            RecOutMode::PostFX => 2,
        }
    }
}

/// Reading back the raw value of a record-output mode gives the mode, and
/// writing the mode a raw value names gives the value.
pub proof fn law_rec_out_mode_roundtrip(m: RecOutMode, raw: u32)
    ensures
        RecOutMode::spec_from_raw(m.spec_raw()) == Some(m),
        RecOutMode::spec_from_raw(raw) matches Some(n) ==> n.spec_raw() == raw,
{
}

/// Track VU Mode.
#[allow(non_camel_case_types)]
#[derive(Clone, Copy, Debug, PartialEq, Eq, Structural)]
pub enum VUMode {
    Disabled,
    StereoPeaks,
    MultichannelPeaks,
    StereoRMS,
    CombinedRMS,
    LUFS_M,
    LUFS_S_ReadoutMax,
    LUFS_S_ReadoutCurrent,
    LUFS_OnChannels_1_2,
}

impl VUMode {
    /// A raw value names a mode: disabled, on channels 1-2, or one of the
    /// meter kinds in bits 1..4.
    pub open spec fn spec_raw_defined(raw: u32) -> bool {
        raw & 1 == 1 || raw & 32 == 32 || raw & 30 == 0 || raw & 30 == 2 || raw & 30 == 4 || raw
            & 30 == 8 || raw & 30 == 12 || raw & 30 == 16 || raw & 30 == 20
    }

    /// The mode a raw value names.
    pub open spec fn spec_from_raw(raw: u32) -> VUMode {
        if raw & 1 == 1 {
            VUMode::Disabled
        } else if raw & 32 == 32 {
            VUMode::LUFS_OnChannels_1_2
        } else if raw & 30 == 0 {
            VUMode::StereoPeaks
        } else if raw & 30 == 2 {
            VUMode::MultichannelPeaks
        } else if raw & 30 == 4 {
            VUMode::StereoRMS
        } else if raw & 30 == 8 {
            VUMode::CombinedRMS
        } else if raw & 30 == 12 {
            VUMode::LUFS_M
        } else if raw & 30 == 16 {
            VUMode::LUFS_S_ReadoutMax
        } else {
            VUMode::LUFS_S_ReadoutCurrent
        }
    }

    /// The raw value written for a mode.
    pub open spec fn spec_raw(self) -> u32 {
        match self {
            VUMode::Disabled => 1,
            VUMode::LUFS_OnChannels_1_2 => 32,
            VUMode::StereoPeaks => 0,
            VUMode::MultichannelPeaks => 2,
            VUMode::StereoRMS => 4,
            VUMode::CombinedRMS => 8,
            VUMode::LUFS_M => 12,
            VUMode::LUFS_S_ReadoutMax => 16,
            VUMode::LUFS_S_ReadoutCurrent => 20,
        }
    }

    pub fn from_raw(raw: u32) -> (r: Self)
        requires
            VUMode::spec_raw_defined(raw),
        ensures
            r == VUMode::spec_from_raw(raw),
    {
        if raw & 1 == 1 {
            return VUMode::Disabled;
        }
        if raw & 32 == 32 {
            return VUMode::LUFS_OnChannels_1_2;
        }
        let x = raw & 30;
        if x == 0 {
            VUMode::StereoPeaks
        } else if x == 2 {
            VUMode::MultichannelPeaks
        } else if x == 4 {
            VUMode::StereoRMS
        } else if x == 8 {
            VUMode::CombinedRMS
        } else if x == 12 {
            VUMode::LUFS_M
        } else if x == 16 {
            VUMode::LUFS_S_ReadoutMax
        } else {
            VUMode::LUFS_S_ReadoutCurrent
        }
    }

    /// The raw value of the mode: the value that `from_raw` reads as it.
    pub fn to_raw(&self) -> (r: u32)
        ensures
            r == self.spec_raw(),
    {
        match self {
            VUMode::Disabled => 1,
            VUMode::LUFS_OnChannels_1_2 => 32,
            VUMode::StereoPeaks => 0,
            VUMode::MultichannelPeaks => 2,
            VUMode::StereoRMS => 4,
            VUMode::CombinedRMS => 8,
            VUMode::LUFS_M => 12,
            VUMode::LUFS_S_ReadoutMax => 16,
            VUMode::LUFS_S_ReadoutCurrent => 20,
        }
    }
}

/// Reading back the raw value written for a VU mode gives the mode.
pub proof fn law_vu_mode_roundtrip(m: VUMode)
    ensures
        VUMode::spec_raw_defined(m.spec_raw()),
        VUMode::spec_from_raw(m.spec_raw()) == m,
{
    assert(1u32 & 1 == 1) by (bit_vector);
    assert(32u32 & 1 == 0 && 32u32 & 32 == 32) by (bit_vector);
    assert(0u32 & 1 == 0 && 0u32 & 32 == 0 && 0u32 & 30 == 0) by (bit_vector);
    assert(2u32 & 1 == 0 && 2u32 & 32 == 0 && 2u32 & 30 == 2) by (bit_vector);
    assert(4u32 & 1 == 0 && 4u32 & 32 == 0 && 4u32 & 30 == 4) by (bit_vector);
    assert(8u32 & 1 == 0 && 8u32 & 32 == 0 && 8u32 & 30 == 8) by (bit_vector);
    assert(12u32 & 1 == 0 && 12u32 & 32 == 0 && 12u32 & 30 == 12) by (bit_vector);
    assert(16u32 & 1 == 0 && 16u32 & 32 == 0 && 16u32 & 30 == 16) by (bit_vector);
    assert(20u32 & 1 == 0 && 20u32 & 32 == 0 && 20u32 & 30 == 20) by (bit_vector);
}

/// Represents relations of the track in folders structure.
#[derive(Clone, Copy, Debug, PartialEq, Eq, Structural)]
pub enum TrackFolderState {
    /// is between two tracks.
    Normal,
    /// 0 → normal, 1 → small, 2 → smallest.
    IsFolder(u32),
    /// depth of «going up»
    Last(u32),
}

impl TrackFolderState {
    /// The state of a folder depth and compact value.
    pub open spec fn spec_from_raw(depth: i32, compact: u32) -> TrackFolderState {
        if depth == 0 {
            TrackFolderState::Normal
        } else if depth == 1 {
            TrackFolderState::IsFolder(compact)
        } else {
            TrackFolderState::Last((-depth) as u32)
        }
    }

    pub fn from_raw(depth: i32, compact: u32) -> (r: Self)
        requires
            depth <= 1,
            depth != i32::MIN,
        ensures
            r == TrackFolderState::spec_from_raw(depth, compact),
    {
        if depth == 0 {
            return TrackFolderState::Normal;
        }
        if depth == 1 {
            return TrackFolderState::IsFolder(compact);
        }
        TrackFolderState::Last((-depth) as u32)
    }

    /// get depth and compact
    pub fn to_raw(self) -> (r: (i32, Option<u32>))
        requires
            self matches TrackFolderState::Last(d) ==> d as i32 != i32::MIN,
        ensures
            r == match self {
                TrackFolderState::Normal => (0i32, None),
                TrackFolderState::IsFolder(compact) => (1i32, Some(compact)),
                TrackFolderState::Last(depth) => (-(depth as i32) as i32, None),
            },
    {
        match self {
            TrackFolderState::Normal => (0, None),
            TrackFolderState::IsFolder(compact) => (1, Some(compact)),
            TrackFolderState::Last(depth) => (-(depth as i32), None),
        }
    }
}

/// Reading back the raw values of a folder state gives the state, for
/// every state but `Last(0)` (written as depth 0, read as `Normal`) and
/// `Last(d)` with `d` above `i32::MAX`.
pub proof fn law_folder_state_roundtrip(s: TrackFolderState)
    requires
        s matches TrackFolderState::Last(d) ==> 1 <= d <= i32::MAX,
    ensures
        TrackFolderState::spec_from_raw(
            match s {
                TrackFolderState::Normal => 0i32,
                TrackFolderState::IsFolder(_) => 1i32,
                TrackFolderState::Last(d) => -(d as i32) as i32,
            },
            match s {
                TrackFolderState::IsFolder(c) => c,
                _ => 0u32,
            },
        ) == s,
{
}

/// Track recording input.
#[derive(Debug, Clone, PartialEq)]
pub enum RecInput {
    /// MIDI Channel (`0` → all), HardwareSocket (`None` → all).
    /// Can hold special socket: `HardwareSocket{62, "Virtual Keyboard"}`.
    MIDI(u8, Option<HardwareSocket>),
    /// channel offset, is from rea_route
    Mono(u32, bool),
    /// channel offset, is from rea_route
    Stereo(u32, bool),
    /// channel offset, is from rea_route
    Multichannel(u32, bool),
}

/// A raw input value marks a MIDI input.
pub open spec fn rec_input_is_midi(value: u32) -> bool {
    value & 4096 != 0
}

/// The hardware index a raw MIDI input value names: bits 5 to 10 (63 is
/// all devices, 62 the virtual keyboard).
pub open spec fn rec_input_hw_index(value: u32) -> u32 {
    (value >> 5u32) & 63u32
}

/// A raw audio input value can be read: one counted as routed through
/// ReaRoute (512 and above) has the ReaRoute bit in its offset.
pub open spec fn rec_input_readable(value: u32) -> bool {
    !rec_input_is_midi(value) && value >= 512 ==> value & 1023 >= 512
}

/// The socket a MIDI input of hardware index `hw` is read with: none for
/// 63 (all sockets), the virtual keyboard for 62, else the socket that was
/// looked up for the index.
pub open spec fn rec_input_socket(hw: u32, socket: Option<HardwareSocket>, midi_input: Option<
    HardwareSocket,
>) -> bool {
    if hw == 63 {
        socket is None
    } else if hw == 62 {
        socket matches Some(s) && s.spec_index() == 62 && s.spec_name() == "Virtual Keyboard"@
    } else {
        socket == midi_input
    }
}

/// The audio input a raw value names: its low ten bits are the channel,
/// less 512 where the value is 512 or more (routed through ReaRoute); bit
/// 2048 makes it multichannel, else bit 1024 stereo, else mono.
pub open spec fn spec_rec_input_audio(value: u32) -> RecInput {
    let rea_route = value >= 512;
    let offset = if rea_route {
        (value & 1023u32) - 512
    } else {
        (value & 1023u32) as int
    };
    if value & 2048 != 0 {
        RecInput::Multichannel(offset as u32, rea_route)
    } else if value & 1024 != 0 {
        RecInput::Stereo(offset as u32, rea_route)
    } else {
        RecInput::Mono(offset as u32, rea_route)
    }
}

/// The channel with the ReaRoute offset where it is routed through it.
pub open spec fn spec_pack_rea_route(rea_route: bool, ch: u32) -> int {
    if rea_route {
        ch + 512
    } else {
        ch as int
    }
}

/// The raw value an input can be written as.
pub open spec fn rec_input_writable(input: RecInput) -> bool {
    match input {
        RecInput::MIDI(..) => true,
        RecInput::Mono(ch, rea_route) => spec_pack_rea_route(rea_route, ch) <= u32::MAX,
        RecInput::Stereo(ch, rea_route) => spec_pack_rea_route(rea_route, ch) <= u32::MAX,
        RecInput::Multichannel(ch, rea_route) => spec_pack_rea_route(rea_route, ch) <= u32::MAX,
    }
}

/// The hardware index written for a MIDI input's socket: 63 for all.
pub open spec fn rec_input_socket_index(socket: Option<HardwareSocket>) -> u32 {
    match socket {
        None => 63u32,
        Some(x) => x.spec_index(),
    }
}

/// The raw value of an input: a MIDI one as bit 4096, its socket index
/// (63 for all sockets) shifted left by five, and its channel; an audio one
/// as its channel (plus 512 routed through ReaRoute), with bit 1024 for
/// stereo and 2048 for multichannel.
pub open spec fn spec_rec_input_raw(input: RecInput) -> u32 {
    match input {
        RecInput::MIDI(ch, socket) => 4096u32 | (rec_input_socket_index(socket) << 5u32) | (
        ch as u32),
        RecInput::Mono(ch, rea_route) => spec_pack_rea_route(rea_route, ch) as u32,
        RecInput::Stereo(ch, rea_route) => (spec_pack_rea_route(rea_route, ch) as u32) | 1024u32,
        RecInput::Multichannel(ch, rea_route) => (spec_pack_rea_route(rea_route, ch) as u32)
            | 2048u32,
    }
}

impl RecInput {
    fn pack_rea_route(rea_route: bool, ch: u32) -> (r: u32)
        requires
            spec_pack_rea_route(rea_route, ch) <= u32::MAX,
        ensures
            r == spec_pack_rea_route(rea_route, ch),
    {
        if rea_route {
            ch + 512
        } else {
            ch
        }
    }

    /// The hardware index of a raw MIDI input value, whose socket the
    /// caller looks up for `from_raw` where it is neither 62 nor 63.
    pub fn midi_hw_index(value: u32) -> (r: u32)
        ensures
            r == rec_input_hw_index(value),
    {
        (value >> 5u32) & 0b111111
    }

    /// The input a raw value names; `midi_input` is the socket of its
    /// hardware index.
    pub fn from_raw(value: u32, midi_input: Option<HardwareSocket>) -> (r: Self)
        requires
            rec_input_readable(value),
        ensures
            rec_input_is_midi(value) ==> (r matches RecInput::MIDI(ch, socket) && ch == (value
                & 31u32) as u8 && rec_input_socket(rec_input_hw_index(value), socket, midi_input)),
            !rec_input_is_midi(value) ==> r == spec_rec_input_audio(value),
    {
        if value & 4096 > 0 {
            let channel = value & 0b11111;
            let hw_idx = (value >> 5u32) & 0b111111;
            let socket = if hw_idx == 63 {
                None
            } else if hw_idx == 62 {
                Some(HardwareSocket::virtual_keyboard())
            } else {
                midi_input
            };
            RecInput::MIDI(channel as u8, socket)
        } else {
            let mut offset = value & 1023;
            let rea_route = value >= 512;
            if rea_route {
                offset = offset - 512;
            }
            if value & 2048 > 0 {
                RecInput::Multichannel(offset, rea_route)
            } else if value & 1024 > 0 {
                RecInput::Stereo(offset, rea_route)
            } else {
                RecInput::Mono(offset, rea_route)
            }
        }
    }

    /// The raw value of the input.
    pub fn to_raw(self) -> (r: u32)
        requires
            rec_input_writable(self),
        ensures
            r == spec_rec_input_raw(self),
    {
        match self {
            RecInput::MIDI(ch, socket) => {
                let socket: u32 = match socket {
                    None => 63,
                    Some(x) => x.index(),
                };
                4096 | (socket << 5u32) | (ch as u32)
            },
            RecInput::Mono(ch, rea_route) => Self::pack_rea_route(rea_route, ch),
            RecInput::Stereo(ch, rea_route) => Self::pack_rea_route(rea_route, ch) | 1024,
            RecInput::Multichannel(ch, rea_route) => Self::pack_rea_route(rea_route, ch) | 2048,
        }
    }
}

/// A MIDI input with a channel below 32 and a socket index below 64 is
/// read back with its channel and its socket's index (no socket, all
/// devices, comes back as no socket).
pub proof fn law_rec_input_midi_roundtrip(ch: u8, socket: Option<HardwareSocket>)
    requires
        ch < 32,
        rec_input_socket_index(socket) < 64,
    ensures
        rec_input_writable(RecInput::MIDI(ch, socket)),
        rec_input_readable(spec_rec_input_raw(RecInput::MIDI(ch, socket))),
        rec_input_is_midi(spec_rec_input_raw(RecInput::MIDI(ch, socket))),
        (spec_rec_input_raw(RecInput::MIDI(ch, socket)) & 31u32) as u8 == ch,
        rec_input_hw_index(spec_rec_input_raw(RecInput::MIDI(ch, socket)))
            == rec_input_socket_index(socket),
        socket is None ==> rec_input_socket(
            rec_input_hw_index(spec_rec_input_raw(RecInput::MIDI(ch, socket))),
            None,
            None,
        ),
{
    let i = rec_input_socket_index(socket);
    let c = ch as u32;
    assert(((4096u32 | (i << 5u32) | c) & 4096 != 0) && ((4096u32 | (i << 5u32) | c) & 31u32)
        == c && (((4096u32 | (i << 5u32) | c) >> 5u32) & 63u32) == i) by (bit_vector)
        requires
            c < 32,
            i < 64,
    ;
}

/// An audio input read back from its raw value is unchanged where its
/// channel is below 512 and it is mono or routed through ReaRoute; a
/// stereo or multichannel input not routed through ReaRoute is written
/// as a value that cannot be read.
pub proof fn law_rec_input_roundtrip(input: RecInput)
    requires
        match input {
            RecInput::MIDI(..) => false,
            RecInput::Mono(ch, _) => ch < 512,
            RecInput::Stereo(ch, _) => ch < 512,
            RecInput::Multichannel(ch, _) => ch < 512,
        },
    ensures
        rec_input_writable(input),
        match input {
            RecInput::Mono(..) => true,
            RecInput::Stereo(_, rea_route) => rea_route,
            RecInput::Multichannel(_, rea_route) => rea_route,
            _ => false,
        } ==> rec_input_readable(spec_rec_input_raw(input)) && !rec_input_is_midi(
            spec_rec_input_raw(input),
        ) && spec_rec_input_audio(spec_rec_input_raw(input)) == input,
        match input {
            RecInput::Stereo(_, rea_route) => !rea_route,
            RecInput::Multichannel(_, rea_route) => !rea_route,
            _ => false,
        } ==> !rec_input_readable(spec_rec_input_raw(input)),
{
    match input {
        RecInput::Mono(ch, rea_route) => {
            let v: u32 = spec_pack_rea_route(rea_route, ch) as u32;
            assert(ch < 512 ==> (ch & 4096 == 0 && ch & 2048 == 0 && ch & 1024 == 0 && ch & 1023
                == ch)) by (bit_vector);
            assert(ch < 512 ==> ((ch + 512) as u32 & 4096 == 0 && (ch + 512) as u32 & 2048 == 0
                && (ch + 512) as u32 & 1024 == 0 && (ch + 512) as u32 & 1023 == ch + 512))
                by (bit_vector);
        },
        RecInput::Stereo(ch, rea_route) => {
            assert(ch < 512 ==> ((ch + 512) as u32 | 1024u32) & 4096 == 0 && ((ch + 512) as u32
                | 1024u32) & 2048 == 0 && ((ch + 512) as u32 | 1024u32) & 1024 != 0 && ((ch
                + 512) as u32 | 1024u32) & 1023 == ch + 512 && ((ch + 512) as u32 | 1024u32)
                >= 512) by (bit_vector);
            assert(ch < 512 ==> (ch | 1024u32) & 4096 == 0 && (ch | 1024u32) >= 512 && (ch
                | 1024u32) & 1023 == ch) by (bit_vector);
        },
        RecInput::Multichannel(ch, rea_route) => {
            assert(ch < 512 ==> ((ch + 512) as u32 | 2048u32) & 4096 == 0 && ((ch + 512) as u32
                | 2048u32) & 2048 != 0 && ((ch + 512) as u32 | 2048u32) & 1023 == ch + 512 && ((
            ch + 512) as u32 | 2048u32) >= 512) by (bit_vector);
            assert(ch < 512 ==> (ch | 2048u32) & 4096 == 0 && (ch | 2048u32) >= 512 && (ch
                | 2048u32) & 1023 == ch) by (bit_vector);
        },
        RecInput::MIDI(..) => {},
    }
}

/// REAPER's number for each AutomationMode: Off is -1, TrimRead is 0, Read is 1, Touch is 2, Write is 3, Latch is 4, Bypass is 5. Those are the only
/// numbers that name one, and each names the one it is the number of.
pub proof fn law_automation_mode_numbers(value: i32)
    ensures
        AutomationMode::Off.spec_int_value() == -1,
        AutomationMode::TrimRead.spec_int_value() == 0,
        AutomationMode::Read.spec_int_value() == 1,
        AutomationMode::Touch.spec_int_value() == 2,
        AutomationMode::Write.spec_int_value() == 3,
        AutomationMode::Latch.spec_int_value() == 4,
        AutomationMode::Bypass.spec_int_value() == 5,
        AutomationMode::spec_from_int(value) is Some <==> (value == -1 || value == 0 || value == 1 || value == 2 || value == 3 || value == 4 || value == 5),
        AutomationMode::spec_from_int(value) matches Some(m) ==> m.spec_int_value() == value,
{
}

/// REAPER's number for each MessageBoxType: OkButton is 0, OkCancel is 1, AbortRetryIgnore is 2, YesNoCancel is 3, YesNo is 4, RetryCancel is 5. Those are the only
/// numbers that name one, and each names the one it is the number of.
pub proof fn law_message_box_type_numbers(value: i32)
    ensures
        MessageBoxType::OkButton.spec_int_value() == 0,
        MessageBoxType::OkCancel.spec_int_value() == 1,
        MessageBoxType::AbortRetryIgnore.spec_int_value() == 2,
        MessageBoxType::YesNoCancel.spec_int_value() == 3,
        MessageBoxType::YesNo.spec_int_value() == 4,
        MessageBoxType::RetryCancel.spec_int_value() == 5,
        MessageBoxType::spec_from_int(value) is Some <==> (value == 0 || value == 1 || value == 2 || value == 3 || value == 4 || value == 5),
        MessageBoxType::spec_from_int(value) matches Some(m) ==> m.spec_int_value() == value,
{
}

/// REAPER's number for each MessageBoxValue: OkButton is 1, Cancel is 2, Abort is 3, Retry is 4, Ignore is 5, Yes is 6, No is 7. Those are the only
/// numbers that name one, and each names the one it is the number of.
pub proof fn law_message_box_value_numbers(value: i32)
    ensures
        MessageBoxValue::OkButton.spec_int_value() == 1,
        MessageBoxValue::Cancel.spec_int_value() == 2,
        MessageBoxValue::Abort.spec_int_value() == 3,
        MessageBoxValue::Retry.spec_int_value() == 4,
        MessageBoxValue::Ignore.spec_int_value() == 5,
        MessageBoxValue::Yes.spec_int_value() == 6,
        MessageBoxValue::No.spec_int_value() == 7,
        MessageBoxValue::spec_from_int(value) is Some <==> (value == 1 || value == 2 || value == 3 || value == 4 || value == 5 || value == 6 || value == 7),
        MessageBoxValue::spec_from_int(value) matches Some(m) ==> m.spec_int_value() == value,
{
}

/// REAPER's number for each SoloMode: NotSoloed is 0, Soloed is 1, SoloedInPlace is 2, SafeSoloed is 5, SafeSoloedInPlace is 6. Those are the only
/// numbers that name one, and each names the one it is the number of.
pub proof fn law_solo_mode_numbers(value: i32)
    ensures
        SoloMode::NotSoloed.spec_int_value() == 0,
        SoloMode::Soloed.spec_int_value() == 1,
        SoloMode::SoloedInPlace.spec_int_value() == 2,
        SoloMode::SafeSoloed.spec_int_value() == 5,
        SoloMode::SafeSoloedInPlace.spec_int_value() == 6,
        SoloMode::spec_from_int(value) is Some <==> (value == 0 || value == 1 || value == 2 || value == 5 || value == 6),
        SoloMode::spec_from_int(value) matches Some(m) ==> m.spec_int_value() == value,
{
}

/// REAPER's number for each RecMode: Input is 0, StereoOut is 1, Disabled is 2, StereoOutWithLatencyComp is 3, MidiOut is 4, MonoOut is 5, MonoOutWithLatencyComp is 6, MidiOverdub is 7, MidiReplace is 8. Those are the only
/// numbers that name one, and each names the one it is the number of.
pub proof fn law_rec_mode_numbers(value: i32)
    ensures
        RecMode::Input.spec_int_value() == 0,
        RecMode::StereoOut.spec_int_value() == 1,
        RecMode::Disabled.spec_int_value() == 2,
        RecMode::StereoOutWithLatencyComp.spec_int_value() == 3,
        RecMode::MidiOut.spec_int_value() == 4,
        RecMode::MonoOut.spec_int_value() == 5,
        RecMode::MonoOutWithLatencyComp.spec_int_value() == 6,
        RecMode::MidiOverdub.spec_int_value() == 7,
        RecMode::MidiReplace.spec_int_value() == 8,
        RecMode::spec_from_int(value) is Some <==> (value == 0 || value == 1 || value == 2 || value == 3 || value == 4 || value == 5 || value == 6 || value == 7 || value == 8),
        RecMode::spec_from_int(value) matches Some(m) ==> m.spec_int_value() == value,
{
}

/// REAPER's number for each TimeMode: Default is -1, Time is 0, BeatsFull is 1, BeatsOnlyPosition is 2. Those are the only
/// numbers that name one, and each names the one it is the number of.
pub proof fn law_time_mode_numbers(value: i32)
    ensures
        TimeMode::Default.spec_int_value() == -1,
        TimeMode::Time.spec_int_value() == 0,
        TimeMode::BeatsFull.spec_int_value() == 1,
        TimeMode::BeatsOnlyPosition.spec_int_value() == 2,
        TimeMode::spec_from_int(value) is Some <==> (value == -1 || value == 0 || value == 1 || value == 2),
        TimeMode::spec_from_int(value) matches Some(m) ==> m.spec_int_value() == value,
{
}

/// REAPER's record-output values: 0 records after the fader, 1 before the
/// effects, 2 after the effects; no other value names a mode, and each
/// names the mode written as it.
pub proof fn law_rec_out_mode_values(raw: u32)
    ensures
        RecOutMode::PostFader.spec_raw() == 0,
        RecOutMode::PreFX.spec_raw() == 1,
        RecOutMode::PostFX.spec_raw() == 2,
        RecOutMode::spec_from_raw(raw) is Some <==> raw <= 2,
        RecOutMode::spec_from_raw(raw) matches Some(m) ==> m.spec_raw() == raw,
{
}

/// REAPER's VU mode values: bit 0 turns the meter off; else bit 5 meters
/// LUFS on channels 1-2; else bits 1 to 4 name the meter: 0 stereo peaks,
/// 2 multichannel peaks, 4 stereo RMS, 8 combined RMS, 12 LUFS-M, 16 LUFS-S
/// read at its maximum, 20 LUFS-S read as it is. Each mode is written as
/// the smallest value naming it.
pub proof fn law_vu_mode_values(raw: u32)
    ensures
        VUMode::Disabled.spec_raw() == 1,
        VUMode::LUFS_OnChannels_1_2.spec_raw() == 32,
        VUMode::StereoPeaks.spec_raw() == 0,
        VUMode::MultichannelPeaks.spec_raw() == 2,
        VUMode::StereoRMS.spec_raw() == 4,
        VUMode::CombinedRMS.spec_raw() == 8,
        VUMode::LUFS_M.spec_raw() == 12,
        VUMode::LUFS_S_ReadoutMax.spec_raw() == 16,
        VUMode::LUFS_S_ReadoutCurrent.spec_raw() == 20,
        raw & 1 == 1 ==> VUMode::spec_from_raw(raw) == VUMode::Disabled,
        raw & 1 == 0 && raw & 32 == 32 ==> VUMode::spec_from_raw(raw)
            == VUMode::LUFS_OnChannels_1_2,
        raw & 1 == 0 && raw & 32 == 0 ==> {
            &&& raw & 30 == 0 ==> VUMode::spec_from_raw(raw) == VUMode::StereoPeaks
            &&& raw & 30 == 2 ==> VUMode::spec_from_raw(raw) == VUMode::MultichannelPeaks
            &&& raw & 30 == 4 ==> VUMode::spec_from_raw(raw) == VUMode::StereoRMS
            &&& raw & 30 == 8 ==> VUMode::spec_from_raw(raw) == VUMode::CombinedRMS
            &&& raw & 30 == 12 ==> VUMode::spec_from_raw(raw) == VUMode::LUFS_M
            &&& raw & 30 == 16 ==> VUMode::spec_from_raw(raw) == VUMode::LUFS_S_ReadoutMax
            &&& raw & 30 == 20 ==> VUMode::spec_from_raw(raw) == VUMode::LUFS_S_ReadoutCurrent
        },
{
}

/// Where the raw recording-input value keeps each part. A MIDI input is
/// 4096 plus 32 times its device index (63 for all devices) plus its
/// channel; an audio input is its first channel, 512 more when routed
/// through ReaRoute, plus 1024 when stereo or 2048 when multichannel.
/// Reading takes bit 12 as MIDI, bits 5 to 10 as the device, bits 0 to 4 as
/// the MIDI channel.
pub proof fn law_rec_input_layout(value: u32, input: RecInput)
    ensures
        rec_input_is_midi(value) <==> (value / 4096) % 2 == 1,
        rec_input_hw_index(value) == (value / 32) % 64,
        (value & 31u32) == value % 32,
        match input {
            RecInput::MIDI(ch, socket) => ch < 32 && rec_input_socket_index(socket) < 64
                ==> spec_rec_input_raw(input) == 4096 + 32 * rec_input_socket_index(socket) + ch,
            RecInput::Mono(ch, rr) => spec_pack_rea_route(rr, ch) <= u32::MAX
                ==> spec_rec_input_raw(input) == ch + (if rr { 512int } else { 0int }),
            RecInput::Stereo(ch, rr) => spec_pack_rea_route(rr, ch) < 1024
                ==> spec_rec_input_raw(input) == ch + (if rr { 512int } else { 0int }) + 1024,
            RecInput::Multichannel(ch, rr) => spec_pack_rea_route(rr, ch) < 1024
                ==> spec_rec_input_raw(input) == ch + (if rr { 512int } else { 0int }) + 2048,
        },
{
    assert(value & 4096 != 0 <==> (value / 4096) % 2 == 1) by (bit_vector);
    assert((value >> 5u32) & 63u32 == (value / 32) % 64) by (bit_vector);
    assert(value & 31u32 == value % 32) by (bit_vector);
    match input {
        RecInput::MIDI(ch, socket) => {
            let idx = rec_input_socket_index(socket);
            let c = ch as u32;
            if ch < 32 && idx < 64 {
                assert(4096u32 | (idx << 5u32) | c == 4096 + 32 * idx + c) by (bit_vector)
                    requires
                        c < 32,
                        idx < 64,
                ;
            }
        },
        RecInput::Mono(..) => {},
        RecInput::Stereo(ch, rr) => {
            let p = spec_pack_rea_route(rr, ch);
            if p < 1024 {
                let q = p as u32;
                assert(q | 1024u32 == q + 1024) by (bit_vector)
                    requires
                        q < 1024,
                ;
            }
        },
        RecInput::Multichannel(ch, rr) => {
            let p = spec_pack_rea_route(rr, ch);
            if p < 1024 {
                let q = p as u32;
                assert(q | 2048u32 == q + 2048) by (bit_vector)
                    requires
                        q < 1024,
                ;
            }
        },
    }
}

} // verus!

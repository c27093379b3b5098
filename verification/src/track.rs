//! Track settings.
use vstd::prelude::*;

verus! {

/// How a track is monitored while recording.
#[derive(Debug, Clone, Copy, PartialEq, Eq, Structural)]
pub struct RecMonitoring {
    /// 0 → not, 1 → normal, 2 → when playing (tape)
    pub mode: u32,
    pub monitor_items: bool,
}

impl RecMonitoring {
    pub fn new(mode: u32, monitor_items: bool) -> (r: Self)
        ensures
            r == (RecMonitoring { mode, monitor_items }),
    {
        RecMonitoring { mode, monitor_items }
    }
}

/// Where and how large a track is drawn.
#[derive(Debug, Clone, Copy, PartialEq, Eq, Structural)]
pub struct TrackDimensions {
    pub tcp_height: u32,
    pub tcp_height_with_env: u32,
    pub tcp_pos_y: u32,
    pub mcp_pos_x: u32,
    pub mcp_pos_y: u32,
    pub mcp_width: u32,
    pub mcp_height: u32,
}

/// Keeps parameters of track groups.
#[derive(Debug, Clone, Copy, PartialEq, Eq, Structural)]
pub enum TrackGroupParam {
    VolumeLead,
    VolumeFollow,
    VolumeVcaLead,
    VolumeVcaFollow,
    PanLead,
    PanFollow,
    WidthLead,
    WidthFollow,
    MuteLead,
    MuteFollow,
    SoloLead,
    SoloFollow,
    RecarmLead,
    RecarmFollow,
    PolarityLead,
    PolarityFollow,
    AutomodeLead,
    AutomodeFollow,
    VolumeReverse,
    PanReverse,
    WidthReverse,
    NoLeadWhenFollow,
    VolumeVcaFollowIsprefx,
}

impl TrackGroupParam {
    /// The name REAPER gives the parameter.
    pub fn as_str(&self) -> (r: &'static str)
        ensures
            r@ == match self {
                TrackGroupParam::VolumeLead => "VOLUME_LEAD"@,
                TrackGroupParam::VolumeFollow => "VOLUME_FOLLOW"@,
                TrackGroupParam::VolumeVcaLead => "VOLUME_VCA_LEAD"@,
                TrackGroupParam::VolumeVcaFollow => "VOLUME_VCA_FOLLOW"@,
                TrackGroupParam::PanLead => "PAN_LEAD"@,
                TrackGroupParam::PanFollow => "PAN_FOLLOW"@,
                TrackGroupParam::WidthLead => "WIDTH_LEAD"@,
                TrackGroupParam::WidthFollow => "WIDTH_FOLLOW"@,
                TrackGroupParam::MuteLead => "MUTE_LEAD"@,
                TrackGroupParam::MuteFollow => "MUTE_FOLLOW"@,
                TrackGroupParam::SoloLead => "SOLO_LEAD"@,
                TrackGroupParam::SoloFollow => "SOLO_FOLLOW"@,
                TrackGroupParam::RecarmLead => "RECARM_LEAD"@,
                TrackGroupParam::RecarmFollow => "RECARM_FOLLOW"@,
                TrackGroupParam::PolarityLead => "POLARITY_LEAD"@,
                TrackGroupParam::PolarityFollow => "POLARITY_FOLLOW"@,
                TrackGroupParam::AutomodeLead => "AUTOMODE_LEAD"@,
                TrackGroupParam::AutomodeFollow => "AUTOMODE_FOLLOW"@,
                TrackGroupParam::VolumeReverse => "VOLUME_REVERSE"@,
                TrackGroupParam::PanReverse => "PAN_REVERSE"@,
                TrackGroupParam::WidthReverse => "WIDTH_REVERSE"@,
                TrackGroupParam::NoLeadWhenFollow => "NO_LEAD_WHEN_FOLLOW"@,
                TrackGroupParam::VolumeVcaFollowIsprefx => "VOLUME_VCA_FOLLOW_ISPREFX"@,
            },
    {
        match self {
            TrackGroupParam::VolumeLead => "VOLUME_LEAD",
            TrackGroupParam::VolumeFollow => "VOLUME_FOLLOW",
            TrackGroupParam::VolumeVcaLead => "VOLUME_VCA_LEAD",
            TrackGroupParam::VolumeVcaFollow => "VOLUME_VCA_FOLLOW",
            TrackGroupParam::PanLead => "PAN_LEAD",
            TrackGroupParam::PanFollow => "PAN_FOLLOW",
            TrackGroupParam::WidthLead => "WIDTH_LEAD",
            TrackGroupParam::WidthFollow => "WIDTH_FOLLOW",
            TrackGroupParam::MuteLead => "MUTE_LEAD",
            TrackGroupParam::MuteFollow => "MUTE_FOLLOW",
            TrackGroupParam::SoloLead => "SOLO_LEAD",
            TrackGroupParam::SoloFollow => "SOLO_FOLLOW",
            TrackGroupParam::RecarmLead => "RECARM_LEAD",
            TrackGroupParam::RecarmFollow => "RECARM_FOLLOW",
            TrackGroupParam::PolarityLead => "POLARITY_LEAD",
            TrackGroupParam::PolarityFollow => "POLARITY_FOLLOW",
            TrackGroupParam::AutomodeLead => "AUTOMODE_LEAD",
            TrackGroupParam::AutomodeFollow => "AUTOMODE_FOLLOW",
            TrackGroupParam::VolumeReverse => "VOLUME_REVERSE",
            TrackGroupParam::PanReverse => "PAN_REVERSE",
            TrackGroupParam::WidthReverse => "WIDTH_REVERSE",
            TrackGroupParam::NoLeadWhenFollow => "NO_LEAD_WHEN_FOLLOW",
            TrackGroupParam::VolumeVcaFollowIsprefx => "VOLUME_VCA_FOLLOW_ISPREFX",
        }
    }
}

} // verus!

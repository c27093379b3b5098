//! Value types of track sends and their raw bit encodings.
use vstd::prelude::*;
use vstd::std_specs::convert::FromSpecImpl;

verus! {

/// The kind of a send as REAPER numbers it.
pub trait SendIntType {
    /// The number of the kind.
    spec fn spec_int() -> i32;

    /// <0 for receives, 0=sends, >0 for hardware outputs.
    fn as_int(&self) -> (r: i32)
        ensures
            r == Self::spec_int(),
    {
        Self::as_int_static()
    }

    /// <0 for receives, 0=sends, >0 for hardware outputs.
    fn as_int_static() -> (r: i32)
        ensures
            r == Self::spec_int(),
    ;
}

/// The envelopes a send has, by the chunk that names them.
#[derive(Debug, Clone, Copy, PartialEq, Eq, Structural)]
pub enum EnvelopeChunk {
    Volume,
    Pan,
    Mute,
    VolumePreFx,
    PanPreFx,
    WidthPreFx,
    With,
    TrimVolume,
}

impl EnvelopeChunk {
    /// The chunk name.
    pub fn to_string(&self) -> (r: String)
        ensures
            r@ == match self {
                EnvelopeChunk::VolumePreFx => "<VOLENV"@,
                EnvelopeChunk::PanPreFx => "<PANENV"@,
                EnvelopeChunk::Mute => "<MUTEENV"@,
                EnvelopeChunk::Volume => "<VOLENV2"@,
                EnvelopeChunk::Pan => "<PANENV2"@,
                EnvelopeChunk::WidthPreFx => "<WIDTHENV"@,
                EnvelopeChunk::With => "<WIDTHENV2"@,
                EnvelopeChunk::TrimVolume => "<VOLENV3"@,
            },
    {
        let s: &str = match self {
            EnvelopeChunk::VolumePreFx => "<VOLENV",
            EnvelopeChunk::PanPreFx => "<PANENV",
            EnvelopeChunk::Mute => "<MUTEENV",
            EnvelopeChunk::Volume => "<VOLENV2",
            EnvelopeChunk::Pan => "<PANENV2",
            EnvelopeChunk::WidthPreFx => "<WIDTHENV",
            EnvelopeChunk::With => "<WIDTHENV2",
            EnvelopeChunk::TrimVolume => "<VOLENV3",
        };
        s.to_owned()
    }
}

/// Where in the chain a send takes its signal.
#[derive(Debug, Clone, Copy, PartialEq, Eq, Structural)]
pub enum SendMode {
    PostFader,
    PreFx,
    PostFx,
}

impl SendMode {
    /// The mode a raw value names: `0`, `1`, and `2` or `3`.
    pub open spec fn spec_from_raw(value: i32) -> SendMode {
        if value == 0 {
            SendMode::PostFader
        } else if value == 1 {
            SendMode::PreFx
        } else {
            SendMode::PostFx
        }
    }

    /// The raw value written for a mode.
    pub open spec fn spec_raw(self) -> i32 {
        match self {
            SendMode::PostFader => 0,
            SendMode::PreFx => 1,
            SendMode::PostFx => 3,
        }
    }

    /// The mode of a raw value, which must be one of `0..=3`.
    pub fn from_raw(value: i32) -> (r: Self)
        requires
            0 <= value <= 3,
        ensures
            r == SendMode::spec_from_raw(value),
    {
        match value {
            0 => SendMode::PostFader,
            1 => SendMode::PreFx,
            _ => SendMode::PostFx,
        }
    }

    /// The raw value of the mode.
    pub fn to_raw(self) -> (r: i32)
        ensures
            r == self.spec_raw(),
    {
        match self {
            SendMode::PostFader => 0,
            SendMode::PreFx => 1,
            SendMode::PostFx => 3,
        }
    }
}

/// Reading back the raw value written for a send mode gives the mode.
pub proof fn law_send_mode_roundtrip(m: SendMode)
    ensures
        0 <= m.spec_raw() <= 3,
        SendMode::spec_from_raw(m.spec_raw()) == m,
{
}

/// The source channels of a send.
#[derive(Debug, Clone, Copy, PartialEq, Eq, PartialOrd, Ord, Structural)]
pub struct SendSourceChannels {
    pub channel: u32,
    pub is_mono: bool,
}

impl SendSourceChannels {
    pub fn new(channel: u32, is_mono: bool) -> (r: Self)
        ensures
            r == (SendSourceChannels { channel, is_mono }),
    {
        SendSourceChannels { channel, is_mono }
    }

    /// The channels a raw value names: bit 1024 is mono, the rest the
    /// channel.
    pub open spec fn spec_from_bits(value: u32) -> SendSourceChannels {
        SendSourceChannels { channel: value & !1024u32, is_mono: value & 1024 != 0 }
    }

    /// The raw value of the channels.
    pub open spec fn spec_bits(self) -> u32 {
        self.channel | (if self.is_mono {
            1024u32
        } else {
            0u32
        })
    }

    pub fn from_bits(value: u32) -> (r: Self)
        ensures
            r == SendSourceChannels::spec_from_bits(value),
    {
        SendSourceChannels { channel: value & !1024u32, is_mono: value & 1024 != 0 }
    }

    pub fn to_bits(self) -> (r: u32)
        ensures
            r == self.spec_bits(),
    {
        let is_mono: u32 = if self.is_mono {
            1024
        } else {
            0
        };
        self.channel | is_mono
    }
}

/// The destination channels of a send.
#[derive(Debug, Clone, Copy, PartialEq, Eq, PartialOrd, Ord, Structural)]
pub struct SendDestChannels {
    pub channel: u32,
    pub is_mono: bool,
    pub to_rea_route: bool,
}

impl SendDestChannels {
    pub fn new(channel: u32, is_mono: bool, to_rea_route: bool) -> (r: Self)
        ensures
            r == (SendDestChannels { channel, is_mono, to_rea_route }),
    {
        SendDestChannels { channel, is_mono, to_rea_route }
    }

    /// The channels a raw value names: bit 1024 is mono, bit 512 the route
    /// to ReaRoute, the rest the channel.
    pub open spec fn spec_from_bits(value: u32) -> SendDestChannels {
        SendDestChannels {
            channel: value & !1024u32 & !512u32,
            is_mono: value & 1024 != 0,
            to_rea_route: value & 512 != 0,
        }
    }

    /// The raw value of the channels.
    pub open spec fn spec_bits(self) -> u32 {
        self.channel | (if self.is_mono {
            1024u32
        } else {
            0u32
        }) | (if self.to_rea_route {
            512u32
        } else {
            0u32
        })
    }

    pub fn from_bits(value: u32) -> (r: Self)
        ensures
            r == SendDestChannels::spec_from_bits(value),
    {
        SendDestChannels {
            channel: value & !1024u32 & !512u32,
            is_mono: value & 1024 != 0,
            to_rea_route: value & 512 != 0,
        }
    }

    pub fn to_bits(self) -> (r: u32)
        ensures
            r == self.spec_bits(),
    {
        let is_mono: u32 = if self.is_mono {
            1024
        } else {
            0
        };
        let to_rea_route: u32 = if self.to_rea_route {
            512
        } else {
            0
        };
        self.channel | is_mono | to_rea_route
    }
}

impl From<SendSourceChannels> for SendDestChannels {
    fn from(value: SendSourceChannels) -> (r: Self) {
        SendDestChannels { channel: value.channel, is_mono: value.is_mono, to_rea_route: false }
    }
}

impl FromSpecImpl<SendSourceChannels> for SendDestChannels {
    open spec fn obeys_from_spec() -> bool {
        true
    }

    open spec fn from_spec(v: SendSourceChannels) -> SendDestChannels {
        SendDestChannels { channel: v.channel, is_mono: v.is_mono, to_rea_route: false }
    }
}

impl From<SendDestChannels> for SendSourceChannels {
    fn from(value: SendDestChannels) -> (r: Self) {
        SendSourceChannels { channel: value.channel, is_mono: value.is_mono }
    }
}

impl FromSpecImpl<SendDestChannels> for SendSourceChannels {
    open spec fn obeys_from_spec() -> bool {
        true
    }

    open spec fn from_spec(v: SendDestChannels) -> SendSourceChannels {
        SendSourceChannels { channel: v.channel, is_mono: v.is_mono }
    }
}

/// Source channels without the mono bit in the channel number are read
/// back from their raw value unchanged; and a raw value written back from
/// what it names is unchanged.
pub proof fn law_source_channels_roundtrip(c: SendSourceChannels, value: u32)
    ensures
        c.channel & 1024 == 0 ==> SendSourceChannels::spec_from_bits(c.spec_bits()) == c,
        SendSourceChannels::spec_from_bits(value).spec_bits() == value,
{
    let ch = c.channel;
    let m: u32 = if c.is_mono {
        1024
    } else {
        0
    };
    assert(ch & 1024 == 0 ==> (ch | m) & !1024u32 == ch) by (bit_vector)
        requires
            m == 0 || m == 1024,
    ;
    assert(ch & 1024 == 0 ==> ((ch | m) & 1024 != 0) == (m == 1024)) by (bit_vector)
        requires
            m == 0 || m == 1024,
    ;
    assert((value & !1024u32) | (if value & 1024 != 0 {
        1024u32
    } else {
        0u32
    }) == value) by (bit_vector);
}

/// Destination channels without the mono or route bits in the channel
/// number are read back from their raw value unchanged; and a raw value
/// written back from what it names is unchanged.
pub proof fn law_dest_channels_roundtrip(c: SendDestChannels, value: u32)
    ensures
        c.channel & 1536 == 0 ==> SendDestChannels::spec_from_bits(c.spec_bits()) == c,
        SendDestChannels::spec_from_bits(value).spec_bits() == value,
{
    let ch = c.channel;
    let m: u32 = if c.is_mono {
        1024
    } else {
        0
    };
    let r: u32 = if c.to_rea_route {
        512
    } else {
        0
    };
    assert(ch & 1536 == 0 ==> (ch | m | r) & !1024u32 & !512u32 == ch) by (bit_vector)
        requires
            m == 0 || m == 1024,
            r == 0 || r == 512,
    ;
    assert(ch & 1536 == 0 ==> ((ch | m | r) & 1024 != 0) == (m == 1024) && ((ch | m | r) & 512
        != 0) == (r == 512)) by (bit_vector)
        requires
            m == 0 || m == 1024,
            r == 0 || r == 512,
    ;
    assert((value & !1024u32 & !512u32) | (if value & 1024 != 0 {
        1024u32
    } else {
        0u32
    }) | (if value & 512 != 0 {
        512u32
    } else {
        0u32
    }) == value) by (bit_vector);
}

/// How send manage MIDI flow.
///
/// buses and channels are 1-based. e.g. bus1 == 1, bus16 == 16.
/// if bus or channel set to 0 — this means all busses or all channels.
#[derive(Debug, Clone, Copy, PartialEq, Eq, PartialOrd, Ord, Structural)]
pub struct SendMIDIProps {
    pub source_bus: u8,
    pub source_channel: u8,
    pub dest_bus: u8,
    pub dest_channel: u8,
}

impl SendMIDIProps {
    pub fn new(source_bus: u8, source_channel: u8, dest_bus: u8, dest_channel: u8) -> (r: Self)
        ensures
            r == (SendMIDIProps { source_bus, source_channel, dest_bus, dest_channel }),
    {
        SendMIDIProps { source_bus, source_channel, dest_bus, dest_channel }
    }

    /// The properties raw flags name: source channel in bits 0..5,
    /// destination channel in bits 5..10, source bus in bits 14..19,
    /// destination bus from bit 22 on, each cut to a byte.
    pub open spec fn spec_from_bits(flags: u32) -> SendMIDIProps {
        SendMIDIProps {
            source_bus: ((flags >> 14u32) % 32) as u8,
            source_channel: ((flags % 1024) % 32) as u8,
            dest_bus: ((flags >> 14u32) >> 8u32) as u8,
            dest_channel: ((flags % 1024) >> 5u32) as u8,
        }
    }

    /// The raw flags of the properties.
    pub open spec fn spec_bits(self) -> u32 {
        ((self.source_bus as u32) << 14u32) | (self.source_channel as u32) | ((
        self.dest_bus as u32) << 22u32) | ((self.dest_channel as u32) << 5u32)
    }

    pub fn from_bits(flags: u32) -> (r: Self)
        ensures
            r == SendMIDIProps::spec_from_bits(flags),
    {
        let ch_flags = flags % 1024;
        let bus_flags = flags >> 14u32;
        let src_bus = bus_flags % 32;
        let dst_bus = bus_flags >> 8u32;
        let src_ch = ch_flags % 32;
        let dst_ch = ch_flags >> 5u32;
        SendMIDIProps::new(src_bus as u8, src_ch as u8, dst_bus as u8, dst_ch as u8)
    }

    pub fn to_bits(self) -> (r: u32)
        ensures
            r == self.spec_bits(),
    {
        let dst_ch = (self.dest_channel as u32) << 5u32;
        let src_bus = (self.source_bus as u32) << 14u32;
        let dst_bus = (self.dest_bus as u32) << 22u32;
        src_bus | (self.source_channel as u32) | dst_bus | dst_ch
    }
}

/// Properties whose channels and source bus are below 32 are read back
/// from their raw flags unchanged.
pub proof fn law_midi_props_roundtrip(p: SendMIDIProps)
    requires
        p.source_bus < 32,
        p.source_channel < 32,
        p.dest_channel < 32,
    ensures
        SendMIDIProps::spec_from_bits(p.spec_bits()) == p,
{
    let (sb, sc, db, dc) = (
        p.source_bus as u32,
        p.source_channel as u32,
        p.dest_bus as u32,
        p.dest_channel as u32,
    );
    let f = (sb << 14u32) | sc | (db << 22u32) | (dc << 5u32);
    assert(((f >> 14u32) % 32) == sb && ((f % 1024) % 32) == sc && ((f >> 14u32) >> 8u32) == db
        && ((f % 1024) >> 5u32) == dc) by (bit_vector)
        requires
            sb < 32,
            sc < 32,
            dc < 32,
            db < 256,
            f == (sb << 14u32) | sc | (db << 22u32) | (dc << 5u32),
    ;
}

/// REAPER's send-mode values: 0 sends after the fader, 1 before the
/// effects, 2 or 3 after the effects (written as 3).
pub proof fn law_send_mode_values(value: i32)
    ensures
        SendMode::PostFader.spec_raw() == 0,
        SendMode::PreFx.spec_raw() == 1,
        SendMode::PostFx.spec_raw() == 3,
        value == 0 ==> SendMode::spec_from_raw(value) == SendMode::PostFader,
        value == 1 ==> SendMode::spec_from_raw(value) == SendMode::PreFx,
        value == 2 || value == 3 ==> SendMode::spec_from_raw(value) == SendMode::PostFx,
{
}

/// The flags in the raw channels of a send: mono is bit 10 (1024), and of
/// the destination the route to ReaRoute is bit 9 (512).
pub proof fn law_send_channel_flags(value: u32)
    ensures
        SendSourceChannels::spec_from_bits(value).is_mono <==> (value / 1024) % 2 == 1,
        SendDestChannels::spec_from_bits(value).is_mono <==> (value / 1024) % 2 == 1,
        SendDestChannels::spec_from_bits(value).to_rea_route <==> (value / 512) % 2 == 1,
{
    assert(value & 1024 != 0 <==> (value / 1024) % 2 == 1) by (bit_vector);
    assert(value & 512 != 0 <==> (value / 512) % 2 == 1) by (bit_vector);
}

/// Where the raw MIDI flags of a send keep each field: the source channel
/// in the five bits from bit 0, the destination channel in the five from
/// bit 5, the source bus in the five from bit 14, and the destination bus
/// in the byte from bit 22.
pub proof fn law_midi_props_fields(flags: u32)
    ensures
        SendMIDIProps::spec_from_bits(flags).source_channel == flags % 32,
        SendMIDIProps::spec_from_bits(flags).dest_channel == (flags / 32) % 32,
        SendMIDIProps::spec_from_bits(flags).source_bus == (flags / 16384) % 32,
        SendMIDIProps::spec_from_bits(flags).dest_bus == (flags / 4194304) % 256,
{
    assert(((flags % 1024) % 32) as u8 == flags % 32) by (bit_vector);
    assert(((flags % 1024) >> 5u32) as u8 == (flags / 32) % 32) by (bit_vector);
    assert(((flags >> 14u32) % 32) as u8 == (flags / 16384) % 32) by (bit_vector);
    assert(((flags >> 14u32) >> 8u32) as u8 == (flags / 4194304) % 256) by (bit_vector);
}

} // verus!

//! Take settings and their raw values.
use vstd::prelude::*;

verus! {

/// Channel mode of a take.
#[derive(Clone, Copy, Debug, PartialEq, Eq, Structural)]
pub enum TakeChannelMode {
    Normal,
    ReserveStereo,
    DownMix,
    Left,
    Right,
}

impl TakeChannelMode {
    /// The integer that stands for the variant.
    pub open spec fn spec_int_value(self) -> i32 {
        match self {
            TakeChannelMode::Normal => 0,
            TakeChannelMode::ReserveStereo => 1,
            TakeChannelMode::DownMix => 2,
            TakeChannelMode::Left => 3,
            TakeChannelMode::Right => 4,
        }
    }

    /// The variant that an integer stands for, if any.
    pub open spec fn spec_from_int(value: i32) -> Option<TakeChannelMode> {
        if value == 0 {
            Some(TakeChannelMode::Normal)
        } else if value == 1 {
            Some(TakeChannelMode::ReserveStereo)
        } else if value == 2 {
            Some(TakeChannelMode::DownMix)
        } else if value == 3 {
            Some(TakeChannelMode::Left)
        } else if value == 4 {
            Some(TakeChannelMode::Right)
        } else {
            None
        }
    }

    /// The integer that stands for the variant.
    pub fn int_value(&self) -> (r: i32)
        ensures
            r == self.spec_int_value(),
            TakeChannelMode::spec_from_int(r) == Some(*self),
    {
        match self {
            TakeChannelMode::Normal => 0,
            TakeChannelMode::ReserveStereo => 1,
            TakeChannelMode::DownMix => 2,
            TakeChannelMode::Left => 3,
            TakeChannelMode::Right => 4,
        }
    }

    /// The variant that an integer stands for, if any.
    pub fn from_int(value: i32) -> (r: Option<TakeChannelMode>)
        ensures
            r == TakeChannelMode::spec_from_int(value),
            r matches Some(v) ==> v.spec_int_value() == value,
    {
        if value == 0 {
            Some(TakeChannelMode::Normal)
        } else if value == 1 {
            Some(TakeChannelMode::ReserveStereo)
        } else if value == 2 {
            Some(TakeChannelMode::DownMix)
        } else if value == 3 {
            Some(TakeChannelMode::Left)
        } else if value == 4 {
            Some(TakeChannelMode::Right)
        } else {
            None
        }
    }
}

/// Represents pitch shifter and setting.
///
/// Currently, holds only raw values, but later, probably, will hold additional
/// representation of them human-readably.
#[derive(Debug, Clone, Copy, PartialEq, Eq, Structural)]
pub struct TakePitchMode {
    shifter: u32,
    parameter: u32,
}

/// The raw value of a shifter and parameter: the shifter from bit 15 on,
/// the parameter or-ed into the low bits.
pub open spec fn pitch_mode_raw(shifter: u32, parameter: u32) -> i32 {
    ((shifter << 15u32) | parameter) as i32
}

impl TakePitchMode {
    /// The shifter.
    pub closed spec fn spec_shifter(self) -> u32 {
        self.shifter
    }

    /// The shifter's setting.
    pub closed spec fn spec_parameter(self) -> u32 {
        self.parameter
    }

    pub fn new(shifter: u16, parameter: u16) -> (r: Self)
        ensures
            r.spec_shifter() == shifter,
            r.spec_parameter() == parameter,
    {
        TakePitchMode { shifter: shifter as u32, parameter: parameter as u32 }
    }

    pub fn shifter(&self) -> (r: u16)
        ensures
            r == self.spec_shifter() as u16,
    {
        self.shifter as u16
    }

    pub fn parameter(&self) -> (r: u16)
        ensures
            r == self.spec_parameter() as u16,
    {
        self.parameter as u16
    }

    /// The mode of a raw value: the shifter is the 16 bits from bit 15
    /// on, the parameter the low 16 bits.
    pub fn from_raw(raw: i32) -> (r: Self)
        ensures
            r.spec_shifter() == ((raw as u32) >> 15u32) & 0xffffu32,
            r.spec_parameter() == (raw as u32) & 0xffffu32,
    {
        let raw = raw as u32;
        let shifter = (raw >> 15u32) & 0xffff;
        let parameter = raw & 0xffff;
        TakePitchMode { shifter, parameter }
    }

    pub fn as_raw(&self) -> (r: i32)
        ensures
            r == pitch_mode_raw(self.spec_shifter(), self.spec_parameter()),
    {
        ((self.shifter << 15u32) | self.parameter) as i32
    }
}

/// A pitch mode with an even shifter and a parameter below `0x8000` is
/// read back unchanged from its raw value; with an odd shifter, the
/// shifter's low bit lands in the parameter's bit 15.
pub proof fn law_pitch_mode_roundtrip(shifter: u16, parameter: u16)
    requires
        shifter % 2 == 0,
        parameter < 0x8000,
    ensures
        ((pitch_mode_raw(shifter as u32, parameter as u32) as u32) >> 15u32) & 0xffffu32
            == shifter,
        (pitch_mode_raw(shifter as u32, parameter as u32) as u32) & 0xffffu32 == parameter,
{
    let s = shifter as u32;
    let p = parameter as u32;
    assert((((((s << 15u32) | p) as i32) as u32) >> 15u32) & 0xffffu32 == s && ((((s << 15u32)
        | p) as i32) as u32) & 0xffffu32 == p) by (bit_vector)
        requires
            s < 0x10000,
            s % 2 == 0,
            p < 0x8000,
    ;
}

/// REAPER's number for each TakeChannelMode: Normal is 0, ReserveStereo is 1, DownMix is 2, Left is 3, Right is 4. Those are the only
/// numbers that name one, and each names the one it is the number of.
pub proof fn law_take_channel_mode_numbers(value: i32)
    ensures
        TakeChannelMode::Normal.spec_int_value() == 0,
        TakeChannelMode::ReserveStereo.spec_int_value() == 1,
        TakeChannelMode::DownMix.spec_int_value() == 2,
        TakeChannelMode::Left.spec_int_value() == 3,
        TakeChannelMode::Right.spec_int_value() == 4,
        TakeChannelMode::spec_from_int(value) is Some <==> (value == 0 || value == 1 || value == 2 || value == 3 || value == 4),
        TakeChannelMode::spec_from_int(value) matches Some(m) ==> m.spec_int_value() == value,
{
}

} // verus!

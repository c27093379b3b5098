//! Key bindings.
use vstd::prelude::*;
use vstd::std_specs::convert::FromSpecImpl;

verus! {

/// The bits that are flags of [FVirt].
pub open spec fn fvirt_all_bits() -> u8 {
    0x1f
}

/// Represents modifier in keybinding.
/// Equal to Win32 ACCEL fVirt parameter.
#[derive(Debug, PartialEq, Eq, PartialOrd, Ord, Hash, Copy, Clone, Structural)]
pub struct FVirt {
    bits: u8,
}

impl FVirt {
    /// The bit of the flag: If Alt has to be pressed
    pub const FALT: u8 = 0x10;

    /// The bit of the flag: If Control has to be pressed
    pub const FCONTROL: u8 = 0x08;

    /// The bit of the flag: No top-level menu item is highlighted when
    /// the accelerator is used. This attribute is obsolete
    /// and retained only for backward compatibility.
    pub const FNOINVERT: u8 = 0x02;

    /// The bit of the flag: If Shift has to be pressed.
    pub const FSHIFT: u8 = 0x04;

    /// The bit of the flag: If the key should be considered as virtual key.
    /// Otherwise it will be considered as character.
    pub const FVIRTKEY: u8 = 0x01;

    /// The bits of the set flags.
    pub closed spec fn spec_bits(self) -> u8 {
        self.bits
    }

    /// No flag set.
    pub fn empty() -> (r: Self)
        ensures
            r.spec_bits() == 0,
    {
        FVirt { bits: 0 }
    }

    /// Every flag set.
    pub fn all() -> (r: Self)
        ensures
            r.spec_bits() == fvirt_all_bits(),
    {
        FVirt { bits: 0x1f }
    }

    /// The bits of the set flags.
    pub fn bits(&self) -> (r: u8)
        ensures
            r == self.spec_bits(),
    {
        self.bits
    }

    /// The flags of `bits`, or `None` where a bit is no flag.
    pub fn from_bits(bits: u8) -> (r: Option<Self>)
        ensures
            bits & !fvirt_all_bits() == 0 ==> (r matches Some(f) && f.spec_bits() == bits),
            bits & !fvirt_all_bits() != 0 ==> r is None,
    {
        if bits & !0x1fu8 == 0 {
            Some(FVirt { bits })
        } else {
            None
        }
    }

    /// The flags of `bits`, dropping the bits that are no flag.
    pub fn from_bits_truncate(bits: u8) -> (r: Self)
        ensures
            r.spec_bits() == bits & fvirt_all_bits(),
    {
        FVirt { bits: bits & 0x1f }
    }

    /// No flag is set.
    pub fn is_empty(&self) -> (r: bool)
        ensures
            r == (self.spec_bits() == 0),
    {
        self.bits == 0
    }

    /// Every flag of `other` is set.
    pub fn contains(&self, other: FVirt) -> (r: bool)
        ensures
            r == (self.spec_bits() & other.spec_bits() == other.spec_bits()),
    {
        self.bits & other.bits == other.bits
    }

    /// The flags set in either.
    pub fn union(self, other: FVirt) -> (r: Self)
        ensures
            r.spec_bits() == self.spec_bits() | other.spec_bits(),
    {
        FVirt { bits: self.bits | other.bits }
    }

    /// Set the flags of `other`.
    pub fn insert(&mut self, other: FVirt)
        ensures
            final(self).spec_bits() == old(self).spec_bits() | other.spec_bits(),
    {
        self.bits = self.bits | other.bits;
    }

    /// Clear the flags of `other`.
    pub fn remove(&mut self, other: FVirt)
        ensures
            final(self).spec_bits() == old(self).spec_bits() & !other.spec_bits(),
    {
        self.bits = self.bits & !other.bits;
    }
}

/// A key with its modifiers.
#[derive(Debug, PartialEq, PartialOrd, Ord, Eq, Hash, Copy, Clone, Structural)]
pub struct KeyBinding {
    pub fvirt: FVirt,
    pub key: u16,
}

impl KeyBinding {
    pub fn new(fvirt: FVirt, key: u16) -> (r: Self)
        ensures
            r == (KeyBinding { fvirt, key }),
    {
        KeyBinding { fvirt, key }
    }
}

/// For now — just raw keystroke lParam
#[derive(Debug, PartialEq, PartialOrd, Ord, Eq, Hash, Copy, Clone, Structural)]
pub struct KeyStroke {
    pub raw: u32,
}

impl From<isize> for KeyStroke {
    fn from(value: isize) -> (r: Self) {
        KeyStroke { raw: value as u32 }
    }
}

impl FromSpecImpl<isize> for KeyStroke {
    open spec fn obeys_from_spec() -> bool {
        true
    }

    open spec fn from_spec(v: isize) -> KeyStroke {
        KeyStroke { raw: v as u32 }
    }
}

} // verus!

//! The controller's status register and configuration byte as named bits.

use vstd::prelude::*;

verus! {

/// The output buffer holds a byte for the host.
pub const OUTPUT_FULL: u8 = 1;
/// The input buffer still holds a byte for the controller.
pub const INPUT_FULL: u8 = 2;
/// The system flag.
pub const SYSTEM: u8 = 4;
/// The last write was a command rather than data.
pub const COMMAND: u8 = 8;
/// Keyboard lock (chipset specific).
pub const KEYBOARD_LOCK: u8 = 16;
/// The waiting byte comes from the second port (chipset specific).
pub const SECOND_OUTPUT_FULL: u8 = 32;
/// A time-out error.
pub const TIME_OUT: u8 = 64;
/// A parity error.
pub const PARITY: u8 = 128;

/// First port interrupt enabled.
pub const FIRST_INTERRUPT: u8 = 1;
/// Second port interrupt enabled.
pub const SECOND_INTERRUPT: u8 = 2;
/// The power-on self test passed.
pub const POST_PASSED: u8 = 4;
/// Reserved, must stay zero.
pub const CONFIG_RESERVED_3: u8 = 8;
/// First port clock disabled.
pub const FIRST_DISABLED: u8 = 16;
/// Second port clock disabled.
pub const SECOND_DISABLED: u8 = 32;
/// First port scancode translation.
pub const FIRST_TRANSLATE: u8 = 64;
/// Reserved, must stay zero.
pub const CONFIG_RESERVED_7: u8 = 128;

/// Whether every bit of `mask` is set in `bits`.
pub open spec fn has_bits(bits: u8, mask: u8) -> bool {
    bits & mask == mask
}

/// A status register reading, taken whole.
#[derive(Clone, Copy, Debug, PartialEq, Eq, Structural)]
pub struct StatusFlags {
    pub bits: u8,
}

impl StatusFlags {
    pub fn from_bits_truncate(bits: u8) -> (r: Self)
        ensures
            r.bits == bits,
    {
        StatusFlags { bits }
    }

    pub fn contains(&self, mask: u8) -> (r: bool)
        ensures
            r == has_bits(self.bits, mask),
    {
        self.bits & mask == mask
    }
}

/// The controller configuration byte, always written back whole.
#[derive(Clone, Copy, Debug, PartialEq, Eq, Structural)]
pub struct ConfigFlags {
    pub bits: u8,
}

impl ConfigFlags {
    pub fn from_bits_truncate(bits: u8) -> (r: Self)
        ensures
            r.bits == bits,
    {
        ConfigFlags { bits }
    }

    pub fn bits(&self) -> (r: u8)
        ensures
            r == self.bits,
    {
        self.bits
    }

    pub fn contains(&self, mask: u8) -> (r: bool)
        ensures
            r == has_bits(self.bits, mask),
    {
        self.bits & mask == mask
    }

    pub fn insert(&mut self, mask: u8)
        ensures
            final(self).bits == old(self).bits | mask,
    {
        self.bits = self.bits | mask;
    }

    pub fn remove(&mut self, mask: u8)
        ensures
            final(self).bits == old(self).bits & !mask,
    {
        self.bits = self.bits & !mask;
    }
}

/// The configuration written before the self test: ports disabled,
/// interrupts and translation off.
pub open spec fn quiet_config() -> u8 {
    POST_PASSED | FIRST_DISABLED | SECOND_DISABLED
}

/// The configuration written at the end of bring-up: the first port enabled
/// with translation and interrupt; the second enabled with its interrupt only
/// when a mouse was found.
pub open spec fn running_config(mouse_found: bool) -> u8 {
    if mouse_found {
        POST_PASSED | FIRST_INTERRUPT | FIRST_TRANSLATE | SECOND_INTERRUPT
    } else {
        POST_PASSED | FIRST_INTERRUPT | FIRST_TRANSLATE | SECOND_DISABLED
    }
}

pub fn quiet_config_flags() -> (r: ConfigFlags)
    ensures
        r.bits == quiet_config(),
{
    ConfigFlags::from_bits_truncate(POST_PASSED | FIRST_DISABLED | SECOND_DISABLED)
}

/// The running configuration made from `c`: the first port enabled with
/// translation and interrupt; the second port enabled with its interrupt
/// when a mouse was found, else disabled with its interrupt off. Other bits
/// stay.
pub open spec fn enable_ports(c: u8, mouse_found: bool) -> u8 {
    let first = ((c & !FIRST_DISABLED) | FIRST_TRANSLATE) | FIRST_INTERRUPT;
    if mouse_found {
        (first & !SECOND_DISABLED) | SECOND_INTERRUPT
    } else {
        (first | SECOND_DISABLED) & !SECOND_INTERRUPT
    }
}

/// Turns a configuration into the running one.
pub fn running_config_flags(from: ConfigFlags, mouse_found: bool) -> (r: ConfigFlags)
    ensures
        r.bits == enable_ports(from.bits, mouse_found),
        from.bits == quiet_config() ==> r.bits == running_config(mouse_found),
{
    let mut config = from;
    config.remove(FIRST_DISABLED);
    config.insert(FIRST_TRANSLATE);
    config.insert(FIRST_INTERRUPT);
    if mouse_found {
        config.remove(SECOND_DISABLED);
        config.insert(SECOND_INTERRUPT);
    } else {
        config.insert(SECOND_DISABLED);
        config.remove(SECOND_INTERRUPT);
    }
    assert((((((4u8 | 16u8 | 32u8) & !16u8) | 64u8) | 1u8) & !32u8) | 2u8 == 4u8 | 1u8 | 64u8 | 2u8)
        by (bit_vector);
    assert((((((4u8 | 16u8 | 32u8) & !16u8) | 64u8) | 1u8) | 32u8) & !2u8 == 4u8 | 1u8 | 64u8 | 32u8)
        by (bit_vector);
    config
}

} // verus!

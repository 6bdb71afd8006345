//! The interrupt controller's state: eight low sources, latched or level, and
//! eight high ones.
use vstd::prelude::*;

verus! {

/// Bit `bit` of a byte.
pub open spec fn bit8(bit: u8) -> u8 {
    1u8 << bit
}

/// `byte` with bit `bit` set or cleared.
pub open spec fn with_bit(byte: u8, bit: u8, on: bool) -> u8 {
    if on {
        byte | bit8(bit)
    } else {
        byte & !bit8(bit)
    }
}

/// `byte` with bit `bit` set or cleared.
#[verifier::when_used_as_spec(with_bit)]
pub fn put_bit(byte: u8, bit: u8, on: bool) -> (r: u8)
    requires
        bit < 8,
    ensures
        r == with_bit(byte, bit, on),
{
    if on {
        byte | (1u8 << bit)
    } else {
        byte & !(1u8 << bit)
    }
}

/// What the interrupt controller holds.
#[derive(Clone, Copy, Debug, PartialEq, Eq, Structural)]
pub struct IrqState {
    /// Interrupts reach the core at all.
    pub global_en: bool,
    /// Low sources that are let through.
    pub mask: u8,
    /// Low sources whose edge was latched.
    pub latched: u8,
    /// Low sources that are levels, as they stand.
    pub level: u8,
    /// High sources that are let through.
    pub high_en: u8,
    /// High sources as they stand.
    pub high_src: u8,
}

impl IrqState {
    /// Power-on: everything off.
    pub open spec fn initial() -> IrqState {
        IrqState { global_en: false, mask: 0, latched: 0, level: 0, high_en: 0, high_src: 0 }
    }

    pub open spec fn pulsed(self, bit: u8) -> IrqState {
        IrqState { latched: self.latched | bit8(bit), ..self }
    }

    pub open spec fn with_level(self, bit: u8, on: bool) -> IrqState {
        IrqState { level: with_bit(self.level, bit, on), ..self }
    }

    pub open spec fn with_high(self, bit: u8, on: bool) -> IrqState {
        IrqState { high_src: with_bit(self.high_src, bit, on), ..self }
    }

    pub open spec fn active_low(self) -> u8 {
        (self.latched | self.level) & self.mask
    }

    pub open spec fn active_high(self) -> u8 {
        self.high_src & self.high_en
    }

    /// The core's interrupt line.
    pub open spec fn up(self) -> bool {
        self.global_en && (self.active_low() != 0 || self.active_high() != 0)
    }

    pub fn new() -> (i: IrqState)
        ensures
            i == IrqState::initial(),
    {
        IrqState { global_en: false, mask: 0, latched: 0, level: 0, high_en: 0, high_src: 0 }
    }

    /// An edge on low source `bit`.
    pub fn pulse(&mut self, bit: u8)
        requires
            bit < 8,
        ensures
            *final(self) == old(self).pulsed(bit),
    {
        self.latched = self.latched | (1u8 << bit);
    }

    /// The level of low source `bit`.
    pub fn set_level(&mut self, bit: u8, on: bool)
        requires
            bit < 8,
        ensures
            *final(self) == old(self).with_level(bit, on),
    {
        self.level = put_bit(self.level, bit, on);
    }

    /// The level of high source `bit`.
    pub fn set_high(&mut self, bit: u8, on: bool)
        requires
            bit < 8,
        ensures
            *final(self) == old(self).with_high(bit, on),
    {
        self.high_src = put_bit(self.high_src, bit, on);
    }

    /// Acknowledge latched low sources.
    pub fn clear(&mut self, bits: u8)
        ensures
            *final(self) == (IrqState { latched: old(self).latched & !bits, ..*old(self) }),
    {
        self.latched = self.latched & !bits;
    }

    /// Low sources that are up and let through.
    pub fn active(&self) -> (r: u8)
        ensures
            r == self.active_low(),
    {
        (self.latched | self.level) & self.mask
    }

    /// High sources that are up and let through.
    pub fn high_active(&self) -> (r: u8)
        ensures
            r == self.active_high(),
    {
        self.high_src & self.high_en
    }

    /// The core's interrupt line.
    pub fn line(&self) -> (r: bool)
        ensures
            r == self.up(),
    {
        self.global_en && (self.active() != 0 || self.high_active() != 0)
    }
}

/// A level source is up exactly as it was last set; the others keep theirs.
pub proof fn levels_follow_their_line(i: IrqState, bit: u8, other: u8, on: bool)
    requires
        bit < 8,
        other < 8,
    ensures
        (i.with_high(bit, on).high_src & bit8(bit) != 0) == on,
        (i.with_level(bit, on).level & bit8(bit) != 0) == on,
        other != bit ==> (i.with_high(bit, on).high_src & bit8(other)) == i.high_src & bit8(other),
        other != bit ==> (i.with_level(bit, on).level & bit8(other)) == i.level & bit8(other),
{
    let h = i.high_src;
    let l = i.level;
    assert((h | (1u8 << bit)) & (1u8 << bit) != 0 && (h & !(1u8 << bit)) & (1u8 << bit) == 0 && (l
        | (1u8 << bit)) & (1u8 << bit) != 0 && (l & !(1u8 << bit)) & (1u8 << bit) == 0) by (bit_vector)
        requires
            bit < 8,
    ;
    assert(other != bit ==> (h | (1u8 << bit)) & (1u8 << other) == h & (1u8 << other) && (h & !(1u8
        << bit)) & (1u8 << other) == h & (1u8 << other) && (l | (1u8 << bit)) & (1u8 << other) == l
        & (1u8 << other) && (l & !(1u8 << bit)) & (1u8 << other) == l & (1u8 << other))
        by (bit_vector)
        requires
            bit < 8,
            other < 8,
    ;
}

/// A latched edge stays until it is cleared.
pub proof fn edges_stay_until_cleared(i: IrqState, bit: u8, bits: u8)
    requires
        bit < 8,
    ensures
        i.pulsed(bit).latched & bit8(bit) != 0,
        i.pulsed(bit).pulsed(bit) == i.pulsed(bit),
        bits & bit8(bit) != 0 ==> (i.latched & !bits) & bit8(bit) == 0,
{
    let l = i.latched;
    assert((l | (1u8 << bit)) & (1u8 << bit) != 0 && (l | (1u8 << bit)) | (1u8 << bit) == l | (1u8
        << bit) && (bits & (1u8 << bit) != 0 ==> (l & !bits) & (1u8 << bit) == 0)) by (bit_vector)
        requires
            bit < 8,
    ;
}

} // verus!

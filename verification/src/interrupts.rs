use vstd::prelude::*;

use crate::bits::lemma_u8;
verus! {

/// Index of the lowest set bit of `x`, or 8 when `x` is zero.
pub open spec fn lowest_set_bit(x: u8) -> u8 {
    vstd::std_specs::bits::u8_trailing_zeros(x) as u8
}

/// Interrupt flags (IF) at 0xFF0F and Interrupt enable (IE) at 0xFFFF.
///
/// Bit positions: 0=VBlank 1=LCD 2=Timer 3=Serial 4=Joypad
pub struct Interrupts {
    /// 0xFF0F — Interrupt Flag: bits set when interrupt is requested
    pub flags: u8,
    /// 0xFFFF — Interrupt Enable: bits set to allow interrupt to fire
    pub enable: u8,
}

impl Interrupts {
    /// The interrupts that are both requested and enabled (the five defined bits).
    pub open spec fn active(self) -> u8 {
        self.flags & self.enable & 0x1F
    }

    /// The highest-priority interrupt that would be serviced, if any.
    pub open spec fn pending_spec(self) -> Option<u8> {
        if self.active() == 0 {
            None
        } else {
            Some(lowest_set_bit(self.active()))
        }
    }

    pub fn new() -> (r: Self)
        ensures
            r.flags == 0,
            r.enable == 0,
    {
        Self { flags: 0, enable: 0 }
    }

    /// Set the request flag of interrupt `bit`.
    pub fn request(&mut self, bit: u8)
        requires
            bit < 8,
        ensures
            final(self).flags == old(self).flags | (1u8 << bit),
            final(self).enable == old(self).enable,
    {
        self.flags |= 1 << bit;
    }

    /// Returns the bit index of the highest-priority pending+enabled interrupt,
    /// or None if nothing is pending.
    pub fn pending(&self) -> (r: Option<u8>)
        ensures
            r == self.pending_spec(),
            r matches Some(b) ==> b < 5,
    {
        let active = self.flags & self.enable & 0x1F;
        if active == 0 {
            None
        } else {
            proof {
                lemma_u8(self.flags & self.enable);
                lemma_lowest_set_bit_of_five_bits(active);
            }
            Some(active.trailing_zeros() as u8)
        }
    }

    /// Acknowledge an interrupt by clearing its flag bit.
    pub fn ack(&mut self, bit: u8)
        requires
            bit < 8,
        ensures
            final(self).flags == old(self).flags & !(1u8 << bit),
            final(self).enable == old(self).enable,
    {
        self.flags &= !(1 << bit);
    }
}

/// A nonzero value below 32 has its lowest set bit among the first five.
pub proof fn lemma_lowest_set_bit_of_five_bits(x: u8)
    requires
        x != 0,
        x < 32,
    ensures
        lowest_set_bit(x) < 5,
        x & (1u8 << lowest_set_bit(x)) != 0,
{
    vstd::std_specs::bits::axiom_u8_trailing_zeros(x);
    let t = lowest_set_bit(x);
    assert(t < 8);
    if t >= 5 {
        assert(x >> 4u8 & 1 == 0);
        assert(x >> 3u8 & 1 == 0);
        assert(x >> 2u8 & 1 == 0);
        assert(x >> 1u8 & 1 == 0);
        assert(x >> 0u8 & 1 == 0);
        assert(x < 32 && (x >> 4u8) & 1 == 0 && (x >> 3u8) & 1 == 0 && (x >> 2u8) & 1 == 0
            && (x >> 1u8) & 1 == 0 && (x >> 0u8) & 1 == 0 ==> x == 0) by (bit_vector);
    }
    assert((x >> t) & 1 == 1 && t < 8 ==> x & (1u8 << t) != 0) by (bit_vector);
}

/// Request and acknowledge at the level of the register bits.
proof fn lemma_request_ack_bits(flags: u8, enable: u8, bit: u8)
    by (bit_vector)
    requires
        bit < 5,
    ensures
        enable & (1u8 << bit) != 0 ==> (flags | (1u8 << bit)) & enable & 0x1F != 0,
        (flags | (1u8 << bit)) & (1u8 << bit) != 0,
        (flags & !(1u8 << bit)) & (1u8 << bit) == 0,
        (flags & !(1u8 << bit)) & 0x1F <= flags & 0x1F,
{
}

/// A requested interrupt is flagged, and pending when it is enabled; once
/// acknowledged it is no longer flagged.
pub proof fn lemma_request_ack(i: Interrupts, bit: u8)
    requires
        bit < 5,
    ensures
        (Interrupts { flags: i.flags | (1u8 << bit), ..i }).flags & (1u8 << bit) != 0,
        i.enable & (1u8 << bit) != 0 ==> (Interrupts { flags: i.flags | (1u8 << bit), ..i }).pending_spec() is Some,
        (Interrupts { flags: i.flags & !(1u8 << bit), ..i }).flags & (1u8 << bit) == 0,
{
    lemma_request_ack_bits(i.flags, i.enable, bit);
}

} // verus!

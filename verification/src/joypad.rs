use vstd::prelude::*;
use crate::interrupts::Interrupts;

pub mod btn;

use crate::bits::{lemma_small_shifts, lemma_u8};
verus! {

/// Joypad register at 0xFF00.
///
/// Bits 5-4: select which group to read (0=selected)
///   bit5 = select action buttons (A, B, Select, Start)
///   bit4 = select d-pad (Right, Left, Up, Down)
/// Bits 3-0: button state (0=pressed)
pub struct Joypad {
    /// Bit i is set while button i (see `btn`) is held down.
    pub buttons: u8,
    /// The raw value written to 0xFF00 (upper nibble select bits)
    pub select: u8,
}

impl Joypad {
    /// Whether button `i` is held.
    pub open spec fn pressed(self, i: int) -> bool {
        (self.buttons >> (i as u8)) & 1 == 1
    }

    /// The value read from 0xFF00: select bits, with the line of every held
    /// button of a selected group pulled low.
    pub open spec fn read_spec(self) -> u8 {
        let dpad: u8 = if self.select & 0x10 == 0 { self.buttons & 0x0F } else { 0 };
        let action: u8 = if self.select & 0x20 == 0 { (self.buttons >> 4u8) & 0x0F } else { 0 };
        (self.select | 0xCF) & !dpad & !action
    }

    pub fn new() -> (r: Self)
        ensures
            r == (Joypad { buttons: 0, select: 0xFF }),
    {
        Self { buttons: 0, select: 0xFF }
    }

    pub fn read(&self) -> (r: u8)
        ensures
            r == self.read_spec(),
    {
        let mut val = self.select | 0xCF; // bits 7-6 always 1, bits 3-0 start high
        if self.select & 0x10 == 0 {
            // D-pad selected
            val &= !(self.buttons & 0x0F);
        }
        if self.select & 0x20 == 0 {
            // Action buttons selected
            val &= !((self.buttons >> 4) & 0x0F);
        }
        proof {
            let (s, b) = (self.select, self.buttons);
            lemma_u8(s | 0xCF);
            lemma_u8((s | 0xCF) & !(b & 0x0F));
        }
        val
    }

    pub fn write(&mut self, val: u8)
        ensures
            *final(self) == (Joypad { select: val & 0x30, ..*old(self) }),
    {
        self.select = val & 0x30;
    }

    /// Hold `button` down and request the joypad interrupt.
    pub fn press(&mut self, button: usize, interrupts: &mut Interrupts)
        requires
            button < 8,
        ensures
            final(self).buttons == old(self).buttons | (1u8 << button as u8),
            final(self).select == old(self).select,
            *final(interrupts) == (Interrupts { flags: old(interrupts).flags | 0x10, ..*old(interrupts) }),
    {
        self.buttons |= 1u8 << (button as u8);
        interrupts.request(4); // Joypad interrupt
        proof {
            lemma_small_shifts();
        }
    }

    /// Let go of `button`.
    pub fn release(&mut self, button: usize)
        requires
            button < 8,
        ensures
            final(self).buttons == old(self).buttons & !(1u8 << button as u8),
            final(self).select == old(self).select,
    {
        self.buttons &= !(1u8 << (button as u8));
    }
}

/// Pressing a button makes it held; releasing it makes it not held, and
/// neither touches the other buttons.
pub proof fn lemma_press_release(buttons: u8, button: u8, other: u8)
    by (bit_vector)
    requires
        button < 8,
        other < 8,
        other != button,
    ensures
        ((buttons | (1u8 << button)) >> button) & 1 == 1,
        ((buttons & !(1u8 << button)) >> button) & 1 == 0,
        ((buttons | (1u8 << button)) >> other) & 1 == (buttons >> other) & 1,
        ((buttons & !(1u8 << button)) >> other) & 1 == (buttons >> other) & 1,
{
}

} // verus!

use vstd::prelude::*;
use crate::bits::{lemma_pair, lemma_u16};
use isa::{exec_spec, step_spec};
use crate::bus::{Bus, BusView, lemma_ram_write_read};

pub mod instructions;
pub mod isa;

verus! {

/// `(hi << 8) | lo` as a number.
pub open spec fn pair(hi: u8, lo: u8) -> u16 {
    (hi as int * 256 + lo as int) as u16
}

/// `x + y` modulo 2^16.
pub open spec fn add16(x: u16, y: u16) -> u16 {
    vstd::wrapping::u16_specs::wrapping_add(x, y)
}

/// `x - y` modulo 2^16.
pub open spec fn sub16(x: u16, y: u16) -> u16 {
    vstd::wrapping::u16_specs::wrapping_sub(x, y)
}

/// Sharp LR35902 CPU registers.
///
/// Flag register F layout: Z N H C 0 0 0 0
///   Z (bit7): Zero flag
///   N (bit6): Subtract flag
///   H (bit5): Half Carry flag
///   C (bit4): Carry flag
pub struct Registers {
    pub a: u8,
    pub f: u8,
    pub b: u8,
    pub c: u8,
    pub d: u8,
    pub e: u8,
    pub h: u8,
    pub l: u8,
    pub sp: u16,
    pub pc: u16,
}

impl Registers {
    pub open spec fn zeroed() -> Registers {
        Registers { a: 0, f: 0, b: 0, c: 0, d: 0, e: 0, h: 0, l: 0, sp: 0, pc: 0 }
    }

    pub open spec fn af_spec(self) -> u16 {
        pair(self.a, self.f)
    }

    pub open spec fn bc_spec(self) -> u16 {
        pair(self.b, self.c)
    }

    pub open spec fn de_spec(self) -> u16 {
        pair(self.d, self.e)
    }

    pub open spec fn hl_spec(self) -> u16 {
        pair(self.h, self.l)
    }

    /// AF loaded from `v`; the low nibble of F always reads as zero.
    pub open spec fn with_af(self, v: u16) -> Registers {
        Registers { a: (v / 256) as u8, f: (v % 256 / 16 * 16) as u8, ..self }
    }

    pub open spec fn with_bc(self, v: u16) -> Registers {
        Registers { b: (v / 256) as u8, c: (v % 256) as u8, ..self }
    }

    pub open spec fn with_de(self, v: u16) -> Registers {
        Registers { d: (v / 256) as u8, e: (v % 256) as u8, ..self }
    }

    pub open spec fn with_hl(self, v: u16) -> Registers {
        Registers { h: (v / 256) as u8, l: (v % 256) as u8, ..self }
    }

    pub open spec fn z(self) -> bool {
        self.f & 0x80 != 0
    }

    pub open spec fn n(self) -> bool {
        self.f & 0x40 != 0
    }

    pub open spec fn hc(self) -> bool {
        self.f & 0x20 != 0
    }

    pub open spec fn cy(self) -> bool {
        self.f & 0x10 != 0
    }

    /// F with bit `mask` set to `v`, the other bits kept.
    pub open spec fn f_with(f: u8, mask: u8, v: bool) -> u8 {
        if v { f | mask } else { f & !mask }
    }

    /// All four flags replaced; the low nibble of F kept.
    pub open spec fn with_flags(self, z: bool, n: bool, h: bool, c: bool) -> Registers {
        Registers {
            f: Self::f_with(Self::f_with(Self::f_with(Self::f_with(self.f, 0x80, z), 0x40, n), 0x20, h), 0x10, c),
            ..self
        }
    }

    // 16-bit register pair getters
    pub fn af(&self) -> (r: u16)
        ensures
            r == self.af_spec(),
    {
        proof {
            lemma_pair(self.a as u16, self.f as u16);
        }
        ((self.a as u16) << 8) | (self.f as u16)
    }

    pub fn bc(&self) -> (r: u16)
        ensures
            r == self.bc_spec(),
    {
        proof {
            lemma_pair(self.b as u16, self.c as u16);
        }
        ((self.b as u16) << 8) | (self.c as u16)
    }

    pub fn de(&self) -> (r: u16)
        ensures
            r == self.de_spec(),
    {
        proof {
            lemma_pair(self.d as u16, self.e as u16);
        }
        ((self.d as u16) << 8) | (self.e as u16)
    }

    pub fn hl(&self) -> (r: u16)
        ensures
            r == self.hl_spec(),
    {
        proof {
            lemma_pair(self.h as u16, self.l as u16);
        }
        ((self.h as u16) << 8) | (self.l as u16)
    }

    // 16-bit register pair setters
    pub fn set_af(&mut self, v: u16)
        ensures
            *final(self) == old(self).with_af(v),
    {
        proof {
            lemma_u16(v);
        }
        self.a = (v >> 8) as u8;
        self.f = (v & 0xF0) as u8;
    }

    pub fn set_bc(&mut self, v: u16)
        ensures
            *final(self) == old(self).with_bc(v),
    {
        proof {
            lemma_u16(v);
        }
        self.b = (v >> 8) as u8;
        self.c = v as u8;
    }

    pub fn set_de(&mut self, v: u16)
        ensures
            *final(self) == old(self).with_de(v),
    {
        proof {
            lemma_u16(v);
        }
        self.d = (v >> 8) as u8;
        self.e = v as u8;
    }

    pub fn set_hl(&mut self, v: u16)
        ensures
            *final(self) == old(self).with_hl(v),
    {
        proof {
            lemma_u16(v);
        }
        self.h = (v >> 8) as u8;
        self.l = v as u8;
    }

    // Flag helpers
    pub fn flag_z(&self) -> (r: bool)
        ensures
            r == self.z(),
    {
        self.f & 0x80 != 0
    }

    pub fn flag_n(&self) -> (r: bool)
        ensures
            r == self.n(),
    {
        self.f & 0x40 != 0
    }

    pub fn flag_h(&self) -> (r: bool)
        ensures
            r == self.hc(),
    {
        self.f & 0x20 != 0
    }

    pub fn flag_c(&self) -> (r: bool)
        ensures
            r == self.cy(),
    {
        self.f & 0x10 != 0
    }

    pub fn set_flag_z(&mut self, v: bool)
        ensures
            *final(self) == (Registers { f: Registers::f_with(old(self).f, 0x80, v), ..*old(self) }),
    {
        if v {
            self.f |= 0x80
        } else {
            self.f &= !0x80
        }
    }

    pub fn set_flag_n(&mut self, v: bool)
        ensures
            *final(self) == (Registers { f: Registers::f_with(old(self).f, 0x40, v), ..*old(self) }),
    {
        if v {
            self.f |= 0x40
        } else {
            self.f &= !0x40
        }
    }

    pub fn set_flag_h(&mut self, v: bool)
        ensures
            *final(self) == (Registers { f: Registers::f_with(old(self).f, 0x20, v), ..*old(self) }),
    {
        if v {
            self.f |= 0x20
        } else {
            self.f &= !0x20
        }
    }

    pub fn set_flag_c(&mut self, v: bool)
        ensures
            *final(self) == (Registers { f: Registers::f_with(old(self).f, 0x10, v), ..*old(self) }),
    {
        if v {
            self.f |= 0x10
        } else {
            self.f &= !0x10
        }
    }

    pub fn set_flags(&mut self, z: bool, n: bool, h: bool, c: bool)
        ensures
            *final(self) == old(self).with_flags(z, n, h, c),
    {
        self.set_flag_z(z);
        self.set_flag_n(n);
        self.set_flag_h(h);
        self.set_flag_c(c);
    }
}

impl Default for Registers {
    fn default() -> (r: Self)
        ensures
            r == Registers::zeroed(),
    {
        Registers { a: 0, f: 0, b: 0, c: 0, d: 0, e: 0, h: 0, l: 0, sp: 0, pc: 0 }
    }
}

/// Each flag reads back as it was last set, and setting one flag leaves the
/// others alone.
pub proof fn lemma_flags(r: Registers, z: bool, n: bool, h: bool, c: bool)
    ensures
        r.with_flags(z, n, h, c).z() == z,
        r.with_flags(z, n, h, c).n() == n,
        r.with_flags(z, n, h, c).hc() == h,
        r.with_flags(z, n, h, c).cy() == c,
        r.with_flags(z, n, h, c).f & 0x0F == r.f & 0x0F,
{
    lemma_f_with(r.f, z, n, h, c);
}

/// Bits of F after setting the four flags in turn.
proof fn lemma_f_with(f: u8, z: bool, n: bool, h: bool, c: bool)
    by (bit_vector)
    ensures
        Registers::f_with(Registers::f_with(Registers::f_with(Registers::f_with(f, 0x80, z), 0x40, n), 0x20, h), 0x10, c) & 0x80 != 0 <==> z,
        Registers::f_with(Registers::f_with(Registers::f_with(Registers::f_with(f, 0x80, z), 0x40, n), 0x20, h), 0x10, c) & 0x40 != 0 <==> n,
        Registers::f_with(Registers::f_with(Registers::f_with(Registers::f_with(f, 0x80, z), 0x40, n), 0x20, h), 0x10, c) & 0x20 != 0 <==> h,
        Registers::f_with(Registers::f_with(Registers::f_with(Registers::f_with(f, 0x80, z), 0x40, n), 0x20, h), 0x10, c) & 0x10 != 0 <==> c,
        Registers::f_with(Registers::f_with(Registers::f_with(Registers::f_with(f, 0x80, z), 0x40, n), 0x20, h), 0x10, c) & 0x0F == f & 0x0F,
{
}

/// Loading a register pair and reading it back gives the value loaded (for AF
/// with the low nibble of F cleared), and leaves the other registers alone.
pub proof fn lemma_register_pairs(r: Registers, v: u16)
    ensures
        r.with_bc(v).bc_spec() == v,
        r.with_de(v).de_spec() == v,
        r.with_hl(v).hl_spec() == v,
        r.with_af(v).af_spec() == v / 16 * 16,
        r.with_bc(v).af_spec() == r.af_spec() && r.with_bc(v).de_spec() == r.de_spec() && r.with_bc(v).hl_spec() == r.hl_spec(),
        r.with_de(v).af_spec() == r.af_spec() && r.with_de(v).bc_spec() == r.bc_spec() && r.with_de(v).hl_spec() == r.hl_spec(),
        r.with_hl(v).af_spec() == r.af_spec() && r.with_hl(v).bc_spec() == r.bc_spec() && r.with_hl(v).de_spec() == r.de_spec(),
{
}

pub struct Cpu {
    pub reg: Registers,
    /// Interrupt Master Enable
    pub ime: bool,
    /// EI schedules IME=true after the next instruction
    pub ime_scheduled: bool,
    /// HALT state
    pub halted: bool,
}

impl Cpu {
    /// Register state the boot ROM leaves behind (DMG, or GBC when `is_gbc`).
    pub open spec fn post_boot(is_gbc: bool) -> Cpu {
        let reg = if is_gbc {
            Registers { a: 0x11, f: 0x80, b: 0x00, c: 0x00, d: 0xFF, e: 0x56, h: 0x00, l: 0x0D, sp: 0xFFFE, pc: 0x0100 }
        } else {
            Registers { a: 0x01, f: 0xB0, b: 0x00, c: 0x13, d: 0x00, e: 0xD8, h: 0x01, l: 0x4D, sp: 0xFFFE, pc: 0x0100 }
        };
        Cpu { reg, ime: false, ime_scheduled: false, halted: false }
    }

    pub open spec fn with_reg(self, reg: Registers) -> Cpu {
        Cpu { reg, ..self }
    }

    pub open spec fn with_pc(self, pc: u16) -> Cpu {
        Cpu { reg: Registers { pc, ..self.reg }, ..self }
    }

    pub open spec fn with_sp(self, sp: u16) -> Cpu {
        Cpu { reg: Registers { sp, ..self.reg }, ..self }
    }

    /// The byte at PC, and the CPU with PC moved past it.
    pub open spec fn fetch8_spec(self, b: BusView) -> (Cpu, u8) {
        (self.with_pc(add16(self.reg.pc, 1)), b.read(self.reg.pc))
    }

    /// The little-endian word at PC, and the CPU with PC moved past it.
    pub open spec fn fetch16_spec(self, b: BusView) -> (Cpu, u16) {
        let (c1, lo) = self.fetch8_spec(b);
        let (c2, hi) = c1.fetch8_spec(b);
        (c2, pair(hi, lo))
    }

    /// Push `val` (high byte first, at SP-1; then low byte at SP-2), the two
    /// bus writes reading clock values `t1` and `t2`.
    pub open spec fn push16_spec(self, b: BusView, val: u16, t1: u64, t2: u64) -> (Cpu, BusView) {
        let sp1 = sub16(self.reg.sp, 1);
        let b1 = b.write(sp1, (val / 256) as u8, t1);
        let sp2 = sub16(sp1, 1);
        let b2 = b1.write(sp2, (val % 256) as u8, t2);
        (self.with_sp(sp2), b2)
    }

    /// Pop a word: low byte at SP, high byte at SP+1.
    pub open spec fn pop16_spec(self, b: BusView) -> (Cpu, u16) {
        let lo = b.read(self.reg.sp);
        let sp1 = add16(self.reg.sp, 1);
        let hi = b.read(sp1);
        (self.with_sp(add16(sp1, 1)), pair(hi, lo))
    }

    pub fn new(is_gbc: bool) -> (r: Self)
        ensures
            r == Cpu::post_boot(is_gbc),
    {
        // Post-boot ROM register state
        let mut reg = Registers::default();
        if is_gbc {
            reg.a = 0x11;
            reg.f = 0x80;
            reg.b = 0x00;
            reg.c = 0x00;
            reg.d = 0xFF;
            reg.e = 0x56;
            reg.h = 0x00;
            reg.l = 0x0D;
        } else {
            reg.a = 0x01;
            reg.f = 0xB0;
            reg.b = 0x00;
            reg.c = 0x13;
            reg.d = 0x00;
            reg.e = 0xD8;
            reg.h = 0x01;
            reg.l = 0x4D;
        }
        reg.sp = 0xFFFE;
        reg.pc = 0x0100;
        Self { reg, ime: false, ime_scheduled: false, halted: false }
    }

    /// Execute one instruction (or service an interrupt).
    /// Returns the number of machine cycles consumed.
    pub fn step(&mut self, bus: &mut Bus) -> (r: u8)
        requires
            old(bus)@.wf(),
        ensures
            exists|t1: u64, t2: u64| (*final(self), final(bus)@, r) == step_spec(*old(self), old(bus)@, t1, t2),
            final(bus)@.wf(),
            1 <= r <= 6,
    {
        let ghost c_in = *self;
        let ghost b_in = bus@;
        // Apply deferred EI
        if self.ime_scheduled {
            self.ime = true;
            self.ime_scheduled = false;
        }
        let ghost c0 = *self;

        // Handle interrupts
        if self.ime {
            if let Some(bit) = bus.interrupts.pending() {
                bus.interrupts.ack(bit);
                self.ime = false;
                self.halted = false;
                let ghost c1 = *self;
                let ghost b1 = bus@;
                let pc = self.reg.pc;
                self.push16(bus, pc);
                let ghost (t1, t2) = choose|t1: u64, t2: u64| (*self, bus@) == c1.push16_spec(b1, pc, t1, t2);
                self.reg.pc = 0x0040 + (bit as u16) * 8;
                assert((*self, bus@, 5u8) == step_spec(c_in, b_in, t1, t2));
                return 5;  // ISR takes 5 machine cycles
            }
        }

        if self.halted {
            // Check if any interrupt became pending (even with IME=false, HALT exits)
            if bus.interrupts.pending().is_some() {
                self.halted = false;
            } else {
                assert((*self, bus@, 1u8) == step_spec(c_in, b_in, 0, 0));
                return 1;
            }
        }

        let ghost c2 = *self;
        let cycles = instructions::execute(self, bus);
        let ghost (t1, t2) = choose|t1: u64, t2: u64| (*self, bus@, cycles) == exec_spec(c2, b_in, t1, t2);
        assert((*self, bus@, cycles) == step_spec(c_in, b_in, t1, t2));
        cycles
    }

    // -----------------------------------------------------------------------
    // Stack helpers
    // -----------------------------------------------------------------------
    pub fn push8(&mut self, bus: &mut Bus, val: u8)
        requires
            old(bus)@.wf(),
        ensures
            *final(self) == old(self).with_sp(sub16(old(self).reg.sp, 1)),
            exists|t: u64| final(bus)@ == old(bus)@.write(sub16(old(self).reg.sp, 1), val, t),
            final(bus)@.wf(),
    {
        let ghost b0 = bus@;
        self.reg.sp = self.reg.sp.wrapping_sub(1);
        bus.write(self.reg.sp, val);
        let ghost t = choose|t: u64| bus@ == b0.write(self.reg.sp, val, t);
        assert(bus@ == b0.write(sub16(old(self).reg.sp, 1), val, t));
    }

    pub fn pop8(&mut self, bus: &mut Bus) -> (r: u8)
        requires
            old(bus)@.wf(),
        ensures
            r == old(bus)@.read(old(self).reg.sp),
            final(bus)@ == old(bus)@,
            *final(self) == old(self).with_sp(add16(old(self).reg.sp, 1)),
    {
        let val = bus.read(self.reg.sp);
        self.reg.sp = self.reg.sp.wrapping_add(1);
        val
    }

    pub fn push16(&mut self, bus: &mut Bus, val: u16)
        requires
            old(bus)@.wf(),
        ensures
            exists|t1: u64, t2: u64|
                (*final(self), final(bus)@) == old(self).push16_spec(old(bus)@, val, t1, t2),
            final(bus)@.wf(),
    {
        let ghost b0 = bus@;
        let hi = (val >> 8) as u8;
        let lo = val as u8;
        proof {
            lemma_u16(val);
        }
        let sp1 = self.reg.sp.wrapping_sub(1);
        self.push8(bus, hi);
        let ghost t1 = choose|t: u64| bus@ == b0.write(sp1, hi, t);
        let ghost b1 = bus@;
        let sp2 = self.reg.sp.wrapping_sub(1);
        self.push8(bus, lo);
        let ghost t2 = choose|t: u64| bus@ == b1.write(sp2, lo, t);
        assert((*self, bus@) == old(self).push16_spec(b0, val, t1, t2));
    }

    pub fn pop16(&mut self, bus: &mut Bus) -> (r: u16)
        requires
            old(bus)@.wf(),
        ensures
            (*final(self), r) == old(self).pop16_spec(old(bus)@),
            final(bus)@ == old(bus)@,
    {
        let lo = self.pop8(bus) as u16;
        let hi = self.pop8(bus) as u16;
        proof {
            lemma_pair(hi, lo);
        }
        (hi << 8) | lo
    }

    // -----------------------------------------------------------------------
    // Fetch helpers
    // -----------------------------------------------------------------------
    pub fn fetch8(&mut self, bus: &Bus) -> (r: u8)
        requires
            bus@.wf(),
        ensures
            (*final(self), r) == old(self).fetch8_spec(bus@),
    {
        let v = bus.read(self.reg.pc);
        self.reg.pc = self.reg.pc.wrapping_add(1);
        v
    }

    pub fn fetch16(&mut self, bus: &Bus) -> (r: u16)
        requires
            bus@.wf(),
        ensures
            (*final(self), r) == old(self).fetch16_spec(bus@),
    {
        let lo = self.fetch8(bus) as u16;
        let hi = self.fetch8(bus) as u16;
        proof {
            lemma_pair(hi, lo);
        }
        (hi << 8) | lo
    }

    pub fn schedule_ei(&mut self)
        ensures
            *final(self) == (Cpu { ime_scheduled: true, ..*old(self) }),
    {
        self.ime_scheduled = true;
    }

    pub fn halt(&mut self)
        ensures
            *final(self) == (Cpu { halted: true, ..*old(self) }),
    {
        self.halted = true;
    }
}

/// Popping right after a push gives the pushed word back and restores SP,
/// when both stack bytes land in RAM.
pub proof fn lemma_push_pop(c: Cpu, b: BusView, val: u16, t1: u64, t2: u64)
    requires
        b.wf(),
        (0xC002 <= c.reg.sp <= 0xE000) || (0xFF82 <= c.reg.sp <= 0xFFFF),
    ensures
        c.push16_spec(b, val, t1, t2).0.pop16_spec(c.push16_spec(b, val, t1, t2).1).1 == val,
        c.push16_spec(b, val, t1, t2).0.pop16_spec(c.push16_spec(b, val, t1, t2).1).0 == c,
{
    let sp1 = sub16(c.reg.sp, 1);
    let sp2 = sub16(sp1, 1);
    let hi = (val / 256) as u8;
    let lo = (val % 256) as u8;
    lemma_ram_write_read(b, sp1, sp2, hi, t1);
    let b1 = b.write(sp1, hi, t1);
    lemma_ram_write_read(b1, sp2, sp1, lo, t2);
    assert(add16(sp2, 1) == sp1);
    assert(add16(sp1, 1) == c.reg.sp);
}

} // verus!

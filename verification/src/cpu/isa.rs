use vstd::prelude::*;
use super::{Cpu, Registers, add16, pair, sub16};
use crate::bus::BusView;

verus! {

// ===========================================================================
// What each instruction does, stated over the register file and the bus model.
// Operand encodings: r (3 bits) 0=B 1=C 2=D 3=E 4=H 5=L 6=(HL) 7=A;
// rp (2 bits) 0=BC 1=DE 2=HL 3=SP; cc (2 bits) 0=NZ 1=Z 2=NC 3=C.
// ===========================================================================

pub open spec fn bool_bit(b: bool) -> int {
    if b { 1 } else { 0 }
}

/// `n` read as a two's-complement signed byte.
pub open spec fn sext8(n: u8) -> int {
    if n < 128 { n as int } else { n - 256 }
}

/// Register operand `idx` (not 6).
pub open spec fn reg8(r: Registers, idx: int) -> u8 {
    if idx == 0 {
        r.b
    } else if idx == 1 {
        r.c
    } else if idx == 2 {
        r.d
    } else if idx == 3 {
        r.e
    } else if idx == 4 {
        r.h
    } else if idx == 5 {
        r.l
    } else if idx == 7 {
        r.a
    } else {
        0
    }
}

pub open spec fn with_reg8(r: Registers, idx: int, v: u8) -> Registers {
    if idx == 0 {
        Registers { b: v, ..r }
    } else if idx == 1 {
        Registers { c: v, ..r }
    } else if idx == 2 {
        Registers { d: v, ..r }
    } else if idx == 3 {
        Registers { e: v, ..r }
    } else if idx == 4 {
        Registers { h: v, ..r }
    } else if idx == 5 {
        Registers { l: v, ..r }
    } else if idx == 7 {
        Registers { a: v, ..r }
    } else {
        r
    }
}

/// Operand `idx`: a register, or for 6 the byte at (HL).
pub open spec fn operand(c: Cpu, b: BusView, idx: int) -> u8 {
    if idx == 6 { b.read(c.reg.hl_spec()) } else { reg8(c.reg, idx) }
}

/// Store `v` into operand `idx` (for 6 a bus write to (HL) reading clock value `t`).
pub open spec fn store(c: Cpu, b: BusView, idx: int, v: u8, t: u64) -> (Cpu, BusView) {
    if idx == 6 {
        (c, b.write(c.reg.hl_spec(), v, t))
    } else {
        (c.with_reg(with_reg8(c.reg, idx, v)), b)
    }
}

/// Register pair `rp` (SP for 3).
pub open spec fn get_rp(r: Registers, rp: int) -> u16 {
    if rp == 0 {
        r.bc_spec()
    } else if rp == 1 {
        r.de_spec()
    } else if rp == 2 {
        r.hl_spec()
    } else {
        r.sp
    }
}

pub open spec fn with_rp(r: Registers, rp: int, v: u16) -> Registers {
    if rp == 0 {
        r.with_bc(v)
    } else if rp == 1 {
        r.with_de(v)
    } else if rp == 2 {
        r.with_hl(v)
    } else {
        Registers { sp: v, ..r }
    }
}

/// Branch condition `cc`.
pub open spec fn cond(r: Registers, cc: int) -> bool {
    if cc == 0 {
        !r.z()
    } else if cc == 1 {
        r.z()
    } else if cc == 2 {
        !r.cy()
    } else {
        r.cy()
    }
}

/// PC after a relative jump by the signed displacement `n`.
pub open spec fn jr_target(pc: u16, n: u8) -> u16 {
    ((pc + sext8(n) + 0x10000) % 0x10000) as u16
}

// --- 8-bit arithmetic and logic on A ---------------------------------------

pub open spec fn alu_add(r: Registers, v: u8) -> Registers {
    let res = ((r.a + v) % 256) as u8;
    Registers { a: res, ..r }.with_flags(res == 0, false, r.a % 16 + v % 16 > 15, r.a + v > 255)
}

pub open spec fn alu_adc(r: Registers, v: u8) -> Registers {
    let c = bool_bit(r.cy());
    let res = ((r.a + v + c) % 256) as u8;
    Registers { a: res, ..r }.with_flags(res == 0, false, r.a % 16 + v % 16 + c > 15, r.a + v + c > 255)
}

pub open spec fn alu_sub(r: Registers, v: u8) -> Registers {
    let res = ((r.a - v + 256) % 256) as u8;
    Registers { a: res, ..r }.with_flags(res == 0, true, r.a % 16 < v % 16, r.a < v)
}

pub open spec fn alu_sbc(r: Registers, v: u8) -> Registers {
    let c = bool_bit(r.cy());
    let res = ((r.a - v - c + 512) % 256) as u8;
    Registers { a: res, ..r }.with_flags(res == 0, true, r.a % 16 < v % 16 + c, r.a < v + c)
}

pub open spec fn alu_and(r: Registers, v: u8) -> Registers {
    let res = r.a & v;
    Registers { a: res, ..r }.with_flags(res == 0, false, true, false)
}

pub open spec fn alu_xor(r: Registers, v: u8) -> Registers {
    let res = r.a ^ v;
    Registers { a: res, ..r }.with_flags(res == 0, false, false, false)
}

pub open spec fn alu_or(r: Registers, v: u8) -> Registers {
    let res = r.a | v;
    Registers { a: res, ..r }.with_flags(res == 0, false, false, false)
}

/// Compare: the flags of A - v, A unchanged.
pub open spec fn alu_cp(r: Registers, v: u8) -> Registers {
    r.with_flags(r.a == v, true, r.a % 16 < v % 16, r.a < v)
}

/// ALU operation `kind`: 0 ADD, 1 ADC, 2 SUB, 3 SBC, 4 AND, 5 XOR, 6 OR, 7 CP.
pub open spec fn alu(kind: int, r: Registers, v: u8) -> Registers {
    if kind == 0 {
        alu_add(r, v)
    } else if kind == 1 {
        alu_adc(r, v)
    } else if kind == 2 {
        alu_sub(r, v)
    } else if kind == 3 {
        alu_sbc(r, v)
    } else if kind == 4 {
        alu_and(r, v)
    } else if kind == 5 {
        alu_xor(r, v)
    } else if kind == 6 {
        alu_or(r, v)
    } else {
        alu_cp(r, v)
    }
}

/// INC: result and flags (Z, N cleared, H on carry out of bit 3; C kept).
pub open spec fn inc_spec(r: Registers, v: u8) -> (Registers, u8) {
    let res = ((v + 1) % 256) as u8;
    let f = Registers::f_with(Registers::f_with(Registers::f_with(r.f, 0x80, res == 0), 0x40, false), 0x20, v % 16 == 15);
    (Registers { f, ..r }, res)
}

/// DEC: result and flags (Z, N set, H on borrow from bit 4; C kept).
pub open spec fn dec_spec(r: Registers, v: u8) -> (Registers, u8) {
    let res = ((v + 255) % 256) as u8;
    let f = Registers::f_with(Registers::f_with(Registers::f_with(r.f, 0x80, res == 0), 0x40, true), 0x20, v % 16 == 0);
    (Registers { f, ..r }, res)
}

/// ADD HL, v: N cleared, H on carry out of bit 11, C on carry out of bit 15; Z kept.
pub open spec fn add_hl_spec(r: Registers, v: u16) -> Registers {
    let hl = r.hl_spec();
    let f = Registers::f_with(
        Registers::f_with(Registers::f_with(r.f, 0x40, false), 0x20, hl % 4096 + v % 4096 > 4095),
        0x10,
        hl + v > 0xFFFF,
    );
    Registers { f, ..r }.with_hl(((hl + v) % 0x10000) as u16)
}

/// SP + signed `n`, with H and C from the unsigned addition of `n` to SP's low byte.
pub open spec fn sp_plus(r: Registers, n: u8) -> (Registers, u16) {
    let res = ((r.sp + sext8(n) + 0x10000) % 0x10000) as u16;
    (r.with_flags(false, false, r.sp % 16 + n % 16 > 15, r.sp % 256 + n > 255), res)
}

/// Decimal adjust of A after a BCD addition (N clear) or subtraction (N set).
pub open spec fn daa_spec(r: Registers) -> Registers {
    let a = r.a as int;
    if !r.n() {
        let a1 = if r.hc() || a % 16 > 9 { a + 6 } else { a };
        let carry = r.cy() || a1 > 0x9F;
        let res = ((if carry { a1 + 0x60 } else { a1 }) % 256) as u8;
        Registers {
            a: res,
            f: Registers::f_with(Registers::f_with(Registers::f_with(r.f, 0x10, carry), 0x20, false), 0x80, res == 0),
            ..r
        }
    } else {
        let a1 = if r.hc() { a - 6 } else { a };
        let res = ((if r.cy() { a1 - 0x60 } else { a1 }) % 256) as u8;
        Registers { a: res, f: Registers::f_with(Registers::f_with(r.f, 0x20, false), 0x80, res == 0), ..r }
    }
}

// --- Rotates, shifts and bit operations ------------------------------------

/// Shift/rotate `kind` of `v`: 0 RLC, 1 RRC, 2 RL, 3 RR, 4 SLA, 5 SRA, 6 SWAP, 7 SRL;
/// the result and the bit shifted out (false for SWAP).
pub open spec fn shift_result(kind: int, r: Registers, v: u8) -> (u8, bool) {
    let oc = bool_bit(r.cy());
    if kind == 0 {
        ((v * 2 % 256 + v / 128) as u8, v >= 128)
    } else if kind == 1 {
        ((v / 2 + v % 2 * 128) as u8, v % 2 == 1)
    } else if kind == 2 {
        ((v * 2 % 256 + oc) as u8, v >= 128)
    } else if kind == 3 {
        ((v / 2 + oc * 128) as u8, v % 2 == 1)
    } else if kind == 4 {
        ((v * 2 % 256) as u8, v >= 128)
    } else if kind == 5 {
        ((v / 2 + v / 128 * 128) as u8, v % 2 == 1)
    } else if kind == 6 {
        ((v / 16 + v % 16 * 16) as u8, false)
    } else {
        ((v / 2) as u8, v % 2 == 1)
    }
}

/// CB-prefixed shift/rotate: result, Z from it, N and H cleared, C the bit out.
pub open spec fn shift_spec(kind: int, r: Registers, v: u8) -> (Registers, u8) {
    let (res, c) = shift_result(kind, r, v);
    (r.with_flags(res == 0, false, false, c), res)
}

/// BIT b: Z when bit `bit` of `v` is clear, N cleared, H set; C kept.
pub open spec fn bit_spec(r: Registers, v: u8, bit: u8) -> Registers {
    let f = Registers::f_with(Registers::f_with(Registers::f_with(r.f, 0x80, (v >> bit) & 1 == 0), 0x40, false), 0x20, true);
    Registers { f, ..r }
}

// --- Instruction groups -----------------------------------------------------

/// The outcome of an instruction: CPU, bus and machine cycles taken.
pub type Outcome = (Cpu, BusView, u8);

/// LD r, r' (opcodes 0x40–0x7F except 0x76).
pub open spec fn ld_block(c: Cpu, b: BusView, op: u8, t: u64) -> Outcome {
    let dst = (op - 0x40) / 8;
    let src = (op as int) % 8;
    let (c1, b1) = store(c, b, dst, operand(c, b, src), t);
    (c1, b1, if src == 6 || dst == 6 { 2 } else { 1 })
}

/// ALU A, r (opcodes 0x80–0xBF).
pub open spec fn alu_block(c: Cpu, b: BusView, op: u8) -> Outcome {
    let src = (op as int) % 8;
    (c.with_reg(alu((op - 0x80) / 8, c.reg, operand(c, b, src))), b, if src == 6 { 2 } else { 1 })
}

/// Opcodes 0x00–0x3F.
pub open spec fn low_block(c: Cpu, b: BusView, op: u8, t1: u64, t2: u64) -> Outcome {
    let r = c.reg;
    if op == 0x00 {
        (c, b, 1)  // NOP
    } else if op == 0x08 {
        // LD (nn), SP
        let (c1, a) = c.fetch16_spec(b);
        (c1, b.write16(a, r.sp, t1, t2), 5)
    } else if op == 0x10 {
        // STOP — treated as NOP, skipping its operand byte
        (c.fetch8_spec(b).0, b, 1)
    } else if op == 0x18 {
        // JR e
        let (c1, n) = c.fetch8_spec(b);
        (c1.with_pc(jr_target(c1.reg.pc, n)), b, 3)
    } else if (op as int) % 8 == 0 {
        // JR cc, e
        let (c1, n) = c.fetch8_spec(b);
        if cond(r, (op - 0x20) / 8) { (c1.with_pc(jr_target(c1.reg.pc, n)), b, 3) } else { (c1, b, 2) }
    } else if (op as int) % 16 == 1 {
        // LD rp, nn
        let (c1, n) = c.fetch16_spec(b);
        (c1.with_reg(with_rp(c1.reg, (op as int) / 16, n)), b, 3)
    } else if (op as int) % 16 == 9 {
        // ADD HL, rp
        (c.with_reg(add_hl_spec(r, get_rp(r, (op as int) / 16))), b, 2)
    } else if (op as int) % 16 == 2 {
        // LD (BC/DE/HL+/HL-), A
        let rp = if (op as int) / 16 == 3 { 2 } else { (op as int) / 16 };
        let a = get_rp(r, rp);
        let b1 = b.write(a, r.a, t1);
        let r1 = if op == 0x22 { r.with_hl(add16(a, 1)) } else if op == 0x32 { r.with_hl(sub16(a, 1)) } else { r };
        (c.with_reg(r1), b1, 2)
    } else if (op as int) % 16 == 0xA {
        // LD A, (BC/DE/HL+/HL-)
        let rp = if (op as int) / 16 == 3 { 2 } else { (op as int) / 16 };
        let a = get_rp(r, rp);
        let r0 = Registers { a: b.read(a), ..r };
        let r1 = if op == 0x2A { r0.with_hl(add16(a, 1)) } else if op == 0x3A { r0.with_hl(sub16(a, 1)) } else { r0 };
        (c.with_reg(r1), b, 2)
    } else if (op as int) % 16 == 3 {
        // INC rp
        (c.with_reg(with_rp(r, (op as int) / 16, add16(get_rp(r, (op as int) / 16), 1))), b, 2)
    } else if (op as int) % 16 == 0xB {
        // DEC rp
        (c.with_reg(with_rp(r, (op as int) / 16, sub16(get_rp(r, (op as int) / 16), 1))), b, 2)
    } else if (op as int) % 8 == 4 {
        // INC r
        let idx = (op as int) / 8;
        let (r1, res) = inc_spec(r, operand(c, b, idx));
        let (c1, b1) = store(c.with_reg(r1), b, idx, res, t1);
        (c1, b1, if idx == 6 { 3 } else { 1 })
    } else if (op as int) % 8 == 5 {
        // DEC r
        let idx = (op as int) / 8;
        let (r1, res) = dec_spec(r, operand(c, b, idx));
        let (c1, b1) = store(c.with_reg(r1), b, idx, res, t1);
        (c1, b1, if idx == 6 { 3 } else { 1 })
    } else if (op as int) % 8 == 6 {
        // LD r, n
        let idx = (op as int) / 8;
        let (c1, n) = c.fetch8_spec(b);
        let (c2, b1) = store(c1, b, idx, n, t1);
        (c2, b1, if idx == 6 { 3 } else { 2 })
    } else if op == 0x07 {
        // RLCA
        let (res, cy) = shift_result(0, r, r.a);
        (c.with_reg(Registers { a: res, ..r }.with_flags(false, false, false, cy)), b, 1)
    } else if op == 0x0F {
        // RRCA
        let (res, cy) = shift_result(1, r, r.a);
        (c.with_reg(Registers { a: res, ..r }.with_flags(false, false, false, cy)), b, 1)
    } else if op == 0x17 {
        // RLA
        let (res, cy) = shift_result(2, r, r.a);
        (c.with_reg(Registers { a: res, ..r }.with_flags(false, false, false, cy)), b, 1)
    } else if op == 0x1F {
        // RRA
        let (res, cy) = shift_result(3, r, r.a);
        (c.with_reg(Registers { a: res, ..r }.with_flags(false, false, false, cy)), b, 1)
    } else if op == 0x27 {
        (c.with_reg(daa_spec(r)), b, 1)
    } else if op == 0x2F {
        // CPL
        let f = Registers::f_with(Registers::f_with(r.f, 0x40, true), 0x20, true);
        (c.with_reg(Registers { a: !r.a, f, ..r }), b, 1)
    } else if op == 0x37 {
        // SCF
        let f = Registers::f_with(Registers::f_with(Registers::f_with(r.f, 0x40, false), 0x20, false), 0x10, true);
        (c.with_reg(Registers { f, ..r }), b, 1)
    } else {
        // CCF
        let f = Registers::f_with(Registers::f_with(Registers::f_with(r.f, 0x40, false), 0x20, false), 0x10, !r.cy());
        (c.with_reg(Registers { f, ..r }), b, 1)
    }
}

/// Opcodes 0xC0–0xFF other than 0xCB.
pub open spec fn high_block(c: Cpu, b: BusView, op: u8, t1: u64, t2: u64) -> Outcome {
    let r = c.reg;
    if op == 0xC9 {
        // RET
        let (c1, a) = c.pop16_spec(b);
        (c1.with_pc(a), b, 4)
    } else if op == 0xD9 {
        // RETI
        let (c1, a) = c.pop16_spec(b);
        (Cpu { ime: true, ..c1.with_pc(a) }, b, 4)
    } else if op == 0xC0 || op == 0xC8 || op == 0xD0 || op == 0xD8 {
        // RET cc
        if cond(r, (op - 0xC0) / 8) {
            let (c1, a) = c.pop16_spec(b);
            (c1.with_pc(a), b, 5)
        } else {
            (c, b, 2)
        }
    } else if op == 0xE0 {
        // LDH (n), A
        let (c1, n) = c.fetch8_spec(b);
        (c1, b.write((0xFF00 + n) as u16, r.a, t1), 3)
    } else if op == 0xF0 {
        // LDH A, (n)
        let (c1, n) = c.fetch8_spec(b);
        (c1.with_reg(Registers { a: b.read((0xFF00 + n) as u16), ..c1.reg }), b, 3)
    } else if op == 0xE8 {
        // ADD SP, e
        let (c1, n) = c.fetch8_spec(b);
        let (r1, res) = sp_plus(c1.reg, n);
        (c1.with_reg(Registers { sp: res, ..r1 }), b, 4)
    } else if op == 0xF8 {
        // LD HL, SP+e
        let (c1, n) = c.fetch8_spec(b);
        let (r1, res) = sp_plus(c1.reg, n);
        (c1.with_reg(r1.with_hl(res)), b, 3)
    } else if op == 0xC1 || op == 0xD1 || op == 0xE1 {
        // POP BC/DE/HL
        let (c1, v) = c.pop16_spec(b);
        (c1.with_reg(with_rp(c1.reg, (op - 0xC1) / 16, v)), b, 3)
    } else if op == 0xF1 {
        // POP AF
        let (c1, v) = c.pop16_spec(b);
        (c1.with_reg(c1.reg.with_af(v)), b, 3)
    } else if op == 0xE9 {
        // JP HL
        (c.with_pc(r.hl_spec()), b, 1)
    } else if op == 0xF9 {
        // LD SP, HL
        (c.with_sp(r.hl_spec()), b, 2)
    } else if op == 0xC2 || op == 0xCA || op == 0xD2 || op == 0xDA {
        // JP cc, nn
        let (c1, a) = c.fetch16_spec(b);
        if cond(r, (op - 0xC2) / 8) { (c1.with_pc(a), b, 4) } else { (c1, b, 3) }
    } else if op == 0xE2 {
        // LD (C), A
        (c, b.write((0xFF00 + r.c) as u16, r.a, t1), 2)
    } else if op == 0xF2 {
        // LD A, (C)
        (c.with_reg(Registers { a: b.read((0xFF00 + r.c) as u16), ..r }), b, 2)
    } else if op == 0xEA {
        // LD (nn), A
        let (c1, a) = c.fetch16_spec(b);
        (c1, b.write(a, r.a, t1), 4)
    } else if op == 0xFA {
        // LD A, (nn)
        let (c1, a) = c.fetch16_spec(b);
        (c1.with_reg(Registers { a: b.read(a), ..c1.reg }), b, 4)
    } else if op == 0xC3 {
        // JP nn
        let (c1, a) = c.fetch16_spec(b);
        (c1.with_pc(a), b, 4)
    } else if op == 0xF3 {
        // DI
        (Cpu { ime: false, ..c }, b, 1)
    } else if op == 0xFB {
        // EI: IME set after the next instruction
        (Cpu { ime_scheduled: true, ..c }, b, 1)
    } else if op == 0xC4 || op == 0xCC || op == 0xD4 || op == 0xDC {
        // CALL cc, nn
        let (c1, a) = c.fetch16_spec(b);
        if cond(r, (op - 0xC4) / 8) {
            let (c2, b2) = c1.push16_spec(b, c1.reg.pc, t1, t2);
            (c2.with_pc(a), b2, 6)
        } else {
            (c1, b, 3)
        }
    } else if op == 0xCD {
        // CALL nn
        let (c1, a) = c.fetch16_spec(b);
        let (c2, b2) = c1.push16_spec(b, c1.reg.pc, t1, t2);
        (c2.with_pc(a), b2, 6)
    } else if op == 0xC5 || op == 0xD5 || op == 0xE5 {
        // PUSH BC/DE/HL
        let (c1, b1) = c.push16_spec(b, get_rp(r, (op - 0xC5) / 16), t1, t2);
        (c1, b1, 4)
    } else if op == 0xF5 {
        // PUSH AF
        let (c1, b1) = c.push16_spec(b, r.af_spec(), t1, t2);
        (c1, b1, 4)
    } else if (op as int) % 8 == 6 {
        // ALU A, n
        let (c1, n) = c.fetch8_spec(b);
        (c1.with_reg(alu((op - 0xC6) / 8, c1.reg, n)), b, 2)
    } else if (op as int) % 8 == 7 {
        // RST
        let (c1, b1) = c.push16_spec(b, r.pc, t1, t2);
        (c1.with_pc((op - 0xC7) as u16), b1, 4)
    } else {
        // Opcodes the LR35902 does not define: no effect.
        (c, b, 1)
    }
}

/// CB-prefixed instruction whose second byte is `op`.
pub open spec fn cb_block(c: Cpu, b: BusView, op: u8, t: u64) -> Outcome {
    let idx = (op as int) % 8;
    let group = (op as int) / 8;
    let val = operand(c, b, idx);
    if 8 <= group < 16 {
        // BIT b, r — no write-back
        (c.with_reg(bit_spec(c.reg, val, (group - 8) as u8)), b, if idx == 6 { 3 } else { 2 })
    } else {
        let (r1, res) = if group < 8 {
            shift_spec(group, c.reg, val)
        } else if group < 24 {
            (c.reg, val & !(1u8 << (group - 16) as u8))  // RES
        } else {
            (c.reg, val | (1u8 << (group - 24) as u8))  // SET
        };
        let (c1, b1) = store(c.with_reg(r1), b, idx, res, t);
        (c1, b1, if idx == 6 { 4 } else { 2 })
    }
}

/// One instruction fetched at PC and executed; `t1`, `t2` are the clock values
/// read by its bus writes (at most two).
#[verifier::opaque]
pub open spec fn exec_spec(c: Cpu, b: BusView, t1: u64, t2: u64) -> Outcome {
    let (c1, op) = c.fetch8_spec(b);
    if 0x40 <= op <= 0x7F && op != 0x76 {
        ld_block(c1, b, op, t1)
    } else if 0x80 <= op <= 0xBF {
        alu_block(c1, b, op)
    } else if op <= 0x3F {
        low_block(c1, b, op, t1, t2)
    } else if op == 0x76 {
        (Cpu { halted: true, ..c1 }, b, 1)  // HALT
    } else if op == 0xCB {
        let (c2, op2) = c1.fetch8_spec(b);
        cb_block(c2, b, op2, t1)
    } else {
        high_block(c1, b, op, t1, t2)
    }
}

/// One CPU step: deferred EI takes effect; a pending enabled interrupt is
/// serviced when IME is set (push PC, jump to 0x40 + 8·bit, 5 cycles); a halted
/// CPU idles (1 cycle) until an interrupt is pending; otherwise one instruction runs.
pub open spec fn step_spec(c: Cpu, b: BusView, t1: u64, t2: u64) -> Outcome {
    let c0 = if c.ime_scheduled { Cpu { ime: true, ime_scheduled: false, ..c } } else { c };
    let pending = b.interrupts.pending_spec();
    if c0.ime && pending is Some {
        let bit = pending->0;
        let b1 = BusView {
            interrupts: crate::interrupts::Interrupts {
                flags: b.interrupts.flags & !(1u8 << bit),
                ..b.interrupts
            },
            ..b
        };
        let c1 = Cpu { ime: false, halted: false, ..c0 };
        let (c2, b2) = c1.push16_spec(b1, c1.reg.pc, t1, t2);
        (c2.with_pc((0x0040 + bit * 8) as u16), b2, 5)
    } else if c0.halted && pending is None {
        (c0, b, 1)
    } else {
        exec_spec(Cpu { halted: false, ..c0 }, b, t1, t2)
    }
}

/// SBC A, r (opcodes 0x98–0x9F) subtracts the operand and the carry: the new A
/// plus the operand plus the old carry gives back the old A modulo 256, so with
/// the carry set the result is one less than SUB on the same operands. N is set,
/// Z tells whether the new A is zero, H and C report a borrow out of bit 4 and
/// out of the byte.
pub proof fn lemma_sbc(c: Cpu, b: BusView, op: u8)
    requires
        0x98 <= op <= 0x9F,
    ensures
        ({
            let v = operand(c, b, (op as int) % 8);
            let cy: int = if c.reg.cy() { 1 } else { 0 };
            let r = alu_block(c, b, op).0.reg;
            &&& (r.a + v + cy) % 256 == c.reg.a
            &&& r.n()
            &&& r.z() == (r.a == 0)
            &&& r.hc() == (c.reg.a % 16 < v % 16 + cy)
            &&& r.cy() == (c.reg.a < v + cy)
            &&& alu_block(c, b, (op - 8) as u8).0.reg.a == (r.a + cy) % 256
            &&& alu_block(c, b, op).0 == c.with_reg(r)
        }),
{
    let v = operand(c, b, (op as int) % 8);
    let cy: int = if c.reg.cy() { 1 } else { 0 };
    let r0 = c.reg;
    let res = ((r0.a - v - cy + 512) % 256) as u8;
    super::lemma_flags(Registers { a: res, ..r0 }, res == 0, true, r0.a % 16 < v % 16 + cy, r0.a < v + cy);
    let sub = ((r0.a - v + 256) % 256) as u8;
    super::lemma_flags(Registers { a: sub, ..r0 }, sub == 0, true, r0.a % 16 < v % 16, r0.a < v);
    assert((op - 8) as u8 as int % 8 == (op as int) % 8);
}

} // verus!

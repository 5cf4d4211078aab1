/// Complete Sharp LR35902 instruction set.
///
/// Each function returns the number of machine cycles consumed.
use vstd::prelude::*;
use super::Cpu;
use super::isa::{
    add_hl_spec, alu_adc, alu_add, alu_and, alu_block, alu_cp, alu_or, alu_sbc, alu_sub, alu_xor, bit_spec,
    cb_block, daa_spec, dec_spec, exec_spec, high_block, inc_spec, jr_target, ld_block, low_block, reg8, sext8,
    shift_spec, with_reg8,
};
use crate::bits::{lemma_or_byte, lemma_rotate_left, lemma_rotate_right, lemma_shift_left, lemma_u16, lemma_u8};
use crate::bus::Bus;

verus! {

// ============================================================================
// Bus writes that also hand back the clock value each write read
// ============================================================================

fn mem_write(bus: &mut Bus, addr: u16, val: u8) -> (t: Ghost<u64>)
    requires
        old(bus)@.wf(),
    ensures
        final(bus)@ == old(bus)@.write(addr, val, t@),
        final(bus)@.wf(),
{
    let ghost b0 = bus@;
    bus.write(addr, val);
    Ghost(choose|t: u64| bus@ == b0.write(addr, val, t))
}

fn mem_write16(bus: &mut Bus, addr: u16, val: u16) -> (t: Ghost<(u64, u64)>)
    requires
        old(bus)@.wf(),
    ensures
        final(bus)@ == old(bus)@.write16(addr, val, t@.0, t@.1),
        final(bus)@.wf(),
{
    let ghost b0 = bus@;
    bus.write16(addr, val);
    let ghost (t1, t2) = choose|t1: u64, t2: u64| bus@ == b0.write16(addr, val, t1, t2);
    Ghost((t1, t2))
}

fn push(cpu: &mut Cpu, bus: &mut Bus, val: u16) -> (t: Ghost<(u64, u64)>)
    requires
        old(bus)@.wf(),
    ensures
        (*final(cpu), final(bus)@) == old(cpu).push16_spec(old(bus)@, val, t@.0, t@.1),
        final(bus)@.wf(),
{
    let ghost c0 = *cpu;
    let ghost b0 = bus@;
    cpu.push16(bus, val);
    let ghost (t1, t2) = choose|t1: u64, t2: u64| (*cpu, bus@) == c0.push16_spec(b0, val, t1, t2);
    Ghost((t1, t2))
}

/// PC after a relative jump by the signed displacement `n`.
fn jr(pc: u16, n: u8) -> (r: u16)
    ensures
        r == jr_target(pc, n),
{
    if n < 0x80 {
        pc.wrapping_add(n as u16)
    } else {
        pc.wrapping_sub(0x100 - n as u16)
    }
}

/// SP plus the signed byte `n`, with the half-carry and carry of adding `n`
/// to SP's low byte.
fn sp_add(sp: u16, n: u8) -> (r: (u16, bool, bool))
    ensures
        r.0 == ((sp + sext8(n) + 0x10000) % 0x10000) as u16,
        r.1 == (sp % 16 + n % 16 > 15),
        r.2 == (sp % 256 + n > 255),
{
    let result = if n < 0x80 {
        sp.wrapping_add(n as u16)
    } else {
        sp.wrapping_sub(0x100 - n as u16)
    };
    assert((sp & 0xF) == sp % 16 && (sp & 0xFF) == sp % 256 && (n as u16 & 0xF) == n % 16) by {
        lemma_u16(sp);
        lemma_u16(n as u16);
    }
    assert(result == ((sp + sext8(n) + 0x10000) % 0x10000) as u16);
    (result, (sp & 0xF) + (n as u16 & 0xF) > 0xF, (sp & 0xFF) + (n as u16) > 0xFF)
}

// ============================================================================
// Instruction dispatch
// ============================================================================

/// Fetch and execute one instruction.
pub fn execute(cpu: &mut Cpu, bus: &mut Bus) -> (r: u8)
    requires
        old(bus)@.wf(),
    ensures
        exists|t1: u64, t2: u64| (*final(cpu), final(bus)@, r) == exec_spec(*old(cpu), old(bus)@, t1, t2),
        final(bus)@.wf(),
        1 <= r <= 6,
{
    reveal(exec_spec);
    let ghost c0 = *cpu;
    let ghost b0 = bus@;
    let ghost mut t1: u64 = 0;
    let ghost mut t2: u64 = 0;
    let op = cpu.fetch8(bus);
    let cycles = if 0x40 <= op && op <= 0x7F && op != 0x76 {
        // 8-bit loads — LD r, r'
        let (cy, t) = exec_ld_block(cpu, bus, op);
        proof {
            t1 = t@;
        }
        cy
    } else if 0x80 <= op && op <= 0xBF {
        // 8-bit ALU on A
        exec_alu_block(cpu, bus, op)
    } else if op <= 0x3F {
        let (cy, t) = exec_low_block(cpu, bus, op);
        proof {
            t1 = t@.0;
            t2 = t@.1;
        }
        cy
    } else if op == 0x76 {
        // HALT
        cpu.halt();
        1
    } else if op == 0xCB {
        // CB prefix — extended bit operations
        let (cy, t) = execute_cb(cpu, bus);
        proof {
            t1 = t@;
        }
        cy
    } else {
        let (cy, t) = exec_high_block(cpu, bus, op);
        proof {
            t1 = t@.0;
            t2 = t@.1;
        }
        cy
    };
    assert((*cpu, bus@, cycles) == exec_spec(c0, b0, t1, t2));
    cycles
}

/// LD r, r' (0x40–0x7F except HALT).
fn exec_ld_block(cpu: &mut Cpu, bus: &mut Bus, op: u8) -> (r: (u8, Ghost<u64>))
    requires
        old(bus)@.wf(),
        0x40 <= op <= 0x7F,
        op != 0x76,
    ensures
        (*final(cpu), final(bus)@, r.0) == ld_block(*old(cpu), old(bus)@, op, r.1@),
        final(bus)@.wf(),
        1 <= r.0 <= 2,
{
    if op < 0x60 {
        exec_ld_to_bcde(cpu, bus, op)
    } else {
        exec_ld_to_hla(cpu, bus, op)
    }
}

/// LD B/C/D/E, r (0x40–0x5F).
#[verifier::rlimit(100)]
fn exec_ld_to_bcde(cpu: &mut Cpu, bus: &mut Bus, op: u8) -> (r: (u8, Ghost<u64>))
    requires
        old(bus)@.wf(),
        0x40 <= op < 0x60,
        op != 0x76,
    ensures
        (*final(cpu), final(bus)@, r.0) == ld_block(*old(cpu), old(bus)@, op, r.1@),
        final(bus)@.wf(),
        1 <= r.0 <= 2,
{
    let ghost mut t1: u64 = 0;
    let cycles = match op {
        0x40 => 1,  // LD B,B
        0x41 => { cpu.reg.b = cpu.reg.c; 1 },
        0x42 => { cpu.reg.b = cpu.reg.d; 1 },
        0x43 => { cpu.reg.b = cpu.reg.e; 1 },
        0x44 => { cpu.reg.b = cpu.reg.h; 1 },
        0x45 => { cpu.reg.b = cpu.reg.l; 1 },
        0x46 => { cpu.reg.b = bus.read(cpu.reg.hl()); 2 },
        0x47 => { cpu.reg.b = cpu.reg.a; 1 },
        0x48 => { cpu.reg.c = cpu.reg.b; 1 },
        0x49 => 1,  // LD C,C
        0x4A => { cpu.reg.c = cpu.reg.d; 1 },
        0x4B => { cpu.reg.c = cpu.reg.e; 1 },
        0x4C => { cpu.reg.c = cpu.reg.h; 1 },
        0x4D => { cpu.reg.c = cpu.reg.l; 1 },
        0x4E => { cpu.reg.c = bus.read(cpu.reg.hl()); 2 },
        0x4F => { cpu.reg.c = cpu.reg.a; 1 },
        0x50 => { cpu.reg.d = cpu.reg.b; 1 },
        0x51 => { cpu.reg.d = cpu.reg.c; 1 },
        0x52 => 1,  // LD D,D
        0x53 => { cpu.reg.d = cpu.reg.e; 1 },
        0x54 => { cpu.reg.d = cpu.reg.h; 1 },
        0x55 => { cpu.reg.d = cpu.reg.l; 1 },
        0x56 => { cpu.reg.d = bus.read(cpu.reg.hl()); 2 },
        0x57 => { cpu.reg.d = cpu.reg.a; 1 },
        0x58 => { cpu.reg.e = cpu.reg.b; 1 },
        0x59 => { cpu.reg.e = cpu.reg.c; 1 },
        0x5A => { cpu.reg.e = cpu.reg.d; 1 },
        0x5B => 1,  // LD E,E
        0x5C => { cpu.reg.e = cpu.reg.h; 1 },
        0x5D => { cpu.reg.e = cpu.reg.l; 1 },
        0x5E => { cpu.reg.e = bus.read(cpu.reg.hl()); 2 },
        0x5F => { cpu.reg.e = cpu.reg.a; 1 },
        _ => 1,
    };
    (cycles, Ghost(t1))
}

/// LD H/L/(HL)/A, r (0x60–0x7F except HALT).
#[verifier::rlimit(100)]
fn exec_ld_to_hla(cpu: &mut Cpu, bus: &mut Bus, op: u8) -> (r: (u8, Ghost<u64>))
    requires
        old(bus)@.wf(),
        0x60 <= op <= 0x7F,
        op != 0x76,
    ensures
        (*final(cpu), final(bus)@, r.0) == ld_block(*old(cpu), old(bus)@, op, r.1@),
        final(bus)@.wf(),
        1 <= r.0 <= 2,
{
    let ghost mut t1: u64 = 0;
    let cycles = match op {
        0x60 => { cpu.reg.h = cpu.reg.b; 1 },
        0x61 => { cpu.reg.h = cpu.reg.c; 1 },
        0x62 => { cpu.reg.h = cpu.reg.d; 1 },
        0x63 => { cpu.reg.h = cpu.reg.e; 1 },
        0x64 => 1,  // LD H,H
        0x65 => { cpu.reg.h = cpu.reg.l; 1 },
        0x66 => { cpu.reg.h = bus.read(cpu.reg.hl()); 2 },
        0x67 => { cpu.reg.h = cpu.reg.a; 1 },
        0x68 => { cpu.reg.l = cpu.reg.b; 1 },
        0x69 => { cpu.reg.l = cpu.reg.c; 1 },
        0x6A => { cpu.reg.l = cpu.reg.d; 1 },
        0x6B => { cpu.reg.l = cpu.reg.e; 1 },
        0x6C => { cpu.reg.l = cpu.reg.h; 1 },
        0x6D => 1,  // LD L,L
        0x6E => { cpu.reg.l = bus.read(cpu.reg.hl()); 2 },
        0x6F => { cpu.reg.l = cpu.reg.a; 1 },
        0x70 => { let t = mem_write(bus, cpu.reg.hl(), cpu.reg.b); proof { t1 = t@; } 2 },
        0x71 => { let t = mem_write(bus, cpu.reg.hl(), cpu.reg.c); proof { t1 = t@; } 2 },
        0x72 => { let t = mem_write(bus, cpu.reg.hl(), cpu.reg.d); proof { t1 = t@; } 2 },
        0x73 => { let t = mem_write(bus, cpu.reg.hl(), cpu.reg.e); proof { t1 = t@; } 2 },
        0x74 => { let t = mem_write(bus, cpu.reg.hl(), cpu.reg.h); proof { t1 = t@; } 2 },
        0x75 => { let t = mem_write(bus, cpu.reg.hl(), cpu.reg.l); proof { t1 = t@; } 2 },
        0x77 => { let t = mem_write(bus, cpu.reg.hl(), cpu.reg.a); proof { t1 = t@; } 2 },
        0x78 => { cpu.reg.a = cpu.reg.b; 1 },
        0x79 => { cpu.reg.a = cpu.reg.c; 1 },
        0x7A => { cpu.reg.a = cpu.reg.d; 1 },
        0x7B => { cpu.reg.a = cpu.reg.e; 1 },
        0x7C => { cpu.reg.a = cpu.reg.h; 1 },
        0x7D => { cpu.reg.a = cpu.reg.l; 1 },
        0x7E => { cpu.reg.a = bus.read(cpu.reg.hl()); 2 },
        0x7F => 1,  // LD A,A
        _ => 1,
    };
    (cycles, Ghost(t1))
}

/// ALU A, r (0x80–0xBF).
fn exec_alu_block(cpu: &mut Cpu, bus: &mut Bus, op: u8) -> (r: u8)
    requires
        old(bus)@.wf(),
        0x80 <= op <= 0xBF,
    ensures
        (*final(cpu), final(bus)@, r) == alu_block(*old(cpu), old(bus)@, op),
        final(bus)@ == old(bus)@,
        1 <= r <= 2,
{
    if op < 0xA0 {
        exec_alu_arith(cpu, bus, op)
    } else {
        exec_alu_logic(cpu, bus, op)
    }
}

/// ADD, ADC, SUB, SBC A, r (0x80–0x9F).
#[verifier::rlimit(100)]
fn exec_alu_arith(cpu: &mut Cpu, bus: &mut Bus, op: u8) -> (r: u8)
    requires
        old(bus)@.wf(),
        0x80 <= op < 0xA0,
    ensures
        (*final(cpu), final(bus)@, r) == alu_block(*old(cpu), old(bus)@, op),
        final(bus)@ == old(bus)@,
        1 <= r <= 2,
{
    match op {
        0x80 => { let v = cpu.reg.b; op_add(cpu, v); 1 },
        0x81 => { let v = cpu.reg.c; op_add(cpu, v); 1 },
        0x82 => { let v = cpu.reg.d; op_add(cpu, v); 1 },
        0x83 => { let v = cpu.reg.e; op_add(cpu, v); 1 },
        0x84 => { let v = cpu.reg.h; op_add(cpu, v); 1 },
        0x85 => { let v = cpu.reg.l; op_add(cpu, v); 1 },
        0x86 => { let v = bus.read(cpu.reg.hl()); op_add(cpu, v); 2 },
        0x87 => { let v = cpu.reg.a; op_add(cpu, v); 1 },
        0x88 => { let v = cpu.reg.b; op_adc(cpu, v); 1 },
        0x89 => { let v = cpu.reg.c; op_adc(cpu, v); 1 },
        0x8A => { let v = cpu.reg.d; op_adc(cpu, v); 1 },
        0x8B => { let v = cpu.reg.e; op_adc(cpu, v); 1 },
        0x8C => { let v = cpu.reg.h; op_adc(cpu, v); 1 },
        0x8D => { let v = cpu.reg.l; op_adc(cpu, v); 1 },
        0x8E => { let v = bus.read(cpu.reg.hl()); op_adc(cpu, v); 2 },
        0x8F => { let v = cpu.reg.a; op_adc(cpu, v); 1 },
        0x90 => { let v = cpu.reg.b; op_sub(cpu, v); 1 },
        0x91 => { let v = cpu.reg.c; op_sub(cpu, v); 1 },
        0x92 => { let v = cpu.reg.d; op_sub(cpu, v); 1 },
        0x93 => { let v = cpu.reg.e; op_sub(cpu, v); 1 },
        0x94 => { let v = cpu.reg.h; op_sub(cpu, v); 1 },
        0x95 => { let v = cpu.reg.l; op_sub(cpu, v); 1 },
        0x96 => { let v = bus.read(cpu.reg.hl()); op_sub(cpu, v); 2 },
        0x97 => { let v = cpu.reg.a; op_sub(cpu, v); 1 },
        0x98 => { let v = cpu.reg.b; op_sbc(cpu, v); 1 },
        0x99 => { let v = cpu.reg.c; op_sbc(cpu, v); 1 },
        0x9A => { let v = cpu.reg.d; op_sbc(cpu, v); 1 },
        0x9B => { let v = cpu.reg.e; op_sbc(cpu, v); 1 },
        0x9C => { let v = cpu.reg.h; op_sbc(cpu, v); 1 },
        0x9D => { let v = cpu.reg.l; op_sbc(cpu, v); 1 },
        0x9E => { let v = bus.read(cpu.reg.hl()); op_sbc(cpu, v); 2 },
        0x9F => { let v = cpu.reg.a; op_sbc(cpu, v); 1 },
        _ => 1,
    }
}

/// AND, XOR, OR, CP A, r (0xA0–0xBF).
#[verifier::rlimit(100)]
fn exec_alu_logic(cpu: &mut Cpu, bus: &mut Bus, op: u8) -> (r: u8)
    requires
        old(bus)@.wf(),
        0xA0 <= op <= 0xBF,
    ensures
        (*final(cpu), final(bus)@, r) == alu_block(*old(cpu), old(bus)@, op),
        final(bus)@ == old(bus)@,
        1 <= r <= 2,
{
    match op {
        0xA0 => { let v = cpu.reg.b; op_and(cpu, v); 1 },
        0xA1 => { let v = cpu.reg.c; op_and(cpu, v); 1 },
        0xA2 => { let v = cpu.reg.d; op_and(cpu, v); 1 },
        0xA3 => { let v = cpu.reg.e; op_and(cpu, v); 1 },
        0xA4 => { let v = cpu.reg.h; op_and(cpu, v); 1 },
        0xA5 => { let v = cpu.reg.l; op_and(cpu, v); 1 },
        0xA6 => { let v = bus.read(cpu.reg.hl()); op_and(cpu, v); 2 },
        0xA7 => { let v = cpu.reg.a; op_and(cpu, v); 1 },
        0xA8 => { let v = cpu.reg.b; op_xor(cpu, v); 1 },
        0xA9 => { let v = cpu.reg.c; op_xor(cpu, v); 1 },
        0xAA => { let v = cpu.reg.d; op_xor(cpu, v); 1 },
        0xAB => { let v = cpu.reg.e; op_xor(cpu, v); 1 },
        0xAC => { let v = cpu.reg.h; op_xor(cpu, v); 1 },
        0xAD => { let v = cpu.reg.l; op_xor(cpu, v); 1 },
        0xAE => { let v = bus.read(cpu.reg.hl()); op_xor(cpu, v); 2 },
        0xAF => { let v = cpu.reg.a; op_xor(cpu, v); 1 },
        0xB0 => { let v = cpu.reg.b; op_or(cpu, v); 1 },
        0xB1 => { let v = cpu.reg.c; op_or(cpu, v); 1 },
        0xB2 => { let v = cpu.reg.d; op_or(cpu, v); 1 },
        0xB3 => { let v = cpu.reg.e; op_or(cpu, v); 1 },
        0xB4 => { let v = cpu.reg.h; op_or(cpu, v); 1 },
        0xB5 => { let v = cpu.reg.l; op_or(cpu, v); 1 },
        0xB6 => { let v = bus.read(cpu.reg.hl()); op_or(cpu, v); 2 },
        0xB7 => { let v = cpu.reg.a; op_or(cpu, v); 1 },
        0xB8 => { let v = cpu.reg.b; op_cp(cpu, v); 1 },
        0xB9 => { let v = cpu.reg.c; op_cp(cpu, v); 1 },
        0xBA => { let v = cpu.reg.d; op_cp(cpu, v); 1 },
        0xBB => { let v = cpu.reg.e; op_cp(cpu, v); 1 },
        0xBC => { let v = cpu.reg.h; op_cp(cpu, v); 1 },
        0xBD => { let v = cpu.reg.l; op_cp(cpu, v); 1 },
        0xBE => { let v = bus.read(cpu.reg.hl()); op_cp(cpu, v); 2 },
        0xBF => { let v = cpu.reg.a; op_cp(cpu, v); 1 },
        _ => 1,
    }
}

/// Opcodes 0x00–0x3F.
#[verifier::rlimit(100)]
fn exec_low_block(cpu: &mut Cpu, bus: &mut Bus, op: u8) -> (r: (u8, Ghost<(u64, u64)>))
    requires
        old(bus)@.wf(),
        op <= 0x3F,
    ensures
        (*final(cpu), final(bus)@, r.0) == low_block(*old(cpu), old(bus)@, op, r.1@.0, r.1@.1),
        final(bus)@.wf(),
        1 <= r.0 <= 5,
{
    let ghost mut t1: u64 = 0;
    let ghost mut t2: u64 = 0;
    let cycles = match op {
        // ====================================================================
        // Miscellaneous / Control
        // ====================================================================
        0x00 => 1,  // NOP
        0x10 => {
            // STOP — treated as NOP
            cpu.fetch8(bus);
            1
        },
        0x27 => {
            op_daa(cpu);
            1
        },
        0x2F => {
            // CPL
            cpu.reg.a = !cpu.reg.a;
            cpu.reg.set_flag_n(true);
            cpu.reg.set_flag_h(true);
            1
        },
        0x37 => {
            // SCF
            cpu.reg.set_flag_n(false);
            cpu.reg.set_flag_h(false);
            cpu.reg.set_flag_c(true);
            1
        },
        0x3F => {
            // CCF
            let c = cpu.reg.flag_c();
            cpu.reg.set_flag_n(false);
            cpu.reg.set_flag_h(false);
            cpu.reg.set_flag_c(!c);
            1
        },
        // ====================================================================
        // 8-bit loads — LD r, n (immediate)
        // ====================================================================
        0x06 => { let n = cpu.fetch8(bus); cpu.reg.b = n; 2 },
        0x0E => { let n = cpu.fetch8(bus); cpu.reg.c = n; 2 },
        0x16 => { let n = cpu.fetch8(bus); cpu.reg.d = n; 2 },
        0x1E => { let n = cpu.fetch8(bus); cpu.reg.e = n; 2 },
        0x26 => { let n = cpu.fetch8(bus); cpu.reg.h = n; 2 },
        0x2E => { let n = cpu.fetch8(bus); cpu.reg.l = n; 2 },
        0x36 => {
            let n = cpu.fetch8(bus);
            let t = mem_write(bus, cpu.reg.hl(), n);
            proof {
                t1 = t@;
            }
            3
        },
        0x3E => { let n = cpu.fetch8(bus); cpu.reg.a = n; 2 },
        // ====================================================================
        // 8-bit loads — indirect
        // ====================================================================
        0x02 => {
            let t = mem_write(bus, cpu.reg.bc(), cpu.reg.a);
            proof {
                t1 = t@;
            }
            2
        },
        0x12 => {
            let t = mem_write(bus, cpu.reg.de(), cpu.reg.a);
            proof {
                t1 = t@;
            }
            2
        },
        0x0A => { cpu.reg.a = bus.read(cpu.reg.bc()); 2 },
        0x1A => { cpu.reg.a = bus.read(cpu.reg.de()); 2 },
        0x22 => {
            // LD (HL+), A
            let t = mem_write(bus, cpu.reg.hl(), cpu.reg.a);
            proof {
                t1 = t@;
            }
            let hl = cpu.reg.hl().wrapping_add(1);
            cpu.reg.set_hl(hl);
            2
        },
        0x2A => {
            // LD A, (HL+)
            cpu.reg.a = bus.read(cpu.reg.hl());
            let hl = cpu.reg.hl().wrapping_add(1);
            cpu.reg.set_hl(hl);
            2
        },
        0x32 => {
            // LD (HL-), A
            let t = mem_write(bus, cpu.reg.hl(), cpu.reg.a);
            proof {
                t1 = t@;
            }
            let hl = cpu.reg.hl().wrapping_sub(1);
            cpu.reg.set_hl(hl);
            2
        },
        0x3A => {
            // LD A, (HL-)
            cpu.reg.a = bus.read(cpu.reg.hl());
            let hl = cpu.reg.hl().wrapping_sub(1);
            cpu.reg.set_hl(hl);
            2
        },
        // ====================================================================
        // 16-bit loads
        // ====================================================================
        0x01 => { let n = cpu.fetch16(bus); cpu.reg.set_bc(n); 3 },
        0x11 => { let n = cpu.fetch16(bus); cpu.reg.set_de(n); 3 },
        0x21 => { let n = cpu.fetch16(bus); cpu.reg.set_hl(n); 3 },
        0x31 => { let n = cpu.fetch16(bus); cpu.reg.sp = n; 3 },
        0x08 => {
            // LD (nn), SP
            let a = cpu.fetch16(bus);
            let t = mem_write16(bus, a, cpu.reg.sp);
            proof {
                t1 = t@.0;
                t2 = t@.1;
            }
            5
        },
        // INC r
        0x04 => { let v = cpu.reg.b; let r = op_inc(cpu, v); cpu.reg.b = r; 1 },
        0x0C => { let v = cpu.reg.c; let r = op_inc(cpu, v); cpu.reg.c = r; 1 },
        0x14 => { let v = cpu.reg.d; let r = op_inc(cpu, v); cpu.reg.d = r; 1 },
        0x1C => { let v = cpu.reg.e; let r = op_inc(cpu, v); cpu.reg.e = r; 1 },
        0x24 => { let v = cpu.reg.h; let r = op_inc(cpu, v); cpu.reg.h = r; 1 },
        0x2C => { let v = cpu.reg.l; let r = op_inc(cpu, v); cpu.reg.l = r; 1 },
        0x34 => {
            let v = bus.read(cpu.reg.hl());
            let r = op_inc(cpu, v);
            let t = mem_write(bus, cpu.reg.hl(), r);
            proof {
                t1 = t@;
            }
            3
        },
        0x3C => { let v = cpu.reg.a; let r = op_inc(cpu, v); cpu.reg.a = r; 1 },
        // DEC r
        0x05 => { let v = cpu.reg.b; let r = op_dec(cpu, v); cpu.reg.b = r; 1 },
        0x0D => { let v = cpu.reg.c; let r = op_dec(cpu, v); cpu.reg.c = r; 1 },
        0x15 => { let v = cpu.reg.d; let r = op_dec(cpu, v); cpu.reg.d = r; 1 },
        0x1D => { let v = cpu.reg.e; let r = op_dec(cpu, v); cpu.reg.e = r; 1 },
        0x25 => { let v = cpu.reg.h; let r = op_dec(cpu, v); cpu.reg.h = r; 1 },
        0x2D => { let v = cpu.reg.l; let r = op_dec(cpu, v); cpu.reg.l = r; 1 },
        0x35 => {
            let v = bus.read(cpu.reg.hl());
            let r = op_dec(cpu, v);
            let t = mem_write(bus, cpu.reg.hl(), r);
            proof {
                t1 = t@;
            }
            3
        },
        0x3D => { let v = cpu.reg.a; let r = op_dec(cpu, v); cpu.reg.a = r; 1 },
        // ====================================================================
        // 16-bit ALU
        // ====================================================================
        0x03 => { let v = cpu.reg.bc().wrapping_add(1); cpu.reg.set_bc(v); 2 },
        0x13 => { let v = cpu.reg.de().wrapping_add(1); cpu.reg.set_de(v); 2 },
        0x23 => { let v = cpu.reg.hl().wrapping_add(1); cpu.reg.set_hl(v); 2 },
        0x33 => { cpu.reg.sp = cpu.reg.sp.wrapping_add(1); 2 },
        0x0B => { let v = cpu.reg.bc().wrapping_sub(1); cpu.reg.set_bc(v); 2 },
        0x1B => { let v = cpu.reg.de().wrapping_sub(1); cpu.reg.set_de(v); 2 },
        0x2B => { let v = cpu.reg.hl().wrapping_sub(1); cpu.reg.set_hl(v); 2 },
        0x3B => { cpu.reg.sp = cpu.reg.sp.wrapping_sub(1); 2 },
        // ADD HL, rr
        0x09 => { let v = cpu.reg.bc(); op_add_hl(cpu, v); 2 },
        0x19 => { let v = cpu.reg.de(); op_add_hl(cpu, v); 2 },
        0x29 => { let v = cpu.reg.hl(); op_add_hl(cpu, v); 2 },
        0x39 => { let v = cpu.reg.sp; op_add_hl(cpu, v); 2 },
        // ====================================================================
        // Rotates (A register, fast versions)
        // ====================================================================
        0x07 => {
            // RLCA
            let a = cpu.reg.a;
            let c = a >> 7;
            proof {
                lemma_u8(a);
                lemma_rotate_left(a, c);
            }
            cpu.reg.a = (a << 1) | c;
            cpu.reg.set_flags(false, false, false, c != 0);
            1
        },
        0x17 => {
            // RLA
            let a = cpu.reg.a;
            let old_c: u8 = if cpu.reg.flag_c() { 1 } else { 0 };
            let c = a >> 7;
            proof {
                lemma_u8(a);
                lemma_rotate_left(a, old_c);
            }
            cpu.reg.a = (a << 1) | old_c;
            cpu.reg.set_flags(false, false, false, c != 0);
            1
        },
        0x0F => {
            // RRCA
            let a = cpu.reg.a;
            let c = a & 1;
            proof {
                lemma_u8(a);
                lemma_rotate_right(a, c);
            }
            cpu.reg.a = (a >> 1) | (c << 7);
            cpu.reg.set_flags(false, false, false, c != 0);
            1
        },
        0x1F => {
            // RRA
            let a = cpu.reg.a;
            let old_c: u8 = if cpu.reg.flag_c() { 1 } else { 0 };
            let c = a & 1;
            proof {
                lemma_u8(a);
                lemma_rotate_right(a, old_c);
            }
            cpu.reg.a = (a >> 1) | (old_c << 7);
            cpu.reg.set_flags(false, false, false, c != 0);
            1
        },
        // ====================================================================
        // Relative jumps
        // ====================================================================
        0x18 => {
            // JR e
            let n = cpu.fetch8(bus);
            cpu.reg.pc = jr(cpu.reg.pc, n);
            3
        },
        0x20 => {
            // JR NZ, e
            let n = cpu.fetch8(bus);
            if !cpu.reg.flag_z() { cpu.reg.pc = jr(cpu.reg.pc, n); 3 } else { 2 }
        },
        0x28 => {
            // JR Z, e
            let n = cpu.fetch8(bus);
            if cpu.reg.flag_z() { cpu.reg.pc = jr(cpu.reg.pc, n); 3 } else { 2 }
        },
        0x30 => {
            // JR NC, e
            let n = cpu.fetch8(bus);
            if !cpu.reg.flag_c() { cpu.reg.pc = jr(cpu.reg.pc, n); 3 } else { 2 }
        },
        _ => {
            // JR C, e (0x38)
            let n = cpu.fetch8(bus);
            if cpu.reg.flag_c() { cpu.reg.pc = jr(cpu.reg.pc, n); 3 } else { 2 }
        },
    };
    (cycles, Ghost((t1, t2)))
}

/// Opcodes 0xC0–0xFF other than the CB prefix.
#[verifier::rlimit(100)]
fn exec_high_block(cpu: &mut Cpu, bus: &mut Bus, op: u8) -> (r: (u8, Ghost<(u64, u64)>))
    requires
        old(bus)@.wf(),
        op >= 0xC0,
        op != 0xCB,
    ensures
        (*final(cpu), final(bus)@, r.0) == high_block(*old(cpu), old(bus)@, op, r.1@.0, r.1@.1),
        final(bus)@.wf(),
        1 <= r.0 <= 6,
{
    let ghost mut t1: u64 = 0;
    let ghost mut t2: u64 = 0;
    let cycles = match op {
        0xF3 => {
            // DI
            cpu.ime = false;
            1
        },
        0xFB => {
            // EI
            cpu.schedule_ei();
            1
        },
        // ====================================================================
        // Loads through the I/O page and absolute addresses
        // ====================================================================
        0xE0 => {
            // LDH (n), A — store A into 0xFF00+n
            let n = cpu.fetch8(bus) as u16;
            proof {
                lemma_or_byte(0xFF00, n);
            }
            let t = mem_write(bus, 0xFF00 | n, cpu.reg.a);
            proof {
                t1 = t@;
            }
            3
        },
        0xF0 => {
            // LDH A, (n)
            let n = cpu.fetch8(bus) as u16;
            proof {
                lemma_or_byte(0xFF00, n);
            }
            cpu.reg.a = bus.read(0xFF00 | n);
            3
        },
        0xE2 => {
            proof {
                lemma_or_byte(0xFF00, cpu.reg.c as u16);
            }
            let t = mem_write(bus, 0xFF00 | cpu.reg.c as u16, cpu.reg.a);
            proof {
                t1 = t@;
            }
            2
        },
        0xF2 => {
            proof {
                lemma_or_byte(0xFF00, cpu.reg.c as u16);
            }
            cpu.reg.a = bus.read(0xFF00 | cpu.reg.c as u16);
            2
        },
        0xEA => {
            let a = cpu.fetch16(bus);
            let t = mem_write(bus, a, cpu.reg.a);
            proof {
                t1 = t@;
            }
            4
        },
        0xFA => {
            let a = cpu.fetch16(bus);
            cpu.reg.a = bus.read(a);
            4
        },
        // ====================================================================
        // 16-bit loads, stack pointer arithmetic, PUSH / POP
        // ====================================================================
        0xF9 => {
            // LD SP, HL
            cpu.reg.sp = cpu.reg.hl();
            2
        },
        0xF8 => {
            // LD HL, SP+e
            let n = cpu.fetch8(bus);
            let (result, h, c) = sp_add(cpu.reg.sp, n);
            cpu.reg.set_hl(result);
            cpu.reg.set_flags(false, false, h, c);
            3
        },
        0xE8 => {
            // ADD SP, e
            let n = cpu.fetch8(bus);
            let (result, h, c) = sp_add(cpu.reg.sp, n);
            cpu.reg.sp = result;
            cpu.reg.set_flags(false, false, h, c);
            4
        },
        0xC5 => {
            let v = cpu.reg.bc();
            let t = push(cpu, bus, v);
            proof {
                t1 = t@.0;
                t2 = t@.1;
            }
            4
        },
        0xD5 => {
            let v = cpu.reg.de();
            let t = push(cpu, bus, v);
            proof {
                t1 = t@.0;
                t2 = t@.1;
            }
            4
        },
        0xE5 => {
            let v = cpu.reg.hl();
            let t = push(cpu, bus, v);
            proof {
                t1 = t@.0;
                t2 = t@.1;
            }
            4
        },
        0xF5 => {
            let v = cpu.reg.af();
            let t = push(cpu, bus, v);
            proof {
                t1 = t@.0;
                t2 = t@.1;
            }
            4
        },
        0xC1 => { let v = cpu.pop16(bus); cpu.reg.set_bc(v); 3 },
        0xD1 => { let v = cpu.pop16(bus); cpu.reg.set_de(v); 3 },
        0xE1 => { let v = cpu.pop16(bus); cpu.reg.set_hl(v); 3 },
        0xF1 => { let v = cpu.pop16(bus); cpu.reg.set_af(v); 3 },
        // ====================================================================
        // 8-bit ALU with an immediate operand
        // ====================================================================
        0xC6 => { let n = cpu.fetch8(bus); op_add(cpu, n); 2 },
        0xCE => { let n = cpu.fetch8(bus); op_adc(cpu, n); 2 },
        0xD6 => { let n = cpu.fetch8(bus); op_sub(cpu, n); 2 },
        0xDE => { let n = cpu.fetch8(bus); op_sbc(cpu, n); 2 },
        0xE6 => { let n = cpu.fetch8(bus); op_and(cpu, n); 2 },
        0xEE => { let n = cpu.fetch8(bus); op_xor(cpu, n); 2 },
        0xF6 => { let n = cpu.fetch8(bus); op_or(cpu, n); 2 },
        0xFE => { let n = cpu.fetch8(bus); op_cp(cpu, n); 2 },
        // ====================================================================
        // Jumps
        // ====================================================================
        0xC3 => {
            // JP nn
            let a = cpu.fetch16(bus);
            cpu.reg.pc = a;
            4
        },
        0xE9 => {
            // JP HL
            cpu.reg.pc = cpu.reg.hl();
            1
        },
        0xC2 => {
            // JP NZ, nn
            let a = cpu.fetch16(bus);
            if !cpu.reg.flag_z() { cpu.reg.pc = a; 4 } else { 3 }
        },
        0xCA => {
            // JP Z, nn
            let a = cpu.fetch16(bus);
            if cpu.reg.flag_z() { cpu.reg.pc = a; 4 } else { 3 }
        },
        0xD2 => {
            // JP NC, nn
            let a = cpu.fetch16(bus);
            if !cpu.reg.flag_c() { cpu.reg.pc = a; 4 } else { 3 }
        },
        0xDA => {
            // JP C, nn
            let a = cpu.fetch16(bus);
            if cpu.reg.flag_c() { cpu.reg.pc = a; 4 } else { 3 }
        },
        // ====================================================================
        // Calls / Returns
        // ====================================================================
        0xCD => {
            // CALL nn
            let a = cpu.fetch16(bus);
            let pc = cpu.reg.pc;
            let t = push(cpu, bus, pc);
            proof {
                t1 = t@.0;
                t2 = t@.1;
            }
            cpu.reg.pc = a;
            6
        },
        0xC4 | 0xCC | 0xD4 | 0xDC => {
            // CALL cc, nn
            let a = cpu.fetch16(bus);
            let taken = if op == 0xC4 {
                !cpu.reg.flag_z()
            } else if op == 0xCC {
                cpu.reg.flag_z()
            } else if op == 0xD4 {
                !cpu.reg.flag_c()
            } else {
                cpu.reg.flag_c()
            };
            if taken {
                let pc = cpu.reg.pc;
                let t = push(cpu, bus, pc);
                proof {
                    t1 = t@.0;
                    t2 = t@.1;
                }
                cpu.reg.pc = a;
                6
            } else {
                3
            }
        },
        0xC9 => {
            // RET
            let a = cpu.pop16(bus);
            cpu.reg.pc = a;
            4
        },
        0xD9 => {
            // RETI
            let a = cpu.pop16(bus);
            cpu.reg.pc = a;
            cpu.ime = true;
            4
        },
        0xC0 => {
            // RET NZ
            if !cpu.reg.flag_z() { let a = cpu.pop16(bus); cpu.reg.pc = a; 5 } else { 2 }
        },
        0xC8 => {
            // RET Z
            if cpu.reg.flag_z() { let a = cpu.pop16(bus); cpu.reg.pc = a; 5 } else { 2 }
        },
        0xD0 => {
            // RET NC
            if !cpu.reg.flag_c() { let a = cpu.pop16(bus); cpu.reg.pc = a; 5 } else { 2 }
        },
        0xD8 => {
            // RET C
            if cpu.reg.flag_c() { let a = cpu.pop16(bus); cpu.reg.pc = a; 5 } else { 2 }
        },
        // RST
        0xC7 | 0xCF | 0xD7 | 0xDF | 0xE7 | 0xEF | 0xF7 | 0xFF => {
            let pc = cpu.reg.pc;
            let t = push(cpu, bus, pc);
            proof {
                t1 = t@.0;
                t2 = t@.1;
            }
            cpu.reg.pc = (op - 0xC7) as u16;
            4
        },
        // Opcodes the LR35902 does not define.
        _ => 1,
    };
    (cycles, Ghost((t1, t2)))
}

// ============================================================================
// CB-prefixed instructions (bit manipulation, rotates, shifts)
// ============================================================================

fn execute_cb(cpu: &mut Cpu, bus: &mut Bus) -> (r: (u8, Ghost<u64>))
    requires
        old(bus)@.wf(),
    ensures
        (*final(cpu), final(bus)@, r.0) == cb_block(
            old(cpu).fetch8_spec(old(bus)@).0,
            old(bus)@,
            old(cpu).fetch8_spec(old(bus)@).1,
            r.1@,
        ),
        final(bus)@.wf(),
        2 <= r.0 <= 4,
{
    let op = cpu.fetch8(bus);
    let ghost c1 = *cpu;
    let ghost mut t: u64 = 0;
    proof {
        lemma_u8(op);
    }

    // Decode operand index: 0=B 1=C 2=D 3=E 4=H 5=L 6=(HL) 7=A
    let reg_idx = op & 0x07;
    let is_hl = reg_idx == 6;

    let val = if is_hl {
        bus.read(cpu.reg.hl())
    } else {
        get_reg(cpu, reg_idx)
    };

    let group = op >> 3;
    let result = if group == 0x00 {
        cb_rlc(cpu, val)  // RLC
    } else if group == 0x01 {
        cb_rrc(cpu, val)  // RRC
    } else if group == 0x02 {
        cb_rl(cpu, val)  // RL
    } else if group == 0x03 {
        cb_rr(cpu, val)  // RR
    } else if group == 0x04 {
        cb_sla(cpu, val)  // SLA
    } else if group == 0x05 {
        cb_sra(cpu, val)  // SRA
    } else if group == 0x06 {
        cb_swap(cpu, val)  // SWAP
    } else if group == 0x07 {
        cb_srl(cpu, val)  // SRL
    } else if group < 0x10 {
        // BIT b, r — test bit
        let bit = group - 0x08;
        cb_bit(cpu, val, bit);
        val  // BIT doesn't write back
    } else if group < 0x18 {
        // RES b, r
        let bit = group - 0x10;
        val & !(1u8 << bit)
    } else {
        // SET b, r
        let bit = group - 0x18;
        val | (1u8 << bit)
    };

    // BIT instructions don't write back
    let is_bit = (op >> 6) == 0x01;
    if !is_bit {
        if is_hl {
            let tw = mem_write(bus, cpu.reg.hl(), result);
            proof {
                t = tw@;
            }
        } else {
            set_reg(cpu, reg_idx, result);
        }
    }
    // BIT (HL) is 3, others with (HL) are 4
    let cycles = if is_hl && is_bit {
        3
    } else if is_hl {
        4
    } else {
        2
    };
    assert((*cpu, bus@, cycles) == cb_block(c1, old(bus)@, op, t));
    (cycles, Ghost(t))
}

// ============================================================================
// Register index helpers (0=B 1=C 2=D 3=E 4=H 5=L 6=(HL) 7=A)
// ============================================================================

fn get_reg(cpu: &Cpu, idx: u8) -> (r: u8)
    ensures
        r == reg8(cpu.reg, idx as int),
{
    match idx {
        0 => cpu.reg.b,
        1 => cpu.reg.c,
        2 => cpu.reg.d,
        3 => cpu.reg.e,
        4 => cpu.reg.h,
        5 => cpu.reg.l,
        7 => cpu.reg.a,
        _ => 0,
    }
}

fn set_reg(cpu: &mut Cpu, idx: u8, val: u8)
    ensures
        *final(cpu) == old(cpu).with_reg(with_reg8(old(cpu).reg, idx as int, val)),
{
    match idx {
        0 => cpu.reg.b = val,
        1 => cpu.reg.c = val,
        2 => cpu.reg.d = val,
        3 => cpu.reg.e = val,
        4 => cpu.reg.h = val,
        5 => cpu.reg.l = val,
        7 => cpu.reg.a = val,
        _ => {},
    }
}

// ============================================================================
// ALU helpers
// ============================================================================

fn op_add(cpu: &mut Cpu, val: u8)
    ensures
        *final(cpu) == old(cpu).with_reg(alu_add(old(cpu).reg, val)),
{
    let ghost r0 = cpu.reg;
    let a = cpu.reg.a;
    let result = a.wrapping_add(val);
    assert((a & 0xF) == a % 16 && (val & 0xF) == val % 16) by {
        lemma_u8(a);
        lemma_u8(val);
    }
    assert(result == ((a + val) % 256) as u8);
    cpu.reg.set_flags(result == 0, false, (a & 0xF) + (val & 0xF) > 0xF, (a as u16) + (val as u16) > 0xFF);
    cpu.reg.a = result;
    assert(cpu.reg == alu_add(r0, val));
}

fn op_adc(cpu: &mut Cpu, val: u8)
    ensures
        *final(cpu) == old(cpu).with_reg(alu_adc(old(cpu).reg, val)),
{
    let ghost r0 = cpu.reg;
    let a = cpu.reg.a;
    let c: u8 = if cpu.reg.flag_c() { 1 } else { 0 };
    let result = a.wrapping_add(val).wrapping_add(c);
    assert((a & 0xF) == a % 16 && (val & 0xF) == val % 16) by {
        lemma_u8(a);
        lemma_u8(val);
    }
    assert(result == ((a + val + c) % 256) as u8);
    cpu.reg.set_flags(
        result == 0,
        false,
        (a & 0xF) + (val & 0xF) + c > 0xF,
        (a as u16) + (val as u16) + (c as u16) > 0xFF,
    );
    cpu.reg.a = result;
}

fn op_sub(cpu: &mut Cpu, val: u8)
    ensures
        *final(cpu) == old(cpu).with_reg(alu_sub(old(cpu).reg, val)),
{
    let a = cpu.reg.a;
    let result = a.wrapping_sub(val);
    assert((a & 0xF) == a % 16 && (val & 0xF) == val % 16) by {
        lemma_u8(a);
        lemma_u8(val);
    }
    assert(result == ((a - val + 256) % 256) as u8);
    cpu.reg.set_flags(result == 0, true, (a & 0xF) < (val & 0xF), (a as u16) < (val as u16));
    cpu.reg.a = result;
}

fn op_sbc(cpu: &mut Cpu, val: u8)
    ensures
        *final(cpu) == old(cpu).with_reg(alu_sbc(old(cpu).reg, val)),
{
    let a = cpu.reg.a;
    let c: u8 = if cpu.reg.flag_c() { 1 } else { 0 };
    let result = a.wrapping_sub(val).wrapping_sub(c);
    assert((a & 0xF) == a % 16 && (val & 0xF) == val % 16) by {
        lemma_u8(a);
        lemma_u8(val);
    }
    assert(result == ((a - val - c + 512) % 256) as u8);
    cpu.reg.set_flags(
        result == 0,
        true,
        (a & 0xF) < (val & 0xF) + c,
        (a as u16) < (val as u16) + (c as u16),
    );
    cpu.reg.a = result;
}

fn op_and(cpu: &mut Cpu, val: u8)
    ensures
        *final(cpu) == old(cpu).with_reg(alu_and(old(cpu).reg, val)),
{
    cpu.reg.a &= val;
    cpu.reg.set_flags(cpu.reg.a == 0, false, true, false);
}

fn op_or(cpu: &mut Cpu, val: u8)
    ensures
        *final(cpu) == old(cpu).with_reg(alu_or(old(cpu).reg, val)),
{
    cpu.reg.a |= val;
    cpu.reg.set_flags(cpu.reg.a == 0, false, false, false);
}

fn op_xor(cpu: &mut Cpu, val: u8)
    ensures
        *final(cpu) == old(cpu).with_reg(alu_xor(old(cpu).reg, val)),
{
    cpu.reg.a ^= val;
    cpu.reg.set_flags(cpu.reg.a == 0, false, false, false);
}

fn op_cp(cpu: &mut Cpu, val: u8)
    ensures
        *final(cpu) == old(cpu).with_reg(alu_cp(old(cpu).reg, val)),
{
    let a = cpu.reg.a;
    assert((a & 0xF) == a % 16 && (val & 0xF) == val % 16) by {
        lemma_u8(a);
        lemma_u8(val);
    }
    cpu.reg.set_flags(a == val, true, (a & 0xF) < (val & 0xF), (a as u16) < (val as u16));
}

fn op_inc(cpu: &mut Cpu, val: u8) -> (r: u8)
    ensures
        *final(cpu) == old(cpu).with_reg(inc_spec(old(cpu).reg, val).0),
        r == inc_spec(old(cpu).reg, val).1,
{
    let result = val.wrapping_add(1);
    proof {
        lemma_u8(val);
    }
    let h = (val & 0xF) == 0xF;
    cpu.reg.set_flag_z(result == 0);
    cpu.reg.set_flag_n(false);
    cpu.reg.set_flag_h(h);
    result
}

fn op_dec(cpu: &mut Cpu, val: u8) -> (r: u8)
    ensures
        *final(cpu) == old(cpu).with_reg(dec_spec(old(cpu).reg, val).0),
        r == dec_spec(old(cpu).reg, val).1,
{
    let result = val.wrapping_sub(1);
    proof {
        lemma_u8(val);
    }
    let h = (val & 0xF) == 0;
    cpu.reg.set_flag_z(result == 0);
    cpu.reg.set_flag_n(true);
    cpu.reg.set_flag_h(h);
    result
}

fn op_add_hl(cpu: &mut Cpu, val: u16)
    ensures
        *final(cpu) == old(cpu).with_reg(add_hl_spec(old(cpu).reg, val)),
{
    let hl = cpu.reg.hl();
    let result = hl.wrapping_add(val);
    assert((hl & 0xFFF) == hl % 4096 && (val & 0xFFF) == val % 4096) by {
        lemma_u16(hl);
        lemma_u16(val);
    }
    assert(result == ((hl + val) % 0x10000) as u16);
    cpu.reg.set_flag_n(false);
    cpu.reg.set_flag_h((hl & 0xFFF) + (val & 0xFFF) > 0xFFF);
    cpu.reg.set_flag_c((hl as u32) + (val as u32) > 0xFFFF);
    cpu.reg.set_hl(result);
}

fn op_daa(cpu: &mut Cpu)
    ensures
        *final(cpu) == old(cpu).with_reg(daa_spec(old(cpu).reg)),
{
    let ghost r0 = cpu.reg;
    let a = cpu.reg.a;
    assert((a & 0x0F) == a % 16) by {
        lemma_u8(a);
    }
    let result: u8 = if !cpu.reg.flag_n() {
        // After addition: correct lower and upper BCD digits
        let mut v = a as u16;
        if cpu.reg.flag_h() || (a & 0x0F) > 0x09 {
            v += 0x06;
        }
        let carry = cpu.reg.flag_c() || v > 0x9F;
        if carry {
            v += 0x60;
        }
        // In the addition path carry is explicitly set or cleared
        cpu.reg.set_flag_c(carry);
        assert(v as u8 == (v % 256) as u8) by {
            lemma_u16(v);
        }
        v as u8
    } else {
        // After subtraction: carry is preserved as-is, only adjust value
        let mut v = a;
        if cpu.reg.flag_h() {
            v = v.wrapping_sub(0x06);
        }
        let ghost a1: int = if r0.hc() { a - 6 } else { a as int };
        assert(v == (a1 % 256) as u8);
        if cpu.reg.flag_c() {
            v = v.wrapping_sub(0x60);
        }
        assert(v == ((if r0.cy() { a1 - 0x60 } else { a1 }) % 256) as u8);
        v
    };
    cpu.reg.a = result;
    cpu.reg.set_flag_h(false);
    cpu.reg.set_flag_z(cpu.reg.a == 0);
    assert(cpu.reg == daa_spec(r0));
}

// ============================================================================
// CB rotate/shift helpers
// ============================================================================

fn cb_rlc(cpu: &mut Cpu, val: u8) -> (r: u8)
    ensures
        *final(cpu) == old(cpu).with_reg(shift_spec(0, old(cpu).reg, val).0),
        r == shift_spec(0, old(cpu).reg, val).1,
{
    let c = val >> 7;
    proof {
        lemma_u8(val);
        lemma_rotate_left(val, c);
    }
    let result = (val << 1) | c;
    cpu.reg.set_flags(result == 0, false, false, c != 0);
    result
}

fn cb_rrc(cpu: &mut Cpu, val: u8) -> (r: u8)
    ensures
        *final(cpu) == old(cpu).with_reg(shift_spec(1, old(cpu).reg, val).0),
        r == shift_spec(1, old(cpu).reg, val).1,
{
    let c = val & 1;
    proof {
        lemma_u8(val);
        lemma_rotate_right(val, c);
    }
    let result = (val >> 1) | (c << 7);
    cpu.reg.set_flags(result == 0, false, false, c != 0);
    result
}

fn cb_rl(cpu: &mut Cpu, val: u8) -> (r: u8)
    ensures
        *final(cpu) == old(cpu).with_reg(shift_spec(2, old(cpu).reg, val).0),
        r == shift_spec(2, old(cpu).reg, val).1,
{
    let old_c: u8 = if cpu.reg.flag_c() { 1 } else { 0 };
    let c = val >> 7;
    proof {
        lemma_u8(val);
        lemma_rotate_left(val, old_c);
    }
    let result = (val << 1) | old_c;
    cpu.reg.set_flags(result == 0, false, false, c != 0);
    result
}

fn cb_rr(cpu: &mut Cpu, val: u8) -> (r: u8)
    ensures
        *final(cpu) == old(cpu).with_reg(shift_spec(3, old(cpu).reg, val).0),
        r == shift_spec(3, old(cpu).reg, val).1,
{
    let old_c: u8 = if cpu.reg.flag_c() { 1 } else { 0 };
    let c = val & 1;
    proof {
        lemma_u8(val);
        lemma_rotate_right(val, old_c);
    }
    let result = (val >> 1) | (old_c << 7);
    cpu.reg.set_flags(result == 0, false, false, c != 0);
    result
}

fn cb_sla(cpu: &mut Cpu, val: u8) -> (r: u8)
    ensures
        *final(cpu) == old(cpu).with_reg(shift_spec(4, old(cpu).reg, val).0),
        r == shift_spec(4, old(cpu).reg, val).1,
{
    let c = val >> 7;
    proof {
        lemma_u8(val);
        lemma_shift_left(val);
    }
    let result = val << 1;
    cpu.reg.set_flags(result == 0, false, false, c != 0);
    result
}

fn cb_sra(cpu: &mut Cpu, val: u8) -> (r: u8)
    ensures
        *final(cpu) == old(cpu).with_reg(shift_spec(5, old(cpu).reg, val).0),
        r == shift_spec(5, old(cpu).reg, val).1,
{
    let c = val & 1;
    proof {
        lemma_u8(val);
    }
    let result = (val >> 1) | (val & 0x80);  // arithmetic: bit 7 stays
    cpu.reg.set_flags(result == 0, false, false, c != 0);
    result
}

fn cb_srl(cpu: &mut Cpu, val: u8) -> (r: u8)
    ensures
        *final(cpu) == old(cpu).with_reg(shift_spec(7, old(cpu).reg, val).0),
        r == shift_spec(7, old(cpu).reg, val).1,
{
    let c = val & 1;
    proof {
        lemma_u8(val);
    }
    let result = val >> 1;
    cpu.reg.set_flags(result == 0, false, false, c != 0);
    result
}

fn cb_swap(cpu: &mut Cpu, val: u8) -> (r: u8)
    ensures
        *final(cpu) == old(cpu).with_reg(shift_spec(6, old(cpu).reg, val).0),
        r == shift_spec(6, old(cpu).reg, val).1,
{
    proof {
        lemma_u8(val);
    }
    let result = (val >> 4) | (val << 4);
    cpu.reg.set_flags(result == 0, false, false, false);
    result
}

fn cb_bit(cpu: &mut Cpu, val: u8, bit: u8)
    requires
        bit < 8,
    ensures
        *final(cpu) == old(cpu).with_reg(bit_spec(old(cpu).reg, val, bit)),
{
    let z = (val >> bit) & 1 == 0;
    cpu.reg.set_flag_z(z);
    cpu.reg.set_flag_n(false);
    cpu.reg.set_flag_h(true);
}

} // verus!

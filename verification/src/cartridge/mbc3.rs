use vstd::prelude::*;
use super::{Cartridge, byte_or_ff, get_or_ff, overlay, overlay_into, zeroed};

use crate::bits::lemma_u8;
verus! {

/// The latched high day register: bit 8 of the day count beside the carry and halt bits.
proof fn lemma_day_bits(days: u64, c: u8, hb: u8)
    by (bit_vector)
    ensures
        days < 512 && (c == 0 || c == 0x80) && (hb == 0 || hb == 0x40) ==> ((days >> 8u64) as u8 & 0x01) | c | hb
            == (days / 256 + c + hb) as u8,
{
}

/// A day count with its low byte or its bit 8 replaced.
proof fn lemma_day_counter(d: u64, v: u64)
    by (bit_vector)
    requires
        v < 256,
    ensures
        (d & 0x100) | v == d / 256 % 2 * 256 + v,
        (d & 0xFF) | ((v & 0x01) << 8u64) == d % 256 + v % 2 * 256,
        d & 0xFF == d % 256,
{
}

// ---------------------------------------------------------------------------
// Real-Time Clock
// ---------------------------------------------------------------------------

#[verifier::external_type_specification]
#[verifier::external_body]
pub struct ExSystemTime(std::time::SystemTime);

#[verifier::external_type_specification]
#[verifier::external_body]
pub struct ExSystemTimeError(std::time::SystemTimeError);

/// `SystemTime::now`: the system clock's current reading. Nothing is promised
/// about it: it is the wall clock.
#[verifier::external_body]
fn system_now() -> std::time::SystemTime {
    std::time::SystemTime::now()
}

/// `SystemTime::duration_since(UNIX_EPOCH)`: how long after the Unix epoch `t`
/// lies, or an error when it lies before. Nothing is promised about which.
#[verifier::external_body]
fn since_unix_epoch(t: &std::time::SystemTime) -> Result<core::time::Duration, std::time::SystemTimeError> {
    t.duration_since(std::time::UNIX_EPOCH)
}

/// `Duration::as_secs`: the whole seconds of `d`. Nothing is stated about the
/// value, which the library only stores and compares.
#[verifier::external_body]
fn whole_secs(d: &core::time::Duration) -> u64 {
    d.as_secs()
}

/// Seconds since the Unix epoch by the system clock, 0 if the clock reads
/// earlier than the epoch.
fn unix_now() -> u64 {
    let t = system_now();
    match since_unix_epoch(&t) {
        Ok(d) => whole_secs(&d),
        Err(_) => 0,
    }
}

/// `a - b`, or 0 when `b > a`.
pub open spec fn sat_sub(a: u64, b: u64) -> u64 {
    if a >= b {
        (a - b) as u64
    } else {
        0
    }
}

/// The five RTC registers as games read them.
pub struct RtcRegs {
    pub s: u8,
    pub m: u8,
    pub h: u8,
    pub dl: u8,
    pub dh: u8,
}

/// MBC3 Real-Time Clock.
///
/// Time is derived from a Unix-epoch `origin`: elapsed = now − origin when
/// running, or elapsed = halt_ts − origin when halted. Writing a register
/// adjusts `origin` so the new value takes effect immediately without
/// disturbing the other components.
///
/// Registers (selected via ram_bank 0x08–0x0C):
///   0x08 RTC S  — seconds   (0–59)
///   0x09 RTC M  — minutes   (0–59)
///   0x0A RTC H  — hours     (0–23)
///   0x0B RTC DL — day counter low byte
///   0x0C RTC DH — bit 0: day counter high bit | bit 6: halt | bit 7: carry
///
/// Games never read live registers; they read a latched snapshot captured by
/// writing 0x00 then 0x01 to 0x6000–0x7FFF.
pub struct Rtc {
    /// Unix timestamp such that elapsed == now − origin when running.
    pub origin: u64,
    /// Clock is halted when true; elapsed is frozen at halt_ts − origin.
    pub halted: bool,
    /// Unix timestamp at the moment HALT was asserted.
    pub halt_ts: u64,
    /// Day-counter carry: set when the 9-bit counter wraps at 512; cleared by
    /// writing 0 to DH bit 7.
    pub carry: bool,
    /// Latched snapshot — the values games actually read.
    pub latched: RtcRegs,
    /// True after 0x00 is written to 0x6000–0x7FFF (first step of latch sequence).
    pub latch_pending: bool,
}

impl Rtc {
    pub open spec fn initial(origin: u64) -> Rtc {
        Rtc {
            origin,
            halted: false,
            halt_ts: 0,
            carry: false,
            latched: RtcRegs { s: 0, m: 0, h: 0, dl: 0, dh: 0 },
            latch_pending: false,
        }
    }

    /// Seconds elapsed since the origin at wall-clock time `now`, frozen while halted.
    pub open spec fn elapsed(self, now: u64) -> u64 {
        if self.halted {
            sat_sub(self.halt_ts, self.origin)
        } else {
            sat_sub(now, self.origin)
        }
    }

    pub open spec fn latch_spec(self, now: u64) -> Rtc {
        let e = self.elapsed(now);
        let days = e / 86400;
        let carry = self.carry || days >= 512;
        let d = days % 512;
        Rtc {
            carry,
            latched: RtcRegs {
                s: (e % 60) as u8,
                m: (e / 60 % 60) as u8,
                h: (e / 3600 % 24) as u8,
                dl: (d % 256) as u8,
                dh: (d / 256 + (if carry { 0x80int } else { 0 }) + (if self.halted { 0x40int } else { 0 })) as u8,
            },
            ..self
        }
    }

    pub open spec fn read_spec(self, reg: u8) -> u8 {
        if reg == 0x08 {
            self.latched.s
        } else if reg == 0x09 {
            self.latched.m
        } else if reg == 0x0A {
            self.latched.h
        } else if reg == 0x0B {
            self.latched.dl
        } else {
            self.latched.dh
        }
    }

    /// Origin such that the elapsed time becomes `new_elapsed`.
    pub open spec fn origin_for(self, new_elapsed: u64, now: u64) -> u64 {
        if self.halted {
            sat_sub(self.halt_ts, new_elapsed)
        } else {
            sat_sub(now, new_elapsed)
        }
    }

    /// Elapsed time with the component of size `unit` (within `next`) replaced by `new_val`.
    pub open spec fn component_elapsed(e: u64, new_val: u64, unit: u64, next: u64) -> u64 {
        ((e / next * next + new_val * unit + e % unit) % 0x1_0000_0000_0000_0000) as u64
    }

    pub open spec fn write_spec(self, reg: u8, val: u8, now: u64) -> Rtc {
        let e = self.elapsed(now);
        if reg == 0x08 {
            Rtc { origin: self.origin_for(Self::component_elapsed(e, val as u64 % 60, 1, 60), now), ..self }
        } else if reg == 0x09 {
            Rtc { origin: self.origin_for(Self::component_elapsed(e, val as u64 % 60, 60, 3600), now), ..self }
        } else if reg == 0x0A {
            Rtc {
                origin: self.origin_for(Self::component_elapsed(e, val as u64 % 24, 3600, 86400), now),
                ..self
            }
        } else if reg == 0x0B {
            let days = (e / 86400) / 256 % 2 * 256 + val;
            Rtc { origin: self.origin_for((days * 86400 + e % 86400) as u64, now), ..self }
        } else if reg == 0x0C {
            let days = (e / 86400) % 256 + val % 2 * 256;
            let origin = self.origin_for((days * 86400 + e % 86400) as u64, now);
            let carry = if val / 128 == 0 { false } else { self.carry };
            let now_halted = val / 64 % 2 == 1;
            if !self.halted && now_halted {
                Rtc { origin, carry, halted: true, halt_ts: now, ..self }
            } else if self.halted && !now_halted {
                Rtc { origin: sat_sub(now, sat_sub(self.halt_ts, origin)), carry, halted: false, ..self }
            } else {
                Rtc { origin, carry, ..self }
            }
        } else {
            self
        }
    }

    fn new() -> (r: Self)
        ensures
            r == Rtc::initial(r.origin),
    {
        Self {
            origin: unix_now(),
            halted: false,
            halt_ts: 0,
            carry: false,
            latched: RtcRegs { s: 0, m: 0, h: 0, dl: 0, dh: 0 },
            latch_pending: false,
        }
    }

    /// Seconds elapsed since the RTC origin, frozen while halted.
    fn elapsed_secs(&self, now: u64) -> (r: u64)
        ensures
            r == self.elapsed(now),
    {
        if self.halted {
            self.halt_ts.saturating_sub(self.origin)
        } else {
            now.saturating_sub(self.origin)
        }
    }

    /// Capture the live values at wall-clock time `now` into the latch registers.
    pub fn latch(&mut self, now: u64)
        ensures
            *final(self) == old(self).latch_spec(now),
    {
        let e = self.elapsed_secs(now);
        let s = (e % 60) as u8;
        let m = ((e / 60) % 60) as u8;
        let h = ((e / 3600) % 24) as u8;
        let days = e / 86400;
        if days >= 512 {
            self.carry = true;
        }
        let days = days % 512;
        let dl = (days & 0xFF) as u8;
        let dh = ((days >> 8) as u8 & 0x01) | if self.carry { 0x80 } else { 0 } | if self.halted {
            0x40
        } else {
            0
        };
        proof {
            let c: u8 = if self.carry { 0x80 } else { 0 };
            let hb: u8 = if self.halted { 0x40 } else { 0 };
            lemma_day_bits(days, c, hb);
            lemma_day_counter(days, 0);
        }
        self.latched = RtcRegs { s, m, h, dl, dh };
    }

    /// Read latched register. `reg` is 0x08–0x0C.
    fn read(&self, reg: u8) -> (r: u8)
        requires
            0x08 <= reg <= 0x0C,
        ensures
            r == self.read_spec(reg),
    {
        match reg {
            0x08 => self.latched.s,
            0x09 => self.latched.m,
            0x0A => self.latched.h,
            0x0B => self.latched.dl,
            _ => self.latched.dh,
        }
    }

    /// Write to a live RTC register (`reg` is 0x08–0x0C) at wall-clock time `now`.
    pub fn write(&mut self, reg: u8, val: u8, now: u64)
        ensures
            *final(self) == old(self).write_spec(reg, val, now),
    {
        match reg {
            // Seconds: keep everything ≥ 1 minute, replace seconds.
            0x08 => self.set_component(val as u64 % 60, 1, 60, now),
            // Minutes: keep everything ≥ 1 hour, replace minutes, keep seconds.
            0x09 => self.set_component(val as u64 % 60, 60, 3600, now),
            // Hours: keep days, replace hours, keep minutes+seconds.
            0x0A => self.set_component(val as u64 % 24, 3600, 86400, now),
            // DL: replace the low 8 bits of the day counter.
            0x0B => self.set_day_lo(val, now),
            // DH: high day bit, halt flag, carry clear.
            0x0C => self.write_dh(val, now),
            _ => {},
        }
    }

    /// Update one time component without disturbing larger or smaller units.
    ///
    /// `new_val`       — the value to set (already range-clamped by the caller)
    /// `unit_secs`     — seconds per one unit (1 for seconds, 60 for minutes, …)
    /// `next_unit_secs`— seconds per one step of the next larger unit
    fn set_component(&mut self, new_val: u64, unit_secs: u64, next_unit_secs: u64, now: u64)
        requires
            0 < unit_secs <= next_unit_secs <= 86400,
            new_val < 60,
        ensures
            *final(self) == (Rtc {
                origin: old(self).origin_for(
                    Rtc::component_elapsed(old(self).elapsed(now), new_val, unit_secs, next_unit_secs),
                    now,
                ),
                ..*old(self)
            }),
    {
        let e = self.elapsed_secs(now);
        proof {
            assert((e / next_unit_secs) * next_unit_secs <= e) by (nonlinear_arith)
                requires next_unit_secs > 0;
        }
        let whole = e / next_unit_secs * next_unit_secs;
        proof {
            assert(new_val * unit_secs <= 60 * 86400) by (nonlinear_arith)
                requires new_val < 60, unit_secs <= 86400;
        }
        let new_e = whole.wrapping_add(new_val * unit_secs).wrapping_add(e % unit_secs);
        self.adjust_origin(new_e, now);
    }

    fn set_day_lo(&mut self, dl: u8, now: u64)
        ensures
            *final(self) == old(self).write_spec(0x0B, dl, now),
    {
        let e = self.elapsed_secs(now);
        let days_hi = (e / 86400) & 0x100;  // preserve the high bit
        let new_days = days_hi | dl as u64;
        proof {
            let d = e / 86400;
            lemma_day_counter(d, dl as u64);
        }
        let new_e = new_days * 86400 + (e % 86400);
        self.adjust_origin(new_e, now);
    }

    fn write_dh(&mut self, val: u8, now: u64)
        ensures
            *final(self) == old(self).write_spec(0x0C, val, now),
    {
        // --- Update day-hi bit ---
        let e = self.elapsed_secs(now);
        let new_days = (e / 86400 & 0xFF) | ((val as u64 & 0x01) << 8);
        proof {
            let d = e / 86400;
            lemma_day_counter(d, val as u64);
            lemma_u8(val);
        }
        let new_e = new_days * 86400 + (e % 86400);
        // adjust_origin reads self.halted, which is still the old value here — intentional.
        self.adjust_origin(new_e, now);

        // --- Carry: writing 0 to bit 7 clears it ---
        if val & 0x80 == 0 {
            self.carry = false;
        }
        // --- Halt transitions ---

        let was_halted = self.halted;
        let now_halted = val & 0x40 != 0;
        if !was_halted && now_halted {
            // Halting: record the freeze point.
            self.halt_ts = now;
        } else if was_halted && !now_halted {
            // Resuming: shift origin forward so elapsed continues from the frozen point.
            let frozen = self.halt_ts.saturating_sub(self.origin);
            self.origin = now.saturating_sub(frozen);
        }
        self.halted = now_halted;
    }

    /// Set origin so that the elapsed time at `now` becomes `new_elapsed`.
    /// Uses halt_ts as "now" when halted to keep the freeze consistent.
    fn adjust_origin(&mut self, new_elapsed: u64, now: u64)
        ensures
            *final(self) == (Rtc { origin: old(self).origin_for(new_elapsed, now), ..*old(self) }),
    {
        if self.halted {
            self.origin = self.halt_ts.saturating_sub(new_elapsed);
        } else {
            self.origin = now.saturating_sub(new_elapsed);
        }
    }
}

// ---------------------------------------------------------------------------
// Little-endian encoding of the clock state in save files
// ---------------------------------------------------------------------------

/// The `n` low-order bytes of `x`, least significant first.
pub open spec fn le_bytes(x: nat, n: nat) -> Seq<u8>
    decreases n,
{
    if n == 0 {
        Seq::empty()
    } else {
        seq![(x % 256) as u8] + le_bytes(x / 256, (n - 1) as nat)
    }
}

/// The number whose little-endian bytes are `s`.
pub open spec fn le_value(s: Seq<u8>) -> nat
    decreases s.len(),
{
    if s.len() == 0 {
        0
    } else {
        s[0] as nat + 256 * le_value(s.drop_first())
    }
}

fn u64_to_le(x: u64) -> (r: Vec<u8>)
    ensures
        r@ == le_bytes(x as nat, 8),
{
    let mut v: Vec<u8> = Vec::new();
    let mut y = x;
    let mut i: u64 = 0;
    while i < 8
        invariant
            i <= 8,
            v@ + le_bytes(y as nat, (8 - i) as nat) == le_bytes(x as nat, 8),
        decreases 8 - i,
    {
        proof {
            assert(le_bytes(y as nat, (8 - i) as nat) == seq![(y % 256) as u8] + le_bytes(
                (y / 256) as nat,
                (8 - i - 1) as nat,
            ));
            assert(v@.push((y % 256) as u8) + le_bytes((y / 256) as nat, (8 - i - 1) as nat) =~= v@ + (
            seq![(y % 256) as u8] + le_bytes((y / 256) as nat, (8 - i - 1) as nat)));
        }
        v.push((y % 256) as u8);
        y = y / 256;
        i = i + 1;
    }
    assert(v@ + le_bytes(y as nat, 0) =~= v@);
    v
}

/// 256 to the power `n`.
pub open spec fn pow256(n: nat) -> nat
    decreases n,
{
    if n == 0 {
        1
    } else {
        256 * pow256((n - 1) as nat)
    }
}

proof fn lemma_le_value_bound(s: Seq<u8>)
    ensures
        le_value(s) < pow256(s.len()),
    decreases s.len(),
{
    if s.len() > 0 {
        lemma_le_value_bound(s.drop_first());
        let p = pow256((s.len() - 1) as nat);
        let v = le_value(s.drop_first());
        assert(s[0] as nat + 256 * v < 256 * p) by (nonlinear_arith)
            requires
                v < p,
                s[0] < 256,
        ;
    }
}

/// Reading back the `n` little-endian bytes of a number that fits in them gives the number.
proof fn lemma_le_roundtrip(x: nat, n: nat)
    requires
        x < pow256(n),
    ensures
        le_bytes(x, n).len() == n,
        le_value(le_bytes(x, n)) == x,
    decreases n,
{
    if n > 0 {
        let p = pow256((n - 1) as nat);
        assert(x / 256 < p) by (nonlinear_arith)
            requires
                x < 256 * p,
        ;
        lemma_le_roundtrip(x / 256, (n - 1) as nat);
        assert(le_bytes(x, n).drop_first() =~= le_bytes(x / 256, (n - 1) as nat));
    }
}

proof fn lemma_pow256_mono(a: nat, b: nat)
    requires
        a <= b,
    ensures
        pow256(a) <= pow256(b),
    decreases b,
{
    if a < b {
        lemma_pow256_mono(a, (b - 1) as nat);
    }
}

fn u64_from_le(s: &[u8], start: usize) -> (r: u64)
    requires
        start + 8 <= s.len(),
    ensures
        r == le_value(s@.subrange(start as int, start + 8)),
{
    proof {
        reveal_with_fuel(pow256, 9);
        assert(pow256(8) == 0x1_0000_0000_0000_0000);
    }
    let mut acc: u64 = 0;
    let mut k: usize = 8;
    while k > 0
        invariant
            k <= 8,
            start + 8 <= s.len(),
            pow256(8) == 0x1_0000_0000_0000_0000,
            acc as nat == le_value(s@.subrange(start + k, start + 8)),
        decreases k,
    {
        let ghost tail = s@.subrange(start + k, start + 8);
        let ghost ext = s@.subrange(start + k - 1, start + 8);
        proof {
            assert(ext.drop_first() =~= tail);
            lemma_le_value_bound(ext);
            lemma_pow256_mono(ext.len(), 8);
            assert(le_value(ext) == ext[0] as nat + 256 * le_value(tail));
            assert(256 * (acc as nat) + s@[start + k - 1] < 0x1_0000_0000_0000_0000);
        }
        acc = acc * 256 + s[start + k - 1] as u64;
        k = k - 1;
    }
    assert(s@.subrange(start + 0, start + 8) =~= s@.subrange(start as int, start + 8));
    acc
}

// ---------------------------------------------------------------------------
// MBC3
// ---------------------------------------------------------------------------

/// MBC3 — up to 2MB ROM / 32KB RAM, optional Real-Time Clock.
/// Used by Pokemon Red/Blue (English), Pokemon Gold/Silver, etc.
pub struct Mbc3 {
    pub rom: Vec<u8>,
    pub ram: Vec<u8>,
    pub ram_rtc_enabled: bool,
    pub rom_bank: u8,
    /// 0x00–0x03 = RAM bank; 0x08–0x0C = RTC register select
    pub ram_bank: u8,
    pub rtc: Rtc,
}

pub struct Mbc3View {
    pub rom: Seq<u8>,
    pub ram: Seq<u8>,
    pub ram_rtc_enabled: bool,
    pub rom_bank: u8,
    pub ram_bank: u8,
    pub rtc: Rtc,
}

impl View for Mbc3 {
    type V = Mbc3View;

    open spec fn view(&self) -> Mbc3View {
        Mbc3View {
            rom: self.rom@,
            ram: self.ram@,
            ram_rtc_enabled: self.ram_rtc_enabled,
            rom_bank: self.rom_bank,
            ram_bank: self.ram_bank,
            rtc: self.rtc,
        }
    }
}

/// External RAM size in bytes selected by header byte 0x0149 for MBC3.
pub open spec fn mbc3_ram_bytes(code: u8) -> nat {
    if code == 0x02 {
        8 * 1024
    } else if code == 0x03 {
        32 * 1024
    } else {
        0
    }
}

impl Mbc3View {
    pub open spec fn initial(rom: Seq<u8>, ram_size_code: u8, origin: u64) -> Mbc3View {
        Mbc3View {
            rom,
            ram: Seq::new(mbc3_ram_bytes(ram_size_code), |i: int| 0u8),
            ram_rtc_enabled: false,
            rom_bank: 1,
            ram_bank: 0,
            rtc: Rtc::initial(origin),
        }
    }

    pub open spec fn read(self, addr: u16) -> u8 {
        if addr <= 0x3FFF {
            byte_or_ff(self.rom, addr as int)
        } else if addr <= 0x7FFF {
            byte_or_ff(self.rom, self.rom_bank as int * 0x4000 + (addr - 0x4000))
        } else {
            0xFF
        }
    }

    /// State after a control write; `now` is the wall-clock time a latch reads.
    pub open spec fn write(self, addr: u16, val: u8, now: u64) -> Mbc3View {
        if addr <= 0x1FFF {
            Mbc3View { ram_rtc_enabled: val % 16 == 0x0A, ..self }
        } else if addr <= 0x3FFF {
            Mbc3View { rom_bank: if val % 128 == 0 { 1 } else { val % 128 }, ..self }
        } else if addr <= 0x5FFF {
            Mbc3View { ram_bank: val, ..self }
        } else if addr <= 0x7FFF {
            let rtc = if val == 0x00 {
                Rtc { latch_pending: true, ..self.rtc }
            } else if val == 0x01 && self.rtc.latch_pending {
                Rtc { latch_pending: false, ..self.rtc.latch_spec(now) }
            } else {
                Rtc { latch_pending: false, ..self.rtc }
            };
            Mbc3View { rtc, ..self }
        } else {
            self
        }
    }

    pub open spec fn ram_offset(self, addr: u16) -> int {
        self.ram_bank as int * 0x2000 + (addr - 0xA000)
    }

    pub open spec fn ram_read(self, addr: u16) -> u8 {
        if !self.ram_rtc_enabled {
            0xFF
        } else if self.ram_bank <= 0x03 {
            byte_or_ff(self.ram, self.ram_offset(addr))
        } else if 0x08 <= self.ram_bank <= 0x0C {
            self.rtc.read_spec(self.ram_bank)
        } else {
            0xFF
        }
    }

    pub open spec fn ram_write(self, addr: u16, val: u8, now: u64) -> Mbc3View {
        if !self.ram_rtc_enabled {
            self
        } else if self.ram_bank <= 0x03 {
            let off = self.ram_offset(addr);
            if 0 <= off < self.ram.len() {
                Mbc3View { ram: self.ram.update(off, val), ..self }
            } else {
                self
            }
        } else if 0x08 <= self.ram_bank <= 0x0C {
            Mbc3View { rtc: self.rtc.write_spec(self.ram_bank, val, now), ..self }
        } else {
            self
        }
    }

    /// RAM followed by the clock state: origin (8 bytes LE), halted, halt_ts (8 bytes LE), carry.
    pub open spec fn save_image(self) -> Seq<u8> {
        self.ram + le_bytes(self.rtc.origin as nat, 8) + seq![if self.rtc.halted { 1u8 } else { 0u8 }]
            + le_bytes(self.rtc.halt_ts as nat, 8) + seq![if self.rtc.carry { 1u8 } else { 0u8 }]
    }

    /// State after restoring a save image: RAM from its front and, when at least
    /// 18 bytes follow the RAM, the clock state from them.
    pub open spec fn load_image(self, data: Seq<u8>) -> Mbc3View {
        let ram = overlay(self.ram, data);
        let rest = data.subrange(if self.ram.len() < data.len() { self.ram.len() as int } else { data.len() as int }, data.len() as int);
        if rest.len() >= 18 {
            Mbc3View {
                ram,
                rtc: Rtc {
                    origin: le_value(rest.subrange(0, 8)) as u64,
                    halted: rest[8] != 0,
                    halt_ts: le_value(rest.subrange(9, 17)) as u64,
                    carry: rest[17] != 0,
                    ..self.rtc
                },
                ..self
            }
        } else {
            Mbc3View { ram, ..self }
        }
    }
}

impl Mbc3 {
    pub fn new(rom: Vec<u8>, ram_size_code: u8) -> (r: Self)
        ensures
            r@ == Mbc3View::initial(rom@, ram_size_code, r.rtc.origin),
    {
        let ram_bytes: usize = match ram_size_code {
            0x02 => 8 * 1024,
            0x03 => 32 * 1024,
            _ => 0,
        };
        Self {
            rom,
            ram: zeroed(ram_bytes),
            ram_rtc_enabled: false,
            rom_bank: 1,
            ram_bank: 0,
            rtc: Rtc::new(),
        }
    }

    /// A control write at wall-clock time `now`.
    pub fn write_at(&mut self, addr: u16, val: u8, now: u64)
        ensures
            final(self)@ == old(self)@.write(addr, val, now),
    {
        proof {
            lemma_u8(val);
        }
        match addr {
            0x0000..=0x1FFF => {
                self.ram_rtc_enabled = val & 0x0F == 0x0A;
            },
            0x2000..=0x3FFF => {
                self.rom_bank = if val & 0x7F == 0 { 1 } else { val & 0x7F };
            },
            0x4000..=0x5FFF => {
                self.ram_bank = val;
            },
            0x6000..=0x7FFF => {
                if val == 0x00 {
                    self.rtc.latch_pending = true;
                } else if val == 0x01 && self.rtc.latch_pending {
                    self.rtc.latch(now);
                    self.rtc.latch_pending = false;
                } else {
                    self.rtc.latch_pending = false;
                }
            },
            _ => {},
        }
    }

    /// A write to external RAM or a clock register at wall-clock time `now`.
    pub fn ram_write_at(&mut self, addr: u16, val: u8, now: u64)
        requires
            !(old(self).ram_rtc_enabled && old(self).ram_bank <= 0x03) || 0xA000 <= addr,
        ensures
            final(self)@ == old(self)@.ram_write(addr, val, now),
    {
        if !self.ram_rtc_enabled {
            return;
        }
        match self.ram_bank {
            0x00..=0x03 => {
                let offset = self.ram_bank as usize * 0x2000 + (addr as usize - 0xA000);
                if offset < self.ram.len() {
                    self.ram.set(offset, val);
                }
            },
            0x08..=0x0C => self.rtc.write(self.ram_bank, val, now),
            _ => {},
        }
    }
}

impl Cartridge for Mbc3 {
    fn read(&self, addr: u16) -> (r: u8)
        ensures
            r == self@.read(addr),
    {
        match addr {
            0x0000..=0x3FFF => get_or_ff(&self.rom, addr as usize),
            0x4000..=0x7FFF => {
                let offset = self.rom_bank as usize * 0x4000 + (addr as usize - 0x4000);
                get_or_ff(&self.rom, offset)
            },
            _ => 0xFF,
        }
    }

    fn write(&mut self, addr: u16, val: u8)
        ensures
            exists|now: u64| final(self)@ == old(self)@.write(addr, val, now),
    {
        let now = unix_now();
        self.write_at(addr, val, now);
    }

    open spec fn ram_access_ok(&self, addr: u16) -> bool {
        !(self.ram_rtc_enabled && self.ram_bank <= 0x03) || 0xA000 <= addr
    }

    fn ram_read(&self, addr: u16) -> (r: u8)
        ensures
            r == self@.ram_read(addr),
    {
        if !self.ram_rtc_enabled {
            return 0xFF;
        }
        match self.ram_bank {
            0x00..=0x03 => {
                let offset = self.ram_bank as usize * 0x2000 + (addr as usize - 0xA000);
                get_or_ff(&self.ram, offset)
            },
            0x08..=0x0C => self.rtc.read(self.ram_bank),
            _ => 0xFF,
        }
    }

    fn ram_write(&mut self, addr: u16, val: u8)
        ensures
            exists|now: u64| final(self)@ == old(self)@.ram_write(addr, val, now),
    {
        let now = unix_now();
        self.ram_write_at(addr, val, now);
    }

    fn save_ram(&self) -> (r: Vec<u8>)
        ensures
            r@ == self@.save_image(),
    {
        let mut data = self.ram.clone();
        // Append RTC state: origin(8) + halted(1) + halt_ts(8) + carry(1) = 18 bytes
        let mut origin = u64_to_le(self.rtc.origin);
        data.append(&mut origin);
        data.push(if self.rtc.halted { 1 } else { 0 });
        let mut halt_ts = u64_to_le(self.rtc.halt_ts);
        data.append(&mut halt_ts);
        data.push(if self.rtc.carry { 1 } else { 0 });
        data
    }

    fn load_ram(&mut self, data: &[u8])
        ensures
            final(self)@ == old(self)@.load_image(data@),
    {
        let ram_len = self.ram.len();
        overlay_into(&mut self.ram, data);
        // Parse RTC state if present after RAM bytes
        let start = if ram_len < data.len() { ram_len } else { data.len() };
        if data.len() - start >= 18 {
            let ghost rest = data@.subrange(start as int, data@.len() as int);
            assert(rest.subrange(0, 8) =~= data@.subrange(start as int, start + 8));
            assert(rest.subrange(9, 17) =~= data@.subrange(start + 9, start + 17));
            self.rtc.origin = u64_from_le(data, start);
            self.rtc.halted = data[start + 8] != 0;
            self.rtc.halt_ts = u64_from_le(data, start + 9);
            self.rtc.carry = data[start + 17] != 0;
        }
    }
}

/// Restoring a save image gives back the cartridge state it was taken from:
/// the external RAM and the clock's origin, halt flag, halt time and carry.
pub proof fn lemma_save_load(a: Mbc3View)
    ensures
        a.load_image(a.save_image()) == a,
{
    reveal_with_fuel(pow256, 9);
    assert(pow256(8) == 0x1_0000_0000_0000_0000);
    lemma_le_roundtrip(a.rtc.origin as nat, 8);
    lemma_le_roundtrip(a.rtc.halt_ts as nat, 8);
    let data = a.save_image();
    let n = a.ram.len() as int;
    let rest = data.subrange(n, data.len() as int);
    assert(overlay(a.ram, data) =~= a.ram);
    assert(rest.subrange(0, 8) =~= le_bytes(a.rtc.origin as nat, 8));
    assert(rest.subrange(9, 17) =~= le_bytes(a.rtc.halt_ts as nat, 8));
    assert(rest[8] == (if a.rtc.halted { 1u8 } else { 0u8 }));
    assert(rest[17] == (if a.rtc.carry { 1u8 } else { 0u8 }));
}

} // verus!

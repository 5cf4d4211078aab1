use vstd::prelude::*;

use crate::bits::{lemma_u16, lemma_u8};
verus! {

/// T-cycles per frame sequencer step (512 Hz).
pub const FS_PERIOD: u32 = 8192;

/// Noise channel clock divisor for a divisor code (bits 2-0 of NR43).
pub open spec fn noise_divisor_spec(code: u8) -> u32 {
    let c = code % 8;
    if c == 0 { 8 } else { (c * 16) as u32 }
}

pub fn noise_divisor(code: u8) -> (r: u32)
    ensures
        r == noise_divisor_spec(code),
{
    proof {
        lemma_u8(code);
    }
    match code & 7 {
        0 => 8,
        1 => 16,
        2 => 32,
        3 => 48,
        4 => 64,
        5 => 80,
        6 => 96,
        _ => 112,
    }
}

/// Output level of step `pos` (0–7) of duty pattern `duty`:
/// 12.5% (only step 7), 25% (steps 0 and 7), 50% (steps 0, 5–7), 75% (steps 1–6).
pub open spec fn duty_high(duty: u8, pos: u8) -> bool {
    if duty == 0 {
        pos == 7
    } else if duty == 1 {
        pos == 0 || pos == 7
    } else if duty == 2 {
        pos == 0 || pos >= 5
    } else {
        1 <= pos <= 6
    }
}

fn duty_bit(duty: u8, pos: u8) -> (r: bool)
    ensures
        r == duty_high(duty, pos),
{
    match duty {
        0 => pos == 7,
        1 => pos == 0 || pos == 7,
        2 => pos == 0 || pos >= 5,
        _ => pos >= 1 && pos <= 6,
    }
}

/// Frequency-timer arithmetic shared by all channels: starting with `timer`
/// T-cycles left until the next step, run `rem` T-cycles, reloading with
/// `reload` at each step. Yields the timer left and the number of steps taken.
pub open spec fn run_timer(timer: u32, rem: u32, reload: u32) -> (u32, nat)
    decreases rem, (if timer == 0 { 1int } else { 0int }),
    when reload > 0
{
    if rem == 0 {
        (timer, 0)
    } else if rem >= timer {
        let (t, n) = run_timer(reload, (rem - timer) as u32, reload);
        (t, n + 1)
    } else {
        ((timer - rem) as u32, 0)
    }
}

/// Envelope step: count the timer down and move the volume one step when it expires.
pub open spec fn envelope_step(period: u8, timer: u8, volume: u8, add: bool) -> (u8, u8) {
    if period == 0 {
        (timer, volume)
    } else {
        let t = if timer > 0 { (timer - 1) as u8 } else { 0u8 };
        if t == 0 {
            let v = if add && volume < 15 {
                (volume + 1) as u8
            } else if !add && volume > 0 {
                (volume - 1) as u8
            } else {
                volume
            };
            (period, v)
        } else {
            (t, volume)
        }
    }
}

// Shared square-wave channel state (used by CH1 and CH2)
pub struct SquareCh {
    pub duty: u8,
    pub length_counter: u8,
    pub volume_init: u8,
    pub env_add: bool,
    pub env_period: u8,
    pub freq: u16,
    pub length_enable: bool,
    pub enabled: bool,
    pub dac_on: bool,
    pub volume: u8,
    pub env_timer: u8,
    pub freq_timer: u32,  // T-cycles until next duty step
    pub duty_pos: u8,
}

impl SquareCh {
    pub open spec fn wf(self) -> bool {
        self.duty < 4 && self.duty_pos < 8 && self.freq < 2048
    }

    pub open spec fn initial() -> SquareCh {
        SquareCh {
            duty: 0,
            length_counter: 0,
            volume_init: 0,
            env_add: false,
            env_period: 0,
            freq: 0,
            length_enable: false,
            enabled: false,
            dac_on: false,
            volume: 0,
            env_timer: 0,
            freq_timer: 8192,
            duty_pos: 0,
        }
    }

    pub open spec fn reload_spec(self) -> u32 {
        ((2048 - self.freq) * 4) as u32
    }

    pub open spec fn tick_spec(self, t: u32) -> SquareCh {
        if !self.enabled || self.reload_spec() == 0 {
            self
        } else {
            let (timer, n) = run_timer(self.freq_timer, t, self.reload_spec());
            SquareCh { freq_timer: timer, duty_pos: ((self.duty_pos + n) % 8) as u8, ..self }
        }
    }

    pub open spec fn sample_spec(self) -> u8 {
        if !self.enabled || !self.dac_on {
            0
        } else if duty_high(self.duty, self.duty_pos) {
            self.volume
        } else {
            0
        }
    }

    pub open spec fn trigger_spec(self) -> SquareCh {
        SquareCh {
            enabled: self.dac_on,
            length_counter: if self.length_counter == 0 { 64 } else { self.length_counter },
            freq_timer: self.reload_spec(),
            env_timer: if self.env_period == 0 { 8 } else { self.env_period },
            volume: self.volume_init,
            ..self
        }
    }

    pub open spec fn step_length_spec(self) -> SquareCh {
        if self.length_enable && self.length_counter > 0 {
            let c = (self.length_counter - 1) as u8;
            SquareCh { length_counter: c, enabled: if c == 0 { false } else { self.enabled }, ..self }
        } else {
            self
        }
    }

    pub open spec fn step_envelope_spec(self) -> SquareCh {
        let (t, v) = envelope_step(self.env_period, self.env_timer, self.volume, self.env_add);
        SquareCh { env_timer: t, volume: v, ..self }
    }

    pub fn new() -> (r: Self)
        ensures
            r == SquareCh::initial(),
    {
        Self {
            duty: 0,
            length_counter: 0,
            volume_init: 0,
            env_add: false,
            env_period: 0,
            freq: 0,
            length_enable: false,
            enabled: false,
            dac_on: false,
            volume: 0,
            env_timer: 0,
            freq_timer: 8192,
            duty_pos: 0,
        }
    }

    fn freq_reload(&self) -> (r: u32)
        requires
            self.wf(),
        ensures
            r == self.reload_spec(),
            r > 0,
    {
        (2048u32.saturating_sub(self.freq as u32)) * 4
    }

    pub fn tick(&mut self, tcycles: u32)
        requires
            old(self).wf(),
        ensures
            *final(self) == old(self).tick_spec(tcycles),
            final(self).wf(),
    {
        if !self.enabled {
            return;
        }
        let reload = self.freq_reload();
        let ghost t0 = self.freq_timer;
        let ghost total = run_timer(t0, tcycles, reload);
        let ghost mut steps: nat = 0;
        let mut rem = tcycles;
        while rem > 0
            invariant
                self.wf(),
                reload > 0,
                reload == self.reload_spec(),
                self.enabled == old(self).enabled,
                total == run_timer(t0, tcycles, reload),
                run_timer(self.freq_timer, rem, reload).0 == total.0,
                steps + run_timer(self.freq_timer, rem, reload).1 == total.1,
                self.duty_pos == (old(self).duty_pos + steps) % 8,
                *self == (SquareCh { freq_timer: self.freq_timer, duty_pos: self.duty_pos, ..*old(self) }),
            decreases rem, (if self.freq_timer == 0 { 1int } else { 0int }),
        {
            if rem >= self.freq_timer {
                rem -= self.freq_timer;
                self.freq_timer = reload;
                proof {
                    let p = self.duty_pos;
                    lemma_u8((p + 1) as u8);
                    steps = steps + 1;
                }
                self.duty_pos = (self.duty_pos + 1) & 7;
            } else {
                self.freq_timer -= rem;
                rem = 0;
            }
        }
    }

    pub fn sample(&self) -> (r: u8)
        ensures
            r == self.sample_spec(),
    {
        if !self.enabled || !self.dac_on {
            return 0;
        }
        if duty_bit(self.duty, self.duty_pos) {
            self.volume
        } else {
            0
        }
    }

    pub fn trigger(&mut self)
        requires
            old(self).wf(),
        ensures
            *final(self) == old(self).trigger_spec(),
            final(self).wf(),
    {
        self.enabled = true;
        if self.length_counter == 0 {
            self.length_counter = 64;
        }
        self.freq_timer = self.freq_reload();
        self.env_timer = if self.env_period == 0 { 8 } else { self.env_period };
        self.volume = self.volume_init;
        if !self.dac_on {
            self.enabled = false;
        }
    }

    pub fn step_length(&mut self)
        ensures
            *final(self) == old(self).step_length_spec(),
    {
        if self.length_enable && self.length_counter > 0 {
            self.length_counter -= 1;
            if self.length_counter == 0 {
                self.enabled = false;
            }
        }
    }

    pub fn step_envelope(&mut self)
        ensures
            *final(self) == old(self).step_envelope_spec(),
    {
        if self.env_period == 0 {
            return;
        }
        self.env_timer = self.env_timer.saturating_sub(1);
        if self.env_timer == 0 {
            self.env_timer = self.env_period;
            if self.env_add && self.volume < 15 {
                self.volume += 1;
            } else if !self.env_add && self.volume > 0 {
                self.volume -= 1;
            }
        }
    }
}

// CH1: square wave with frequency sweep
pub struct Ch1 {
    pub sq: SquareCh,
    pub sweep_period: u8,
    pub sweep_negate: bool,
    pub sweep_shift: u8,
    pub sweep_timer: u8,
    pub sweep_enabled: bool,
    pub shadow_freq: u16,
}

impl Ch1 {
    pub open spec fn wf(self) -> bool {
        self.sq.wf() && self.sweep_shift < 8
    }

    pub open spec fn initial() -> Ch1 {
        Ch1 {
            sq: SquareCh::initial(),
            sweep_period: 0,
            sweep_negate: false,
            sweep_shift: 0,
            sweep_timer: 8,
            sweep_enabled: false,
            shadow_freq: 0,
        }
    }

    /// Next sweep frequency: shadow ± shadow >> shift, saturating.
    pub open spec fn sweep_freq_spec(self) -> u16 {
        let shifted = self.shadow_freq >> self.sweep_shift;
        if self.sweep_negate {
            if self.shadow_freq >= shifted { (self.shadow_freq - shifted) as u16 } else { 0 }
        } else {
            if self.shadow_freq + shifted <= 0xFFFF { (self.shadow_freq + shifted) as u16 } else { 0xFFFF }
        }
    }

    pub open spec fn trigger_spec(self) -> Ch1 {
        let sq = self.sq.trigger_spec();
        let c = Ch1 {
            sq,
            shadow_freq: self.sq.freq,
            sweep_timer: if self.sweep_period == 0 { 8 } else { self.sweep_period },
            sweep_enabled: self.sweep_period != 0 || self.sweep_shift != 0,
            ..self
        };
        if c.sweep_shift != 0 && c.sweep_freq_spec() > 2047 {
            Ch1 { sq: SquareCh { enabled: false, ..c.sq }, ..c }
        } else {
            c
        }
    }

    pub open spec fn step_sweep_spec(self) -> Ch1 {
        let t = if self.sweep_timer > 0 { (self.sweep_timer - 1) as u8 } else { 0u8 };
        if t == 0 {
            let c = Ch1 { sweep_timer: if self.sweep_period == 0 { 8 } else { self.sweep_period }, ..self };
            if c.sweep_enabled && c.sweep_period != 0 {
                let new_freq = c.sweep_freq_spec();
                if new_freq > 2047 {
                    Ch1 { sq: SquareCh { enabled: false, ..c.sq }, ..c }
                } else {
                    let d = Ch1 { shadow_freq: new_freq, sq: SquareCh { freq: new_freq, ..c.sq }, ..c };
                    // Second overflow check after writing back
                    if d.sweep_freq_spec() > 2047 {
                        Ch1 { sq: SquareCh { enabled: false, ..d.sq }, ..d }
                    } else {
                        d
                    }
                }
            } else {
                c
            }
        } else {
            Ch1 { sweep_timer: t, ..self }
        }
    }

    pub fn new() -> (r: Self)
        ensures
            r == Ch1::initial(),
    {
        Self {
            sq: SquareCh::new(),
            sweep_period: 0,
            sweep_negate: false,
            sweep_shift: 0,
            sweep_timer: 8,
            sweep_enabled: false,
            shadow_freq: 0,
        }
    }

    fn calc_sweep_freq(&self) -> (r: u16)
        requires
            self.wf(),
        ensures
            r == self.sweep_freq_spec(),
    {
        let shifted = self.shadow_freq >> self.sweep_shift;
        if self.sweep_negate {
            self.shadow_freq.saturating_sub(shifted)
        } else {
            self.shadow_freq.saturating_add(shifted)
        }
    }

    pub fn trigger(&mut self)
        requires
            old(self).wf(),
        ensures
            *final(self) == old(self).trigger_spec(),
            final(self).wf(),
    {
        self.sq.trigger();
        self.shadow_freq = self.sq.freq;
        self.sweep_timer = if self.sweep_period == 0 { 8 } else { self.sweep_period };
        self.sweep_enabled = self.sweep_period != 0 || self.sweep_shift != 0;
        if self.sweep_shift != 0 && self.calc_sweep_freq() > 2047 {
            self.sq.enabled = false;
        }
    }

    pub fn step_sweep(&mut self)
        requires
            old(self).wf(),
        ensures
            *final(self) == old(self).step_sweep_spec(),
            final(self).wf(),
    {
        if self.sweep_timer > 0 {
            self.sweep_timer -= 1;
        }
        if self.sweep_timer == 0 {
            self.sweep_timer = if self.sweep_period == 0 { 8 } else { self.sweep_period };
            if self.sweep_enabled && self.sweep_period != 0 {
                let new_freq = self.calc_sweep_freq();
                if new_freq > 2047 {
                    self.sq.enabled = false;
                } else {
                    self.shadow_freq = new_freq;
                    self.sq.freq = new_freq;
                    // Second overflow check after writing back
                    if self.calc_sweep_freq() > 2047 {
                        self.sq.enabled = false;
                    }
                }
            }
        }
    }
}

// CH3: wave channel — plays 4-bit samples from wave RAM
pub struct Ch3 {
    pub dac_on: bool,
    pub enabled: bool,
    pub length_counter: u16,
    pub volume_code: u8,  // 0=mute, 1=100%, 2=50%, 3=25%
    pub freq: u16,
    pub length_enable: bool,
    pub freq_timer: u32,
    pub wave_pos: u8,  // 0-31 (index into 32 4-bit samples)
    pub wave_ram: Vec<u8>,
}

pub struct Ch3View {
    pub dac_on: bool,
    pub enabled: bool,
    pub length_counter: u16,
    pub volume_code: u8,
    pub freq: u16,
    pub length_enable: bool,
    pub freq_timer: u32,
    pub wave_pos: u8,
    pub wave_ram: Seq<u8>,
}

impl View for Ch3 {
    type V = Ch3View;

    open spec fn view(&self) -> Ch3View {
        Ch3View {
            dac_on: self.dac_on,
            enabled: self.enabled,
            length_counter: self.length_counter,
            volume_code: self.volume_code,
            freq: self.freq,
            length_enable: self.length_enable,
            freq_timer: self.freq_timer,
            wave_pos: self.wave_pos,
            wave_ram: self.wave_ram@,
        }
    }
}

impl Ch3View {
    pub open spec fn wf(self) -> bool {
        self.wave_pos < 32 && self.freq < 2048 && self.wave_ram.len() == 16
    }

    pub open spec fn initial() -> Ch3View {
        Ch3View {
            dac_on: false,
            enabled: false,
            length_counter: 0,
            volume_code: 0,
            freq: 0,
            length_enable: false,
            freq_timer: 4096,
            wave_pos: 0,
            wave_ram: Seq::new(16, |i: int| 0u8),
        }
    }

    pub open spec fn reload_spec(self) -> u32 {
        ((2048 - self.freq) * 2) as u32
    }

    pub open spec fn tick_spec(self, t: u32) -> Ch3View {
        if !self.enabled || self.reload_spec() == 0 {
            self
        } else {
            let (timer, n) = run_timer(self.freq_timer, t, self.reload_spec());
            Ch3View { freq_timer: timer, wave_pos: ((self.wave_pos + n) % 32) as u8, ..self }
        }
    }

    /// The current 4-bit wave sample (high nibble first), scaled by the volume code.
    pub open spec fn sample_spec(self) -> u8 {
        if !self.enabled || !self.dac_on {
            0
        } else {
            let byte = self.wave_ram[(self.wave_pos / 2) as int];
            let nibble = if self.wave_pos % 2 == 0 { byte / 16 } else { byte % 16 };
            let code = self.volume_code % 4;
            if code == 1 {
                nibble
            } else if code == 2 {
                nibble / 2
            } else if code == 3 {
                nibble / 4
            } else {
                0
            }
        }
    }

    pub open spec fn trigger_spec(self) -> Ch3View {
        Ch3View {
            enabled: self.dac_on,
            length_counter: if self.length_counter == 0 { 256 } else { self.length_counter },
            freq_timer: self.reload_spec(),
            wave_pos: 0,
            ..self
        }
    }

    pub open spec fn step_length_spec(self) -> Ch3View {
        if self.length_enable && self.length_counter > 0 {
            let c = (self.length_counter - 1) as u16;
            Ch3View { length_counter: c, enabled: if c == 0 { false } else { self.enabled }, ..self }
        } else {
            self
        }
    }
}

impl Ch3 {
    pub fn new() -> (r: Self)
        ensures
            r@ == Ch3View::initial(),
    {
        Self {
            dac_on: false,
            enabled: false,
            length_counter: 0,
            volume_code: 0,
            freq: 0,
            length_enable: false,
            freq_timer: 4096,
            wave_pos: 0,
            wave_ram: crate::cartridge::zeroed(16),
        }
    }

    fn freq_reload(&self) -> (r: u32)
        requires
            self@.wf(),
        ensures
            r == self@.reload_spec(),
            r > 0,
    {
        (2048u32.saturating_sub(self.freq as u32)) * 2
    }

    pub fn tick(&mut self, tcycles: u32)
        requires
            old(self)@.wf(),
        ensures
            final(self)@ == old(self)@.tick_spec(tcycles),
            final(self)@.wf(),
    {
        if !self.enabled {
            return;
        }
        let reload = self.freq_reload();
        let ghost t0 = self.freq_timer;
        let ghost total = run_timer(t0, tcycles, reload);
        let ghost mut steps: nat = 0;
        let mut rem = tcycles;
        while rem > 0
            invariant
                self@.wf(),
                reload > 0,
                reload == self@.reload_spec(),
                self.enabled == old(self).enabled,
                total == run_timer(t0, tcycles, reload),
                run_timer(self.freq_timer, rem, reload).0 == total.0,
                steps + run_timer(self.freq_timer, rem, reload).1 == total.1,
                self.wave_pos == (old(self).wave_pos + steps) % 32,
                self@ == (Ch3View { freq_timer: self.freq_timer, wave_pos: self.wave_pos, ..old(self)@ }),
            decreases rem, (if self.freq_timer == 0 { 1int } else { 0int }),
        {
            if rem >= self.freq_timer {
                rem -= self.freq_timer;
                self.freq_timer = reload;
                proof {
                    let p = self.wave_pos;
                    lemma_u8((p + 1) as u8);
                    steps = steps + 1;
                }
                self.wave_pos = (self.wave_pos + 1) & 31;
            } else {
                self.freq_timer -= rem;
                rem = 0;
            }
        }
    }

    pub fn sample(&self) -> (r: u8)
        requires
            self@.wf(),
        ensures
            r == self@.sample_spec(),
    {
        if !self.enabled || !self.dac_on {
            return 0;
        }
        let byte = self.wave_ram[(self.wave_pos / 2) as usize];
        let nibble = if self.wave_pos & 1 == 0 { byte >> 4 } else { byte & 0x0F };
        let (p, v) = (self.wave_pos, self.volume_code);
        proof {
            lemma_u8(p);
            lemma_u8(byte);
            lemma_u8(v);
            lemma_u8(nibble);
        }
        match self.volume_code & 3 {
            1 => nibble,
            2 => nibble >> 1,
            3 => nibble >> 2,
            _ => 0,
        }
    }

    pub fn trigger(&mut self)
        requires
            old(self)@.wf(),
        ensures
            final(self)@ == old(self)@.trigger_spec(),
            final(self)@.wf(),
    {
        self.enabled = true;
        if self.length_counter == 0 {
            self.length_counter = 256;
        }
        self.freq_timer = self.freq_reload();
        self.wave_pos = 0;
        if !self.dac_on {
            self.enabled = false;
        }
    }

    pub fn step_length(&mut self)
        ensures
            final(self)@ == old(self)@.step_length_spec(),
    {
        if self.length_enable && self.length_counter > 0 {
            self.length_counter -= 1;
            if self.length_counter == 0 {
                self.enabled = false;
            }
        }
    }
}

/// The noise LFSR after one clock: shift right, feeding bit0 XOR bit1 into
/// bit 14 (and also bit 6 in 7-bit mode).
pub open spec fn lfsr_next(lfsr: u16, width_mode: bool) -> u16 {
    let xor = (lfsr & 1) ^ ((lfsr >> 1u16) & 1);
    let l = (lfsr >> 1u16) | (xor << 14u16);
    if width_mode {
        (l & !(1u16 << 6u16)) | (xor << 6u16)
    } else {
        l
    }
}

/// The LFSR after `n` clocks.
pub open spec fn lfsr_iter(lfsr: u16, width_mode: bool, n: nat) -> u16
    decreases n,
{
    if n == 0 {
        lfsr
    } else {
        lfsr_next(lfsr_iter(lfsr, width_mode, (n - 1) as nat), width_mode)
    }
}

// CH4: noise channel with LFSR
pub struct Ch4 {
    pub enabled: bool,
    pub dac_on: bool,
    pub length_counter: u8,
    pub volume_init: u8,
    pub env_add: bool,
    pub env_period: u8,
    pub clock_shift: u8,
    pub width_mode: bool,  // true = 7-bit LFSR, false = 15-bit
    pub divisor_code: u8,
    pub length_enable: bool,
    pub volume: u8,
    pub env_timer: u8,
    pub freq_timer: u32,
    pub lfsr: u16,
}

impl Ch4 {
    pub open spec fn wf(self) -> bool {
        self.clock_shift < 16
    }

    pub open spec fn initial() -> Ch4 {
        Ch4 {
            enabled: false,
            dac_on: false,
            length_counter: 0,
            volume_init: 0,
            env_add: false,
            env_period: 0,
            clock_shift: 0,
            width_mode: false,
            divisor_code: 0,
            length_enable: false,
            volume: 0,
            env_timer: 8,
            freq_timer: 8,
            lfsr: 0x7FFF,
        }
    }

    pub open spec fn reload_spec(self) -> u32 {
        (noise_divisor_spec(self.divisor_code) * vstd::arithmetic::power2::pow2(self.clock_shift as nat)) as u32
    }

    pub open spec fn tick_spec(self, t: u32) -> Ch4 {
        if !self.enabled || self.reload_spec() == 0 {
            self
        } else {
            let (timer, n) = run_timer(self.freq_timer, t, self.reload_spec());
            Ch4 { freq_timer: timer, lfsr: lfsr_iter(self.lfsr, self.width_mode, n), ..self }
        }
    }

    pub open spec fn sample_spec(self) -> u8 {
        if !self.enabled || !self.dac_on {
            0
        } else if self.lfsr % 2 == 0 {
            // LFSR bit 0 low = output HIGH
            self.volume
        } else {
            0
        }
    }

    pub open spec fn trigger_spec(self) -> Ch4 {
        Ch4 {
            enabled: self.dac_on,
            length_counter: if self.length_counter == 0 { 64 } else { self.length_counter },
            freq_timer: self.reload_spec(),
            env_timer: if self.env_period == 0 { 8 } else { self.env_period },
            volume: self.volume_init,
            lfsr: 0x7FFF,
            ..self
        }
    }

    pub open spec fn step_length_spec(self) -> Ch4 {
        if self.length_enable && self.length_counter > 0 {
            let c = (self.length_counter - 1) as u8;
            Ch4 { length_counter: c, enabled: if c == 0 { false } else { self.enabled }, ..self }
        } else {
            self
        }
    }

    pub open spec fn step_envelope_spec(self) -> Ch4 {
        let (t, v) = envelope_step(self.env_period, self.env_timer, self.volume, self.env_add);
        Ch4 { env_timer: t, volume: v, ..self }
    }

    pub fn new() -> (r: Self)
        ensures
            r == Ch4::initial(),
    {
        Self {
            enabled: false,
            dac_on: false,
            length_counter: 0,
            volume_init: 0,
            env_add: false,
            env_period: 0,
            clock_shift: 0,
            width_mode: false,
            divisor_code: 0,
            length_enable: false,
            volume: 0,
            env_timer: 8,
            freq_timer: 8,
            lfsr: 0x7FFF,
        }
    }

    fn freq_reload(&self) -> (r: u32)
        requires
            self.wf(),
        ensures
            r == self.reload_spec(),
    {
        let d = noise_divisor(self.divisor_code);
        let s = self.clock_shift as u32;
        proof {
            assert(d <= 112);
            vstd::arithmetic::power2::lemma_pow2_strictly_increases(s as nat, 16);
            vstd::arithmetic::power2::lemma2_to64();
            assert(d * vstd::arithmetic::power2::pow2(s as nat) <= 112 * 0x10000) by (nonlinear_arith)
                requires
                    d <= 112,
                    vstd::arithmetic::power2::pow2(s as nat) < 0x10000,
            ;
            vstd::bits::lemma_u32_shl_is_mul(d, s);
        }
        d << s
    }

    pub fn tick(&mut self, tcycles: u32)
        requires
            old(self).wf(),
        ensures
            *final(self) == old(self).tick_spec(tcycles),
            final(self).wf(),
    {
        if !self.enabled {
            return;
        }
        let reload = self.freq_reload();
        if reload == 0 {
            return;
        }
        let ghost t0 = self.freq_timer;
        let ghost total = run_timer(t0, tcycles, reload);
        let ghost mut steps: nat = 0;
        let mut rem = tcycles;
        while rem > 0
            invariant
                self.wf(),
                reload > 0,
                reload == self.reload_spec(),
                self.enabled == old(self).enabled,
                self.width_mode == old(self).width_mode,
                total == run_timer(t0, tcycles, reload),
                run_timer(self.freq_timer, rem, reload).0 == total.0,
                steps + run_timer(self.freq_timer, rem, reload).1 == total.1,
                self.lfsr == lfsr_iter(old(self).lfsr, self.width_mode, steps),
                *self == (Ch4 { freq_timer: self.freq_timer, lfsr: self.lfsr, ..*old(self) }),
            decreases rem, (if self.freq_timer == 0 { 1int } else { 0int }),
        {
            if rem >= self.freq_timer {
                rem -= self.freq_timer;
                self.freq_timer = reload;
                self.clock_lfsr();
                proof {
                    steps = steps + 1;
                }
            } else {
                self.freq_timer -= rem;
                rem = 0;
            }
        }
    }

    fn clock_lfsr(&mut self)
        ensures
            *final(self) == (Ch4 { lfsr: lfsr_next(old(self).lfsr, old(self).width_mode), ..*old(self) }),
    {
        let xor = (self.lfsr & 1) ^ ((self.lfsr >> 1) & 1);
        self.lfsr = (self.lfsr >> 1) | (xor << 14);
        if self.width_mode {
            self.lfsr = (self.lfsr & !(1 << 6)) | (xor << 6);
        }
    }

    pub fn sample(&self) -> (r: u8)
        ensures
            r == self.sample_spec(),
    {
        if !self.enabled || !self.dac_on {
            return 0;
        }
        let l = self.lfsr;
        proof {
            lemma_u16(l);
        }
        // LFSR bit 0 low = output HIGH
        if self.lfsr & 1 == 0 {
            self.volume
        } else {
            0
        }
    }

    pub fn trigger(&mut self)
        requires
            old(self).wf(),
        ensures
            *final(self) == old(self).trigger_spec(),
            final(self).wf(),
    {
        self.enabled = true;
        if self.length_counter == 0 {
            self.length_counter = 64;
        }
        self.freq_timer = self.freq_reload();
        self.env_timer = if self.env_period == 0 { 8 } else { self.env_period };
        self.volume = self.volume_init;
        self.lfsr = 0x7FFF;
        if !self.dac_on {
            self.enabled = false;
        }
    }

    pub fn step_length(&mut self)
        ensures
            *final(self) == old(self).step_length_spec(),
    {
        if self.length_enable && self.length_counter > 0 {
            self.length_counter -= 1;
            if self.length_counter == 0 {
                self.enabled = false;
            }
        }
    }

    pub fn step_envelope(&mut self)
        ensures
            *final(self) == old(self).step_envelope_spec(),
    {
        if self.env_period == 0 {
            return;
        }
        self.env_timer = self.env_timer.saturating_sub(1);
        if self.env_timer == 0 {
            self.env_timer = self.env_period;
            if self.env_add && self.volume < 15 {
                self.volume += 1;
            } else if !self.env_add && self.volume > 0 {
                self.volume -= 1;
            }
        }
    }
}

} // verus!

use vstd::prelude::*;

pub mod channels;

use channels::{Ch1, Ch3, Ch3View, Ch4, FS_PERIOD, SquareCh};

use crate::bits::{lemma_or_byte, lemma_u16, lemma_u8};

verus! {

/// A frequency register written a byte at a time stays below 2048.
proof fn lemma_freq_bits(f: u16, val: u8)
    ensures
        f < 2048 ==> ((f & 0x700) | (val as u16)) < 2048,
        (f & 0x00FF) | (((val as u16) & 7) << 8u16) < 2048,
{
    lemma_u16(f);
    lemma_u16(val as u16);
    lemma_u16((val as u16) & 7);
    lemma_or_byte(f & 0x700, val as u16);
    lemma_or_byte(((val as u16) & 7) << 8u16, f & 0x00FF);
}

/// Output sample rate in Hz.
pub const SAMPLE_RATE: u32 = 44_100;

/// CPU clock in T-cycles per second: one output sample is due every
/// `CPU_FREQ / SAMPLE_RATE` T-cycles, counted exactly in units of
/// 1/`SAMPLE_RATE` T-cycle.
pub const CPU_FREQ: u32 = 4_194_304;

/// What the mixer needs to produce one stereo output sample: the four
/// channel levels (0–15) and the panning (NR51) and master volume (NR50) registers.
#[derive(Clone, Copy, Debug)]
pub struct MixInput {
    pub s1: u8,
    pub s2: u8,
    pub s3: u8,
    pub s4: u8,
    pub nr50: u8,
    pub nr51: u8,
}

pub struct Apu {
    pub ch1: Ch1,
    pub ch2: SquareCh,
    pub ch3: Ch3,
    pub ch4: Ch4,
    pub nr50: u8,
    pub nr51: u8,
    pub power: bool,
    pub fs_counter: u32,  // T-cycles until next frame sequencer step
    pub fs_step: u8,  // 0-7
    /// T-cycles since the last output sample, in units of 1/SAMPLE_RATE.
    pub sample_acc: u32,
    /// Mixer inputs of the output samples produced so far.
    pub samples: Vec<MixInput>,
    /// Set for GBC cartridges.
    pub is_gbc: bool,
}

pub struct ApuView {
    pub ch1: Ch1,
    pub ch2: SquareCh,
    pub ch3: Ch3View,
    pub ch4: Ch4,
    pub nr50: u8,
    pub nr51: u8,
    pub power: bool,
    pub fs_counter: u32,
    pub fs_step: u8,
    pub sample_acc: u32,
    pub samples: Seq<MixInput>,
    pub is_gbc: bool,
}

impl View for Apu {
    type V = ApuView;

    open spec fn view(&self) -> ApuView {
        ApuView {
            ch1: self.ch1,
            ch2: self.ch2,
            ch3: self.ch3@,
            ch4: self.ch4,
            nr50: self.nr50,
            nr51: self.nr51,
            power: self.power,
            fs_counter: self.fs_counter,
            fs_step: self.fs_step,
            sample_acc: self.sample_acc,
            samples: self.samples@,
            is_gbc: self.is_gbc,
        }
    }
}

/// 1 for a set flag, 0 for a clear one.
pub open spec fn flag_bit(b: bool) -> u8 {
    if b { 1 } else { 0 }
}

fn flag_bit_exec(b: bool) -> (r: u8)
    ensures
        r == flag_bit(b),
{
    if b { 1 } else { 0 }
}

// Register-level effects shared by the square and noise channels.

pub open spec fn sq_envelope_write(c: SquareCh, val: u8) -> SquareCh {
    let dac_on = val & 0xF8 != 0;
    SquareCh {
        volume_init: (val >> 4u8) & 0xF,
        env_add: val & 0x08 != 0,
        env_period: val & 7,
        dac_on,
        enabled: if !dac_on { false } else { c.enabled },
        ..c
    }
}

pub open spec fn sq_length_duty_write(c: SquareCh, val: u8) -> SquareCh {
    SquareCh { duty: (val >> 6u8) & 3, length_counter: (64 - (val & 0x3F)) as u8, ..c }
}

pub open spec fn freq_lo(freq: u16, val: u8) -> u16 {
    (freq & 0x700) | val as u16
}

pub open spec fn freq_hi(freq: u16, val: u8) -> u16 {
    (freq & 0x00FF) | (((val as u16) & 7) << 8u16)
}

pub open spec fn sq_control_write(c: SquareCh, val: u8) -> SquareCh {
    let c = SquareCh { freq: freq_hi(c.freq, val), length_enable: val & 0x40 != 0, ..c };
    if val & 0x80 != 0 { c.trigger_spec() } else { c }
}

impl ApuView {
    pub open spec fn wf(self) -> bool {
        &&& self.ch1.wf()
        &&& self.ch2.wf()
        &&& self.ch3.wf()
        &&& self.ch4.wf()
        &&& self.fs_step < 8
        &&& self.sample_acc < CPU_FREQ
    }

    /// Power-off register state (wave RAM given).
    pub open spec fn reset(self) -> ApuView {
        ApuView {
            ch1: Ch1::initial(),
            ch2: SquareCh::initial(),
            ch3: Ch3View { wave_ram: self.ch3.wave_ram, ..Ch3View::initial() },
            ch4: Ch4::initial(),
            nr50: 0,
            nr51: 0,
            fs_step: 0,
            fs_counter: FS_PERIOD,
            ..self
        }
    }

    /// The state before the post-boot register writes.
    pub open spec fn blank() -> ApuView {
        ApuView {
            ch1: Ch1::initial(),
            ch2: SquareCh::initial(),
            ch3: Ch3View::initial(),
            ch4: Ch4::initial(),
            nr50: 0,
            nr51: 0,
            power: false,
            fs_counter: FS_PERIOD,
            fs_step: 0,
            sample_acc: 0,
            samples: Seq::empty(),
            is_gbc: false,
        }
    }

    /// Post-boot-ROM APU state.
    pub open spec fn initial() -> ApuView {
        Self::blank().write(0xFF26, 0xF1).write(0xFF11, 0xBF).write(0xFF12, 0xF3).write(0xFF25, 0xF3).write(
            0xFF24,
            0x77,
        )
    }

    /// Whether a register is accessible while the APU is powered off.
    pub open spec fn always_accessible(addr: u16) -> bool {
        addr == 0xFF26 || (0xFF30 <= addr <= 0xFF3F)
    }

    pub open spec fn read(self, addr: u16) -> u8 {
        if !self.power && !Self::always_accessible(addr) {
            0xFF
        } else if addr == 0xFF10 {
            0x80 | ((self.ch1.sweep_period & 7) << 4u8) | (flag_bit(self.ch1.sweep_negate) << 3u8)
                | (self.ch1.sweep_shift & 7)
        } else if addr == 0xFF11 {
            0x3F | (self.ch1.sq.duty << 6u8)
        } else if addr == 0xFF12 {
            (self.ch1.sq.volume_init << 4u8) | (flag_bit(self.ch1.sq.env_add) << 3u8) | (
            self.ch1.sq.env_period & 7)
        } else if addr == 0xFF14 {
            0xBF | (flag_bit(self.ch1.sq.length_enable) << 6u8)
        } else if addr == 0xFF16 {
            0x3F | (self.ch2.duty << 6u8)
        } else if addr == 0xFF17 {
            (self.ch2.volume_init << 4u8) | (flag_bit(self.ch2.env_add) << 3u8) | (
            self.ch2.env_period & 7)
        } else if addr == 0xFF19 {
            0xBF | (flag_bit(self.ch2.length_enable) << 6u8)
        } else if addr == 0xFF1A {
            0x7F | (flag_bit(self.ch3.dac_on) << 7u8)
        } else if addr == 0xFF1C {
            0x9F | ((self.ch3.volume_code & 3) << 5u8)
        } else if addr == 0xFF1E {
            0xBF | (flag_bit(self.ch3.length_enable) << 6u8)
        } else if addr == 0xFF21 {
            (self.ch4.volume_init << 4u8) | (flag_bit(self.ch4.env_add) << 3u8) | (
            self.ch4.env_period & 7)
        } else if addr == 0xFF22 {
            (self.ch4.clock_shift << 4u8) | (flag_bit(self.ch4.width_mode) << 3u8) | (
            self.ch4.divisor_code & 7)
        } else if addr == 0xFF23 {
            0xBF | (flag_bit(self.ch4.length_enable) << 6u8)
        } else if addr == 0xFF24 {
            self.nr50
        } else if addr == 0xFF25 {
            self.nr51
        } else if addr == 0xFF26 {
            0x70 | (flag_bit(self.power) << 7u8) | (flag_bit(self.ch4.enabled)
                << 3u8) | (flag_bit(self.ch3.enabled) << 2u8) | (flag_bit(self.ch2.enabled) << 1u8) | flag_bit(self.ch1.sq.enabled)
        } else if 0xFF30 <= addr <= 0xFF3F {
            self.ch3.wave_ram[addr - 0xFF30]
        } else {
            0xFF
        }
    }

    /// Writes to NR10–NR14 (square channel 1 with sweep).
    pub open spec fn write_ch1(self, addr: u16, val: u8) -> ApuView {
        if addr == 0xFF10 {
            ApuView {
                ch1: Ch1 {
                    sweep_period: (val >> 4u8) & 7,
                    sweep_negate: val & 0x08 != 0,
                    sweep_shift: val & 7,
                    ..self.ch1
                },
                ..self
            }
        } else if addr == 0xFF11 {
            ApuView { ch1: Ch1 { sq: sq_length_duty_write(self.ch1.sq, val), ..self.ch1 }, ..self }
        } else if addr == 0xFF12 {
            ApuView { ch1: Ch1 { sq: sq_envelope_write(self.ch1.sq, val), ..self.ch1 }, ..self }
        } else if addr == 0xFF13 {
            ApuView {
                ch1: Ch1 { sq: SquareCh { freq: freq_lo(self.ch1.sq.freq, val), ..self.ch1.sq }, ..self.ch1 },
                ..self
            }
        } else if addr == 0xFF14 {
            let sq = SquareCh {
                freq: freq_hi(self.ch1.sq.freq, val),
                length_enable: val & 0x40 != 0,
                ..self.ch1.sq
            };
            let c = Ch1 { sq, ..self.ch1 };
            ApuView { ch1: if val & 0x80 != 0 { c.trigger_spec() } else { c }, ..self }
        } else {
            self
        }
    }

    /// Writes to NR21–NR24 (square channel 2).
    pub open spec fn write_ch2(self, addr: u16, val: u8) -> ApuView {
        if addr == 0xFF16 {
            ApuView { ch2: sq_length_duty_write(self.ch2, val), ..self }
        } else if addr == 0xFF17 {
            ApuView { ch2: sq_envelope_write(self.ch2, val), ..self }
        } else if addr == 0xFF18 {
            ApuView { ch2: SquareCh { freq: freq_lo(self.ch2.freq, val), ..self.ch2 }, ..self }
        } else if addr == 0xFF19 {
            ApuView { ch2: sq_control_write(self.ch2, val), ..self }
        } else {
            self
        }
    }

    /// Writes to NR30–NR34 (wave channel).
    pub open spec fn write_ch3(self, addr: u16, val: u8) -> ApuView {
        if addr == 0xFF1A {
            let dac_on = val & 0x80 != 0;
            ApuView {
                ch3: Ch3View { dac_on, enabled: if !dac_on { false } else { self.ch3.enabled }, ..self.ch3 },
                ..self
            }
        } else if addr == 0xFF1B {
            ApuView { ch3: Ch3View { length_counter: (256 - val) as u16, ..self.ch3 }, ..self }
        } else if addr == 0xFF1C {
            ApuView { ch3: Ch3View { volume_code: (val >> 5u8) & 3, ..self.ch3 }, ..self }
        } else if addr == 0xFF1D {
            ApuView { ch3: Ch3View { freq: freq_lo(self.ch3.freq, val), ..self.ch3 }, ..self }
        } else if addr == 0xFF1E {
            let c = Ch3View { freq: freq_hi(self.ch3.freq, val), length_enable: val & 0x40 != 0, ..self.ch3 };
            ApuView { ch3: if val & 0x80 != 0 { c.trigger_spec() } else { c }, ..self }
        } else {
            self
        }
    }

    /// Writes to NR41–NR44 (noise channel).
    pub open spec fn write_ch4(self, addr: u16, val: u8) -> ApuView {
        if addr == 0xFF20 {
            ApuView { ch4: Ch4 { length_counter: (64 - (val & 0x3F)) as u8, ..self.ch4 }, ..self }
        } else if addr == 0xFF21 {
            let dac_on = val & 0xF8 != 0;
            ApuView {
                ch4: Ch4 {
                    volume_init: (val >> 4u8) & 0xF,
                    env_add: val & 0x08 != 0,
                    env_period: val & 7,
                    dac_on,
                    enabled: if !dac_on { false } else { self.ch4.enabled },
                    ..self.ch4
                },
                ..self
            }
        } else if addr == 0xFF22 {
            ApuView {
                ch4: Ch4 {
                    clock_shift: (val >> 4u8) & 0xF,
                    width_mode: val & 0x08 != 0,
                    divisor_code: val & 7,
                    ..self.ch4
                },
                ..self
            }
        } else if addr == 0xFF23 {
            let c = Ch4 { length_enable: val & 0x40 != 0, ..self.ch4 };
            ApuView { ch4: if val & 0x80 != 0 { c.trigger_spec() } else { c }, ..self }
        } else {
            self
        }
    }

    pub open spec fn write(self, addr: u16, val: u8) -> ApuView {
        if !self.power && !Self::always_accessible(addr) {
            self
        } else if 0xFF10 <= addr <= 0xFF14 {
            self.write_ch1(addr, val)
        } else if 0xFF15 <= addr <= 0xFF19 {
            self.write_ch2(addr, val)
        } else if 0xFF1A <= addr <= 0xFF1E {
            self.write_ch3(addr, val)
        } else if 0xFF1F <= addr <= 0xFF23 {
            self.write_ch4(addr, val)
        } else if addr == 0xFF24 {
            ApuView { nr50: val, ..self }
        } else if addr == 0xFF25 {
            ApuView { nr51: val, ..self }
        } else if addr == 0xFF26 {
            let new_power = val & 0x80 != 0;
            let v = if !new_power && self.power { self.reset() } else { self };
            ApuView { power: new_power, ..v }
        } else if 0xFF30 <= addr <= 0xFF3F {
            ApuView { ch3: Ch3View { wave_ram: self.ch3.wave_ram.update(addr - 0xFF30, val), ..self.ch3 }, ..self }
        } else {
            self
        }
    }

    pub open spec fn clock_length(self) -> ApuView {
        ApuView {
            ch1: Ch1 { sq: self.ch1.sq.step_length_spec(), ..self.ch1 },
            ch2: self.ch2.step_length_spec(),
            ch3: self.ch3.step_length_spec(),
            ch4: self.ch4.step_length_spec(),
            ..self
        }
    }

    pub open spec fn clock_envelope(self) -> ApuView {
        ApuView {
            ch1: Ch1 { sq: self.ch1.sq.step_envelope_spec(), ..self.ch1 },
            ch2: self.ch2.step_envelope_spec(),
            ch4: self.ch4.step_envelope_spec(),
            ..self
        }
    }

    /// One 512 Hz frame sequencer step: length at steps 0, 2, 4, 6, sweep at
    /// 2 and 6, envelopes at 7.
    pub open spec fn frame_step(self) -> ApuView {
        let v = if self.fs_step == 0 || self.fs_step == 4 {
            self.clock_length()
        } else if self.fs_step == 2 || self.fs_step == 6 {
            let v = self.clock_length();
            ApuView { ch1: v.ch1.step_sweep_spec(), ..v }
        } else if self.fs_step == 7 {
            self.clock_envelope()
        } else {
            self
        };
        ApuView { fs_step: ((self.fs_step + 1) % 8) as u8, ..v }
    }

    pub open spec fn frame_steps(self, n: nat) -> ApuView
        decreases n,
    {
        if n == 0 {
            self
        } else {
            self.frame_steps((n - 1) as nat).frame_step()
        }
    }

    pub open spec fn mix_input(self) -> MixInput {
        MixInput {
            s1: self.ch1.sq.sample_spec(),
            s2: self.ch2.sample_spec(),
            s3: self.ch3.sample_spec(),
            s4: self.ch4.sample_spec(),
            nr50: self.nr50,
            nr51: self.nr51,
        }
    }

    /// Channel timers run for `tc` T-cycles.
    pub open spec fn ticked(self, tc: u32) -> ApuView {
        ApuView {
            ch1: Ch1 { sq: self.ch1.sq.tick_spec(tc), ..self.ch1 },
            ch2: self.ch2.tick_spec(tc),
            ch3: self.ch3.tick_spec(tc),
            ch4: self.ch4.tick_spec(tc),
            ..self
        }
    }

    /// Frame sequencer advanced by `tc` T-cycles.
    pub open spec fn sequenced(self, tc: u32) -> ApuView {
        if tc < self.fs_counter {
            ApuView { fs_counter: (self.fs_counter - tc) as u32, ..self }
        } else {
            let overshoot = tc - self.fs_counter;
            let v = ApuView { fs_counter: (FS_PERIOD - overshoot % FS_PERIOD as int) as u32, ..self };
            v.frame_steps((1 + overshoot / FS_PERIOD as int) as nat)
        }
    }

    /// One mixer input recorded per output sample due in `tc` more T-cycles.
    pub open spec fn sampled(self, tc: u32) -> ApuView {
        let acc = self.sample_acc + tc * SAMPLE_RATE;
        let n = acc / CPU_FREQ as int;
        ApuView {
            sample_acc: (acc % CPU_FREQ as int) as u32,
            samples: self.samples + Seq::new(n as nat, |i: int| self.mix_input()),
            ..self
        }
    }

    /// State after `cycles` machine cycles: channel timers run, the frame
    /// sequencer advances, and one mixer input is recorded per output sample due.
    #[verifier::opaque]
    pub open spec fn step(self, cycles: u8) -> ApuView {
        if !self.power {
            self
        } else {
            let tc = (cycles * 4) as u32;
            self.ticked(tc).sequenced(tc).sampled(tc)
        }
    }
}

impl Apu {
    fn blank() -> (r: Self)
        ensures
            r@ == ApuView::blank(),
            r@.wf(),
    {
        Self {
            ch1: Ch1::new(),
            ch2: SquareCh::new(),
            ch3: Ch3::new(),
            ch4: Ch4::new(),
            nr50: 0,
            nr51: 0,
            power: false,
            fs_counter: FS_PERIOD,
            fs_step: 0,
            sample_acc: 0,
            samples: Vec::new(),
            is_gbc: false,
        }
    }

    pub fn new() -> (r: Self)
        ensures
            r@ == ApuView::initial(),
            r@.wf(),
    {
        let mut apu = Self::blank();
        // Post-boot-ROM APU state (skipping boot ROM)
        apu.write(0xFF26, 0xF1);  // NR52: power on
        apu.write(0xFF11, 0xBF);  // NR11: duty=10 50%, length=63
        apu.write(0xFF12, 0xF3);  // NR12: vol=15, decay, period=3
        apu.write(0xFF25, 0xF3);  // NR51: CH1+CH2 on both, CH3/4 on left
        apu.write(0xFF24, 0x77);  // NR50: full volume both sides
        apu
    }

    pub fn step(&mut self, cycles: u8)
        requires
            old(self)@.wf(),
        ensures
            final(self)@ == old(self)@.step(cycles),
            final(self)@.wf(),
    {
        reveal(ApuView::step);
        if !self.power {
            return;
        }
        let tc = cycles as u32 * 4;
        self.run_channels(tc);
        self.run_frame_sequencer(tc);
        self.record_samples(tc);
    }

    fn run_channels(&mut self, tc: u32)
        requires
            old(self)@.wf(),
        ensures
            final(self)@ == old(self)@.ticked(tc),
            final(self)@.wf(),
    {
        self.ch1.sq.tick(tc);
        self.ch2.tick(tc);
        self.ch3.tick(tc);
        self.ch4.tick(tc);
    }

    fn run_frame_sequencer(&mut self, tc: u32)
        requires
            old(self)@.wf(),
        ensures
            final(self)@ == old(self)@.sequenced(tc),
            final(self)@.wf(),
    {
        // Advance frame sequencer
        if tc < self.fs_counter {
            self.fs_counter -= tc;
        } else {
            let overshoot = tc - self.fs_counter;
            self.fs_counter = FS_PERIOD - (overshoot % FS_PERIOD);
            let extra_steps = 1 + overshoot / FS_PERIOD;
            let ghost v0 = self@;
            let mut k: u32 = 0;
            while k < extra_steps
                invariant
                    k <= extra_steps,
                    v0.wf(),
                    self@ == v0.frame_steps(k as nat),
                    self@.wf(),
                decreases extra_steps - k,
            {
                self.tick_frame_sequencer();
                k = k + 1;
            }
        }
    }

    fn record_samples(&mut self, tc: u32)
        requires
            old(self)@.wf(),
            tc <= 1020,
        ensures
            final(self)@ == old(self)@.sampled(tc),
            final(self)@.wf(),
    {
        let ghost v1 = self@;
        let acc = self.sample_acc + tc * SAMPLE_RATE;
        let m = self.mix_input();
        let mut k: u32 = 0;
        let n = acc / CPU_FREQ;
        while k < n
            invariant
                k <= n,
                self@ == (ApuView { samples: self@.samples, ..v1 }),
                self@.samples == v1.samples + Seq::new(k as nat, |i: int| v1.mix_input()),
                m == v1.mix_input(),
            decreases n - k,
        {
            self.samples.push(m);
            k = k + 1;
            assert(self@.samples =~= v1.samples + Seq::new(k as nat, |i: int| v1.mix_input()));
        }
        self.sample_acc = acc % CPU_FREQ;
        assert(self@.samples =~= v1.sampled(tc).samples);
    }

    fn tick_frame_sequencer(&mut self)
        requires
            old(self)@.wf(),
        ensures
            final(self)@ == old(self)@.frame_step(),
            final(self)@.wf(),
    {
        match self.fs_step {
            0 | 4 => self.clock_length(),
            2 | 6 => {
                self.clock_length();
                self.ch1.step_sweep();
            },
            7 => self.clock_envelope(),
            _ => {},
        }
        proof {
            lemma_u8((self.fs_step + 1) as u8);
        }
        self.fs_step = (self.fs_step + 1) & 7;
    }

    fn clock_length(&mut self)
        requires
            old(self)@.wf(),
        ensures
            final(self)@ == old(self)@.clock_length(),
            final(self)@.wf(),
    {
        self.ch1.sq.step_length();
        self.ch2.step_length();
        self.ch3.step_length();
        self.ch4.step_length();
    }

    fn clock_envelope(&mut self)
        requires
            old(self)@.wf(),
        ensures
            final(self)@ == old(self)@.clock_envelope(),
            final(self)@.wf(),
    {
        self.ch1.sq.step_envelope();
        self.ch2.step_envelope();
        self.ch4.step_envelope();
    }

    /// The channel levels and mixing registers of the current output sample.
    pub fn mix_input(&self) -> (r: MixInput)
        requires
            self@.wf(),
        ensures
            r == self@.mix_input(),
    {
        MixInput {
            s1: self.ch1.sq.sample(),
            s2: self.ch2.sample(),
            s3: self.ch3.sample(),
            s4: self.ch4.sample(),
            nr50: self.nr50,
            nr51: self.nr51,
        }
    }

    /// Hand over the recorded mixer inputs, leaving none.
    pub fn drain_samples(&mut self) -> (r: Vec<MixInput>)
        ensures
            r@ == old(self)@.samples,
            final(self)@ == (ApuView { samples: Seq::empty(), ..old(self)@ }),
    {
        let mut out: Vec<MixInput> = Vec::new();
        std::mem::swap(&mut out, &mut self.samples);
        out
    }

    pub fn read(&self, addr: u16) -> (r: u8)
        requires
            self@.wf(),
        ensures
            r == self@.read(addr),
    {
        // When power is off, registers read as 0xFF except NR52 and wave RAM
        if !self.power && addr != 0xFF26 && !(0xFF30 <= addr && addr <= 0xFF3F) {
            return 0xFF;
        }
        match addr {
            // CH1
            0xFF10 => {
                0x80 | ((self.ch1.sweep_period & 7) << 4u8) | (flag_bit_exec(self.ch1.sweep_negate) << 3u8) | (self.ch1.sweep_shift
                    & 7)
            },
            0xFF11 => 0x3F | (self.ch1.sq.duty << 6u8),
            0xFF12 => {
                (self.ch1.sq.volume_init << 4u8) | (flag_bit_exec(self.ch1.sq.env_add) << 3u8) | (self.ch1.sq.env_period & 7)
            },
            0xFF13 => 0xFF,
            0xFF14 => 0xBF | (flag_bit_exec(self.ch1.sq.length_enable) << 6u8),
            // CH2
            0xFF15 => 0xFF,
            0xFF16 => 0x3F | (self.ch2.duty << 6u8),
            0xFF17 => { (self.ch2.volume_init << 4u8) | (flag_bit_exec(self.ch2.env_add) << 3u8) | (self.ch2.env_period & 7) },
            0xFF18 => 0xFF,
            0xFF19 => 0xBF | (flag_bit_exec(self.ch2.length_enable) << 6u8),
            // CH3
            0xFF1A => 0x7F | (flag_bit_exec(self.ch3.dac_on) << 7u8),
            0xFF1B => 0xFF,
            0xFF1C => 0x9F | ((self.ch3.volume_code & 3) << 5u8),
            0xFF1D => 0xFF,
            0xFF1E => 0xBF | (flag_bit_exec(self.ch3.length_enable) << 6u8),
            // CH4
            0xFF1F => 0xFF,
            0xFF20 => 0xFF,
            0xFF21 => { (self.ch4.volume_init << 4u8) | (flag_bit_exec(self.ch4.env_add) << 3u8) | (self.ch4.env_period & 7) },
            0xFF22 => {
                (self.ch4.clock_shift << 4u8) | (flag_bit_exec(self.ch4.width_mode) << 3u8) | (self.ch4.divisor_code & 7)
            },
            0xFF23 => 0xBF | (flag_bit_exec(self.ch4.length_enable) << 6u8),
            // Master control
            0xFF24 => self.nr50,
            0xFF25 => self.nr51,
            0xFF26 => {
                0x70 | (flag_bit_exec(self.power) << 7u8) | (flag_bit_exec(self.ch4.enabled) << 3u8) | (
                flag_bit_exec(self.ch3.enabled) << 2u8) | (flag_bit_exec(self.ch2.enabled) << 1u8)
                    | flag_bit_exec(self.ch1.sq.enabled)
            },
            // Wave RAM
            0xFF30..=0xFF3F => self.ch3.wave_ram[(addr - 0xFF30) as usize],
            _ => 0xFF,
        }
    }

    /// Writes to NR10–NR14.
    #[verifier::rlimit(80)]
    fn write_ch1(&mut self, addr: u16, val: u8)
        requires
            old(self)@.wf(),
            0xFF10 <= addr <= 0xFF14,
        ensures
            final(self)@ == old(self)@.write_ch1(addr, val),
            final(self)@.wf(),
    {
        proof {
            lemma_u8(val);
            let f = self.ch1.sq.freq;
            lemma_freq_bits(f, val);
        }
        match addr {
            0xFF10 => {
                self.ch1.sweep_period = (val >> 4) & 7;
                self.ch1.sweep_negate = val & 0x08 != 0;
                self.ch1.sweep_shift = val & 7;
            },
            0xFF11 => {
                self.ch1.sq.duty = (val >> 6) & 3;
                self.ch1.sq.length_counter = 64 - (val & 0x3F);
            },
            0xFF12 => {
                self.ch1.sq.volume_init = (val >> 4) & 0xF;
                self.ch1.sq.env_add = val & 0x08 != 0;
                self.ch1.sq.env_period = val & 7;
                self.ch1.sq.dac_on = val & 0xF8 != 0;
                if !self.ch1.sq.dac_on {
                    self.ch1.sq.enabled = false;
                }
            },
            0xFF13 => {
                self.ch1.sq.freq = (self.ch1.sq.freq & 0x700) | val as u16;
            },
            0xFF14 => {
                self.ch1.sq.freq = (self.ch1.sq.freq & 0x00FF) | ((val as u16 & 7) << 8);
                self.ch1.sq.length_enable = val & 0x40 != 0;
                if val & 0x80 != 0 {
                    self.ch1.trigger();
                }
            },
            _ => {},
        }
    }

    /// Writes to NR21–NR24.
    fn write_ch2(&mut self, addr: u16, val: u8)
        requires
            old(self)@.wf(),
            0xFF15 <= addr <= 0xFF19,
        ensures
            final(self)@ == old(self)@.write_ch2(addr, val),
            final(self)@.wf(),
    {
        proof {
            lemma_u8(val);
            let f = self.ch2.freq;
            lemma_freq_bits(f, val);
        }
        match addr {
            0xFF15 => {},
            0xFF16 => {
                self.ch2.duty = (val >> 6) & 3;
                self.ch2.length_counter = 64 - (val & 0x3F);
            },
            0xFF17 => {
                self.ch2.volume_init = (val >> 4) & 0xF;
                self.ch2.env_add = val & 0x08 != 0;
                self.ch2.env_period = val & 7;
                self.ch2.dac_on = val & 0xF8 != 0;
                if !self.ch2.dac_on {
                    self.ch2.enabled = false;
                }
            },
            0xFF18 => {
                self.ch2.freq = (self.ch2.freq & 0x700) | val as u16;
            },
            0xFF19 => {
                self.ch2.freq = (self.ch2.freq & 0x00FF) | ((val as u16 & 7) << 8);
                self.ch2.length_enable = val & 0x40 != 0;
                if val & 0x80 != 0 {
                    self.ch2.trigger();
                }
            },
            _ => {},
        }
    }

    /// Writes to NR30–NR34.
    fn write_ch3(&mut self, addr: u16, val: u8)
        requires
            old(self)@.wf(),
            0xFF1A <= addr <= 0xFF1E,
        ensures
            final(self)@ == old(self)@.write_ch3(addr, val),
            final(self)@.wf(),
    {
        proof {
            lemma_u8(val);
            let f = self.ch3.freq;
            lemma_freq_bits(f, val);
        }
        match addr {
            0xFF1A => {
                self.ch3.dac_on = val & 0x80 != 0;
                if !self.ch3.dac_on {
                    self.ch3.enabled = false;
                }
            },
            0xFF1B => {
                self.ch3.length_counter = 256 - val as u16;
            },
            0xFF1C => {
                self.ch3.volume_code = (val >> 5) & 3;
            },
            0xFF1D => {
                self.ch3.freq = (self.ch3.freq & 0x700) | val as u16;
            },
            0xFF1E => {
                self.ch3.freq = (self.ch3.freq & 0x00FF) | ((val as u16 & 7) << 8);
                self.ch3.length_enable = val & 0x40 != 0;
                if val & 0x80 != 0 {
                    self.ch3.trigger();
                }
            },
            _ => {},
        }
    }

    /// Writes to NR41–NR44.
    fn write_ch4(&mut self, addr: u16, val: u8)
        requires
            old(self)@.wf(),
            0xFF1F <= addr <= 0xFF23,
        ensures
            final(self)@ == old(self)@.write_ch4(addr, val),
            final(self)@.wf(),
    {
        proof {
            lemma_u8(val);
            let f = self.ch4.clock_shift as u16;
            lemma_freq_bits(f, val);
        }
        match addr {
            0xFF1F => {},
            0xFF20 => {
                self.ch4.length_counter = 64 - (val & 0x3F);
            },
            0xFF21 => {
                self.ch4.volume_init = (val >> 4) & 0xF;
                self.ch4.env_add = val & 0x08 != 0;
                self.ch4.env_period = val & 7;
                self.ch4.dac_on = val & 0xF8 != 0;
                if !self.ch4.dac_on {
                    self.ch4.enabled = false;
                }
            },
            0xFF22 => {
                self.ch4.clock_shift = (val >> 4) & 0xF;
                self.ch4.width_mode = val & 0x08 != 0;
                self.ch4.divisor_code = val & 7;
            },
            0xFF23 => {
                self.ch4.length_enable = val & 0x40 != 0;
                if val & 0x80 != 0 {
                    self.ch4.trigger();
                }
            },
            _ => {},
        }
    }

    pub fn write(&mut self, addr: u16, val: u8)
        requires
            old(self)@.wf(),
        ensures
            final(self)@ == old(self)@.write(addr, val),
            final(self)@.wf(),
    {
        if !self.power && addr != 0xFF26 && !(0xFF30 <= addr && addr <= 0xFF3F) {
            return;
        }
        match addr {
            0xFF10..=0xFF14 => self.write_ch1(addr, val),
            0xFF15..=0xFF19 => self.write_ch2(addr, val),
            0xFF1A..=0xFF1E => self.write_ch3(addr, val),
            0xFF1F..=0xFF23 => self.write_ch4(addr, val),
            // Master control
            0xFF24 => self.nr50 = val,
            0xFF25 => self.nr51 = val,
            0xFF26 => {
                let new_power = val & 0x80 != 0;
                if !new_power && self.power {
                    self.power_off();
                }
                self.power = new_power;
            },
            // Wave RAM
            0xFF30..=0xFF3F => {
                self.ch3.wave_ram.set((addr - 0xFF30) as usize, val);
            },
            _ => {},
        }
    }

    fn power_off(&mut self)
        requires
            old(self)@.wf(),
        ensures
            final(self)@ == old(self)@.reset(),
            final(self)@.wf(),
    {
        let mut wave_ram: Vec<u8> = Vec::new();
        std::mem::swap(&mut wave_ram, &mut self.ch3.wave_ram);
        self.ch1 = Ch1::new();
        self.ch2 = SquareCh::new();
        self.ch3 = Ch3::new();
        self.ch3.wave_ram = wave_ram;  // wave RAM survives power-off
        self.ch4 = Ch4::new();
        self.nr50 = 0;
        self.nr51 = 0;
        self.fs_step = 0;
        self.fs_counter = FS_PERIOD;
    }
}

} // verus!

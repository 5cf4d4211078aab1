use vstd::prelude::*;
use crate::interrupts::Interrupts;

use crate::bits::{lemma_small_shifts, lemma_u16};
verus! {

/// The DIV bit whose falling edge clocks TIMA for a TAC clock select value.
pub open spec fn div_bit_spec(clock_select: u8) -> u8 {
    if clock_select == 0 {
        9
    } else if clock_select == 1 {
        3
    } else if clock_select == 2 {
        5
    } else {
        7
    }
}

/// Number of T-cycles between two TIMA increments for a TAC value.
pub open spec fn tima_period(tac: u8) -> nat {
    vstd::arithmetic::power2::pow2((div_bit_spec(tac & 0x03) + 1) as nat)
}

/// Timer registers: DIV (0xFF03), TIMA (0xFF05), TMA (0xFF06), TAC (0xFF07).
pub struct Timer {
    /// Internal 16-bit counter. Upper byte is exposed as DIV.
    pub div_counter: u16,
    /// TIMA — timer counter
    pub tima: u8,
    /// TMA — timer modulo (reload value on overflow)
    pub tma: u8,
    /// TAC — timer control: bit2=enable, bits1-0=clock select
    pub tac: u8,
}

/// TIMA and IF after `n` TIMA increments starting from `tima` and `flags`:
/// each overflow reloads TMA and requests the timer interrupt (bit 2).
pub open spec fn tima_ticks(tima: u8, tma: u8, flags: u8, n: nat) -> (u8, u8)
    decreases n,
{
    if n == 0 {
        (tima, flags)
    } else {
        let (t, f) = tima_ticks(tima, tma, flags, (n - 1) as nat);
        let next = vstd::wrapping::u8_specs::wrapping_add(t, 1);
        if next == 0 {
            (tma, f | 4u8)
        } else {
            (next, f)
        }
    }
}

impl Timer {
    pub open spec fn read_spec(self, addr: u16) -> u8 {
        if addr == 0xFF03 {
            (self.div_counter / 256) as u8
        } else if addr == 0xFF05 {
            self.tima
        } else if addr == 0xFF06 {
            self.tma
        } else if addr == 0xFF07 {
            self.tac
        } else {
            0xFF
        }
    }

    pub open spec fn write_spec(self, addr: u16, val: u8) -> Timer {
        if addr == 0xFF03 {
            Timer { div_counter: 0, ..self }
        } else if addr == 0xFF05 {
            Timer { tima: val, ..self }
        } else if addr == 0xFF06 {
            Timer { tma: val, ..self }
        } else if addr == 0xFF07 {
            Timer { tac: val & 0x07, ..self }
        } else {
            self
        }
    }

    /// Number of TIMA clock edges in the T-cycle interval (div, div + t].
    pub open spec fn falling_edges(self, t: nat) -> nat {
        let period = tima_period(self.tac);
        ((self.div_counter + t) / period as int - (self.div_counter as int) / (period as int)) as nat
    }

    /// Timer and interrupt state after `cycles` machine cycles.
    #[verifier::opaque]
    pub open spec fn step_spec(self, cycles: u8, ints: Interrupts) -> (Timer, Interrupts) {
        let t = cycles as nat * 4;
        let div = ((self.div_counter + t) % 0x1_0000) as u16;
        if self.tac & 0x04 != 0 {
            let (tima, flags) = tima_ticks(self.tima, self.tma, ints.flags, self.falling_edges(t));
            (Timer { div_counter: div, tima, ..self }, Interrupts { flags, ..ints })
        } else {
            (Timer { div_counter: div, ..self }, ints)
        }
    }

    pub fn new() -> (r: Self)
        ensures
            r == (Timer { div_counter: 0, tima: 0, tma: 0, tac: 0 }),
    {
        Self { div_counter: 0, tima: 0, tma: 0, tac: 0 }
    }

    pub fn read(&self, addr: u16) -> (r: u8)
        ensures
            r == self.read_spec(addr),
    {
        match addr {
            0xFF03 => {
                proof {
                    lemma_u16(self.div_counter);
                }
                (self.div_counter >> 8) as u8
            },
            0xFF05 => self.tima,
            0xFF06 => self.tma,
            0xFF07 => self.tac,
            _ => 0xFF,
        }
    }

    pub fn write(&mut self, addr: u16, val: u8)
        ensures
            *final(self) == old(self).write_spec(addr, val),
    {
        match addr {
            0xFF03 => self.div_counter = 0,
            0xFF05 => self.tima = val,
            0xFF06 => self.tma = val,
            0xFF07 => self.tac = val & 0x07,
            _ => {},
        }
    }

    /// Advance timer by `cycles` (machine cycles = T-cycles / 4).
    pub fn step(&mut self, cycles: u8, interrupts: &mut Interrupts)
        ensures
            (*final(self), *final(interrupts)) == old(self).step_spec(cycles, *old(interrupts)),
    {
        reveal(Timer::step_spec);
        let ghost t0 = *self;
        let ghost flags0 = interrupts.flags;
        let t_cycles = cycles as u32 * 4;
        let prev = self.div_counter as u32;
        self.div_counter = self.div_counter.wrapping_add(t_cycles as u16);

        if self.tac & 0x04 != 0 {
            // Count falling edges on the selected DIV bit. A falling edge on bit B
            // occurs at every multiple of 2^(B+1), so we count how many such
            // multiples fall in the half-open interval (prev, prev + t_cycles].
            let bit = Self::tac_to_div_bit(self.tac & 0x03) as u32;
            let period = 1u32 << (bit + 1);
            proof {
                let b = bit + 1;
                assert(b == 4 || b == 6 || b == 8 || b == 10);
                vstd::arithmetic::power2::lemma2_to64();
                lemma_small_shifts();
                assert(period as nat == tima_period(t0.tac));
            }
            let next = prev + t_cycles;
            let falling_edges = next / period - prev / period;
            let mut i: u32 = 0;
            while i < falling_edges
                invariant
                    i <= falling_edges,
                    self.div_counter == (t0.div_counter + t_cycles) % 0x1_0000,
                    self.tma == t0.tma,
                    self.tac == t0.tac,
                    interrupts.enable == old(interrupts).enable,
                    (self.tima, interrupts.flags) == tima_ticks(t0.tima, t0.tma, flags0, i as nat),
                decreases falling_edges - i,
            {
                self.tima = self.tima.wrapping_add(1);
                if self.tima == 0 {
                    self.tima = self.tma;
                    interrupts.request(2);
                    proof {
                        lemma_small_shifts();
                    }
                }
                i = i + 1;
            }
        }
    }

    fn tac_to_div_bit(clock_select: u8) -> (r: u8)
        ensures
            r == div_bit_spec(clock_select),
    {
        match clock_select {
            0 => 9,  // 4096 Hz
            1 => 3,  // 262144 Hz
            2 => 5,  // 65536 Hz
            _ => 7,  // 16384 Hz
        }
    }
}

/// T-cycles per TIMA increment for each TAC clock select, from the documented
/// rates of the 4,194,304 Hz clock: 4096 Hz, 262144 Hz, 65536 Hz, 16384 Hz.
pub open spec fn documented_period(clock_select: u8) -> int {
    if clock_select == 0 {
        1024
    } else if clock_select == 1 {
        16
    } else if clock_select == 2 {
        64
    } else {
        256
    }
}

/// An enabled timer counts TIMA at the rate TAC selects: a step of at most one
/// period increments TIMA exactly when it crosses a multiple of the period
/// (so a step of one whole period always increments it once), DIV advances by
/// the T-cycles stepped, and a disabled timer leaves TIMA alone.
pub proof fn lemma_timer_rate(t: Timer, ints: Interrupts, cycles: u8)
    requires
        t.tima < 255,
        cycles as int * 4 <= documented_period(t.tac & 0x03),
    ensures
        ({
            let p = documented_period(t.tac & 0x03);
            let (t2, i2) = t.step_spec(cycles, ints);
            &&& t2.div_counter == (t.div_counter + cycles as int * 4) % 0x1_0000
            &&& t.tac & 0x04 == 0 ==> t2.tima == t.tima && i2 == ints
            &&& t.tac & 0x04 != 0 ==> t2.tima == (if (t.div_counter + cycles as int * 4) / p > t.div_counter as int / p {
                t.tima + 1
            } else {
                t.tima as int
            })
            &&& t.tac & 0x04 != 0 && cycles as int * 4 == p ==> t2.tima == t.tima + 1
        }),
{
    reveal(Timer::step_spec);
    let p = documented_period(t.tac & 0x03);
    vstd::arithmetic::power2::lemma2_to64();
    assert(tima_period(t.tac) == p);
    let d = t.div_counter as int;
    let k = cycles as int * 4;
    assert(0 <= (d + k) / p - d / p <= 1) by (nonlinear_arith)
        requires
            p > 0,
            0 <= k <= p,
            d >= 0,
    ;
    assert(k == p ==> (d + k) / p - d / p == 1) by (nonlinear_arith)
        requires
            p > 0,
            d >= 0,
    ;
    let n = t.falling_edges(k as nat);
    assert(n == (d + k) / p - d / p);
    reveal_with_fuel(tima_ticks, 2);
}

} // verus!

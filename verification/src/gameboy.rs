use vstd::prelude::*;
use crate::apu::ApuView;
use crate::bus::{Bus, BusView};
use crate::cartridge::{self, CartridgeHeader, supported_type};
use crate::cpu::Cpu;
use crate::cpu::isa::step_spec;
use crate::interrupts::Interrupts;
use crate::ppu::PpuView;

verus! {

/// `ints` with interrupt `bit` requested.
pub open spec fn requested(ints: Interrupts, bit: u8) -> Interrupts {
    Interrupts { flags: ints.flags | (1u8 << bit), ..ints }
}

/// The bus after the timer, the PPU (with one HBlank DMA block when it enters
/// HBlank) and the interrupt requests have caught up on `cycles` machine
/// cycles of CPU work; and whether a frame was completed.
pub open spec fn after_cpu(b: BusView, cycles: u8) -> (BusView, bool) {
    let (timer, ints) = b.timer.step_spec(cycles, b.interrupts);
    let b1 = BusView { timer, interrupts: ints, ..b };
    let b2 = BusView { ppu: b1.ppu.step(cycles, b1.oam), ..b1 };
    let b3 = if b2.ppu.hblank_triggered { b2.hdma_hblank_step() } else { b2 };
    let b4 = if b3.ppu.int_vblank { BusView { interrupts: requested(b3.interrupts, 0), ..b3 } } else { b3 };
    let b5 = if b4.ppu.int_stat { BusView { interrupts: requested(b4.interrupts, 1), ..b4 } } else { b4 };
    if b5.ppu.frame_ready {
        (BusView { ppu: PpuView { frame_ready: false, ..b5.ppu }, ..b5 }, true)
    } else {
        (b5, false)
    }
}

/// One emulator step: the APU catches up on the previous instruction's
/// `prev` cycles, the CPU runs one instruction (its bus writes reading clock
/// values `t1` and `t2`), then the other components follow. The new CPU, bus,
/// cycle count, and whether a frame was completed.
pub open spec fn system_step(cpu: Cpu, bus: BusView, prev: u8, t1: u64, t2: u64) -> (Cpu, BusView, u8, bool) {
    let b0 = BusView { apu: bus.apu.step(prev), ..bus };
    let (c1, b1, cycles) = step_spec(cpu, b0, t1, t2);
    let (b2, frame) = after_cpu(b1, cycles);
    (c1, b2, cycles, frame)
}

/// Whether a cartridge header asks for Game Boy Color mode.
pub open spec fn rom_is_gbc(rom: Seq<u8>) -> bool {
    rom[0x0143] == 0x80 || rom[0x0143] == 0xC0
}

/// Top-level emulator struct. Owns the CPU and bus; drives the step loop.
pub struct GameBoy {
    pub cpu: Cpu,
    pub bus: Bus,
    /// Cycle count from the previous instruction, used to tick the APU
    /// *before* the next instruction executes. This ensures the APU's wave
    /// position and access timer advance before the CPU reads wave RAM,
    /// giving the wave_access_timer a non-zero value at read time.
    pub prev_cycles: u8,
}

impl GameBoy {
    pub open spec fn wf(&self) -> bool {
        self.bus@.wf()
    }

    pub fn new(rom: Vec<u8>) -> (r: Self)
        requires
            rom.len() >= 0x14A,
            supported_type(rom@[0x0147]),
        ensures
            r.wf(),
            r.cpu == Cpu::post_boot(rom_is_gbc(rom@)),
            r.prev_cycles == 0,
            cartridge::loaded_kind(rom@, r.bus@.cart),
            r.bus@ == (BusView {
                ppu: PpuView { cgb_mode: rom_is_gbc(rom@), ..PpuView::initial() },
                apu: ApuView { is_gbc: rom_is_gbc(rom@), ..ApuView::initial() },
                ..BusView::initial(r.bus@.cart)
            }),
    {
        let is_gbc = CartridgeHeader::parse(rom.as_slice()).is_gbc();
        let mut gb = Self { cpu: Cpu::new(is_gbc), bus: Bus::new(rom), prev_cycles: 0 };
        gb.bus.ppu.cgb_mode = is_gbc;
        gb.bus.apu.is_gbc = is_gbc;
        gb
    }

    /// Execute one CPU instruction and advance all other components.
    /// Returns true when a VBlank just completed (frame is ready).
    pub fn step(&mut self) -> (frame: bool)
        requires
            old(self).wf(),
        ensures
            final(self).wf(),
            exists|t1: u64, t2: u64|
                (final(self).cpu, final(self).bus@, final(self).prev_cycles, frame) == system_step(
                    old(self).cpu,
                    old(self).bus@,
                    old(self).prev_cycles,
                    t1,
                    t2,
                ),
    {
        // Tick the APU for the previous instruction's cycles before the CPU
        // executes the current one. This makes the APU's wave position advance
        // ahead of the CPU's bus reads, so wave_access_timer is non-zero when
        // a read of wave RAM occurs in the same step as the wave clock.
        self.bus.tick_m_cycle(self.prev_cycles);
        let ghost c0 = self.cpu;
        let ghost b0 = self.bus@;

        let cycles = self.cpu.step(&mut self.bus);
        self.prev_cycles = cycles;
        let ghost (t1, t2) = choose|t1: u64, t2: u64| (self.cpu, self.bus@, cycles) == step_spec(c0, b0, t1, t2);

        self.bus.timer.step(cycles, &mut self.bus.interrupts);

        let oam = self.bus.oam_snapshot();
        self.bus.ppu.step(cycles, oam.as_slice());

        // Fire one HBlank DMA block each time the PPU enters HBlank.
        if self.bus.ppu.hblank_triggered {
            self.bus.hdma_hblank_step();
        }

        if self.bus.ppu.int_vblank {
            self.bus.interrupts.request(0);
        }
        if self.bus.ppu.int_stat {
            self.bus.interrupts.request(1);
        }

        let frame = if self.bus.ppu.frame_ready {
            self.bus.ppu.frame_ready = false;
            true
        } else {
            false
        };
        assert((self.cpu, self.bus@, self.prev_cycles, frame) == system_step(
            old(self).cpu,
            old(self).bus@,
            old(self).prev_cycles,
            t1,
            t2,
        ));
        frame
    }

    /// The framebuffer: 160×144 pixels, RGB, row by row.
    pub fn framebuffer(&self) -> (r: &Vec<u8>)
        ensures
            r@ == self.bus@.ppu.framebuffer,
    {
        &self.bus.ppu.framebuffer
    }
}

} // verus!

use vstd::prelude::*;
use crate::apu::{Apu, ApuView};
use crate::cartridge::{self, Cart, CartView, Cartridge, supported_type};
use crate::interrupts::Interrupts;
use crate::joypad::Joypad;
use crate::ppu::{Ppu, PpuView};
use crate::timer::Timer;

use crate::bits::{lemma_pair, lemma_u16, lemma_u8};
verus! {

/// The Game Boy memory bus — routes every read/write to the correct component.
///
/// Memory map (DMG/GBC):
///   0x0000–0x7FFF  Cartridge ROM
///   0x8000–0x9FFF  VRAM (8KB DMG, 16KB GBC banked)
///   0xA000–0xBFFF  Cartridge external RAM
///   0xC000–0xCFFF  Work RAM bank 0
///   0xD000–0xDFFF  Work RAM bank 1–7 (GBC switchable via SVBK)
///   0xE000–0xFDFF  Echo RAM (mirrors 0xC000–0xDDFF)
///   0xFE00–0xFE9F  OAM (sprite attribute table)
///   0xFEA0–0xFEFF  Not usable
///   0xFF00–0xFF7F  I/O registers
///   0xFF80–0xFFFE  High RAM (HRAM)
///   0xFFFF         Interrupt Enable register
pub struct Bus {
    pub cartridge: Cart,
    /// 32KB — banks 0-7 (GBC), bank 0+1 only for DMG
    pub wram: Vec<u8>,
    pub hram: Vec<u8>,
    pub oam: Vec<u8>,
    /// Serial data register (0xFF01)
    pub serial_data: u8,
    /// Serial control (0xFF02)
    pub serial_ctrl: u8,
    /// Accumulates every byte transferred via serial (0xFF02 write 0x81).
    pub serial_buf: Vec<u8>,
    pub apu: Apu,
    pub ppu: Ppu,
    pub timer: Timer,
    pub joypad: Joypad,
    pub interrupts: Interrupts,
    /// GBC work RAM bank (SVBK 0xFF70), 1–7
    pub wram_bank: u8,
    // GBC HDMA state (0xFF51–0xFF55)
    /// HDMA1–HDMA4: source/destination address registers as written by the game.
    pub hdma1: u8,  // source high byte
    pub hdma2: u8,  // source low byte  (bits 3-0 ignored → aligned to 16)
    pub hdma3: u8,  // dest high byte   (bits 7-5 ignored → VRAM 0x8000-0x9FFF)
    pub hdma4: u8,  // dest low byte    (bits 3-0 ignored → aligned to 16)
    /// Running source pointer (updated as blocks are transferred).
    pub hdma_src: u16,
    /// Running destination pointer (updated as blocks are transferred).
    pub hdma_dst: u16,
    /// Remaining 16-byte blocks – 1.  0x7F means "idle / complete" so that
    /// reading HDMA5 returns 0xFF when nothing is active.
    pub hdma_remaining: u8,
    /// True while an HBlank DMA is in progress (as opposed to one-shot GDMA).
    pub hdma_active: bool,
}

pub struct BusView {
    pub cart: CartView,
    pub wram: Seq<u8>,
    pub hram: Seq<u8>,
    pub oam: Seq<u8>,
    pub serial_data: u8,
    pub serial_ctrl: u8,
    pub serial_buf: Seq<u8>,
    pub apu: ApuView,
    pub ppu: PpuView,
    pub timer: Timer,
    pub joypad: Joypad,
    pub interrupts: Interrupts,
    pub wram_bank: u8,
    pub hdma1: u8,
    pub hdma2: u8,
    pub hdma3: u8,
    pub hdma4: u8,
    pub hdma_src: u16,
    pub hdma_dst: u16,
    pub hdma_remaining: u8,
    pub hdma_active: bool,
}

impl View for Bus {
    type V = BusView;

    open spec fn view(&self) -> BusView {
        BusView {
            cart: self.cartridge@,
            wram: self.wram@,
            hram: self.hram@,
            oam: self.oam@,
            serial_data: self.serial_data,
            serial_ctrl: self.serial_ctrl,
            serial_buf: self.serial_buf@,
            apu: self.apu@,
            ppu: self.ppu@,
            timer: self.timer,
            joypad: self.joypad,
            interrupts: self.interrupts,
            wram_bank: self.wram_bank,
            hdma1: self.hdma1,
            hdma2: self.hdma2,
            hdma3: self.hdma3,
            hdma4: self.hdma4,
            hdma_src: self.hdma_src,
            hdma_dst: self.hdma_dst,
            hdma_remaining: self.hdma_remaining,
            hdma_active: self.hdma_active,
        }
    }
}

/// Work RAM index of an address in 0xD000–0xDFFF for the selected bank (at least 1).
pub open spec fn banked_index(bank: u8, addr: u16) -> int {
    (if bank >= 1 { bank as int } else { 1 }) * 0x1000 + (addr - 0xD000)
}

impl BusView {
    pub open spec fn wf(self) -> bool {
        &&& self.wram.len() == 0x8000
        &&& self.hram.len() == 0x7F
        &&& self.oam.len() == 0xA0
        &&& 1 <= self.wram_bank <= 7
        &&& self.apu.wf()
        &&& self.ppu.wf()
        &&& self.ppu.dot < 456
    }

    pub open spec fn initial(cart: CartView) -> BusView {
        BusView {
            cart,
            wram: Seq::new(0x8000, |i: int| 0u8),
            hram: Seq::new(0x7F, |i: int| 0u8),
            oam: Seq::new(0xA0, |i: int| 0u8),
            serial_data: 0,
            serial_ctrl: 0,
            serial_buf: Seq::empty(),
            apu: ApuView::initial(),
            ppu: PpuView::initial(),
            timer: Timer { div_counter: 0, tima: 0, tma: 0, tac: 0 },
            joypad: Joypad { buttons: 0, select: 0xFF },
            interrupts: Interrupts { flags: 0, enable: 0 },
            wram_bank: 1,
            hdma1: 0xFF,
            hdma2: 0xFF,
            hdma3: 0xFF,
            hdma4: 0xFF,
            hdma_src: 0,
            hdma_dst: 0x8000,
            hdma_remaining: 0x7F,
            hdma_active: false,
        }
    }

    /// What the CPU reads at `addr`.
    #[verifier::opaque]
    pub open spec fn read(self, addr: u16) -> u8 {
        if addr <= 0x7FFF {
            self.cart.read(addr)
        } else if addr <= 0x9FFF {
            self.ppu.vram_read(addr)
        } else if addr <= 0xBFFF {
            self.cart.ram_read(addr)
        } else if addr <= 0xCFFF {
            self.wram[addr - 0xC000]
        } else if addr <= 0xDFFF {
            self.wram[banked_index(self.wram_bank, addr)]
        } else if addr <= 0xEFFF {
            self.wram[addr - 0xE000]  // echo of bank 0
        } else if addr <= 0xFDFF {
            self.wram[banked_index(self.wram_bank, (addr - 0x2000) as u16)]  // echo of the switchable bank
        } else if addr <= 0xFE9F {
            self.oam[addr - 0xFE00]
        } else if addr <= 0xFEFF {
            0xFF  // not usable
        } else if addr == 0xFF00 {
            self.joypad.read_spec()
        } else if addr == 0xFF01 {
            self.serial_data
        } else if addr == 0xFF02 {
            self.serial_ctrl
        } else if 0xFF03 <= addr <= 0xFF07 {
            self.timer.read_spec(addr)
        } else if addr == 0xFF0F {
            self.interrupts.flags
        } else if 0xFF10 <= addr <= 0xFF3F {
            self.apu.read(addr)
        } else if 0xFF40 <= addr <= 0xFF4B {
            self.ppu.reg_read(addr)
        } else if addr == 0xFF4F {
            (0xFE + self.ppu.vram_bank) as u8
        } else if addr == 0xFF51 {
            self.hdma1
        } else if addr == 0xFF52 {
            self.hdma2
        } else if addr == 0xFF53 {
            self.hdma3
        } else if addr == 0xFF54 {
            self.hdma4
        } else if addr == 0xFF55 {
            // HDMA5: bit 7 = 0 while HBlank DMA is active, 1 when idle/done.
            if self.hdma_active { self.hdma_remaining & 0x7F } else { 0x80 | self.hdma_remaining }
        } else if 0xFF68 <= addr <= 0xFF6B {
            self.ppu.cgb_palette_read(addr)
        } else if addr == 0xFF70 {
            self.wram_bank
        } else if 0xFF80 <= addr <= 0xFFFE {
            self.hram[addr - 0xFF80]
        } else if addr == 0xFFFF {
            self.interrupts.enable
        } else {
            0xFF
        }
    }

    /// OAM after copying its first `n` bytes from `src` onwards, one read at a time.
    pub open spec fn oam_dma_upto(self, src: int, n: nat) -> BusView
        decreases n,
    {
        if n == 0 {
            self
        } else {
            let w = self.oam_dma_upto(src, (n - 1) as nat);
            BusView { oam: w.oam.update(n - 1, w.read((src + n - 1) as u16)), ..w }
        }
    }

    /// OAM DMA transfer: copy 160 bytes from `base * 0x100` into OAM.
    pub open spec fn oam_dma(self, base: u8) -> BusView {
        self.oam_dma_upto(base as int * 0x100, 0xA0)
    }

    /// One HDMA byte: VRAM at the destination pointer gets the byte at the source
    /// pointer, and both pointers advance.
    pub open spec fn dma_byte(self) -> BusView {
        BusView {
            ppu: self.ppu.vram_write_dma(self.hdma_dst, self.read(self.hdma_src)),
            hdma_src: vstd::wrapping::u16_specs::wrapping_add(self.hdma_src, 1),
            hdma_dst: vstd::wrapping::u16_specs::wrapping_add(self.hdma_dst, 1),
            ..self
        }
    }

    pub open spec fn dma_bytes(self, n: nat) -> BusView
        decreases n,
    {
        if n == 0 {
            self
        } else {
            self.dma_bytes((n - 1) as nat).dma_byte()
        }
    }

    /// One 16-byte HDMA block.
    pub open spec fn dma_block(self) -> BusView {
        self.dma_bytes(16)
    }

    /// General-purpose DMA: blocks until the remaining count reaches zero.
    pub open spec fn gdma_loop(self) -> BusView
        decreases self.hdma_remaining,
    {
        let w = self.dma_block();
        if w.hdma_remaining == 0 || w.hdma_remaining > self.hdma_remaining {
            w
        } else {
            BusView { hdma_remaining: (w.hdma_remaining - 1) as u8, ..w }.gdma_loop()
        }
    }

    /// A write to HDMA5: start general-purpose DMA, start HBlank DMA, or cancel HBlank DMA.
    pub open spec fn write_hdma5(self, val: u8) -> BusView {
        if self.hdma_active && val & 0x80 == 0 {
            BusView { hdma_active: false, ..self }
        } else {
            let v = BusView {
                hdma_src: ((self.hdma1 as u16) << 8u16) | (self.hdma2 as u16),
                hdma_dst: 0x8000u16 | ((self.hdma3 as u16) << 8u16) | (self.hdma4 as u16),
                hdma_remaining: val & 0x7F,
                ..self
            };
            if val & 0x80 == 0 {
                BusView { hdma_remaining: 0x7F, ..v.gdma_loop() }
            } else {
                BusView { hdma_active: true, ..v }
            }
        }
    }

    /// The bus after the CPU writes `val` to `addr`; `now` is the wall-clock time
    /// (Unix seconds) that an MBC3 clock access reads.
    #[verifier::opaque]
    pub open spec fn write(self, addr: u16, val: u8, now: u64) -> BusView {
        if addr <= 0x7FFF {
            BusView { cart: self.cart.write(addr, val, now), ..self }
        } else if addr <= 0x9FFF {
            BusView { ppu: self.ppu.vram_write(addr, val), ..self }
        } else if addr <= 0xBFFF {
            BusView { cart: self.cart.ram_write(addr, val, now), ..self }
        } else if addr <= 0xCFFF {
            BusView { wram: self.wram.update(addr - 0xC000, val), ..self }
        } else if addr <= 0xDFFF {
            BusView { wram: self.wram.update(banked_index(self.wram_bank, addr), val), ..self }
        } else if addr <= 0xEFFF {
            BusView { wram: self.wram.update(addr - 0xE000, val), ..self }
        } else if addr <= 0xFDFF {
            BusView { wram: self.wram.update(banked_index(self.wram_bank, (addr - 0x2000) as u16), val), ..self }
        } else if addr <= 0xFE9F {
            BusView { oam: self.oam.update(addr - 0xFE00, val), ..self }
        } else if addr <= 0xFEFF {
            self  // not usable
        } else if addr == 0xFF00 {
            BusView { joypad: Joypad { select: val & 0x30, ..self.joypad }, ..self }
        } else if addr == 0xFF01 {
            BusView { serial_data: val, ..self }
        } else if addr == 0xFF02 {
            // A transfer starts when 0x81 is written: the byte goes out.
            BusView {
                serial_ctrl: val,
                serial_buf: if val == 0x81 { self.serial_buf.push(self.serial_data) } else { self.serial_buf },
                ..self
            }
        } else if 0xFF03 <= addr <= 0xFF07 {
            BusView { timer: self.timer.write_spec(addr, val), ..self }
        } else if addr == 0xFF0F {
            BusView { interrupts: Interrupts { flags: val, ..self.interrupts }, ..self }
        } else if 0xFF10 <= addr <= 0xFF3F {
            BusView { apu: self.apu.write(addr, val), ..self }
        } else if addr == 0xFF46 {
            self.oam_dma(val)
        } else if 0xFF40 <= addr <= 0xFF4B {
            BusView { ppu: self.ppu.reg_write(addr, val), ..self }
        } else if addr == 0xFF4F {
            BusView { ppu: PpuView { vram_bank: (val % 2) as usize, ..self.ppu }, ..self }
        } else if addr == 0xFF51 {
            BusView { hdma1: val, ..self }
        } else if addr == 0xFF52 {
            BusView { hdma2: val & 0xF0, ..self }
        } else if addr == 0xFF53 {
            BusView { hdma3: val & 0x1F, ..self }
        } else if addr == 0xFF54 {
            BusView { hdma4: val & 0xF0, ..self }
        } else if addr == 0xFF55 {
            self.write_hdma5(val)
        } else if 0xFF68 <= addr <= 0xFF6B {
            BusView { ppu: self.ppu.cgb_palette_write(addr, val), ..self }
        } else if addr == 0xFF70 {
            BusView { wram_bank: if val % 8 == 0 { 1 } else { val % 8 }, ..self }
        } else if 0xFF80 <= addr <= 0xFFFE {
            BusView { hram: self.hram.update(addr - 0xFF80, val), ..self }
        } else if addr == 0xFFFF {
            BusView { interrupts: Interrupts { enable: val, ..self.interrupts }, ..self }
        } else {
            self
        }
    }

    /// One block of HBlank DMA, if one is in progress.
    pub open spec fn hdma_hblank_step(self) -> BusView {
        if !self.hdma_active {
            self
        } else {
            let w = self.dma_block();
            if w.hdma_remaining == 0 {
                BusView { hdma_active: false, hdma_remaining: 0x7F, ..w }
            } else {
                BusView { hdma_remaining: (w.hdma_remaining - 1) as u8, ..w }
            }
        }
    }

    /// Little-endian 16-bit read.
    pub open spec fn read16(self, addr: u16) -> u16 {
        (self.read(vstd::wrapping::u16_specs::wrapping_add(addr, 1)) as int * 256 + self.read(addr)) as u16
    }

    /// Little-endian 16-bit write: low byte at `addr` (clock reading `t1`), then
    /// high byte at `addr + 1` (clock reading `t2`).
    pub open spec fn write16(self, addr: u16, val: u16, t1: u64, t2: u64) -> BusView {
        self.write(addr, (val % 256) as u8, t1).write(vstd::wrapping::u16_specs::wrapping_add(addr, 1), (val / 256) as u8, t2)
    }
}

/// Work RAM (bank 0 and the selected switchable bank) and high RAM: plain
/// memory with no side effects on access.
pub open spec fn is_ram(addr: u16) -> bool {
    (0xC000 <= addr <= 0xDFFF) || (0xFF80 <= addr <= 0xFFFE)
}

/// RAM holds what was last written: a read at the written address gives the
/// value back, a read anywhere else in RAM is unaffected, and the bus stays
/// well formed.
pub proof fn lemma_ram_write_read(b: BusView, addr: u16, other: u16, val: u8, now: u64)
    requires
        b.wf(),
        is_ram(addr),
        is_ram(other),
    ensures
        b.write(addr, val, now).wf(),
        b.write(addr, val, now).read(addr) == val,
        other != addr ==> b.write(addr, val, now).read(other) == b.read(other),
{
    reveal(BusView::write);
    reveal(BusView::read);
}

/// Echo RAM mirrors 0xC000–0xDDFF, the selected switchable bank included: a
/// write on either side reads back on the other, and both sides always read alike.
pub proof fn lemma_echo_ram(b: BusView, addr: u16, val: u8, now: u64)
    requires
        b.wf(),
        0xC000 <= addr <= 0xDDFF,
    ensures
        b.read((addr + 0x2000) as u16) == b.read(addr),
        b.write(addr, val, now).read((addr + 0x2000) as u16) == val,
        b.write((addr + 0x2000) as u16, val, now).read(addr) == val,
{
    reveal(BusView::write);
    reveal(BusView::read);
}

/// Any write to DIV resets it: it then reads 0.
pub proof fn lemma_div_reset(b: BusView, val: u8, now: u64)
    ensures
        b.write(0xFF03, val, now).read(0xFF03) == 0,
{
    reveal(BusView::write);
    reveal(BusView::read);
}

/// DMA bookkeeping never touches the fields that make the bus well formed.
pub proof fn lemma_dma_bytes_wf(v: BusView, n: nat)
    requires
        v.wf(),
    ensures
        v.dma_bytes(n).wf(),
        v.dma_bytes(n).hdma_remaining == v.hdma_remaining,
        v.dma_bytes(n).hdma_active == v.hdma_active,
    decreases n,
{
    if n > 0 {
        lemma_dma_bytes_wf(v, (n - 1) as nat);
    }
}

impl Bus {
    pub fn new(rom: Vec<u8>) -> (r: Self)
        requires
            rom.len() >= 0x14A,
            supported_type(rom@[0x0147]),
        ensures
            r@ == BusView::initial(r@.cart),
            cartridge::loaded_kind(rom@, r@.cart),
            r@.wf(),
    {
        Self {
            cartridge: cartridge::load(rom),
            wram: cartridge::zeroed(0x8000),
            hram: cartridge::zeroed(0x7F),
            oam: cartridge::zeroed(0xA0),
            serial_data: 0,
            serial_ctrl: 0,
            serial_buf: Vec::new(),
            apu: Apu::new(),
            ppu: Ppu::new(),
            timer: Timer::new(),
            joypad: Joypad::new(),
            interrupts: Interrupts::new(),
            wram_bank: 1,
            hdma1: 0xFF,
            hdma2: 0xFF,
            hdma3: 0xFF,
            hdma4: 0xFF,
            hdma_src: 0,
            hdma_dst: 0x8000,
            hdma_remaining: 0x7F,
            hdma_active: false,
        }
    }

    /// Advance all cycle-sensitive components by N machine cycles (N×4 T-cycles).
    pub fn tick_m_cycle(&mut self, cycles: u8)
        requires
            old(self)@.wf(),
        ensures
            final(self)@ == (BusView { apu: old(self)@.apu.step(cycles), ..old(self)@ }),
            final(self)@.wf(),
    {
        self.apu.step(cycles);
    }

    pub fn read(&self, addr: u16) -> (r: u8)
        requires
            self@.wf(),
        ensures
            r == self@.read(addr),
    {
        reveal(BusView::read);
        match addr {
            0x0000..=0x7FFF => self.cartridge.read(addr),
            0x8000..=0x9FFF => self.ppu.vram_read(addr),
            0xA000..=0xBFFF => self.cartridge.ram_read(addr),
            0xC000..=0xCFFF => self.wram[(addr - 0xC000) as usize],
            0xD000..=0xDFFF => {
                let bank = if self.wram_bank >= 1 { self.wram_bank as usize } else { 1 };
                self.wram[bank * 0x1000 + (addr - 0xD000) as usize]
            },
            // Echo RAM: 0xE000–0xFDFF mirrors 0xC000–0xDDFF, switchable bank included.
            0xE000..=0xEFFF => self.wram[(addr - 0xE000) as usize],
            0xF000..=0xFDFF => {
                let bank = if self.wram_bank >= 1 { self.wram_bank as usize } else { 1 };
                self.wram[bank * 0x1000 + (addr - 0xF000) as usize]
            },
            0xFE00..=0xFE9F => self.oam[(addr - 0xFE00) as usize],
            0xFEA0..=0xFEFF => 0xFF,  // not usable
            0xFF00 => self.joypad.read(),
            0xFF01 => self.serial_data,
            0xFF02 => self.serial_ctrl,
            0xFF03..=0xFF07 => self.timer.read(addr),
            0xFF0F => self.interrupts.flags,
            0xFF10..=0xFF3F => self.apu.read(addr),
            0xFF40..=0xFF4B => self.ppu.reg_read(addr),
            0xFF4F => self.ppu.vram_bank_read(),
            0xFF51 => self.hdma1,
            0xFF52 => self.hdma2,
            0xFF53 => self.hdma3,
            0xFF54 => self.hdma4,
            // HDMA5: bit 7 = 0 while HBlank DMA is active, 1 when idle/done.
            // Bits 6-0 = remaining blocks – 1 (0x7F when idle → reads 0xFF).
            0xFF55 => {
                if self.hdma_active {
                    self.hdma_remaining & 0x7F
                } else {
                    0x80 | self.hdma_remaining
                }
            },
            0xFF68..=0xFF6B => self.ppu.cgb_palette_read(addr),
            0xFF70 => self.wram_bank,
            0xFF80..=0xFFFE => self.hram[(addr - 0xFF80) as usize],
            0xFFFF => self.interrupts.enable,
            _ => 0xFF,
        }
    }

    #[verifier::rlimit(60)]
    pub fn write(&mut self, addr: u16, val: u8)
        requires
            old(self)@.wf(),
        ensures
            exists|now: u64| final(self)@ == old(self)@.write(addr, val, now),
            final(self)@.wf(),
    {
        reveal(BusView::write);
        let ghost mut now_witness: u64 = 0;
        match addr {
            0x0000..=0x7FFF => {
                let ghost c0 = self.cartridge@;
                self.cartridge.write(addr, val);
                proof {
                    now_witness = choose|now: u64| self.cartridge@ == c0.write(addr, val, now);
                }
            },
            0x8000..=0x9FFF => self.ppu.vram_write(addr, val),
            0xA000..=0xBFFF => {
                let ghost c0 = self.cartridge@;
                self.cartridge.ram_write(addr, val);
                proof {
                    now_witness = choose|now: u64| self.cartridge@ == c0.ram_write(addr, val, now);
                }
            },
            0xC000..=0xCFFF => self.wram.set((addr - 0xC000) as usize, val),
            0xD000..=0xDFFF => {
                let bank = if self.wram_bank >= 1 { self.wram_bank as usize } else { 1 };
                self.wram.set(bank * 0x1000 + (addr - 0xD000) as usize, val);
            },
            // Echo RAM: 0xE000–0xFDFF mirrors 0xC000–0xDDFF, switchable bank included.
            0xE000..=0xEFFF => self.wram.set((addr - 0xE000) as usize, val),
            0xF000..=0xFDFF => {
                let bank = if self.wram_bank >= 1 { self.wram_bank as usize } else { 1 };
                self.wram.set(bank * 0x1000 + (addr - 0xF000) as usize, val);
            },
            0xFE00..=0xFE9F => self.oam.set((addr - 0xFE00) as usize, val),
            0xFEA0..=0xFEFF => {},  // not usable
            0xFF00 => self.joypad.write(val),
            0xFF01 => self.serial_data = val,
            0xFF02 => {
                self.serial_ctrl = val;
                // Blargg test ROMs signal transfer start by writing 0x81
                if val == 0x81 {
                    self.serial_buf.push(self.serial_data);
                }
            },
            0xFF03..=0xFF07 => self.timer.write(addr, val),
            0xFF0F => self.interrupts.flags = val,
            0xFF10..=0xFF3F => self.apu.write(addr, val),
            0xFF46 => self.oam_dma(val),
            0xFF40..=0xFF4B => self.ppu.reg_write(addr, val),
            0xFF4F => self.ppu.vram_bank_write(val),
            0xFF51 => self.hdma1 = val,
            0xFF52 => self.hdma2 = val & 0xF0,  // lower nibble ignored (16-byte alignment)
            0xFF53 => self.hdma3 = val & 0x1F,  // destination must be in VRAM 0x8000-0x9FFF
            0xFF54 => self.hdma4 = val & 0xF0,  // lower nibble ignored (16-byte alignment)
            0xFF55 => self.write_hdma5(val),
            0xFF68..=0xFF6B => self.ppu.cgb_palette_write(addr, val),
            0xFF70 => {
                assert(val & 0x07 == val % 8) by {
                    lemma_u8(val);
                }
                self.wram_bank = if val & 0x07 == 0 { 1 } else { val & 0x07 };
            },
            0xFF80..=0xFFFE => self.hram.set((addr - 0xFF80) as usize, val),
            0xFFFF => self.interrupts.enable = val,
            _ => {},
        }
        assert(self@ == old(self)@.write(addr, val, now_witness));
    }

    /// OAM DMA transfer: copy 160 bytes from `base * 0x100` into OAM.
    fn oam_dma(&mut self, base: u8)
        requires
            old(self)@.wf(),
        ensures
            final(self)@ == old(self)@.oam_dma(base),
            final(self)@.wf(),
    {
        let src = (base as u16) << 8;
        proof {
            lemma_u16(base as u16);
        }
        let ghost v0 = self@;
        let mut i: u16 = 0;
        while i < 0xA0
            invariant
                i <= 0xA0,
                src == base as int * 0x100,
                v0.wf(),
                self@ == v0.oam_dma_upto(src as int, i as nat),
                self@.wf(),
            decreases 0xA0 - i,
        {
            let b = self.read(src + i);
            self.oam.set(i as usize, b);
            i = i + 1;
        }
    }

    /// Handle a write to HDMA5 (0xFF55): start GDMA, start HBlank DMA, or
    /// cancel an in-progress HBlank DMA.
    fn write_hdma5(&mut self, val: u8)
        requires
            old(self)@.wf(),
        ensures
            final(self)@ == old(self)@.write_hdma5(val),
            final(self)@.wf(),
    {
        if self.hdma_active && val & 0x80 == 0 {
            // Cancel active HBlank DMA.  HDMA5 bit 7 becomes 1 (inactive) on
            // next read; remaining block count is preserved.
            self.hdma_active = false;
            return;
        }
        // Compute source and destination from the four address registers.
        // Source: HDMA1:HDMA2  (HDMA2 lower nibble already zeroed on write)
        // Dest:   0x8000 | (HDMA3 & 0x1F) << 8 | HDMA4  (both aligned to 16)
        self.hdma_src = (self.hdma1 as u16) << 8 | self.hdma2 as u16;
        self.hdma_dst = 0x8000 | (self.hdma3 as u16) << 8 | self.hdma4 as u16;
        self.hdma_remaining = val & 0x7F;

        if val & 0x80 == 0 {
            // General Purpose DMA — transfer all blocks immediately, then idle.
            self.gdma_transfer();
        } else {
            // HBlank DMA — transfer one 16-byte block per HBlank.
            self.hdma_active = true;
        }
    }

    /// General Purpose DMA: copy all blocks in one shot (CPU is frozen on HW).
    fn gdma_transfer(&mut self)
        requires
            old(self)@.wf(),
        ensures
            final(self)@ == (BusView { hdma_remaining: 0x7F, ..old(self)@.gdma_loop() }),
            final(self)@.wf(),
    {
        let ghost v0 = self@;
        loop
            invariant_except_break
                self@.wf(),
                self@.gdma_loop() == v0.gdma_loop(),
            ensures
                self@ == v0.gdma_loop(),
                self@.wf(),
            decreases self.hdma_remaining,
        {
            let ghost before = self@;
            self.hdma_copy_block();
            proof {
                lemma_dma_bytes_wf(before, 16);
            }
            if self.hdma_remaining == 0 {
                break;
            }
            self.hdma_remaining -= 1;
        }
        self.hdma_remaining = 0x7F;  // signal idle/complete
    }

    /// Called by `GameBoy::step` each time the PPU enters HBlank while an
    /// HBlank DMA is active.  Transfers exactly one 16-byte block.
    pub fn hdma_hblank_step(&mut self)
        requires
            old(self)@.wf(),
        ensures
            final(self)@ == old(self)@.hdma_hblank_step(),
            final(self)@.wf(),
    {
        if !self.hdma_active {
            return;
        }
        let ghost before = self@;
        self.hdma_copy_block();
        proof {
            lemma_dma_bytes_wf(before, 16);
        }
        if self.hdma_remaining == 0 {
            self.hdma_active = false;
            self.hdma_remaining = 0x7F;  // signal complete
        } else {
            self.hdma_remaining -= 1;
        }
    }

    /// Copy one 16-byte block from `hdma_src` → VRAM at `hdma_dst`, advancing
    /// both pointers.
    fn hdma_copy_block(&mut self)
        requires
            old(self)@.wf(),
        ensures
            final(self)@ == old(self)@.dma_block(),
            final(self)@.wf(),
    {
        let ghost v0 = self@;
        let mut k: u8 = 0;
        while k < 16
            invariant
                k <= 16,
                v0.wf(),
                self@ == v0.dma_bytes(k as nat),
                self@.wf(),
            decreases 16 - k,
        {
            let src = self.hdma_src;
            let dst = self.hdma_dst;
            let val = self.read(src);
            self.ppu.vram_write_dma(dst, val);
            self.hdma_src = self.hdma_src.wrapping_add(1);
            self.hdma_dst = self.hdma_dst.wrapping_add(1);
            k = k + 1;
        }
    }

    /// A copy of OAM (the PPU reads sprites from it while the bus is borrowed).
    pub fn oam_snapshot(&self) -> (r: Vec<u8>)
        ensures
            r@ == self@.oam,
    {
        self.oam.clone()
    }

    /// Convenience 16-bit read (little-endian).
    pub fn read16(&self, addr: u16) -> (r: u16)
        requires
            self@.wf(),
        ensures
            r == self@.read16(addr),
    {
        let lo = self.read(addr) as u16;
        let hi = self.read(addr.wrapping_add(1)) as u16;
        proof {
            lemma_pair(hi, lo);
        }
        (hi << 8) | lo
    }

    /// Convenience 16-bit write (little-endian).
    pub fn write16(&mut self, addr: u16, val: u16)
        requires
            old(self)@.wf(),
        ensures
            exists|t1: u64, t2: u64| final(self)@ == old(self)@.write16(addr, val, t1, t2),
            final(self)@.wf(),
    {
        let ghost v0 = self@;
        proof {
            lemma_u16(val);
        }
        self.write(addr, val as u8);
        let ghost lo = (val % 256) as u8;
        let ghost t1 = choose|t: u64| self@ == v0.write(addr, lo, t);
        let ghost v1 = self@;
        let addr2 = addr.wrapping_add(1);
        self.write(addr2, (val >> 8) as u8);
        let ghost hi = (val / 256) as u8;
        let ghost t2 = choose|t: u64| self@ == v1.write(addr2, hi, t);
        assert(self@ == v0.write16(addr, val, t1, t2));
    }
}

} // verus!

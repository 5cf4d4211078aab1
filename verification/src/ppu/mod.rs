use vstd::prelude::*;

pub mod render;

pub use render::{Rgb, dmg_color_spec, render_line_spec};

use crate::bits::{lemma_u16, lemma_u8};
verus! {

/// Pixel Processing Unit — DMG + GBC scanline renderer.
///
/// Modes per scanline (456 dots total):
///   Mode 2 (OAM Scan)  — dots 0–79
///   Mode 3 (Draw)      — dots 80–251 (variable, simplified to 172)
///   Mode 0 (HBlank)    — dots 252–455
/// Lines 144–153: Mode 1 (VBlank)
pub struct Ppu {
    /// Two 8KB VRAM banks back to back (bank 1 GBC only; DMG uses bank 0 only)
    pub vram: Vec<u8>,
    pub vram_bank: usize,
    // LCD control / status registers
    pub lcdc: u8,  // 0xFF40
    pub stat: u8,  // 0xFF41
    pub scy: u8,  // 0xFF42
    pub scx: u8,  // 0xFF43
    pub ly: u8,  // 0xFF44 — current scanline
    pub lyc: u8,  // 0xFF45
    pub bgp: u8,  // 0xFF47 — DMG BG palette
    pub obp0: u8,  // 0xFF48
    pub obp1: u8,  // 0xFF49
    pub wy: u8,  // 0xFF4A
    pub wx: u8,  // 0xFF4B
    // GBC color palettes
    pub bcps: u8,  // 0xFF68 BG palette spec
    pub bcpd: Vec<u8>,  // 0xFF69 BG palette data (8 palettes × 4 colors × 2 bytes)
    pub ocps: u8,  // 0xFF6A OBJ palette spec
    pub ocpd: Vec<u8>,  // 0xFF6B OBJ palette data
    /// True when running a GBC ROM — enables CGB palette and tile attribute rendering.
    pub cgb_mode: bool,
    // Internal state
    pub dot: u16,  // dot counter within current scanline
    pub mode: u8,  // current PPU mode (0–3)
    /// Completed frame framebuffer: 160×144 pixels, 3 bytes (RGB) each.
    pub framebuffer: Vec<u8>,
    /// Set to true on VBlank start; cleared by the main loop after blitting.
    pub frame_ready: bool,
    /// Interrupt flags to request (caller checks after each step)
    pub int_vblank: bool,
    pub int_stat: bool,
    /// Set true for one step when the PPU enters HBlank (mode 0); cleared at
    /// the start of each step.  Used by the bus to trigger HBlank DMA.
    pub hblank_triggered: bool,
}

/// Abstract PPU state: the registers, with the byte arrays as sequences.
pub struct PpuView {
    pub vram: Seq<u8>,
    pub vram_bank: usize,
    pub lcdc: u8,
    pub stat: u8,
    pub scy: u8,
    pub scx: u8,
    pub ly: u8,
    pub lyc: u8,
    pub bgp: u8,
    pub obp0: u8,
    pub obp1: u8,
    pub wy: u8,
    pub wx: u8,
    pub bcps: u8,
    pub bcpd: Seq<u8>,
    pub ocps: u8,
    pub ocpd: Seq<u8>,
    pub cgb_mode: bool,
    pub dot: u16,
    pub mode: u8,
    pub framebuffer: Seq<u8>,
    pub frame_ready: bool,
    pub int_vblank: bool,
    pub int_stat: bool,
    pub hblank_triggered: bool,
}

impl View for Ppu {
    type V = PpuView;

    open spec fn view(&self) -> PpuView {
        PpuView {
            vram: self.vram@,
            vram_bank: self.vram_bank,
            lcdc: self.lcdc,
            stat: self.stat,
            scy: self.scy,
            scx: self.scx,
            ly: self.ly,
            lyc: self.lyc,
            bgp: self.bgp,
            obp0: self.obp0,
            obp1: self.obp1,
            wy: self.wy,
            wx: self.wx,
            bcps: self.bcps,
            bcpd: self.bcpd@,
            ocps: self.ocps,
            ocpd: self.ocpd@,
            cgb_mode: self.cgb_mode,
            dot: self.dot,
            mode: self.mode,
            framebuffer: self.framebuffer@,
            frame_ready: self.frame_ready,
            int_vblank: self.int_vblank,
            int_stat: self.int_stat,
            hblank_triggered: self.hblank_triggered,
        }
    }
}

/// Bytes in the framebuffer: 160×144 pixels of 3 bytes.
pub open spec fn fb_len() -> nat {
    160 * 144 * 3
}

impl PpuView {
    /// The shapes the renderer relies on, and the line/mode pairing that keeps
    /// the line counter from overflowing.
    pub open spec fn wf(self) -> bool {
        &&& self.vram.len() == 0x4000
        &&& self.vram_bank < 2
        &&& self.bcpd.len() == 64
        &&& self.ocpd.len() == 64
        &&& self.framebuffer.len() == fb_len()
        &&& self.mode <= 3
        &&& (self.mode == 1 ==> self.ly <= 153)
        &&& (self.mode != 1 ==> self.ly < 144)
    }

    pub open spec fn initial() -> PpuView {
        PpuView {
            vram: Seq::new(0x4000, |i: int| 0u8),
            vram_bank: 0,
            lcdc: 0x91,
            stat: 0,
            scy: 0,
            scx: 0,
            ly: 0,
            lyc: 0,
            bgp: 0xFC,
            obp0: 0xFF,
            obp1: 0xFF,
            wy: 0,
            wx: 0,
            bcps: 0,
            bcpd: Seq::new(64, |i: int| 0xFFu8),
            ocps: 0,
            ocpd: Seq::new(64, |i: int| 0xFFu8),
            cgb_mode: false,
            dot: 0,
            mode: 2,
            framebuffer: Seq::new(fb_len(), |i: int| 0u8),
            frame_ready: false,
            int_vblank: false,
            int_stat: false,
            hblank_triggered: false,
        }
    }

    /// CPU read of VRAM (0x8000–0x9FFF): the selected bank, or 0xFF while drawing.
    pub open spec fn vram_read(self, addr: u16) -> u8 {
        if self.mode == 3 {
            0xFF
        } else {
            self.vram[self.vram_bank * 0x2000 + (addr - 0x8000)]
        }
    }

    pub open spec fn vram_write(self, addr: u16, val: u8) -> PpuView {
        if self.mode == 3 {
            self
        } else {
            PpuView { vram: self.vram.update(self.vram_bank * 0x2000 + (addr - 0x8000), val), ..self }
        }
    }

    /// DMA write: no mode-3 guard, address taken modulo the 8KB bank window.
    pub open spec fn vram_write_dma(self, addr: u16, val: u8) -> PpuView {
        PpuView { vram: self.vram.update(self.vram_bank * 0x2000 + addr % 0x2000, val), ..self }
    }

    pub open spec fn reg_read(self, addr: u16) -> u8 {
        if addr == 0xFF40 {
            self.lcdc
        } else if addr == 0xFF41 {
            self.stat | 0x80
        } else if addr == 0xFF42 {
            self.scy
        } else if addr == 0xFF43 {
            self.scx
        } else if addr == 0xFF44 {
            self.ly
        } else if addr == 0xFF45 {
            self.lyc
        } else if addr == 0xFF47 {
            self.bgp
        } else if addr == 0xFF48 {
            self.obp0
        } else if addr == 0xFF49 {
            self.obp1
        } else if addr == 0xFF4A {
            self.wy
        } else if addr == 0xFF4B {
            self.wx
        } else {
            0xFF
        }
    }

    pub open spec fn set_mode(self, mode: u8) -> PpuView {
        PpuView { mode, stat: (self.stat & 0xF8) | (mode & 0x03), ..self }
    }

    pub open spec fn reg_write(self, addr: u16, val: u8) -> PpuView {
        if addr == 0xFF40 {
            if self.lcdc & 0x80 != 0 && val & 0x80 == 0 {
                // LCD turned off: mode 0, LY=0, dot=0.
                PpuView { lcdc: val, ly: 0, dot: 0, ..self }.set_mode(0)
            } else {
                PpuView { lcdc: val, ..self }
            }
        } else if addr == 0xFF41 {
            PpuView { stat: (self.stat & 0x07) | (val & 0x78), ..self }
        } else if addr == 0xFF42 {
            PpuView { scy: val, ..self }
        } else if addr == 0xFF43 {
            PpuView { scx: val, ..self }
        } else if addr == 0xFF45 {
            PpuView { lyc: val, ..self }
        } else if addr == 0xFF47 {
            PpuView { bgp: val, ..self }
        } else if addr == 0xFF48 {
            PpuView { obp0: val, ..self }
        } else if addr == 0xFF49 {
            PpuView { obp1: val, ..self }
        } else if addr == 0xFF4A {
            PpuView { wy: val, ..self }
        } else if addr == 0xFF4B {
            PpuView { wx: val, ..self }
        } else {
            self
        }
    }

    pub open spec fn cgb_palette_read(self, addr: u16) -> u8 {
        if addr == 0xFF68 {
            self.bcps
        } else if addr == 0xFF69 {
            self.bcpd[(self.bcps % 64) as int]
        } else if addr == 0xFF6A {
            self.ocps
        } else if addr == 0xFF6B {
            self.ocpd[(self.ocps % 64) as int]
        } else {
            0xFF
        }
    }

    /// Palette spec register after a data write: index advanced (within 0–63)
    /// when auto-increment (bit 7) is set.
    pub open spec fn advance_spec(ps: u8) -> u8 {
        if ps >= 0x80 {
            (0x80 + (ps % 64 + 1) % 64) as u8
        } else {
            ps
        }
    }

    pub open spec fn cgb_palette_write(self, addr: u16, val: u8) -> PpuView {
        if addr == 0xFF68 {
            PpuView { bcps: val, ..self }
        } else if addr == 0xFF69 {
            PpuView {
                bcpd: self.bcpd.update((self.bcps % 64) as int, val),
                bcps: Self::advance_spec(self.bcps),
                ..self
            }
        } else if addr == 0xFF6A {
            PpuView { ocps: val, ..self }
        } else if addr == 0xFF6B {
            PpuView {
                ocpd: self.ocpd.update((self.ocps % 64) as int, val),
                ocps: Self::advance_spec(self.ocps),
                ..self
            }
        } else {
            self
        }
    }

    /// LY=LYC coincidence check: STAT bit 2, and the STAT interrupt when bit 6 enables it.
    pub open spec fn check_lyc(self) -> PpuView {
        if self.ly == self.lyc {
            let stat = self.stat | 0x04;
            PpuView { stat, int_stat: if stat & 0x40 != 0 { true } else { self.int_stat }, ..self }
        } else {
            PpuView { stat: self.stat & !0x04u8, ..self }
        }
    }

    /// `int_stat` raised when STAT has `bit` set.
    pub open spec fn raise_stat_if(self, bit: u8) -> PpuView {
        if self.stat & bit != 0 {
            PpuView { int_stat: true, ..self }
        } else {
            self
        }
    }

    /// State after `cycles` machine cycles (4 dots each), `oam` being the sprite table.
    #[verifier::opaque]
    pub open spec fn step(self, cycles: u8, oam: Seq<u8>) -> PpuView {
        let v = PpuView { int_vblank: false, int_stat: false, hblank_triggered: false, ..self };
        if self.lcdc & 0x80 == 0 {
            v
        } else {
            let dot = (self.dot + cycles as int * 4) as u16;
            let v = PpuView { dot, ..v };
            if self.mode == 2 {
                if dot >= 80 {
                    PpuView { dot: (dot - 80) as u16, ..v }.set_mode(3)
                } else {
                    v
                }
            } else if self.mode == 3 {
                if dot >= 172 {
                    let v = PpuView { dot: (dot - 172) as u16, ..v };
                    let v = PpuView { framebuffer: render_line_spec(v, oam), ..v };
                    PpuView { hblank_triggered: true, ..v.set_mode(0) }.raise_stat_if(0x08)
                } else {
                    v
                }
            } else if self.mode == 0 {
                if dot >= 204 {
                    let v = PpuView { dot: (dot - 204) as u16, ly: (self.ly + 1) as u8, ..v }.check_lyc();
                    if v.ly == 144 {
                        PpuView { int_vblank: true, frame_ready: true, ..v.set_mode(1) }.raise_stat_if(0x10)
                    } else {
                        v.set_mode(2).raise_stat_if(0x20)
                    }
                } else {
                    v
                }
            } else if self.mode == 1 {
                if dot >= 456 {
                    let v = PpuView { dot: (dot - 456) as u16, ly: (self.ly + 1) as u8, ..v }.check_lyc();
                    if v.ly > 153 {
                        PpuView { ly: 0, ..v }.set_mode(2).raise_stat_if(0x20)
                    } else {
                        v
                    }
                } else {
                    v
                }
            } else {
                v
            }
        }
    }
}

/// A `len`-long vector holding `x` everywhere.
pub fn filled(x: u8, len: usize) -> (r: Vec<u8>)
    ensures
        r@ == Seq::new(len as nat, |i: int| x),
{
    let mut v: Vec<u8> = Vec::with_capacity(len);
    let mut i: usize = 0;
    while i < len
        invariant
            i <= len,
            v@ == Seq::new(i as nat, |j: int| x),
        decreases len - i,
    {
        v.push(x);
        i = i + 1;
        assert(v@ =~= Seq::new(i as nat, |j: int| x));
    }
    v
}

impl Ppu {
    pub fn new() -> (r: Self)
        ensures
            r@ == PpuView::initial(),
            r@.wf(),
    {
        Self {
            vram: filled(0, 0x4000),
            vram_bank: 0,
            lcdc: 0x91,
            stat: 0,
            scy: 0,
            scx: 0,
            ly: 0,
            lyc: 0,
            bgp: 0xFC,
            obp0: 0xFF,
            obp1: 0xFF,
            wy: 0,
            wx: 0,
            bcps: 0,
            bcpd: filled(0xFF, 64),
            ocps: 0,
            ocpd: filled(0xFF, 64),
            cgb_mode: false,
            dot: 0,
            mode: 2,
            framebuffer: filled(0, 160 * 144 * 3),
            frame_ready: false,
            int_vblank: false,
            int_stat: false,
            hblank_triggered: false,
        }
    }

    // -----------------------------------------------------------------------
    // VRAM access
    // -----------------------------------------------------------------------
    pub fn vram_read(&self, addr: u16) -> (r: u8)
        requires
            self@.wf(),
            0x8000 <= addr <= 0x9FFF,
        ensures
            r == self@.vram_read(addr),
    {
        // VRAM inaccessible during mode 3
        if self.mode == 3 {
            return 0xFF;
        }
        self.vram[self.vram_bank * 0x2000 + (addr - 0x8000) as usize]
    }

    pub fn vram_write(&mut self, addr: u16, val: u8)
        requires
            old(self)@.wf(),
            0x8000 <= addr <= 0x9FFF,
        ensures
            final(self)@ == old(self)@.vram_write(addr, val),
    {
        if self.mode == 3 {
            return;
        }
        let idx = self.vram_bank * 0x2000 + (addr - 0x8000) as usize;
        self.vram.set(idx, val);
    }

    pub fn vram_bank_read(&self) -> (r: u8)
        requires
            self@.wf(),
        ensures
            r == 0xFE + self.vram_bank,
    {
        proof {
            lemma_u8(self.vram_bank as u8);
        }
        0xFE | self.vram_bank as u8
    }

    pub fn vram_bank_write(&mut self, val: u8)
        ensures
            final(self)@ == (PpuView { vram_bank: (val % 2) as usize, ..old(self)@ }),
    {
        proof {
            lemma_u8(val);
        }
        self.vram_bank = (val & 0x01) as usize;
    }

    /// Write to VRAM without the mode-3 access guard.
    /// Used exclusively by HDMA/GDMA, which run outside CPU execution.
    /// The address is masked to the 8KB bank window so overflowing transfers
    /// wrap within VRAM rather than panicking.
    pub fn vram_write_dma(&mut self, addr: u16, val: u8)
        requires
            old(self)@.wf(),
        ensures
            final(self)@ == old(self)@.vram_write_dma(addr, val),
    {
        proof {
            lemma_u16(addr);
        }
        let idx = (addr & 0x1FFF) as usize;
        self.vram.set(self.vram_bank * 0x2000 + idx, val);
    }

    // -----------------------------------------------------------------------
    // I/O register access
    // -----------------------------------------------------------------------
    pub fn reg_read(&self, addr: u16) -> (r: u8)
        ensures
            r == self@.reg_read(addr),
    {
        match addr {
            0xFF40 => self.lcdc,
            0xFF41 => self.stat | 0x80,  // bit 7 always set
            0xFF42 => self.scy,
            0xFF43 => self.scx,
            0xFF44 => self.ly,
            0xFF45 => self.lyc,
            0xFF47 => self.bgp,
            0xFF48 => self.obp0,
            0xFF49 => self.obp1,
            0xFF4A => self.wy,
            0xFF4B => self.wx,
            _ => 0xFF,
        }
    }

    pub fn reg_write(&mut self, addr: u16, val: u8)
        requires
            old(self)@.wf(),
        ensures
            final(self)@ == old(self)@.reg_write(addr, val),
            final(self)@.wf(),
    {
        match addr {
            0xFF40 => {
                let was_on = self.lcdc & 0x80 != 0;
                self.lcdc = val;
                if was_on && val & 0x80 == 0 {
                    // LCD turned off: real hardware resets to mode 0, LY=0, dot=0
                    // so VRAM is accessible and next enable starts from a clean state.
                    self.ly = 0;
                    self.dot = 0;
                    self.set_mode(0);
                }
            },
            0xFF41 => self.stat = (self.stat & 0x07) | (val & 0x78),
            0xFF42 => self.scy = val,
            0xFF43 => self.scx = val,
            0xFF44 => {},  // LY is read-only
            0xFF45 => self.lyc = val,
            0xFF46 => {},  // OAM DMA handled by Bus
            0xFF47 => self.bgp = val,
            0xFF48 => self.obp0 = val,
            0xFF49 => self.obp1 = val,
            0xFF4A => self.wy = val,
            0xFF4B => self.wx = val,
            _ => {},
        }
    }

    pub fn cgb_palette_read(&self, addr: u16) -> (r: u8)
        requires
            self@.wf(),
        ensures
            r == self@.cgb_palette_read(addr),
    {
        proof {
            lemma_u8(self.bcps);
            lemma_u8(self.ocps);
        }
        match addr {
            0xFF68 => self.bcps,
            0xFF69 => self.bcpd[(self.bcps & 0x3F) as usize],
            0xFF6A => self.ocps,
            0xFF6B => self.ocpd[(self.ocps & 0x3F) as usize],
            _ => 0xFF,
        }
    }

    pub fn cgb_palette_write(&mut self, addr: u16, val: u8)
        requires
            old(self)@.wf(),
        ensures
            final(self)@ == old(self)@.cgb_palette_write(addr, val),
    {
        let (b, o) = (self.bcps, self.ocps);
        proof {
            lemma_u8(b);
            lemma_u8(o);
            lemma_u8(((b & 0x3F) + 1) as u8);
            lemma_u8(((o & 0x3F) + 1) as u8);
            lemma_u8(((b & 0x3F) + 1) as u8 & 0x3F);
            lemma_u8(((o & 0x3F) + 1) as u8 & 0x3F);
            assert(b >= 0x80 ==> (b & 0x80) | (((b & 0x3F) + 1) as u8 & 0x3F) == (0x80 + (b % 64 + 1) % 64) as u8);
            assert(o >= 0x80 ==> (o & 0x80) | (((o & 0x3F) + 1) as u8 & 0x3F) == (0x80 + (o % 64 + 1) % 64) as u8);
        }
        match addr {
            0xFF68 => self.bcps = val,
            0xFF69 => {
                let idx = (self.bcps & 0x3F) as usize;
                self.bcpd.set(idx, val);
                if self.bcps & 0x80 != 0 {
                    self.bcps = (self.bcps & 0x80) | ((idx as u8 + 1) & 0x3F);
                }
            },
            0xFF6A => self.ocps = val,
            0xFF6B => {
                let idx = (self.ocps & 0x3F) as usize;
                self.ocpd.set(idx, val);
                if self.ocps & 0x80 != 0 {
                    self.ocps = (self.ocps & 0x80) | ((idx as u8 + 1) & 0x3F);
                }
            },
            _ => {},
        }
    }

    // -----------------------------------------------------------------------
    // Step
    // -----------------------------------------------------------------------
    /// Advance the PPU by `cycles` machine cycles (4 dots each), rendering a
    /// scanline on entry to HBlank and raising the interrupt flags.
    #[verifier::rlimit(60)]
    pub fn step(&mut self, cycles: u8, oam: &[u8])
        requires
            old(self)@.wf(),
            oam.len() == 0xA0,
            old(self).dot + cycles as int * 4 <= 0xFFFF,
        ensures
            final(self)@ == old(self)@.step(cycles, oam@),
            final(self)@.wf(),
            old(self).dot < 456 && cycles <= 20 ==> final(self).dot < 456,
    {
        reveal(PpuView::step);
        self.int_vblank = false;
        self.int_stat = false;
        self.hblank_triggered = false;

        if self.lcdc & 0x80 == 0 {
            // LCD off
            return;
        }
        let dots = cycles as u16 * 4;
        self.dot += dots;

        match self.mode {
            2 => {
                // OAM scan
                if self.dot >= 80 {
                    self.dot -= 80;
                    self.set_mode(3);
                }
            },
            3 => {
                // Drawing
                if self.dot >= 172 {
                    self.dot -= 172;
                    self.render_scanline(oam);
                    self.set_mode(0);
                    self.hblank_triggered = true;
                    if self.stat & 0x08 != 0 {
                        self.int_stat = true;
                    }
                }
            },
            0 => {
                // HBlank
                if self.dot >= 204 {
                    self.dot -= 204;
                    self.ly += 1;
                    self.check_lyc();
                    if self.ly == 144 {
                        self.set_mode(1);
                        self.int_vblank = true;
                        self.frame_ready = true;
                        if self.stat & 0x10 != 0 {
                            self.int_stat = true;
                        }
                    } else {
                        self.set_mode(2);
                        if self.stat & 0x20 != 0 {
                            self.int_stat = true;
                        }
                    }
                }
            },
            1 => {
                // VBlank — 10 lines × 456 dots
                if self.dot >= 456 {
                    self.dot -= 456;
                    self.ly += 1;
                    self.check_lyc();
                    if self.ly > 153 {
                        self.ly = 0;
                        self.set_mode(2);
                        if self.stat & 0x20 != 0 {
                            self.int_stat = true;
                        }
                    }
                }
            },
            _ => {},
        }
    }

    fn set_mode(&mut self, mode: u8)
        ensures
            final(self)@ == old(self)@.set_mode(mode),
    {
        self.mode = mode;
        self.stat = (self.stat & 0xF8) | (mode & 0x03);
    }

    fn check_lyc(&mut self)
        ensures
            final(self)@ == old(self)@.check_lyc(),
    {
        if self.ly == self.lyc {
            self.stat |= 0x04;
            if self.stat & 0x40 != 0 {
                self.int_stat = true;
            }
        } else {
            self.stat &= !0x04;
        }
    }
}

/// VRAM holds what the CPU last wrote while the PPU is not drawing; while it
/// draws (mode 3) writes are dropped and reads give 0xFF.
pub proof fn lemma_vram_write_read(p: PpuView, addr: u16, val: u8)
    requires
        p.wf(),
        0x8000 <= addr <= 0x9FFF,
    ensures
        p.mode != 3 ==> p.vram_write(addr, val).vram_read(addr) == val,
        p.mode == 3 ==> p.vram_write(addr, val) == p && p.vram_read(addr) == 0xFF,
{
}

} // verus!

use vstd::prelude::*;
use super::{Cartridge, byte_or_ff, get_or_ff, overlay, overlay_into, zeroed};

use crate::bits::lemma_u8;
verus! {

/// The bank number that the two bank registers select, as arithmetic.
proof fn lemma_bank_bits(ram_bank: usize, rom_bank: usize)
    by (bit_vector)
    requires
        ram_bank < 256,
        rom_bank < 256,
    ensures
        ram_bank << 5usize == ram_bank * 32,
        (ram_bank << 5usize) | (rom_bank & 0x1F) == ram_bank * 32 + rom_bank % 32,
{
}

/// MBC1 — up to 2MB ROM / 32KB RAM with bank switching.
/// Used by Pokemon Red/Blue, Tetris, and many others.
pub struct Mbc1 {
    pub rom: Vec<u8>,
    pub ram: Vec<u8>,
    pub ram_enabled: bool,
    pub rom_bank: u8,
    pub ram_bank: u8,
    pub banking_mode: u8,  // 0=ROM banking, 1=RAM banking
}

pub struct Mbc1View {
    pub rom: Seq<u8>,
    pub ram: Seq<u8>,
    pub ram_enabled: bool,
    pub rom_bank: u8,
    pub ram_bank: u8,
    pub banking_mode: u8,
}

impl View for Mbc1 {
    type V = Mbc1View;

    open spec fn view(&self) -> Mbc1View {
        Mbc1View {
            rom: self.rom@,
            ram: self.ram@,
            ram_enabled: self.ram_enabled,
            rom_bank: self.rom_bank,
            ram_bank: self.ram_bank,
            banking_mode: self.banking_mode,
        }
    }
}

/// External RAM size in bytes selected by header byte 0x0149 for MBC1.
pub open spec fn mbc1_ram_bytes(code: u8) -> nat {
    if code == 0x00 {
        0
    } else if code == 0x03 {
        32 * 1024
    } else {
        8 * 1024
    }
}

impl Mbc1View {
    pub open spec fn initial(rom: Seq<u8>, ram_size_code: u8) -> Mbc1View {
        Mbc1View {
            rom,
            ram: Seq::new(mbc1_ram_bytes(ram_size_code), |i: int| 0u8),
            ram_enabled: false,
            rom_bank: 1,
            ram_bank: 0,
            banking_mode: 0,
        }
    }

    /// ROM byte offset that address `addr` (0x0000–0x7FFF) maps to.
    pub open spec fn rom_offset(self, addr: u16) -> int {
        if addr < 0x4000 {
            let bank: int = if self.banking_mode == 1 { self.ram_bank as int * 32 } else { 0 };
            bank * 0x4000 + addr
        } else {
            let bank: int = self.ram_bank as int * 32 + self.rom_bank as int % 32;
            bank * 0x4000 + (addr - 0x4000)
        }
    }

    pub open spec fn read(self, addr: u16) -> u8 {
        byte_or_ff(self.rom, self.rom_offset(addr))
    }

    pub open spec fn write(self, addr: u16, val: u8) -> Mbc1View {
        if addr <= 0x1FFF {
            Mbc1View { ram_enabled: val % 16 == 0x0A, ..self }
        } else if addr <= 0x3FFF {
            // Bank 0 translates to bank 1 (hardware quirk)
            Mbc1View { rom_bank: if val % 32 == 0 { 1 } else { val % 32 }, ..self }
        } else if addr <= 0x5FFF {
            Mbc1View { ram_bank: val % 4, ..self }
        } else if addr <= 0x7FFF {
            Mbc1View { banking_mode: val % 2, ..self }
        } else {
            self
        }
    }

    /// RAM byte offset that address `addr` (0xA000–0xBFFF) maps to.
    pub open spec fn ram_offset(self, addr: u16) -> int {
        if self.banking_mode == 1 {
            self.ram_bank as int * 0x2000 + (addr - 0xA000)
        } else {
            addr - 0xA000
        }
    }

    pub open spec fn ram_read(self, addr: u16) -> u8 {
        if !self.ram_enabled || self.ram.len() == 0 {
            0xFF
        } else {
            byte_or_ff(self.ram, self.ram_offset(addr))
        }
    }

    pub open spec fn ram_write(self, addr: u16, val: u8) -> Mbc1View {
        let off = self.ram_offset(addr);
        if !self.ram_enabled || self.ram.len() == 0 || !(0 <= off < self.ram.len()) {
            self
        } else {
            Mbc1View { ram: self.ram.update(off, val), ..self }
        }
    }
}

impl Mbc1 {
    pub fn new(rom: Vec<u8>, ram_size_code: u8) -> (r: Self)
        ensures
            r@ == Mbc1View::initial(rom@, ram_size_code),
    {
        let ram_bytes: usize = match ram_size_code {
            0x00 => 0,
            0x02 => 8 * 1024,
            0x03 => 32 * 1024,
            _ => 8 * 1024,
        };
        Self {
            rom,
            ram: zeroed(ram_bytes),
            ram_enabled: false,
            rom_bank: 1,
            ram_bank: 0,
            banking_mode: 0,
        }
    }

    fn rom_offset(&self, addr: u16) -> (r: usize)
        ensures
            r == self@.rom_offset(addr),
    {
        let bank: usize = if addr < 0x4000 {
            if self.banking_mode == 1 {
                (self.ram_bank as usize) << 5
            } else {
                0
            }
        } else {
            let base = ((self.ram_bank as usize) << 5) | (self.rom_bank as usize & 0x1F);
            base
        };
        proof {
            lemma_bank_bits(self.ram_bank as usize, self.rom_bank as usize);
        }
        let bank_offset: usize = if addr < 0x4000 { addr as usize } else { (addr as usize) - 0x4000 };
        bank * 0x4000 + bank_offset
    }

    fn ram_offset(&self, addr: u16) -> (r: usize)
        requires
            0xA000 <= addr,
        ensures
            r == self@.ram_offset(addr),
    {
        if self.banking_mode == 1 {
            self.ram_bank as usize * 0x2000 + (addr as usize - 0xA000)
        } else {
            addr as usize - 0xA000
        }
    }
}

impl Cartridge for Mbc1 {
    fn read(&self, addr: u16) -> (r: u8)
        ensures
            r == self@.read(addr),
    {
        let offset = self.rom_offset(addr);
        get_or_ff(&self.rom, offset)
    }

    fn write(&mut self, addr: u16, val: u8)
        ensures
            final(self)@ == old(self)@.write(addr, val),
    {
        proof {
            lemma_u8(val);
        }
        match addr {
            0x0000..=0x1FFF => {
                self.ram_enabled = val & 0x0F == 0x0A;
            },
            0x2000..=0x3FFF => {
                let bank = val & 0x1F;
                // Bank 0 translates to bank 1 (hardware quirk)
                self.rom_bank = if bank == 0 { 1 } else { bank };
            },
            0x4000..=0x5FFF => {
                self.ram_bank = val & 0x03;
            },
            0x6000..=0x7FFF => {
                self.banking_mode = val & 0x01;
            },
            _ => {},
        }
    }

    open spec fn ram_access_ok(&self, addr: u16) -> bool {
        !(self.ram_enabled && self.ram.len() > 0) || 0xA000 <= addr
    }

    fn ram_read(&self, addr: u16) -> (r: u8)
        ensures
            r == self@.ram_read(addr),
    {
        if !self.ram_enabled || self.ram.is_empty() {
            return 0xFF;
        }
        let offset = self.ram_offset(addr);
        get_or_ff(&self.ram, offset)
    }

    fn ram_write(&mut self, addr: u16, val: u8)
        ensures
            final(self)@ == old(self)@.ram_write(addr, val),
    {
        if !self.ram_enabled || self.ram.is_empty() {
            return;
        }
        let offset = self.ram_offset(addr);
        if offset < self.ram.len() {
            self.ram.set(offset, val);
        }
    }

    fn save_ram(&self) -> (r: Vec<u8>)
        ensures
            r@ == self@.ram,
    {
        self.ram.clone()
    }

    fn load_ram(&mut self, data: &[u8])
        ensures
            final(self)@ == (Mbc1View { ram: overlay(old(self)@.ram, data@), ..old(self)@ }),
    {
        overlay_into(&mut self.ram, data);
    }
}

/// Enabled external RAM holds what was last written at an address it covers.
pub proof fn lemma_ram_write_read(c: Mbc1View, addr: u16, val: u8)
    requires
        c.ram_enabled,
        0 <= c.ram_offset(addr) < c.ram.len(),
    ensures
        c.ram_write(addr, val).ram_read(addr) == val,
{
}

/// RAM banking on a 32 KB cartridge with RAM enabled. In RAM banking mode
/// (mode 1) the bank written to 0x4000–0x5FFF selects which 8 KB of RAM the
/// window 0xA000–0xBFFF shows: address `a` of bank `k` is RAM byte
/// `k * 0x2000 + (a - 0xA000)`, a write reads back in its own bank and is not
/// seen from any other bank. In ROM banking mode (mode 0) the window always
/// shows bank 0, whatever bank is selected.
pub proof fn lemma_ram_banking(c: Mbc1View, a: u16, k: u8, j: u8, val: u8)
    requires
        c.ram_enabled,
        c.ram.len() == 0x8000,
        0xA000 <= a <= 0xBFFF,
        k < 4,
        j < 4,
    ensures
        c.banking_mode == 1 ==> c.write(0x4000, k).ram_read(a) == c.ram[k * 0x2000 + (a - 0xA000)],
        c.banking_mode == 1 ==> c.write(0x4000, k).ram_write(a, val).ram_read(a) == val,
        c.banking_mode == 1 && k != j ==> c.write(0x4000, k).ram_write(a, val).write(0x4000, j).ram_read(a)
            == c.write(0x4000, j).ram_read(a),
        c.banking_mode == 0 ==> c.write(0x4000, k).ram_read(a) == c.ram[a - 0xA000],
{
}

} // verus!

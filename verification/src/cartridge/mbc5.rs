use vstd::prelude::*;
use super::{Cartridge, byte_or_ff, get_or_ff, zeroed};

use crate::bits::{lemma_or_byte, lemma_u16, lemma_u8};
verus! {

/// MBC5 — up to 8MB ROM / 128KB RAM with 9-bit bank register.
/// Used by Pokemon Yellow, Gold/Silver, and many GBC games.
pub struct Mbc5 {
    pub rom: Vec<u8>,
    pub ram: Vec<u8>,
    pub ram_enabled: bool,
    pub rom_bank: u16,  // 9-bit (0–511)
    pub ram_bank: u8,  // 4-bit (0–15)
}

pub struct Mbc5View {
    pub rom: Seq<u8>,
    pub ram: Seq<u8>,
    pub ram_enabled: bool,
    pub rom_bank: u16,
    pub ram_bank: u8,
}

impl View for Mbc5 {
    type V = Mbc5View;

    open spec fn view(&self) -> Mbc5View {
        Mbc5View {
            rom: self.rom@,
            ram: self.ram@,
            ram_enabled: self.ram_enabled,
            rom_bank: self.rom_bank,
            ram_bank: self.ram_bank,
        }
    }
}

/// External RAM size in bytes selected by header byte 0x0149 for MBC5.
pub open spec fn mbc5_ram_bytes(code: u8) -> nat {
    if code == 0x02 {
        8 * 1024
    } else if code == 0x03 {
        32 * 1024
    } else if code == 0x04 {
        128 * 1024
    } else {
        0
    }
}

impl Mbc5View {
    pub open spec fn initial(rom: Seq<u8>, ram_size_code: u8) -> Mbc5View {
        Mbc5View {
            rom,
            ram: Seq::new(mbc5_ram_bytes(ram_size_code), |i: int| 0u8),
            ram_enabled: false,
            rom_bank: 1,
            ram_bank: 0,
        }
    }

    pub open spec fn read(self, addr: u16) -> u8 {
        if addr <= 0x3FFF {
            byte_or_ff(self.rom, addr as int)
        } else if addr <= 0x7FFF {
            byte_or_ff(self.rom, self.rom_bank as int * 0x4000 + (addr - 0x4000))
        } else {
            0xFF
        }
    }

    pub open spec fn write(self, addr: u16, val: u8) -> Mbc5View {
        if addr <= 0x1FFF {
            Mbc5View { ram_enabled: val % 16 == 0x0A, ..self }
        } else if addr <= 0x2FFF {
            // Low eight bits of the bank number.
            Mbc5View { rom_bank: (self.rom_bank / 256 % 2 * 256 + val) as u16, ..self }
        } else if addr <= 0x3FFF {
            // Ninth bit of the bank number.
            Mbc5View { rom_bank: (self.rom_bank % 256 + val % 2 * 256) as u16, ..self }
        } else if addr <= 0x5FFF {
            Mbc5View { ram_bank: val % 16, ..self }
        } else {
            self
        }
    }

    pub open spec fn ram_offset(self, addr: u16) -> int {
        self.ram_bank as int * 0x2000 + (addr - 0xA000)
    }

    pub open spec fn ram_read(self, addr: u16) -> u8 {
        if !self.ram_enabled || self.ram.len() == 0 {
            0xFF
        } else {
            byte_or_ff(self.ram, self.ram_offset(addr))
        }
    }

    pub open spec fn ram_write(self, addr: u16, val: u8) -> Mbc5View {
        let off = self.ram_offset(addr);
        if !self.ram_enabled || self.ram.len() == 0 || !(0 <= off < self.ram.len()) {
            self
        } else {
            Mbc5View { ram: self.ram.update(off, val), ..self }
        }
    }
}

impl Mbc5 {
    pub fn new(rom: Vec<u8>, ram_size_code: u8) -> (r: Self)
        ensures
            r@ == Mbc5View::initial(rom@, ram_size_code),
    {
        let ram_bytes: usize = match ram_size_code {
            0x02 => 8 * 1024,
            0x03 => 32 * 1024,
            0x04 => 128 * 1024,
            _ => 0,
        };
        Self { rom, ram: zeroed(ram_bytes), ram_enabled: false, rom_bank: 1, ram_bank: 0 }
    }
}

impl Cartridge for Mbc5 {
    fn read(&self, addr: u16) -> (r: u8)
        ensures
            r == self@.read(addr),
    {
        let offset: usize = match addr {
            0x0000..=0x3FFF => addr as usize,
            0x4000..=0x7FFF => self.rom_bank as usize * 0x4000 + (addr as usize - 0x4000),
            _ => return 0xFF,
        };
        get_or_ff(&self.rom, offset)
    }

    fn write(&mut self, addr: u16, val: u8)
        ensures
            final(self)@ == old(self)@.write(addr, val),
    {
        let rb = self.rom_bank;
        proof {
            lemma_u8(val);
            lemma_u16(rb);
            lemma_u16(val as u16);
            lemma_u16((val as u16) & 0x01);
            lemma_or_byte(rb & 0x100, val as u16);
            lemma_or_byte(((val as u16) & 0x01) << 8u16, rb & 0x0FF);
        }
        match addr {
            0x0000..=0x1FFF => {
                self.ram_enabled = val & 0x0F == 0x0A;
            },
            0x2000..=0x2FFF => {
                self.rom_bank = (self.rom_bank & 0x100) | val as u16;
            },
            0x3000..=0x3FFF => {
                self.rom_bank = (self.rom_bank & 0x0FF) | ((val as u16 & 0x01) << 8);
            },
            0x4000..=0x5FFF => {
                self.ram_bank = val & 0x0F;
            },
            _ => {},
        }
    }

    open spec fn ram_access_ok(&self, addr: u16) -> bool {
        !(self.ram_enabled && self.ram.len() > 0) || 0xA000 <= addr
    }

    fn ram_read(&self, addr: u16) -> (r: u8)
        ensures
            r == self@.ram_read(addr),
    {
        if !self.ram_enabled || self.ram.is_empty() {
            return 0xFF;
        }
        let offset = self.ram_bank as usize * 0x2000 + (addr as usize - 0xA000);
        get_or_ff(&self.ram, offset)
    }

    fn ram_write(&mut self, addr: u16, val: u8)
        ensures
            final(self)@ == old(self)@.ram_write(addr, val),
    {
        if !self.ram_enabled || self.ram.is_empty() {
            return;
        }
        let offset = self.ram_bank as usize * 0x2000 + (addr as usize - 0xA000);
        if offset < self.ram.len() {
            self.ram.set(offset, val);
        }
    }

    fn save_ram(&self) -> (r: Vec<u8>)
        ensures
            r@ == Seq::<u8>::empty(),
    {
        Vec::new()
    }

    fn load_ram(&mut self, _data: &[u8])
        ensures
            final(self)@ == old(self)@,
    {
    }
}

} // verus!

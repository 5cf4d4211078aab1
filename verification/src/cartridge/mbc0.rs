use vstd::prelude::*;
use super::{Cartridge, byte_or_ff, get_or_ff};

verus! {

/// MBC0 — ROM only, no banking. Up to 32KB.
pub struct Mbc0 {
    pub rom: Vec<u8>,
}

pub struct Mbc0View {
    pub rom: Seq<u8>,
}

impl View for Mbc0 {
    type V = Mbc0View;

    open spec fn view(&self) -> Mbc0View {
        Mbc0View { rom: self.rom@ }
    }
}

impl Mbc0View {
    pub open spec fn read(self, addr: u16) -> u8 {
        byte_or_ff(self.rom, addr as int)
    }
}

impl Mbc0 {
    pub fn new(rom: Vec<u8>) -> (r: Self)
        ensures
            r@ == (Mbc0View { rom: rom@ }),
    {
        Self { rom }
    }
}

impl Cartridge for Mbc0 {
    fn read(&self, addr: u16) -> (r: u8)
        ensures
            r == self@.read(addr),
    {
        get_or_ff(&self.rom, addr as usize)
    }

    fn write(&mut self, _addr: u16, _val: u8)
        ensures
            final(self)@ == old(self)@,
    {
        // No writable registers on MBC0
    }

    open spec fn ram_access_ok(&self, addr: u16) -> bool {
        true
    }

    fn ram_read(&self, _addr: u16) -> (r: u8)
        ensures
            r == 0xFF,
    {
        0xFF
    }

    fn ram_write(&mut self, _addr: u16, _val: u8)
        ensures
            final(self)@ == old(self)@,
    {
    }

    fn save_ram(&self) -> (r: Vec<u8>)
        ensures
            r@ == Seq::<u8>::empty(),
    {
        Vec::new()
    }

    fn load_ram(&mut self, _data: &[u8])
        ensures
            final(self)@ == old(self)@,
    {
    }
}

} // verus!

use vibeboy::apu::Apu;
use vibeboy::bus::Bus;
use vibeboy::cartridge::{Cartridge, CartridgeHeader, Mbc1, Mbc3};
use vibeboy::config::Config;
use vibeboy::cpu::{Cpu, Registers};
use vibeboy::dmg_palette::{auto_palette, resolve, title_checksum};
use vibeboy::gameboy::GameBoy;
use vibeboy::interrupts::Interrupts;
use vibeboy::joypad::Joypad;
use vibeboy::timer::Timer;

/// A 32 KB ROM-only cartridge image whose code starts at 0x0100.
fn rom_with(code: &[u8]) -> Vec<u8> {
    let mut rom = vec![0u8; 0x8000];
    for (i, &b) in code.iter().enumerate() {
        rom[0x0100 + i] = b;
    }
    rom
}

// ---------------------------------------------------------------------------
// Bus: RAM, echo RAM, banking, DIV
// ---------------------------------------------------------------------------

#[test]
fn ram_reads_back_what_was_written() {
    let mut bus = Bus::new(rom_with(&[]));
    bus.write(0xC123, 0x5A);
    bus.write(0xFF90, 0x12);
    assert_eq!(bus.read(0xC123), 0x5A);
    assert_eq!(bus.read(0xFF90), 0x12);
    assert_eq!(bus.read(0xC124), 0x00);
    assert_eq!(bus.read(0xFF91), 0x00);
}

#[test]
fn echo_ram_mirrors_work_ram() {
    let mut bus = Bus::new(rom_with(&[]));
    bus.write(0xC123, 0x5A);
    assert_eq!(bus.read(0xE123), 0x5A);
    bus.write(0xE200, 0x77);
    assert_eq!(bus.read(0xC200), 0x77);
    // The upper half mirrors the selected switchable bank.
    bus.write(0xFF70, 2);
    bus.write(0xD000, 0x3C);
    assert_eq!(bus.read(0xF000), 0x3C);
    bus.write(0xFDFF, 0x4D);
    assert_eq!(bus.read(0xDDFF), 0x4D);
    bus.write(0xFF70, 1);
    assert_eq!(bus.read(0xF000), 0x00);
}

#[test]
fn wram_bank_switching() {
    let mut bus = Bus::new(rom_with(&[]));
    bus.write(0xD000, 0xAB);
    bus.write(0xFF70, 2);
    assert_eq!(bus.read(0xFF70), 2);
    assert_eq!(bus.read(0xD000), 0x00);
    bus.write(0xFF70, 1);
    assert_eq!(bus.read(0xD000), 0xAB);
    // Bank 0 selects bank 1.
    bus.write(0xFF70, 0);
    assert_eq!(bus.read(0xFF70), 1);
}

#[test]
fn div_write_resets_counter() {
    let mut bus = Bus::new(rom_with(&[]));
    bus.timer.step(255, &mut bus.interrupts);
    assert_eq!(bus.read(0xFF03), 3);
    bus.write(0xFF03, 0x99);
    assert_eq!(bus.read(0xFF03), 0);
}

#[test]
fn read16_write16_little_endian() {
    let mut bus = Bus::new(rom_with(&[]));
    bus.write16(0xC010, 0xBEEF);
    assert_eq!(bus.read(0xC010), 0xEF);
    assert_eq!(bus.read(0xC011), 0xBE);
    assert_eq!(bus.read16(0xC010), 0xBEEF);
}

#[test]
fn oam_dma_copies_160_bytes() {
    let mut bus = Bus::new(rom_with(&[]));
    bus.write(0xC000, 0x11);
    bus.write(0xC09F, 0x22);
    bus.write(0xFF46, 0xC0);
    assert_eq!(bus.read(0xFE00), 0x11);
    assert_eq!(bus.read(0xFE9F), 0x22);
}

#[test]
fn serial_transfer_collects_byte() {
    let mut bus = Bus::new(rom_with(&[]));
    bus.write(0xFF01, b'P');
    bus.write(0xFF02, 0x81);
    bus.write(0xFF01, b'X');
    bus.write(0xFF02, 0x01);
    assert_eq!(bus.serial_buf, vec![b'P']);
}

// ---------------------------------------------------------------------------
// CPU registers and stack
// ---------------------------------------------------------------------------

#[test]
fn register_pairs_read_back() {
    let mut r = Registers::default();
    r.set_bc(0xBEEF);
    r.set_de(0x1234);
    r.set_hl(0xC0DE);
    r.set_af(0x12FF);
    assert_eq!(r.bc(), 0xBEEF);
    assert_eq!((r.b, r.c), (0xBE, 0xEF));
    assert_eq!(r.de(), 0x1234);
    assert_eq!(r.hl(), 0xC0DE);
    // The low nibble of F always reads as zero.
    assert_eq!(r.af(), 0x12F0);
}

#[test]
fn flags_read_back_and_keep_low_nibble() {
    let mut r = Registers::default();
    r.f = 0x0F;
    r.set_flags(true, false, true, false);
    assert!(r.flag_z());
    assert!(!r.flag_n());
    assert!(r.flag_h());
    assert!(!r.flag_c());
    assert_eq!(r.f, 0xAF);
    r.set_flag_c(true);
    r.set_flag_z(false);
    assert_eq!(r.f, 0x3F);
}

#[test]
fn push_then_pop_restores_value_and_sp() {
    let mut cpu = Cpu::new(false);
    let mut bus = Bus::new(rom_with(&[]));
    cpu.push16(&mut bus, 0xABCD);
    assert_eq!(cpu.reg.sp, 0xFFFC);
    assert_eq!(bus.read(0xFFFD), 0xAB);
    assert_eq!(bus.read(0xFFFC), 0xCD);
    assert_eq!(cpu.pop16(&mut bus), 0xABCD);
    assert_eq!(cpu.reg.sp, 0xFFFE);
}

#[test]
fn post_boot_registers() {
    let dmg = Cpu::new(false);
    assert_eq!(dmg.reg.af(), 0x01B0);
    assert_eq!(dmg.reg.bc(), 0x0013);
    assert_eq!(dmg.reg.de(), 0x00D8);
    assert_eq!(dmg.reg.hl(), 0x014D);
    assert_eq!((dmg.reg.sp, dmg.reg.pc), (0xFFFE, 0x0100));
    let gbc = Cpu::new(true);
    assert_eq!(gbc.reg.a, 0x11);
}

#[test]
fn halt_waits_for_interrupt() {
    let mut cpu = Cpu::new(false);
    let mut bus = Bus::new(rom_with(&[0x76, 0x00]));
    assert_eq!(cpu.step(&mut bus), 1); // HALT
    assert_eq!(cpu.step(&mut bus), 1);
    assert_eq!(cpu.reg.pc, 0x0101);
    // A pending interrupt ends HALT even with IME clear.
    bus.interrupts.enable = 0x04;
    bus.interrupts.flags = 0x04;
    cpu.step(&mut bus);
    assert_eq!(cpu.reg.pc, 0x0102);
}

#[test]
fn undefined_opcode_is_skipped() {
    let mut cpu = Cpu::new(false);
    let mut bus = Bus::new(rom_with(&[0xD3]));
    assert_eq!(cpu.step(&mut bus), 1);
    assert_eq!(cpu.reg.pc, 0x0101);
}

#[test]
fn add_sp_negative_offset() {
    // LD SP, 0xC010 ; ADD SP, -2
    let mut cpu = Cpu::new(false);
    let mut bus = Bus::new(rom_with(&[0x31, 0x10, 0xC0, 0xE8, 0xFE]));
    cpu.step(&mut bus);
    assert_eq!(cpu.step(&mut bus), 4);
    assert_eq!(cpu.reg.sp, 0xC00E);
    // 0x10 + 0xFE: carry out of bit 7, none out of bit 3.
    assert!(cpu.reg.flag_c());
    assert!(!cpu.reg.flag_h());
}

#[test]
fn jr_backwards() {
    // NOP ; JR -3 (back to 0x0100)
    let mut cpu = Cpu::new(false);
    let mut bus = Bus::new(rom_with(&[0x00, 0x18, 0xFD]));
    cpu.step(&mut bus);
    cpu.step(&mut bus);
    assert_eq!(cpu.reg.pc, 0x0100);
}

#[test]
fn rst_pushes_return_address() {
    let mut cpu = Cpu::new(false);
    let mut bus = Bus::new(rom_with(&[0xEF])); // RST 0x28
    assert_eq!(cpu.step(&mut bus), 4);
    assert_eq!(cpu.reg.pc, 0x0028);
    assert_eq!(bus.read16(cpu.reg.sp), 0x0101);
}

#[test]
fn reti_enables_interrupts() {
    // CALL 0x0104 ; (0x0103) NOP ; (0x0104) RETI
    let mut cpu = Cpu::new(false);
    let mut bus = Bus::new(rom_with(&[0xCD, 0x04, 0x01, 0x00, 0xD9]));
    cpu.step(&mut bus);
    cpu.step(&mut bus);
    assert_eq!(cpu.reg.pc, 0x0103);
    assert!(cpu.ime);
}

#[test]
fn cb_hl_operand_cycles() {
    // LD HL, 0xC000 ; SET 0, (HL) ; BIT 0, (HL)
    let mut cpu = Cpu::new(false);
    let mut bus = Bus::new(rom_with(&[0x21, 0x00, 0xC0, 0xCB, 0xC6, 0xCB, 0x46]));
    cpu.step(&mut bus);
    assert_eq!(cpu.step(&mut bus), 4);
    assert_eq!(bus.read(0xC000), 0x01);
    assert_eq!(cpu.step(&mut bus), 3);
    assert!(!cpu.reg.flag_z());
}

// ---------------------------------------------------------------------------
// Interrupts, joypad, timer
// ---------------------------------------------------------------------------

#[test]
fn interrupt_priority_and_ack() {
    let mut ints = Interrupts::new();
    assert_eq!(ints.pending(), None);
    ints.enable = 0x05;
    ints.request(2);
    assert_eq!(ints.pending(), Some(2));
    ints.request(0);
    assert_eq!(ints.pending(), Some(0));
    ints.request(1); // not enabled
    ints.ack(0);
    assert_eq!(ints.pending(), Some(2));
    ints.ack(2);
    assert_eq!(ints.pending(), None);
    assert_eq!(ints.flags, 0x02);
}

#[test]
fn joypad_press_and_release() {
    let mut pad = Joypad::new();
    let mut ints = Interrupts::new();
    pad.write(0x20); // select the d-pad
    assert_eq!(pad.read(), 0xEF);
    pad.press(0, &mut ints); // Right
    assert_eq!(pad.read(), 0xEE);
    assert_eq!(ints.flags, 0x10);
    pad.release(0);
    assert_eq!(pad.read(), 0xEF);
    // Action buttons are not visible while the d-pad is selected.
    pad.press(4, &mut ints); // A
    assert_eq!(pad.read(), 0xEF);
    pad.write(0x10); // select the action buttons
    assert_eq!(pad.read(), 0xDE);
}

#[test]
fn timer_overflow_reloads_and_requests_interrupt() {
    let mut t = Timer::new();
    let mut ints = Interrupts::new();
    t.write(0xFF07, 0x05); // enabled, 16 T-cycles per tick
    t.write(0xFF06, 0xF0);
    t.write(0xFF05, 0xFE);
    t.step(8, &mut ints); // 32 T-cycles: two ticks
    assert_eq!(t.read(0xFF05), 0xF0);
    assert_eq!(ints.flags & 0x04, 0x04);
    assert_eq!(t.read(0xFF07), 0x05);
}

#[test]
fn timer_disabled_only_counts_div() {
    let mut t = Timer::new();
    let mut ints = Interrupts::new();
    t.write(0xFF07, 0xF8); // stored as 0x00: disabled
    assert_eq!(t.read(0xFF07), 0x00);
    t.step(128, &mut ints);
    assert_eq!(t.read(0xFF03), 2);
    assert_eq!(t.read(0xFF05), 0);
    assert_eq!(ints.flags, 0);
}

// ---------------------------------------------------------------------------
// Cartridges
// ---------------------------------------------------------------------------

#[test]
fn header_title_is_trimmed_and_decoded() {
    let mut rom = vec![0u8; 0x8000];
    rom[0x0134..0x013A].copy_from_slice(b"\0TETRI");
    rom[0x013A] = b'S';
    rom[0x0147] = 0x01;
    let h = CartridgeHeader::parse(&rom);
    assert_eq!(h.title, "TETRIS");
    assert_eq!(h.cartridge_type, 0x01);
    assert!(!h.is_gbc());

    // The CGB flag is the last title byte: 0x80 and 0xC0 ask for colour.
    let mut rom = vec![0u8; 0x8000];
    rom[0x0143] = 0xC0;
    assert!(CartridgeHeader::parse(&rom).is_gbc());
    rom[0x0143] = 0x80;
    assert!(CartridgeHeader::parse(&rom).is_gbc());

    // Bytes that are not UTF-8 become U+FFFD.
    let mut rom = vec![0u8; 0x8000];
    rom[0x0134] = 0xFF;
    rom[0x0135] = b'A';
    let h = CartridgeHeader::parse(&rom);
    assert_eq!(h.title, "\u{FFFD}A");
    assert!(!h.is_gbc());
}

#[test]
fn mbc1_rom_bank_switching() {
    let mut rom = vec![0u8; 0x10000];
    rom[0x4000] = 0x11;
    rom[0x8000] = 0x22;
    rom[0xC000] = 0x33;
    let mut cart = Mbc1::new(rom, 0);
    assert_eq!(cart.read(0x4000), 0x11);
    cart.write(0x2000, 2);
    assert_eq!(cart.read(0x4000), 0x22);
    cart.write(0x2000, 3);
    assert_eq!(cart.read(0x4000), 0x33);
    // Bank 0 selects bank 1.
    cart.write(0x2000, 0);
    assert_eq!(cart.read(0x4000), 0x11);
    // Reads past the end of the ROM give 0xFF.
    cart.write(0x2000, 5);
    assert_eq!(cart.read(0x4000), 0xFF);
}

#[test]
fn mbc1_ram_enable_and_save_load() {
    let mut cart = Mbc1::new(vec![0u8; 0x8000], 0x02);
    cart.ram_write(0xA000, 0x42);
    assert_eq!(cart.ram_read(0xA000), 0xFF); // RAM disabled
    cart.write(0x0000, 0x0A);
    cart.ram_write(0xA000, 0x42);
    assert_eq!(cart.ram_read(0xA000), 0x42);
    let saved = cart.save_ram();
    assert_eq!(saved.len(), 0x2000);
    let mut other = Mbc1::new(vec![0u8; 0x8000], 0x02);
    other.load_ram(&saved);
    other.write(0x0000, 0x0A);
    assert_eq!(other.ram_read(0xA000), 0x42);
}

#[test]
fn mbc3_save_holds_ram_and_clock() {
    let mut cart = Mbc3::new(vec![0u8; 0x8000], 0x02);
    cart.write(0x0000, 0x0A);
    cart.ram_write(0xA123, 0x99);
    let saved = cart.save_ram();
    assert_eq!(saved.len(), 0x2000 + 18);
    let mut other = Mbc3::new(vec![0u8; 0x8000], 0x02);
    other.load_ram(&saved);
    other.write(0x0000, 0x0A);
    assert_eq!(other.ram_read(0xA123), 0x99);
    assert_eq!(other.save_ram(), saved);
}

// ---------------------------------------------------------------------------
// APU
// ---------------------------------------------------------------------------

#[test]
fn apu_power_off_silences_registers() {
    let mut apu = Apu::new();
    apu.write(0xFF26, 0x00);
    assert_eq!(apu.read(0xFF26), 0x70);
    assert_eq!(apu.read(0xFF24), 0xFF);
    apu.write(0xFF24, 0x77); // ignored while off
    apu.write(0xFF26, 0x80);
    assert_eq!(apu.read(0xFF26), 0xF0);
    assert_eq!(apu.read(0xFF24), 0x00);
}

// ---------------------------------------------------------------------------
// DMG palettes and configuration
// ---------------------------------------------------------------------------

#[test]
fn checksum_sums_first_sixteen_bytes() {
    assert_eq!(title_checksum(b"ABC"), 0xC6);
    assert_eq!(title_checksum(&[0x10u8; 17]), 0x00);
    assert_eq!(title_checksum(&[]), 0x00);
}

#[test]
fn auto_palette_table_lookup() {
    // Checksum 0x00 → colour sets 4, 29, 28.
    let p = auto_palette(&[0u8; 16]);
    assert_eq!(p.bg, [0xFF, 0x7F, 0x1F, 0x42, 0xF2, 0x1C, 0x00, 0x00]);
    assert_eq!(p.obj0, [0xFF, 0x7F, 0xEF, 0x1B, 0x80, 0x61, 0x00, 0x00]);
    assert_eq!(p.obj1, [0xFF, 0x7F, 0x8C, 0x7E, 0x00, 0x7C, 0x00, 0x00]);
}

#[test]
fn auto_palette_alternative_by_fourth_byte() {
    // Checksum 0xB3 with fourth byte 0x42 → alternative sets 4, 28, 29.
    let p = auto_palette(&[0x00, 0x00, 0x00, 0x42, 0x71]);
    assert_eq!(p.bg, [0xFF, 0x7F, 0x1F, 0x42, 0xF2, 0x1C, 0x00, 0x00]);
    // Same checksum, another fourth byte → sets 19, 22, 9.
    let p = auto_palette(&[0x00, 0x00, 0x00, 0x41, 0x72]);
    assert_eq!(p.bg, [0x9F, 0x29, 0x1A, 0x00, 0x0C, 0x00, 0x00, 0x00]);
}

#[test]
fn auto_palette_falls_back_to_grey() {
    let p = auto_palette(&[0x02]);
    assert_eq!(p.bg, [0xFF, 0x7F, 0xB5, 0x56, 0x8C, 0x31, 0x00, 0x00]);
    assert_eq!(p.obj0, p.bg);
    assert_eq!(p.obj1, p.bg);
}

#[test]
fn resolve_by_name() {
    let grey = resolve("grey", &[0u8; 16]);
    assert_eq!(grey.bg, [0xFF, 0x7F, 0xB5, 0x56, 0x8C, 0x31, 0x00, 0x00]);
    let green = resolve("green", &[0u8; 16]);
    assert_eq!(green.bg, [0xDC, 0x73, 0xD1, 0x46, 0x86, 0x19, 0x61, 0x04]);
    assert_eq!(green.obj1, green.bg);
    let auto = resolve("auto", &[0u8; 16]);
    assert_eq!(auto.bg, [0xFF, 0x7F, 0x1F, 0x42, 0xF2, 0x1C, 0x00, 0x00]);
}

#[test]
fn default_config() {
    let c = Config::default();
    assert_eq!(c.display.scale, 3);
    assert_eq!(c.keybindings.right, "Right");
    assert_eq!(c.keybindings.a, "X");
    assert_eq!(c.keybindings.b, "Z");
    assert_eq!(c.keybindings.start, "Return");
    assert_eq!(c.keybindings.select, "LShift");
    assert_eq!(c.keybindings.quit, "Escape");
}

// ---------------------------------------------------------------------------
// Whole system
// ---------------------------------------------------------------------------

#[test]
fn gameboy_runs_a_frame() {
    // A tight loop: JR -2.
    let mut gb = GameBoy::new(rom_with(&[0x18, 0xFE]));
    assert_eq!(gb.cpu.reg.pc, 0x0100);
    let mut steps = 0u32;
    while !gb.step() {
        steps += 1;
        assert!(steps < 20_000, "no frame completed");
    }
    assert_eq!(gb.bus.ppu.ly, 144);
    assert_eq!(gb.bus.interrupts.flags & 0x01, 0x01);
    assert_eq!(gb.framebuffer().len(), 160 * 144 * 3);
    assert!(!gb.bus.ppu.frame_ready);
}

#[test]
fn gameboy_color_mode_from_header() {
    let mut rom = rom_with(&[]);
    rom[0x0143] = 0xC0;
    let gb = GameBoy::new(rom);
    assert_eq!(gb.cpu.reg.a, 0x11);
    assert!(gb.bus.ppu.cgb_mode);
    assert!(gb.bus.apu.is_gbc);
}

#[test]
fn vram_reads_back_outside_drawing() {
    let mut ppu = vibeboy::ppu::Ppu::new();
    ppu.vram_write(0x8123, 0x5C);
    assert_eq!(ppu.vram_read(0x8123), 0x5C);
    // While drawing (mode 3) VRAM is locked.
    ppu.step(20, &[0u8; 0xA0]);
    assert_eq!(ppu.mode, 3);
    assert_eq!(ppu.vram_read(0x8123), 0xFF);
    ppu.vram_write(0x8123, 0x00);
    ppu.step(43, &[0u8; 0xA0]);
    assert_eq!(ppu.vram_read(0x8123), 0x5C);
}

#[test]
fn disabled_ram_answers_any_address() {
    let cart = Mbc1::new(vec![0u8; 0x8000], 0x02);
    assert_eq!(cart.ram_read(0x1234), 0xFF);
    let mbc0 = vibeboy::cartridge::Mbc0::new(vec![0u8; 0x8000]);
    assert_eq!(mbc0.ram_read(0x0000), 0xFF);
}

#[test]
fn header_parses_from_0x14a_bytes() {
    let mut rom = vec![0u8; 0x14A];
    rom[0x0147] = 0x03;
    rom[0x0149] = 0x02;
    let h = CartridgeHeader::parse(&rom);
    assert_eq!(h.cartridge_type, 0x03);
    assert_eq!(h.ram_size, 0x02);
    assert_eq!(h.title, "");
}

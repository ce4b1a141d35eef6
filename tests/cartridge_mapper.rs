use sadnes::bus::Interconnect;
use sadnes::cartridge::{Cartridge, LoadError, Mirroring};
use sadnes::mapper::{create_mapper, Mapper, Mapper3, Vram};
use sadnes::memory::Memory;

fn image(prg_banks: u8, chr_banks: u8, flags6: u8, flags7: u8) -> Vec<u8> {
    let mut bytes = vec![0x4E, 0x45, 0x53, 0x1A, prg_banks, chr_banks, flags6, flags7, 0, 0, 0, 0, 0, 0, 0, 0];
    if flags6 & 0x04 != 0 {
        bytes.extend_from_slice(&vec![0xEEu8; 512]);
    }
    for bank in 0..prg_banks {
        bytes.extend_from_slice(&vec![bank; 0x4000]);
    }
    for bank in 0..chr_banks {
        bytes.extend_from_slice(&vec![0x40 + bank; 0x2000]);
    }
    bytes
}

#[test]
fn load_rejects_bad_magic() {
    let mut bytes = image(1, 1, 0, 0);
    bytes[3] = 0x1B;
    assert_eq!(Cartridge::load(&bytes).err(), Some(LoadError::InvalidFormat));
    assert_eq!(Cartridge::load(&vec![0x4E, 0x45, 0x53]).err(), Some(LoadError::InvalidFormat));
}

#[test]
fn load_rejects_truncated_image() {
    let mut bytes = image(2, 1, 0, 0);
    bytes.truncate(bytes.len() - 1);
    assert_eq!(Cartridge::load(&bytes).err(), Some(LoadError::InvalidFormat));
}

#[test]
fn load_rejects_unsupported_mapper() {
    let bytes = image(1, 1, 0x40, 0x00);
    assert_eq!(Cartridge::load(&bytes).err(), Some(LoadError::UnsupportedMapper(4)));
    let bytes = image(1, 1, 0x10, 0x10);
    assert_eq!(Cartridge::load(&bytes).err(), Some(LoadError::UnsupportedMapper(0x11)));
}

#[test]
fn load_reads_banks_mirroring_and_mapper() {
    let c = Cartridge::load(&image(2, 1, 0x31, 0x00)).unwrap();
    assert_eq!(c.mapper, 3);
    assert_eq!(c.mirroring, Mirroring::Vertical);
    assert_eq!(c.prg_rom.len(), 0x8000);
    assert_eq!(c.prg_rom[0x4000], 1);
    assert_eq!(c.chr.len(), 0x2000);
    assert_eq!(c.chr[0], 0x40);
    assert!(!c.chr_is_ram);
    let c = Cartridge::load(&image(1, 1, 0x08, 0x00)).unwrap();
    assert_eq!(c.mirroring, Mirroring::FourScreen);
}

#[test]
fn load_skips_trainer_and_gives_chr_ram() {
    let c = Cartridge::load(&image(1, 0, 0x14, 0x00)).unwrap();
    assert_eq!(c.mapper, 1);
    assert_eq!(c.prg_rom[0], 0);
    assert_eq!(c.prg_rom.len(), 0x4000);
    assert!(c.chr_is_ram);
    assert_eq!(c.chr, vec![0u8; 0x2000]);
    assert_eq!(c.mirroring, Mirroring::Horizontal);
}

#[test]
fn mirroring_modes() {
    assert_eq!(Mirroring::Horizontal.mirror_address(0x2400), 0x0400);
    assert_eq!(Mirroring::Horizontal.mirror_address(0x2800), 0x0000);
    assert_eq!(Mirroring::Vertical.mirror_address(0x2400), 0x0000);
    assert_eq!(Mirroring::Vertical.mirror_address(0x2800), 0x0400);
    assert_eq!(Mirroring::SingleLower.mirror_address(0x2C05), 0x0005);
    assert_eq!(Mirroring::SingleUpper.mirror_address(0x2005), 0x0405);
    assert_eq!(Mirroring::FourScreen.mirror_address(0x2C05), 0x0C05);
    assert_eq!(Mirroring::Vertical.mirror_address(0x3C05), 0x0405);
}

#[test]
fn nrom_mirrors_a_single_prg_bank() {
    let mut bytes = image(1, 1, 0, 0);
    bytes[16 + 0x0123] = 0x77;
    let mapper = create_mapper(Box::new(Cartridge::load(&bytes).unwrap()));
    assert_eq!(mapper.prg_read_byte(0x8123), 0x77);
    assert_eq!(mapper.prg_read_byte(0xC123), 0x77);
    assert_eq!(mapper.prg_read_byte(0x6000), 0);
}

#[test]
fn nrom_drops_writes_to_chr_rom() {
    let mut mapper = create_mapper(Box::new(Cartridge::load(&image(1, 1, 0, 0)).unwrap()));
    let mut vram = Vram::new();
    mapper.ppu_write_byte(&mut vram, 0x0010, 0x99);
    assert_eq!(mapper.ppu_read_byte(&vram, 0x0010), 0x40);
    mapper.ppu_write_byte(&mut vram, 0x2401, 0x55);
    assert_eq!(mapper.ppu_read_byte(&vram, 0x2401), 0x55);
    assert_eq!(mapper.ppu_read_byte(&vram, 0x2001), 0x00);
    assert_eq!(mapper.ppu_read_byte(&vram, 0x2C01), 0x55);
}

#[test]
fn chr_ram_takes_writes() {
    let mut mapper = create_mapper(Box::new(Cartridge::load(&image(1, 0, 0, 0)).unwrap()));
    let mut vram = Vram::new();
    mapper.ppu_write_byte(&mut vram, 0x1FFF, 0x99);
    assert_eq!(mapper.ppu_read_byte(&vram, 0x1FFF), 0x99);
}

#[test]
fn mapper3_bank_wrap() {
    let mut mapper = create_mapper(Box::new(Cartridge::load(&image(1, 4, 0x30, 0)).unwrap()));
    let vram = Vram::new();
    assert_eq!(mapper.ppu_read_byte(&vram, 0x0000), 0x40);
    mapper.prg_write_byte(0x8000, 6);
    match &*mapper {
        Mapper::Mapper3(m) => assert_eq!(m.chr_bank, 2),
        _ => panic!("expected mapper 3"),
    }
    assert_eq!(mapper.ppu_read_byte(&vram, 0x0000), 0x42);
    assert_eq!(mapper.ppu_read_byte(&vram, 0x1FFF), 0x42);
    mapper.prg_write_byte(0xFFFF, 3);
    assert_eq!(mapper.ppu_read_byte(&vram, 0x0100), 0x43);
}

#[test]
fn mapper3_new_starts_at_bank_zero() {
    let m = Mapper3::new(Box::new(Cartridge::load(&image(1, 2, 0x30, 0)).unwrap()));
    assert_eq!(m.chr_bank, 0);
}

fn mmc1() -> Box<Mapper> {
    create_mapper(Box::new(Cartridge::load(&image(4, 2, 0x10, 0)).unwrap()))
}

fn mmc1_control(mapper: &Mapper) -> (u8, u8, u8) {
    match mapper {
        Mapper::Mmc1(m) => (m.regs.control, m.regs.shift, m.regs.count),
        _ => panic!("expected mapper 1"),
    }
}

#[test]
fn mmc1_serial_load() {
    let mut mapper = mmc1();
    mapper.prg_write_byte(0x8000, 0x01);
    mapper.prg_write_byte(0x8000, 0x80);
    let (control, shift, count) = mmc1_control(&mapper);
    assert_eq!((shift, count), (0, 0));
    assert_eq!(control & 0x0C, 0x0C);
    for bit in [0u8, 1, 0, 1, 0] {
        mapper.prg_write_byte(0x8000, bit);
    }
    assert_eq!(mmc1_control(&mapper), (0x0A, 0, 0));
    assert_eq!(mapper.mirroring(), Mirroring::Vertical);
}

#[test]
fn mmc1_prg_banking() {
    let mut mapper = mmc1();
    // Power-up: 0xC000 holds the last bank.
    assert_eq!(mapper.prg_read_byte(0xC000), 3);
    assert_eq!(mapper.prg_read_byte(0x8000), 0);
    // Load PRG bank 2 through 0xE000.
    for bit in [0u8, 1, 0, 0, 0] {
        mapper.prg_write_byte(0xE000, bit);
    }
    assert_eq!(mapper.prg_read_byte(0x8000), 2);
    assert_eq!(mapper.prg_read_byte(0xFFFF), 3);
}

#[test]
fn mmc1_chr_banking_in_4k_mode() {
    let mut mapper = mmc1();
    let vram = Vram::new();
    // Control = 0x1F: 4 KiB CHR mode, PRG mode 3, horizontal mirroring.
    for bit in [1u8, 1, 1, 1, 1] {
        mapper.prg_write_byte(0x8000, bit);
    }
    // CHR bank 1 (upper 4 KiB) = 4 KiB bank 2, the start of the second 8 KiB bank.
    for bit in [0u8, 1, 0, 0, 0] {
        mapper.prg_write_byte(0xC000, bit);
    }
    assert_eq!(mapper.ppu_read_byte(&vram, 0x0000), 0x40);
    assert_eq!(mapper.ppu_read_byte(&vram, 0x1000), 0x41);
    assert_eq!(mapper.mirroring(), Mirroring::Horizontal);
}

fn bus() -> Interconnect {
    Interconnect::new(create_mapper(Box::new(Cartridge::load(&image(2, 1, 0, 0)).unwrap())))
}

#[test]
fn ram_is_mirrored_every_2k() {
    let mut b = bus();
    b.store_byte(0x0001, 0xAB);
    assert_eq!(b.load_byte(0x0801), 0xAB);
    assert_eq!(b.load_byte(0x1001), 0xAB);
    assert_eq!(b.load_byte(0x1801), 0xAB);
    b.store_byte(0x1FFF, 0xCD);
    assert_eq!(b.load_byte(0x07FF), 0xCD);
}

#[test]
fn ppu_registers_repeat_every_8_bytes() {
    let mut b = bus();
    b.store_byte(0x2006, 0x21);
    assert_eq!(b.load_byte(0x3FFE), 0x21);
}

#[test]
fn oam_dma_copies_a_page() {
    let mut b = bus();
    for i in 0..=255u16 {
        b.store_byte(0x0300 + i, i as u8);
    }
    b.store_byte(0x4014, 0x03);
    assert_eq!(b.oam.len(), 256);
    assert_eq!(b.oam[0], 0);
    assert_eq!(b.oam[200], 200);
}

#[test]
fn bus_reads_prg_through_the_mapper() {
    let b = bus();
    assert_eq!(b.load_byte(0x8000), 0);
    assert_eq!(b.load_byte(0xC000), 1);
}

#[test]
fn palette_ram_aliases_sprite_backdrops() {
    let mut b = bus();
    b.ppu_write_byte(0x3F10, 0x21);
    assert_eq!(b.ppu_read_byte(0x3F00), 0x21);
    b.ppu_write_byte(0x3F05, 0x16);
    assert_eq!(b.ppu_read_byte(0x3F25), 0x16);
    assert_eq!(b.ppu_read_byte(0x3F15), 0x00);
    b.ppu_write_byte(0x2000, 0x33);
    assert_eq!(b.ppu_read_byte(0x2000), 0x33);
    assert_eq!(b.ppu_read_byte(0x3F00), 0x21);
}

#[test]
fn mappers_raise_no_irq() {
    assert!(!mmc1().irq_pending());
    assert!(!bus().mapper.irq_pending());
}

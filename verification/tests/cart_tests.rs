use nes_emu::cart::builder::build_cartridge;
use nes_emu::cart::cart::{nametable_addr, Cartridge};
use nes_emu::cart::mapper0;
use nes_emu::cart::mapper1::build_mmc1_cart;
use nes_emu::cart::mapper2::build_uxrom;
use nes_emu::cart::nrom;
use nes_emu::error::NesError;
use nes_emu::ines::parse::{INesFile, MirrorType};

#[test]
fn cart_test_mirroring() {
    for off in 0..0x400 {
        assert_eq!(nametable_addr(0x2400 + off, MirrorType::Horizontal), 0x000 + off);
        assert_eq!(nametable_addr(0x2000 + off, MirrorType::Horizontal), 0x000 + off);
        assert_eq!(nametable_addr(0x2C00 + off, MirrorType::Horizontal), 0x400 + off);
        assert_eq!(nametable_addr(0x2800 + off, MirrorType::Horizontal), 0x400 + off);

        assert_eq!(nametable_addr(0x2800 + off, MirrorType::Vertical), 0x000 + off);
        assert_eq!(nametable_addr(0x2000 + off, MirrorType::Vertical), 0x000 + off);
        assert_eq!(nametable_addr(0x2C00 + off, MirrorType::Vertical), 0x400 + off);
        assert_eq!(nametable_addr(0x4C00 + off, MirrorType::Vertical), 0x400 + off);
    }
}

#[test]
fn mapper0_test_build() {
    let chr = vec![0u8; 8 * 1024];
    assert_eq!(
        mapper0::build_nrom_cart(&vec![0u8; 16 * 1024], &chr, MirrorType::Horizontal)
            .unwrap()
            .name(),
        "NROM"
    );
    assert_eq!(
        mapper0::build_nrom_cart(&vec![0u8; 32 * 1024], &chr, MirrorType::Horizontal)
            .unwrap()
            .name(),
        "NROM"
    );

    assert!(mapper0::build_nrom_cart(&vec![0u8; 8 * 1024], &chr, MirrorType::Horizontal).is_err());
    assert!(mapper0::build_nrom_cart(&vec![0u8; 64 * 1024], &chr, MirrorType::Horizontal).is_err());
}

#[test]
fn mapper0_test_128() {
    let mut prg = vec![0u8; 16 * 1024];
    prg[0x17] = 0x42;
    prg[0x1018] = 0xff;
    let chr = vec![0u8; 8 * 1024];
    let cart = mapper0::build_nrom_cart(&prg, &chr, MirrorType::Vertical).unwrap();
    assert_eq!(cart.read(0x8017).unwrap(), 0x42);
    assert_eq!(cart.read(0xc017).unwrap(), 0x42);
    assert_eq!(cart.read(0xd018).unwrap(), 0xff);
}

#[test]
fn mapper0_test_256() {
    let mut prg = vec![0u8; 32 * 1024];
    prg[0x17] = 0x42;
    prg[0x1018] = 0xff;
    let chr = vec![0u8; 8 * 1024];
    let cart = mapper0::build_nrom_cart(&prg, &chr, MirrorType::Vertical).unwrap();
    assert_eq!(cart.read(0x8017).unwrap(), 0x42);
    assert_eq!(cart.read(0xC017).unwrap(), 0x00);
    assert_eq!(cart.read(0x9018).unwrap(), 0xff);
    assert_eq!(cart.read(0xD018).unwrap(), 0x00);
}

#[test]
fn nrom_test_build() {
    let chr = vec![0u8; 8 * 1024];
    assert_eq!(
        nrom::build_nrom_cart(&vec![0u8; 16 * 1024], &chr, MirrorType::Horizontal)
            .unwrap()
            .name(),
        "NROM-128"
    );
    assert_eq!(
        nrom::build_nrom_cart(&vec![0u8; 32 * 1024], &chr, MirrorType::Horizontal)
            .unwrap()
            .name(),
        "NROM-256"
    );

    assert!(nrom::build_nrom_cart(&vec![0u8; 8 * 1024], &chr, MirrorType::Horizontal).is_err());
    assert!(nrom::build_nrom_cart(&vec![0u8; 64 * 1024], &chr, MirrorType::Horizontal).is_err());
}

#[test]
fn nrom_test_128() {
    let mut prg = vec![0u8; 16 * 1024];
    prg[0x17] = 0x42;
    prg[0x1018] = 0xff;
    let chr = vec![0u8; 8 * 1024];
    let cart = nrom::build_nrom_cart(&prg, &chr, MirrorType::Vertical).unwrap();
    assert_eq!(cart.read(0x8017).unwrap(), 0x42);
    assert_eq!(cart.read(0xc017).unwrap(), 0x42);
    assert_eq!(cart.read(0xd018).unwrap(), 0xff);
}

#[test]
fn nrom_test_256() {
    let mut prg = vec![0u8; 32 * 1024];
    prg[0x17] = 0x42;
    prg[0x1018] = 0xff;
    let chr = vec![0u8; 8 * 1024];
    let cart = nrom::build_nrom_cart(&prg, &chr, MirrorType::Vertical).unwrap();
    assert_eq!(cart.read(0x8017).unwrap(), 0x42);
    assert_eq!(cart.read(0xC017).unwrap(), 0x00);
    assert_eq!(cart.read(0x9018).unwrap(), 0xff);
    assert_eq!(cart.read(0xD018).unwrap(), 0x00);
}

#[test]
fn nrom_test_mirroring() {
    for off in 0..0x400 {
        assert_eq!(nrom::nametable_addr(0x2400 + off, MirrorType::Horizontal), 0x000 + off);
        assert_eq!(nrom::nametable_addr(0x2000 + off, MirrorType::Horizontal), 0x000 + off);
        assert_eq!(nrom::nametable_addr(0x2C00 + off, MirrorType::Horizontal), 0x400 + off);
        assert_eq!(nrom::nametable_addr(0x2800 + off, MirrorType::Horizontal), 0x400 + off);

        assert_eq!(nrom::nametable_addr(0x2800 + off, MirrorType::Vertical), 0x000 + off);
        assert_eq!(nrom::nametable_addr(0x2000 + off, MirrorType::Vertical), 0x000 + off);
        assert_eq!(nrom::nametable_addr(0x2C00 + off, MirrorType::Vertical), 0x400 + off);
        assert_eq!(nrom::nametable_addr(0x4C00 + off, MirrorType::Vertical), 0x400 + off);
    }
}

#[test]
fn uxrom_banking() {
    // Four 16 KiB banks with a marker at the start of each.
    let mut prg = vec![0u8; 64 * 1024];
    for bank in 0..4 {
        prg[bank * 16 * 1024] = bank as u8 + 1;
    }
    let mut cart = build_uxrom(&prg, &[], MirrorType::Vertical).unwrap();
    // Bank 0 selected; the last bank is fixed at the top window.
    assert_eq!(cart.read(0x8000).unwrap(), 1);
    assert_eq!(cart.read(0xC000).unwrap(), 4);
    cart.write(0x8000, 2).unwrap();
    assert_eq!(cart.read(0x8000).unwrap(), 3);
    assert_eq!(cart.read(0xC000).unwrap(), 4);
}

#[test]
fn mmc1_serial_latch() {
    // Five writes of bits 1,1,0,1,0 (low bit first) assemble 0b01011 in
    // the five-bit register and latch it into control.
    let prg = vec![0u8; 32 * 1024];
    let chr = vec![0u8; 8 * 1024];
    let mut cart = build_mmc1_cart(&prg, &chr).unwrap();
    for v in [0x01u8, 0x01, 0x00, 0x01, 0x00] {
        cart.write(0x8123, v).unwrap();
    }
    match &cart {
        Cartridge::Mmc1(m) => {
            assert_eq!(m.control.0, 0b01011);
            assert_eq!(m.write_count, 0);
            assert_eq!(m.shift_reg, 0);
        }
        _ => panic!("expected an MMC1 cartridge"),
    }
    // The next write begins a fresh five-write sequence.
    cart.write(0xA000, 0x01).unwrap();
    match &cart {
        Cartridge::Mmc1(m) => {
            assert_eq!(m.write_count, 1);
            assert_eq!(m.shift_reg, 0b10000);
        }
        _ => panic!("expected an MMC1 cartridge"),
    }
}

#[test]
fn mmc1_reset_bit() {
    let prg = vec![0u8; 32 * 1024];
    let chr = vec![0u8; 8 * 1024];
    let mut cart = build_mmc1_cart(&prg, &chr).unwrap();
    cart.write(0x8000, 0x01).unwrap();
    cart.write(0x8000, 0x80).unwrap();
    match &cart {
        Cartridge::Mmc1(m) => {
            assert_eq!(m.write_count, 0);
            assert_eq!(m.shift_reg, 0);
            // The reset locks PRG mode 3: last bank fixed at the top.
            assert_eq!(m.control.0 & 0x0C, 0x0C);
            assert_eq!(m.prg_rom_bank_1_base, 32 * 1024 - 16 * 1024);
        }
        _ => panic!("expected an MMC1 cartridge"),
    }
}

#[test]
fn build_cartridge_refusals() {
    // A header naming an unimplemented mapper is refused.
    let mut bytes = vec![0x4E, 0x45, 0x53, 0x1A, 1, 1];
    bytes.resize(16, 0);
    bytes[6] = 0x40;  // mapper low nibble = 4
    bytes.resize(16 + 16 * 1024 + 8 * 1024, 0);
    let rom = INesFile::parse_from(&bytes).unwrap();
    assert_eq!(rom.header.mapper, 4);
    assert!(matches!(build_cartridge(&rom), Err(NesError::UnsupportedRom)));
}

#[test]
fn cart_ppu_errors() {
    // CHR-ROM refuses PPU writes; addresses past the nametable window
    // are not the cartridge's to decode.
    let prg = vec![0u8; 16 * 1024];
    let chr = vec![1u8; 8 * 1024];
    let mut cart = mapper0::build_nrom_cart(&prg, &chr, MirrorType::Vertical).unwrap();
    let mut vram = vec![0u8; 0x800];
    assert!(matches!(
        cart.ppu_write(0x0000, 5, &mut vram),
        Err(NesError::PpuMem(nes_emu::cart::cart::PpuMemoryError::PpuReadOnly(0)))
    ));
    assert!(matches!(
        cart.ppu_read(0x3F00, &vram),
        Err(NesError::PpuMem(nes_emu::cart::cart::PpuMemoryError::PpuInvalidAddress(0x3F00)))
    ));
    // A CPU write into the ROM window is read-only.
    assert!(matches!(
        cart.write(0x8000, 1),
        Err(NesError::Mem(nes_emu::mem::error::MemoryError::ReadOnly(0x8000)))
    ));
    // Nametable traffic reaches VRAM through the mirroring.
    cart.ppu_write(0x2801, 0x77, &mut vram).unwrap();
    assert_eq!(vram[0x001], 0x77);
    assert_eq!(cart.ppu_read(0x2001, &vram).unwrap(), 0x77);
}

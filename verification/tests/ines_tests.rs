use nes_emu::controller::{make_controller, BUTTON_A, BUTTON_START};
use nes_emu::error::NesError;
use nes_emu::ines::parse::{INesFile, MirrorType, TimingMode};
use nes_emu::ppu::colors::load_color_map;

fn sample_rom(mapper_low: u8) -> Vec<u8> {
    let mut bytes = vec![0x4E, 0x45, 0x53, 0x1A];
    bytes.push(1); // PRG: one 16 KiB unit
    bytes.push(1); // CHR: one 8 KiB unit
    bytes.push((mapper_low << 4) | 0x01); // flags 6: vertical mirroring
    bytes.resize(16, 0);
    bytes.resize(16 + 16 * 1024 + 8 * 1024, 0);
    bytes
}

#[test]
fn parse_header_fields() {
    let bytes = sample_rom(0);
    let rom = INesFile::parse_from(&bytes).unwrap();
    assert_eq!(rom.header.prg_rom_size, 16 * 1024);
    assert_eq!(rom.header.chr_rom_size, 8 * 1024);
    assert_eq!(rom.header.mapper, 0);
    assert_eq!(rom.header.mirror_type, MirrorType::Vertical);
    assert_eq!(rom.header.timing, TimingMode::Ntsc);
    assert!(!rom.header.trainer);
    assert!(!rom.header.is_ines2);
    assert_eq!(rom.prg_rom.len(), 16 * 1024);
    assert_eq!(rom.chr_rom.len(), 8 * 1024);
}

#[test]
fn parse_bad_magic() {
    let mut bytes = sample_rom(0);
    bytes[0] = 0x4D;
    assert!(matches!(INesFile::parse_from(&bytes), Err(NesError::UnsupportedRom)));
}

#[test]
fn parse_truncated_file() {
    let bytes = vec![0x4E, 0x45, 0x53, 0x1A, 1, 1];
    assert!(INesFile::parse_from(&bytes).is_err());
}

#[test]
fn rom_size_exponent_form() {
    // 16 KiB in the plain unit form.
    assert_eq!(INesFile::actual_rom_size(1, 0, 16384), Some(16 * 1024));
    // The exponent form: size field 0xF11 has exponent 4 and multiplier
    // 1, naming 2^4 * (1 * 2 + 1) = 48 bytes.
    assert_eq!(INesFile::actual_rom_size(0x11, 0x0F, 16384), Some(48));
    assert_eq!(INesFile::actual_ram_size(0), 0);
    assert_eq!(INesFile::actual_ram_size(7), 64 << 7);
}

#[test]
fn palette_file_lengths() {
    assert!(matches!(load_color_map(&[0u8; 191]), Err(NesError::BadPalette)));
    let mut bytes = vec![0u8; 192];
    bytes[0] = 10;
    bytes[1] = 20;
    bytes[2] = 30;
    let map = load_color_map(&bytes).unwrap();
    assert_eq!(map.len(), 64);
    assert_eq!(map[0].r, 10);
    assert_eq!(map[0].g, 20);
    assert_eq!(map[0].b, 30);
}

#[test]
fn controller_shift() {
    let mut c = make_controller();
    c.input(BUTTON_A | BUTTON_START);
    // While the strobe is high, reads see the live A button.
    assert_eq!(c.read(), 1);
    assert_eq!(c.read(), 1);
    // The falling edge latches; reads then shift out A, B, Select,
    // Start, and zeros beyond.
    c.write(0);
    assert_eq!(c.read(), 1); // A
    assert_eq!(c.read(), 0); // B
    assert_eq!(c.read(), 0); // Select
    assert_eq!(c.read(), 1); // Start
    for _ in 0..4 {
        assert_eq!(c.read(), 0);
    }
    c.remove_input(BUTTON_A);
    c.write(1);
    assert_eq!(c.read(), 0);
    c.clear();
    assert_eq!(c.read(), 0);
}

use nes_emu::cart::mapper0::build_nrom_cart;
use nes_emu::cart::mock::mock_cart;
use nes_emu::error::NesError;
use nes_emu::ines::parse::MirrorType;
use nes_emu::mem::error::MemoryError;
use nes_emu::ppu::ppu::PpuBuilder;
use nes_emu::ppu::regs::{PpuAddress, PpuControl, SpriteAttributes};

#[test]
fn bitfield_tests() {
    let mut c = PpuControl(0b11000110);
    assert_eq!(c.get_nametable_addr(), 0b10);
    assert_eq!(c.get_vram_inc(), true);

    c.set_nametable_addr(0b01);
    assert_eq!(c.get_nametable_addr(), 0b01);
    c = PpuControl(c.0 | 0b11);
    assert_eq!(c.get_nametable_addr(), 0b11);

    // Neighbouring fields stay put when one is written.
    c.set_nametable_addr(0xFF);
    assert_eq!(c.get_sprite_size(), false);
    c.set_sprite_size(true);
    c.set_nametable_addr(0x00);
    assert_eq!(c.get_sprite_size(), true);
}

#[test]
fn ppu_addr_tests() {
    let mut a = PpuAddress(0);
    a.set_coarse_x(0x1F);
    assert_eq!(a.0, 0x1F);
    a.set_nametable(0x1);
    assert_eq!(a.0, 0b010000011111);
    a.set_coarse_y(0b10101);
    assert_eq!(a.0, 0b011010111111);
    a.set_fine_y(0b111);
    assert_eq!(a.0, 0b111011010111111);
    assert_eq!(a.get_nametable_lookup_addr(), 0b011010111111);
    a.0 = 0;
    assert_eq!(a.0, 0);
    assert_eq!(a.get_fine_y(), 0);
    a.0 = 0xFFFF;
    assert_eq!(a.get_nametable_lookup_addr(), a.0 & 0x0FFF);
}

#[test]
fn sprite_attr_tests() {
    let attr = SpriteAttributes(0xE3);
    assert!(attr.get_flip_horizontal());
    assert!(attr.get_flip_vertical());
    let attr = SpriteAttributes(0);
    assert!(!attr.get_flip_horizontal());
    assert!(!attr.get_flip_vertical());
}

fn test_cart() -> nes_emu::cart::cart::Cartridge {
    let prg = vec![0u8; 16 * 1024];
    let chr = vec![0u8; 8 * 1024];
    build_nrom_cart(&prg, &chr, MirrorType::Vertical).unwrap()
}

#[test]
fn ppu_write_latch() {
    // Two $2006 writes load v; one $2007 access steps it exactly once.
    let mut cart = test_cart();
    let mut ppu = PpuBuilder::new().build().unwrap();
    ppu.write(0x2006, 0x21, &mut cart).unwrap();
    ppu.write(0x2006, 0x08, &mut cart).unwrap();
    assert_eq!(ppu.reg.v_addr.0, 0x2108);
    ppu.read(0x2007, &cart).unwrap();
    assert_eq!(ppu.reg.v_addr.0, 0x2109);

    // With the row-increment bit set, the step is 32.
    ppu.write(0x2000, 0x04, &mut cart).unwrap();
    ppu.write(0x2006, 0x21, &mut cart).unwrap();
    ppu.write(0x2006, 0x08, &mut cart).unwrap();
    ppu.read(0x2007, &cart).unwrap();
    assert_eq!(ppu.reg.v_addr.0, 0x2128);
}

#[test]
fn ppu_data_buffered_read() {
    // $2007 reads lag one access behind for nametable addresses.
    let mut cart = test_cart();
    let mut ppu = PpuBuilder::new().build().unwrap();
    ppu.write(0x2006, 0x21, &mut cart).unwrap();
    ppu.write(0x2006, 0x00, &mut cart).unwrap();
    ppu.write(0x2007, 0x5A, &mut cart).unwrap();
    ppu.write(0x2006, 0x21, &mut cart).unwrap();
    ppu.write(0x2006, 0x00, &mut cart).unwrap();
    let stale = ppu.read(0x2007, &cart).unwrap();
    assert_eq!(stale, 0);
    let fresh = ppu.read(0x2007, &cart).unwrap();
    assert_eq!(fresh, 0x5A);
}

#[test]
fn ppu_status_read_clears() {
    let cart = test_cart();
    let mut ppu = PpuBuilder::new().build().unwrap();
    ppu.reg.status.set_vblank_start(true);
    ppu.reg.ppu_addr_latch = true;
    let s = ppu.read(0x2002, &cart).unwrap();
    assert_eq!(s & 0x80, 0x80);
    assert!(!ppu.reg.status.get_vblank_start());
    assert!(!ppu.reg.ppu_addr_latch);
}

#[test]
fn oam_data_write_increments() {
    let mut cart = test_cart();
    let mut ppu = PpuBuilder::new().build().unwrap();
    ppu.write(0x2003, 0x10, &mut cart).unwrap();
    ppu.write(0x2004, 0x55, &mut cart).unwrap();
    assert_eq!(ppu.oam[0x10], 0x55);
    assert_eq!(ppu.reg.oam_addr, 0x11);
    // Byte 2 of a sprite keeps only the stored bits.
    ppu.write(0x2003, 0x0A, &mut cart).unwrap();
    ppu.write(0x2004, 0xFF, &mut cart).unwrap();
    assert_eq!(ppu.oam[0x0A], 0xE3);
}

#[test]
fn palette_aliases() {
    // $3F10 collapses onto $3F00 through the palette mirroring.
    let mut cart = test_cart();
    let mut ppu = PpuBuilder::new().build().unwrap();
    ppu.write(0x2006, 0x3F, &mut cart).unwrap();
    ppu.write(0x2006, 0x10, &mut cart).unwrap();
    ppu.write(0x2007, 0x2A, &mut cart).unwrap();
    assert_eq!(ppu.palettes[0x00], 0x2A);
}

#[test]
fn ppu_register_direction_errors() {
    let mut cart = test_cart();
    let mut ppu = PpuBuilder::new().build().unwrap();
    assert!(matches!(
        ppu.read(0x2000, &cart),
        Err(NesError::Mem(MemoryError::WriteOnly(0x2000)))
    ));
    assert!(matches!(
        ppu.write(0x2002, 0, &mut cart),
        Err(NesError::Mem(MemoryError::ReadOnly(0x2002)))
    ));
    assert!(matches!(
        ppu.read(0x1FFF, &cart),
        Err(NesError::Mem(MemoryError::InvalidAddress(0x1FFF)))
    ));
}

#[test]
fn frame_and_vblank_events() {
    // Dot 1 of scanline 241 raises vblank and, with NMI enabled, returns
    // the interrupt; the frame completes at the end of scanline 260.
    let cart = test_cart();
    let mut ppu = PpuBuilder::new().build().unwrap();
    ppu.reg.control = PpuControl(0x80);
    ppu.scanline = 241;
    ppu.cycle = 1;
    let (frame, irq) = ppu.tick(&cart).unwrap();
    assert!(frame.is_none());
    assert!(irq.is_some());
    assert!(ppu.reg.status.get_vblank_start());

    ppu.scanline = 260;
    ppu.cycle = 340;
    let (frame, irq) = ppu.tick(&cart).unwrap();
    assert!(frame.is_some());
    assert!(irq.is_none());
    assert_eq!(ppu.scanline, -1);
    assert_eq!(ppu.cycle, 0);

    // Dot 1 of the pre-render line clears the event flags.
    ppu.cycle = 1;
    let (_, _) = ppu.tick(&cart).unwrap();
    assert!(!ppu.reg.status.get_vblank_start());
    assert!(!ppu.reg.status.get_sprite_overflow());
}

#[test]
fn mock_cart_refuses_everything() {
    let cart = mock_cart();
    assert!(cart.read(0x8000).is_err());
}

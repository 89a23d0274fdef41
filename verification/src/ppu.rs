pub mod colors;
pub mod ppu;
pub mod regs;

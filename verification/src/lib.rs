pub mod bits;
pub mod cart;
pub mod controller;
pub mod cpu;
pub mod error;
pub mod ines;
pub mod mem;
pub mod ppu;

//! The address decoder that the CPU drives: RAM mirrors below `0x2000`,
//! the PPU register file to `0x3FFF`, the APU stub and the two
//! controllers around `0x4000`, and the cartridge above `0x4020`.

use vstd::prelude::*;
use crate::cart::cart::Cartridge;
use crate::cart::mock::mock_cart;
use crate::controller::Controller;
use crate::error::NesError;
use crate::mem::error::MemoryError;
use crate::mem::ram::Ram;
use crate::ppu::ppu::{Ppu, PpuBuilder};

verus! {

pub struct MemoryBus {
    pub ram: Ram,
    pub ppu: Ppu,
    pub cart: Cartridge,
    pub p1: Option<Controller>,
    pub p2: Option<Controller>,
}

/// Collects the devices before wiring them into a bus.
pub struct MemoryBusBuilder {
    pub ram: Option<Ram>,
    pub cart: Option<Cartridge>,
    pub p1: Option<Controller>,
    pub p2: Option<Controller>,
}

impl MemoryBusBuilder {
    pub fn new() -> (r: MemoryBusBuilder)
        ensures
            r.ram is None && r.cart is None && r.p1 is None && r.p2 is None,
    {
        MemoryBusBuilder { ram: None, cart: None, p1: None, p2: None }
    }

    /// Start RAM from the given image (padded with zeroes) instead of
    /// all-zero RAM.
    pub fn with_ram(self, init_ram: Option<&[u8]>) -> (r: MemoryBusBuilder)
        requires
            init_ram matches Some(b) ==> b@.len() <= crate::mem::ram::RAM_SIZE,
        ensures
            r.cart == self.cart && r.p1 == self.p1 && r.p2 == self.p2,
            r.ram matches Some(ram) && ram.wf(),
            init_ram matches Some(b) ==> ({
                &&& r.ram matches Some(ram)
                &&& forall|i: int| 0 <= i < b@.len() ==> ram.mem@[i] == b@[i]
            }),
    {
        let ram = match init_ram {
            Some(bytes) => Ram::from(bytes),
            None => Ram::new(),
        };
        MemoryBusBuilder { ram: Some(ram), ..self }
    }

    pub fn with_cart(self, cart: Cartridge) -> (r: MemoryBusBuilder)
        ensures
            r.ram == self.ram && r.p1 == self.p1 && r.p2 == self.p2,
            r.cart == Some(cart),
    {
        MemoryBusBuilder { cart: Some(cart), ..self }
    }

    pub fn with_controllers(self, p1: Option<Controller>, p2: Option<Controller>) -> (r:
        MemoryBusBuilder)
        ensures
            r.ram == self.ram && r.cart == self.cart,
            r.p1 == p1 && r.p2 == p2,
    {
        MemoryBusBuilder { p1, p2, ..self }
    }

    /// Wire the bus: missing RAM comes up zeroed, a missing cartridge
    /// becomes the empty slot, and the PPU is built in its power-on
    /// state.
    pub fn build(self) -> (r: MemoryBus)
        requires
            self.cart matches Some(c) ==> c.wf(),
            self.ram matches Some(m) ==> m.wf(),
        ensures
            r.wf(),
            self.cart matches Some(c) ==> r.cart == c,
            self.cart is None ==> r.cart is Mock,
            self.ram matches Some(m) ==> r.ram == m,
            r.p1 == self.p1 && r.p2 == self.p2,
            r.ppu.cycle == 0 && r.ppu.scanline == 0,
    {
        let cart = match self.cart {
            Some(c) => c,
            None => mock_cart(),
        };
        let ram = match self.ram {
            Some(ram) => ram,
            None => Ram::new(),
        };
        let ppu = match PpuBuilder::new().build() {
            Ok(p) => p,
            Err(_) => {
                proof {
                    assert(false);
                }
                unreached()
            },
        };
        MemoryBus { ram, ppu, cart, p1: self.p1, p2: self.p2 }
    }
}

/// Whether a read of `addr` goes to a device that neither changes state
/// nor depends on anything but the bus: everything except the PPU
/// registers and the two controller ports.
pub open spec fn spec_addr_pure(addr: u16) -> bool {
    !(0x2000 <= addr <= 0x3FFF) && addr != 0x4016 && addr != 0x4017
}

impl MemoryBus {
    pub open spec fn wf(&self) -> bool {
        &&& self.ram.wf()
        &&& self.ppu.wf()
        &&& self.cart.wf()
    }

    /// What a read of a pure address returns: mirrored RAM below
    /// `0x2000`, zero from the APU stub, the mapper above `0x4020`, and a
    /// decode error in the `0x4018..=0x401F` gap.
    pub open spec fn spec_read_pure(&self, addr: u16) -> Result<u8, NesError> {
        if addr <= 0x1FFF {
            Ok(self.ram.mem@[(addr & 0x7FF) as int])
        } else if 0x4000 <= addr <= 0x4015 {
            Ok(0u8)
        } else if addr >= 0x4020 {
            self.cart.spec_cpu_read(addr)
        } else {
            Err(NesError::Mem(MemoryError::InvalidAddress(addr)))
        }
    }

    /// Route a CPU read. Pure addresses leave the bus unchanged and
    /// return exactly what [`MemoryBus::spec_read_pure`] says; a PPU
    /// register read only moves PPU register state, and a controller read
    /// shifts that controller.
    pub fn read(&mut self, addr: u16) -> (r: Result<u8, NesError>)
        requires
            old(self).wf(),
        ensures
            final(self).wf(),
            spec_addr_pure(addr) ==> *final(self) == *old(self) && r == old(self).spec_read_pure(
                addr,
            ),
            final(self).ram.mem@ == old(self).ram.mem@,
            final(self).cart == old(self).cart,
            final(self).ppu.cycle == old(self).ppu.cycle,
            final(self).ppu.scanline == old(self).ppu.scanline,
            final(self).ppu.odd_frame == old(self).ppu.odd_frame,
            0x2000 <= addr <= 0x3FFF ==> final(self).p1 == old(self).p1 && final(self).p2 == old(self).p2 && crate::ppu::ppu::spec_reg_read_rel(
                old(self).ppu,
                final(self).ppu,
                &old(self).cart,
                addr,
                r,
            ),
            addr == 0x4016 ==> final(self).ppu == old(self).ppu && final(self).p2 == old(self).p2 && (old(self).p1 matches Some(c) ==> ({
                &&& final(self).p1 matches Some(c2)
                &&& c2.inputs == c.inputs
                &&& c2.strobe == c.strobe
                &&& r == Ok::<u8, NesError>(
                    if c.strobe {
                        (c.inputs & 1) as u8
                    } else {
                        (c.read_state & 1) as u8
                    },
                )
                &&& c2.read_state == (if c.strobe {
                    c.read_state
                } else {
                    (c.read_state >> 1) as u8
                })
            })) && (old(self).p1 is None ==> r == Ok::<u8, NesError>(0) && final(self).p1
                is None),
            addr == 0x4017 ==> final(self).ppu == old(self).ppu && final(self).p1 == old(self).p1 && (old(self).p2 matches Some(c) ==> ({
                &&& final(self).p2 matches Some(c2)
                &&& c2.inputs == c.inputs
                &&& c2.strobe == c.strobe
                &&& r == Ok::<u8, NesError>(
                    if c.strobe {
                        (c.inputs & 1) as u8
                    } else {
                        (c.read_state & 1) as u8
                    },
                )
                &&& c2.read_state == (if c.strobe {
                    c.read_state
                } else {
                    (c.read_state >> 1) as u8
                })
            })) && (old(self).p2 is None ==> r == Ok::<u8, NesError>(0) && final(self).p2
                is None),
    {
        if addr <= 0x1FFF {
            self.ram.read(addr)
        } else if addr <= 0x3FFF {
            self.ppu.read(addr, &self.cart)
        } else if addr <= 0x4015 {
            Ok(0)
        } else if addr == 0x4016 {
            match &mut self.p1 {
                Some(c) => Ok(c.read()),
                None => Ok(0),
            }
        } else if addr == 0x4017 {
            match &mut self.p2 {
                Some(c) => Ok(c.read()),
                None => Ok(0),
            }
        } else if addr >= 0x4020 {
            self.cart.read(addr)
        } else {
            Err(NesError::Mem(MemoryError::InvalidAddress(addr)))
        }
    }

    /// Route a CPU write. RAM writes land exactly in the mirrored cell;
    /// APU-stub writes are discarded; controller writes drive the strobe;
    /// PPU and cartridge writes move only that device's state.
    pub fn write(&mut self, addr: u16, byte: u8) -> (r: Result<(), NesError>)
        requires
            old(self).wf(),
        ensures
            final(self).wf(),
            final(self).ppu.cycle == old(self).ppu.cycle,
            final(self).ppu.scanline == old(self).ppu.scanline,
            final(self).ppu.odd_frame == old(self).ppu.odd_frame,
            addr <= 0x1FFF ==> r == Ok::<(), NesError>(()) && final(self).ram.mem@ == old(self).ram.mem@.update((addr & 0x7FF) as int, byte) && final(self).ppu == old(self).ppu
                && final(self).cart == old(self).cart && final(self).p1 == old(self).p1 && final(self).p2 == old(self).p2,
            addr > 0x1FFF ==> final(self).ram.mem@ == old(self).ram.mem@,
            0x2000 <= addr <= 0x3FFF ==> final(self).p1 == old(self).p1 && final(self).p2 == old(self).p2 && final(self).ram.mem@ == old(self).ram.mem@ && crate::ppu::ppu::spec_reg_write_rel(
                old(self).ppu,
                final(self).ppu,
                old(self).cart,
                final(self).cart,
                addr,
                byte,
                r,
            ),
            0x4000 <= addr <= 0x4015 ==> r == Ok::<(), NesError>(()) && *final(self) == *old(self),
            addr == 0x4016 ==> r == Ok::<(), NesError>(()) && final(self).ppu == old(self).ppu
                && final(self).cart == old(self).cart && final(self).p2 == old(self).p2 && (old(self).p1 matches Some(c) ==> ({
                &&& final(self).p1 matches Some(c2)
                &&& c2.inputs == c.inputs
                &&& c2.strobe == (byte & 1 != 0)
                &&& c2.read_state == (if c.strobe && byte & 1 == 0 {
                    c.inputs
                } else {
                    c.read_state
                })
            })) && (old(self).p1 is None ==> final(self).p1 is None),
            addr == 0x4017 ==> r == Ok::<(), NesError>(()) && final(self).ppu == old(self).ppu
                && final(self).cart == old(self).cart && final(self).p1 == old(self).p1 && (old(self).p2 matches Some(c) ==> ({
                &&& final(self).p2 matches Some(c2)
                &&& c2.inputs == c.inputs
                &&& c2.strobe == (byte & 1 != 0)
                &&& c2.read_state == (if c.strobe && byte & 1 == 0 {
                    c.inputs
                } else {
                    c.read_state
                })
            })) && (old(self).p2 is None ==> final(self).p2 is None),
            addr >= 0x4020 ==> final(self).ppu == old(self).ppu && final(self).p1 == old(self).p1 && final(self).p2 == old(self).p2 && Cartridge::spec_write_rel(
                old(self).cart,
                final(self).cart,
                addr,
                byte,
                r,
            ),
            0x4018 <= addr <= 0x401F ==> r == Err::<(), NesError>(
                NesError::Mem(MemoryError::InvalidAddress(addr)),
            ) && *final(self) == *old(self),
    {
        if addr <= 0x1FFF {
            self.ram.write(addr, byte)
        } else if addr <= 0x3FFF {
            self.ppu.write(addr, byte, &mut self.cart)
        } else if addr == 0x4016 {
            match &mut self.p1 {
                Some(c) => {
                    c.write(byte);
                },
                None => {},
            }
            Ok(())
        } else if addr == 0x4017 {
            match &mut self.p2 {
                Some(c) => {
                    c.write(byte);
                },
                None => {},
            }
            Ok(())
        } else if addr <= 0x4015 {
            Ok(())
        } else if addr >= 0x4020 {
            self.cart.write(addr, byte)
        } else {
            Err(NesError::Mem(MemoryError::InvalidAddress(addr)))
        }
    }
}

} // verus!

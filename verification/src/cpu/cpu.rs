//! The 6502 itself: registers, the bus it owns, interrupt latching, OAM
//! DMA, and the tick-driven execution loop.

use vstd::prelude::*;
use crate::cart::cart::Cartridge;
use crate::controller::Controller;
use crate::error::NesError;
use crate::mem::bus::{spec_addr_pure, MemoryBus, MemoryBusBuilder};
use crate::mem::utils::make_address;
use crate::cpu::decode::fetch_instr;
use crate::cpu::isa::Instr;
use crate::cpu::reg::{Registers, StatusFlags, BREAK, UNUSED};
use crate::ppu::ppu::Frame;

verus! {

/// The bottom of the hardware stack page.
pub const STACK_OFFSET: u16 = 0x100;

/// Ticks of the master (dot) clock per CPU cycle.
pub const NUM_TICKS_PER_CPU_CYCLE: u8 = 3;

/// A pending interrupt. At most one is latched at a time; it is consumed
/// at the next instruction boundary.
#[derive(Clone, Copy, Debug, PartialEq, Eq, Structural)]
pub enum Interrupt {
    Request,
    Reset,
    NonMaskable,
}

impl Interrupt {
    /// Where the handler address is fetched from.
    pub fn vector(&self) -> (r: u16)
        ensures
            r == self.spec_vector(),
    {
        match self {
            Interrupt::NonMaskable => 0xFFFA,
            Interrupt::Reset => 0xFFFC,
            Interrupt::Request => 0xFFFE,
        }
    }

    /// Where the handler address is fetched from.
    pub open spec fn spec_vector(&self) -> u16 {
        match self {
            Interrupt::NonMaskable => 0xFFFAu16,
            Interrupt::Reset => 0xFFFCu16,
            Interrupt::Request => 0xFFFEu16,
        }
    }

    /// How many CPU cycles taking the interrupt costs: eight for a
    /// non-maskable interrupt, seven for a request and for the reset
    /// sequence.
    pub fn num_cycles(&self) -> (r: u16)
        ensures
            *self is NonMaskable ==> r == 8,
            !(*self is NonMaskable) ==> r == 7,
            r <= 8,
    {
        match self {
            Interrupt::NonMaskable => 8,
            Interrupt::Reset => 7,
            Interrupt::Request => 7,
        }
    }
}

pub struct Cpu {
    pub reg: Registers,
    pub bus: MemoryBus,
    pub interrupt: Option<Interrupt>,
    /// Cycles left before the next instruction commits.
    pub cycles_left: u16,
    /// Dot ticks left before the next CPU cycle.
    pub ticks_left: u8,
    pub num_cpu_cycles: u64,
    pub num_system_ticks: u64,
}

impl Cpu {
    pub open spec fn wf(&self) -> bool {
        self.bus.wf()
    }

    /// A machine around the given cartridge, with reset pending: the
    /// first instruction boundary will run the reset sequence.
    pub fn new(
        cart: Cartridge,
        controller1: Option<Controller>,
        controller2: Option<Controller>,
    ) -> (r: Cpu)
        requires
            cart.wf(),
        ensures
            r.wf(),
            r.interrupt == Some(Interrupt::Reset),
            r.reg.pc == 0x34 && r.reg.sp == 0xFD && r.reg.a == 0 && r.reg.x == 0 && r.reg.y == 0,
            r.cycles_left == 0 && r.ticks_left == 0 && r.num_cpu_cycles == 0
                && r.num_system_ticks == 0,
            r.bus.cart == cart,
    {
        Cpu {
            reg: Registers {
                pc: 0x34,
                sp: 0xFD,
                a: 0,
                x: 0,
                y: 0,
                status: StatusFlags { bits: UNUSED },
            },
            bus: MemoryBusBuilder::new().with_cart(cart).with_controllers(
                controller1,
                controller2,
            ).build(),
            interrupt: Some(Interrupt::Reset),
            cycles_left: 0,
            ticks_left: 0,
            num_cpu_cycles: 0,
            num_system_ticks: 0,
        }
    }

    /// A machine with only RAM behind the bus, for exercising the CPU on
    /// its own: the cartridge slot is empty and no interrupt is pending.
    pub fn mock(init_ram: Option<&[u8]>) -> (r: Cpu)
        requires
            init_ram matches Some(b) ==> b@.len() <= crate::mem::ram::RAM_SIZE,
        ensures
            r.wf(),
            r.interrupt is None,
            r.reg.pc == 0 && r.reg.sp == 0 && r.reg.a == 0 && r.reg.x == 0 && r.reg.y == 0,
            r.reg.status.bits == UNUSED,
            r.cycles_left == 0 && r.ticks_left == 0 && r.num_cpu_cycles == 0,
            init_ram matches Some(b) ==> forall|i: int|
                0 <= i < b@.len() ==> r.bus.ram.mem@[i] == b@[i],
    {
        Cpu {
            reg: Registers { pc: 0, sp: 0, a: 0, x: 0, y: 0, status: StatusFlags { bits: UNUSED } },
            bus: MemoryBusBuilder::new().with_ram(init_ram).build(),
            interrupt: None,
            cycles_left: 0,
            ticks_left: 0,
            num_cpu_cycles: 0,
            num_system_ticks: 0,
        }
    }

    /// Read through the bus. A pure address (RAM, the APU stub, the
    /// cartridge) changes nothing and returns exactly what the bus holds;
    /// reads never touch the registers or the cycle counters.
    pub fn read(&mut self, addr: u16) -> (r: Result<u8, NesError>)
        requires
            old(self).wf(),
        ensures
            final(self).bus.ppu.cycle == old(self).bus.ppu.cycle,
            final(self).bus.ppu.scanline == old(self).bus.ppu.scanline,
            final(self).bus.ppu.odd_frame == old(self).bus.ppu.odd_frame,
            final(self).wf(),
            spec_addr_pure(addr) ==> *final(self) == *old(self) && r == old(self).bus.spec_read_pure(addr),
            final(self).reg == old(self).reg,
            final(self).interrupt == old(self).interrupt,
            final(self).cycles_left == old(self).cycles_left,
            final(self).ticks_left == old(self).ticks_left,
            final(self).num_cpu_cycles == old(self).num_cpu_cycles,
            final(self).num_system_ticks == old(self).num_system_ticks,
            final(self).bus.ram.mem@ == old(self).bus.ram.mem@,
            final(self).bus.cart == old(self).bus.cart,
    {
        self.bus.read(addr)
    }

    /// Write through the bus, intercepting `$4014` as OAM DMA: the 256
    /// bytes of CPU page `byte` are copied into OAM starting at the
    /// current `OAMADDR`, and the CPU is stalled 513 cycles (514 when the
    /// cycle count is odd). Other addresses decode as the bus says.
    pub fn write(&mut self, addr: u16, byte: u8) -> (r: Result<(), NesError>)
        requires
            old(self).wf(),
            old(self).cycles_left < 0xF000,
        ensures
            final(self).bus.ppu.cycle == old(self).bus.ppu.cycle,
            final(self).bus.ppu.scanline == old(self).bus.ppu.scanline,
            final(self).bus.ppu.odd_frame == old(self).bus.ppu.odd_frame,
            final(self).wf(),
            final(self).reg == old(self).reg,
            final(self).interrupt == old(self).interrupt,
            final(self).ticks_left == old(self).ticks_left,
            final(self).num_cpu_cycles == old(self).num_cpu_cycles,
            final(self).num_system_ticks == old(self).num_system_ticks,
            final(self).cycles_left <= old(self).cycles_left + 514,
            addr != 0x4014 ==> final(self).cycles_left == old(self).cycles_left,
            addr != 0x4014 && addr <= 0x1FFF ==> r == Ok::<(), NesError>(()) && final(self).bus.ram.mem@ == old(self).bus.ram.mem@.update((addr & 0x7FF) as int, byte) && final(self).bus.ppu == old(self).bus.ppu && final(self).bus.cart == old(self).bus.cart && final(self).bus.p1 == old(self).bus.p1 && final(self).bus.p2 == old(self).bus.p2,
            addr == 0x4014 && byte < 0x20 ==> ({
                &&& r == Ok::<(), NesError>(())
                &&& final(self).cycles_left == old(self).cycles_left + 513 + (if old(self).num_cpu_cycles % 2 == 1 {
                    1int
                } else {
                    0int
                })
                &&& final(self).bus.ram.mem@ == old(self).bus.ram.mem@
                &&& final(self).bus.cart == old(self).bus.cart
                &&& final(self).bus.ppu.oam@.len() == 256
                &&& forall|j: int|
                    0 <= j < 256 ==> final(self).bus.ppu.oam@[#[trigger] spec_dma_dest(
                        old(self).bus.ppu.reg.oam_addr,
                        j,
                    )] == spec_dma_byte(
                        old(self).bus.ram.mem@,
                        old(self).bus.ppu.reg.oam_addr,
                        byte,
                        j,
                    )
            }),
            addr > 0x1FFF && addr != 0x4014 ==> final(self).bus.ram.mem@ == old(self).bus.ram.mem@,
    {
        if addr == 0x4014 {
            let ghost ram0 = self.bus.ram.mem@;
            let ghost oam0 = self.bus.ppu.oam@;
            let ghost start = self.bus.ppu.reg.oam_addr;
            let oam_start = self.bus.ppu.reg.oam_addr;
            let mut off: u16 = 0;
            while off < 256
                invariant
                    self.wf(),
                    addr == 0x4014,
                    ram0 == old(self).bus.ram.mem@,
                    oam0 == old(self).bus.ppu.oam@,
                    off <= 256,
                    self.reg == old(self).reg,
                    self.interrupt == old(self).interrupt,
                    self.cycles_left == old(self).cycles_left,
                    self.cycles_left < 0xF000,
                    self.ticks_left == old(self).ticks_left,
                    self.num_cpu_cycles == old(self).num_cpu_cycles,
                    self.num_system_ticks == old(self).num_system_ticks,
                    ram0 == self.bus.ram.mem@,
                    self.bus.cart == old(self).bus.cart,
                    self.bus.ppu.cycle == old(self).bus.ppu.cycle,
                    self.bus.ppu.scanline == old(self).bus.ppu.scanline,
                    self.bus.ppu.odd_frame == old(self).bus.ppu.odd_frame,
                    oam_start == start,
                    start == old(self).bus.ppu.reg.oam_addr,
                    self.bus.ppu.oam@.len() == 256,
                    byte < 0x20 ==> forall|j: int|
                        0 <= j < off ==> self.bus.ppu.oam@[#[trigger] spec_dma_dest(start, j)]
                            == spec_dma_byte(ram0, start, byte, j),
                decreases 256 - off,
            {
                let dma_addr = make_address(off as u8, byte);
                let data = match self.read(dma_addr) {
                    Ok(d) => d,
                    Err(e) => {
                        return Err(e);
                    },
                };
                let dest = oam_start.wrapping_add(off as u8);
                self.bus.ppu.oam_write(dest, data);
                proof {
                    if byte < 0x20 {
                        assert forall|j: int| 0 <= j < off + 1 implies self.bus.ppu.oam@[
                            #[trigger] spec_dma_dest(start, j)] == spec_dma_byte(
                            ram0,
                            start,
                            byte,
                            j,
                        ) by {
                            lemma_dma_dest_injective(start, j, off as int);
                        }
                    }
                }
                off += 1;
            }
            self.cycles_left = self.cycles_left + 513;
            if self.num_cpu_cycles % 2 == 1 {
                self.cycles_left = self.cycles_left + 1;
            }
            Ok(())
        } else {
            self.bus.write(addr, byte)
        }
    }
}

/// Where DMA byte `j` lands in OAM: `j` cells past the starting
/// `OAMADDR`, wrapping within the 256 bytes.
pub open spec fn spec_dma_dest(start: u8, j: int) -> int {
    (start + j) % 256
}

/// The value DMA byte `j` stores: the RAM byte under `page:j`, with the
/// attribute mask applied when the destination is byte 2 of a sprite.
pub open spec fn spec_dma_byte(ram: Seq<u8>, start: u8, page: u8, j: int) -> u8 {
    let src = ram[(crate::mem::utils::spec_make_address(j as u8, page) & 0x7FF) as int];
    if spec_dma_dest(start, j) % 4 == 2 {
        (src & 0xE3) as u8
    } else {
        src
    }
}

/// Distinct DMA offsets land in distinct OAM cells.
proof fn lemma_dma_dest_injective(start: u8, j: int, off: int)
    requires
        0 <= j <= off < 256,
    ensures
        j < off ==> spec_dma_dest(start, j) != spec_dma_dest(start, off),
        spec_dma_dest(start, off) == (if start + off < 256 {
            start + off
        } else {
            start + off - 256
        }),
{
    assert((start + j) % 256 == (if start + j < 256 {
        start + j
    } else {
        start + j - 256
    })) by (nonlinear_arith)
        requires
            0 <= j < 256 && 0 <= start < 256,
    ;
    assert((start + off) % 256 == (if start + off < 256 {
        start + off
    } else {
        start + off - 256
    })) by (nonlinear_arith)
        requires
            0 <= off < 256 && 0 <= start < 256,
    ;
}

impl Cpu {
    /// The reset sequence: load the program counter from the reset
    /// vector, clear the data registers, set the stack pointer to `0xFD`
    /// and the status to its unused and interrupt-mask bits, reserve the
    /// seven reset cycles, and reset the PPU. Nothing is pushed.
    pub fn reset(&mut self) -> (r: Result<(), NesError>)
        requires
            old(self).wf(),
        ensures
            final(self).wf(),
            final(self).bus.ram.mem@ == old(self).bus.ram.mem@,
            final(self).bus.cart == old(self).bus.cart,
            final(self).ticks_left == old(self).ticks_left,
            final(self).num_cpu_cycles == old(self).num_cpu_cycles,
            final(self).num_system_ticks == old(self).num_system_ticks,
            final(self).interrupt == old(self).interrupt,
            r is Ok ==> final(self).cycles_left == 7,
            r is Err ==> final(self).cycles_left == old(self).cycles_left,
            r is Ok ==> final(self).bus.ppu.cycle == 0 && final(self).bus.ppu.scanline == 0
                && final(self).bus.ppu.odd_frame == false,
            r is Err ==> final(self).bus.ppu.cycle == old(self).bus.ppu.cycle && final(self).bus.ppu.scanline == old(self).bus.ppu.scanline && final(self).bus.ppu.odd_frame
                == old(self).bus.ppu.odd_frame,
            ({
                let lo = old(self).bus.cart.spec_cpu_read(0xFFFC);
                let hi = old(self).bus.cart.spec_cpu_read(0xFFFD);
                (lo is Ok && hi is Ok) ==> ({
                    &&& lo matches Ok(l)
                    &&& hi matches Ok(h)
                    &&& r is Ok
                    &&& final(self).reg == (Registers {
                        a: 0,
                        x: 0,
                        y: 0,
                        pc: crate::mem::utils::spec_make_address(l, h),
                        sp: 0xFD,
                        status: StatusFlags {
                            bits: (UNUSED | crate::cpu::reg::INTERRUPT_DISABLE) as u8,
                        },
                    })
                    &&& final(self).cycles_left == 7
                })
            }),
    {
        let lo = self.read(0xFFFC)?;
        let hi = self.read(0xFFFD)?;
        self.reg.pc = make_address(lo, hi);
        self.reg.a = 0;
        self.reg.x = 0;
        self.reg.y = 0;
        self.reg.sp = 0xFD;
        self.reg.status = StatusFlags::from_bits(UNUSED | crate::cpu::reg::INTERRUPT_DISABLE);
        self.cycles_left = 7;
        let ppu_reset = self.bus.ppu.reset();
        proof {
            assert(ppu_reset is Ok);
        }
        Ok(())
    }

    /// Commit one instruction boundary: take a pending interrupt first
    /// (reset runs the reset sequence; an interrupt request is masked by
    /// the interrupt-disable flag, a non-maskable one is not), otherwise
    /// fetch, decode and run the instruction under the program counter.
    /// Returns how many cycles the boundary consumes.
    fn run_next_instr(&mut self) -> (r: Result<u16, NesError>)
        requires
            old(self).wf(),
            old(self).cycles_left < 0xF000,
        ensures
            final(self).wf(),
            final(self).cycles_left <= old(self).cycles_left + 514,
            final(self).ticks_left == old(self).ticks_left,
            final(self).num_cpu_cycles == old(self).num_cpu_cycles,
            final(self).num_system_ticks == old(self).num_system_ticks,
            final(self).interrupt == old(self).interrupt || final(self).interrupt is None,
            old(self).interrupt != Some(Interrupt::Reset) ==> final(self).bus.ppu.cycle == old(self).bus.ppu.cycle && final(self).bus.ppu.scanline == old(self).bus.ppu.scanline
                && final(self).bus.ppu.odd_frame == old(self).bus.ppu.odd_frame,
            old(self).interrupt == Some(Interrupt::Reset) && r is Ok ==> final(self).bus.ppu.cycle == 0 && final(self).bus.ppu.scanline == 0 && final(self).interrupt
                is None,
            old(self).interrupt == Some(Interrupt::Reset) && r is Err ==> final(self).bus.ppu.cycle == old(self).bus.ppu.cycle && final(self).bus.ppu.scanline == old(self).bus.ppu.scanline,
            r matches Ok(n) ==> 1 <= n <= 10,
            old(self).interrupt == Some(Interrupt::NonMaskable) ==> ({
                let lo = old(self).bus.cart.spec_cpu_read(0xFFFA);
                let hi = old(self).bus.cart.spec_cpu_read(0xFFFB);
                (lo is Ok && hi is Ok) ==> ({
                    &&& lo matches Ok(l)
                    &&& hi matches Ok(h)
                    &&& r == Ok::<u16, NesError>(8)
                    &&& final(self).interrupt is None
                    &&& final(self).reg.pc == crate::mem::utils::spec_make_address(l, h)
                    &&& final(self).reg.sp == old(self).reg.sp.wrapping_sub(3)
                    &&& final(self).reg.status.bits == (((old(self).reg.status.bits & !BREAK)
                        | UNUSED) | crate::cpu::reg::INTERRUPT_DISABLE) as u8
                    &&& final(self).bus.ram.mem@ == old(self).bus.ram.mem@.update(
                        (crate::cpu::exec::spec_stack_addr(old(self).reg.sp) & 0x7FF) as int,
                        ((old(self).reg.pc >> 8) & 0xFF) as u8,
                    ).update(
                        (crate::cpu::exec::spec_stack_addr(old(self).reg.sp.wrapping_sub(1))
                            & 0x7FF) as int,
                        (old(self).reg.pc & 0xFF) as u8,
                    ).update(
                        (crate::cpu::exec::spec_stack_addr(old(self).reg.sp.wrapping_sub(2))
                            & 0x7FF) as int,
                        ((old(self).reg.status.bits & !BREAK) | UNUSED) as u8,
                    )
                })
            }),
    {
        match self.interrupt {
            Some(interrupt) => {
                if matches!(interrupt, Interrupt::Reset) {
                    self.reset()?;
                    self.interrupt = None;
                    return Ok(7);
                }
                let interrupts_enabled = !self.reg.status.contains(
                    crate::cpu::reg::INTERRUPT_DISABLE,
                );
                if !matches!(interrupt, Interrupt::Request) || interrupts_enabled {
                    let vector = interrupt.vector();
                    let lo = self.read(vector)?;
                    let hi = self.read(vector + 1)?;
                    let isr_addr = make_address(lo, hi);

                    let pc = self.reg.pc;
                    crate::cpu::exec::push_stack_addr(self, pc)?;
                    self.reg.status.remove(BREAK);
                    self.reg.status.insert(UNUSED);
                    let bits = self.reg.status.bits();
                    crate::cpu::exec::push_stack(self, bits)?;
                    self.reg.status.insert(crate::cpu::reg::INTERRUPT_DISABLE);

                    self.reg.pc = isr_addr;
                    self.interrupt = None;
                    return Ok(interrupt.num_cycles());
                }
            },
            None => {},
        }

        let (i, ncycles) = fetch_instr(self)?;
        let extra = crate::cpu::exec::exec_instr(i, self)?;
        Ok(ncycles + extra)
    }

    /// One CPU cycle: when the countdown is spent, commit the next
    /// instruction boundary and reserve its cycles; then burn one cycle.
    fn cycle(&mut self) -> (r: Result<(), NesError>)
        requires
            old(self).wf(),
            old(self).cycles_left < 0xF000,
        ensures
            final(self).wf(),
            final(self).cycles_left < 0xF000,
            final(self).ticks_left == old(self).ticks_left,
            final(self).num_system_ticks == old(self).num_system_ticks,
            final(self).interrupt == old(self).interrupt || final(self).interrupt is None,
            r is Ok ==> final(self).num_cpu_cycles == old(self).num_cpu_cycles.wrapping_add(1),
            old(self).cycles_left != 0 || old(self).interrupt != Some(Interrupt::Reset)
                ==> final(self).bus.ppu.cycle == old(self).bus.ppu.cycle && final(self).bus.ppu.scanline == old(self).bus.ppu.scanline && final(self).bus.ppu.odd_frame
                == old(self).bus.ppu.odd_frame,
            old(self).cycles_left == 0 && old(self).interrupt == Some(Interrupt::Reset) && r
                is Ok ==> final(self).bus.ppu.cycle == 0 && final(self).bus.ppu.scanline == 0
                && final(self).interrupt is None,
            old(self).cycles_left == 0 && old(self).interrupt == Some(Interrupt::Reset) && r
                is Err ==> final(self).bus.ppu.cycle == old(self).bus.ppu.cycle && final(self).bus.ppu.scanline == old(self).bus.ppu.scanline,
    {
        if self.cycles_left == 0 {
            let n = self.run_next_instr()?;
            self.cycles_left = self.cycles_left + n;
        }
        self.cycles_left = self.cycles_left - 1;
        self.num_cpu_cycles = self.num_cpu_cycles.wrapping_add(1);
        Ok(())
    }

    /// One tick of the master clock: every third tick burns a CPU cycle
    /// (committing an instruction when its budget is spent), then the PPU
    /// advances one dot. A non-maskable interrupt the PPU raises latches
    /// here and is taken at the next instruction boundary; the finished
    /// frame, when one completes, is handed back.
    pub fn system_tick(&mut self) -> (r: Result<Option<Frame>, NesError>)
        requires
            old(self).wf(),
            old(self).cycles_left < 0xF000,
        ensures
            final(self).wf(),
            final(self).cycles_left < 0xF000,
            final(self).num_system_ticks == old(self).num_system_ticks.wrapping_add(1),
            r is Ok ==> final(self).ticks_left == (if old(self).ticks_left == 0 {
                (NUM_TICKS_PER_CPU_CYCLE - 1) as u8
            } else {
                (old(self).ticks_left - 1) as u8
            }),
            r is Ok ==> (final(self).interrupt == old(self).interrupt || final(self).interrupt
                is None || final(self).interrupt == Some(Interrupt::NonMaskable)),
            r is Ok ==> final(self).num_cpu_cycles == (if old(self).ticks_left == 0 {
                old(self).num_cpu_cycles.wrapping_add(1)
            } else {
                old(self).num_cpu_cycles
            }),
            ({
                // The boundary hit by this tick runs the reset sequence,
                // restarting the frame from its first dot.
                let rst = old(self).ticks_left == 0 && old(self).cycles_left == 0 && old(self).interrupt == Some(Interrupt::Reset);
                &&& r is Ok && rst ==> final(self).bus.ppu.cycle == 1 && final(self).bus.ppu.scanline == 0
                &&& r is Ok && !rst ==> ({
                    &&& old(self).bus.ppu.cycle < 340 ==> final(self).bus.ppu.cycle == old(self).bus.ppu.cycle + 1 && final(self).bus.ppu.scanline == old(self).bus.ppu.scanline
                    &&& old(self).bus.ppu.cycle == 340 ==> final(self).bus.ppu.cycle == 0 && (
                    old(self).bus.ppu.scanline < 260 ==> final(self).bus.ppu.scanline == old(self).bus.ppu.scanline + 1) && (old(self).bus.ppu.scanline == 260 ==> final(self).bus.ppu.scanline == -1)
                })
                &&& !rst ==> (r matches Ok(out) ==> (out is Some <==> old(self).bus.ppu.cycle
                    == 340 && old(self).bus.ppu.scanline == 260))
                &&& rst ==> (r matches Ok(out) ==> out is None && final(self).interrupt
                    is None)
                &&& r is Ok && !rst && !(old(self).bus.ppu.scanline == 241 && old(self).bus.ppu.cycle == 1) ==> (final(self).interrupt == old(self).interrupt
                    || final(self).interrupt is None)
            }),
            r matches Ok(Some(f)) ==> f.wf(),
    {
        self.num_system_ticks = self.num_system_ticks.wrapping_add(1);

        if self.ticks_left == 0 {
            self.cycle()?;
            self.ticks_left = NUM_TICKS_PER_CPU_CYCLE;
        }
        self.ticks_left = self.ticks_left - 1;

        let (frame, irq) = self.bus.ppu.tick(&self.bus.cart)?;
        match irq {
            Some(i) => {
                self.interrupt = Some(i);
            },
            None => {},
        }
        Ok(frame)
    }

    /// Drive the machine until the PPU completes a picture: the frame
    /// arrives within one frame's worth of dots (plus one restart if a
    /// reset is pending), so the loop terminates whenever the ticks keep
    /// succeeding, and a tick's failure is handed through unchanged.
    pub fn next_frame(&mut self) -> (r: Result<Frame, NesError>)
        requires
            old(self).wf(),
            old(self).cycles_left < 0xF000,
        ensures
            final(self).wf(),
            r matches Ok(f) ==> f.wf(),
    {
        loop
            invariant
                self.wf(),
                self.cycles_left < 0xF000,
            decreases (if self.interrupt == Some(Interrupt::Reset) {
                1int
            } else {
                0int
            }), (260 - self.bus.ppu.scanline) * 341 + 340 - self.bus.ppu.cycle,
        {
            match self.system_tick()? {
                Some(frame) => {
                    return Ok(frame);
                },
                None => {},
            }
        }
    }

    /// The instruction `offset` boundaries ahead of the program counter,
    /// with its address, by decoding forward; the program counter is put
    /// back afterwards.
    pub fn peek_next_instr(&mut self, offset: u16) -> (r: Result<(u16, Instr), NesError>)
        requires
            old(self).wf(),
        ensures
            final(self).wf(),
    {
        let restore_pc = self.reg.pc;
        let mut prev_pc = restore_pc;
        let mut i: u16 = 0;
        loop
            invariant
                self.wf(),
                i <= offset,
            decreases offset - i,
        {
            match fetch_instr(self) {
                Ok((instr, _)) => {
                    if i >= offset {
                        self.reg.pc = restore_pc;
                        return Ok((prev_pc, instr));
                    }
                    prev_pc = self.reg.pc;
                    i = i + 1;
                },
                Err(_) => {
                    break ;
                },
            }
        }
        self.reg.pc = restore_pc;
        Err(NesError::UnsupportedRom)
    }

    /// One line of execution trace: the program counter and registers in
    /// hex, the PPU's scanline and dot, and the elapsed CPU cycles. Logs
    /// built from these lines let a run be compared instruction by
    /// instruction against a reference.
    pub fn trace_line(&self) -> (r: String)
        requires
            self.wf(),
    {
        let mut line = crate::cpu::isa::hex4(self.reg.pc);
        line.append(" A:");
        line.append(crate::cpu::isa::hex2(self.reg.a).as_str());
        line.append(" X:");
        line.append(crate::cpu::isa::hex2(self.reg.x).as_str());
        line.append(" Y:");
        line.append(crate::cpu::isa::hex2(self.reg.y).as_str());
        line.append(" P:");
        line.append(crate::cpu::isa::hex2(self.reg.status.bits).as_str());
        line.append(" SP:");
        line.append(crate::cpu::isa::hex2(self.reg.sp).as_str());
        line.append(" PPU:");
        if self.bus.ppu.scanline < 0 {
            line.append("-");
            line.append(crate::cpu::isa::dec_u64((0 - self.bus.ppu.scanline) as u64).as_str());
        } else {
            line.append(crate::cpu::isa::dec_u64(self.bus.ppu.scanline as u64).as_str());
        }
        line.append(",");
        line.append(crate::cpu::isa::dec_u64(self.bus.ppu.cycle).as_str());
        line.append(" CYC:");
        line.append(crate::cpu::isa::dec_u64(self.num_cpu_cycles).as_str());
        line
    }

    /// A copy of the picture as currently composed.
    pub fn debug_frame(&self) -> (r: Frame)
        requires
            self.wf(),
        ensures
            r.pixels@ == self.bus.ppu.buffer.pixels@,
    {
        self.bus.ppu.buffer.duplicate()
    }

    /// The eight palettes as display colors.
    pub fn debug_palettes(&self) -> (r: Vec<Vec<crate::ppu::colors::Color>>)
        requires
            self.wf(),
        ensures
            r@.len() == 8,
    {
        self.bus.ppu.debug_palettes()
    }

    /// Both pattern tables rendered under the given palette.
    pub fn debug_pattern_tables(&self, palette: u8, bg: bool) -> (r: Result<
        (Vec<crate::ppu::colors::Color>, Vec<crate::ppu::colors::Color>),
        NesError,
    >)
        requires
            self.wf(),
        ensures
            r matches Ok(t) ==> t.0@.len() == 128 * 128 && t.1@.len() == 128 * 128,
    {
        self.bus.ppu.debug_pattern_tables(palette, bg, &self.bus.cart)
    }
}

} // verus!

//! Effective-address computation and operand fetch for every addressing
//! mode, including the page-wrapped zero-page indexing and the `JMP`
//! indirect page-cross quirk.

use vstd::prelude::*;
use crate::cpu::cpu::Cpu;
use crate::cpu::isa::AddressingMode;
use crate::error::NesError;
use crate::mem::bus::spec_addr_pure;
use crate::mem::utils::{make_address, spec_make_address};

verus! {

/// The RAM byte a mirrored address reads.
pub open spec fn spec_ram_at(cpu: &Cpu, addr: u16) -> u8 {
    cpu.bus.ram.mem@[(addr & 0x7FF) as int]
}

/// Whether a mode names a memory cell (and so has an effective address).
pub open spec fn spec_has_eff_addr(am: AddressingMode) -> bool {
    match am {
        AddressingMode::Absolute(_) | AddressingMode::AbsoluteX(_) | AddressingMode::AbsoluteY(_)
            | AddressingMode::XIndirect(_) | AddressingMode::IndirectY(_)
            | AddressingMode::ZeroPage(_) | AddressingMode::ZeroPageX(_)
            | AddressingMode::ZeroPageY(_) => true,
        _ => false,
    }
}

/// The effective address of a memory mode: absolute forms index by `X` or
/// `Y` with a 16-bit wrapping sum, zero-page forms wrap within the page,
/// and the indirect forms read their pointer from the zero page.
pub open spec fn spec_eff_addr(cpu: &Cpu, am: AddressingMode) -> u16 {
    match am {
        AddressingMode::Absolute(addr) => addr,
        AddressingMode::AbsoluteX(addr) => addr.wrapping_add(cpu.reg.x as u16),
        AddressingMode::AbsoluteY(addr) => addr.wrapping_add(cpu.reg.y as u16),
        AddressingMode::XIndirect(offset) => {
            let zp = offset.wrapping_add(cpu.reg.x);
            spec_make_address(
                spec_ram_at(cpu, (zp & 0xFF) as u16),
                spec_ram_at(cpu, (zp.wrapping_add(1) & 0xFF) as u16),
            )
        },
        AddressingMode::IndirectY(offset) => spec_make_address(
            spec_ram_at(cpu, offset as u16),
            spec_ram_at(cpu, offset.wrapping_add(1) as u16),
        ).wrapping_add(cpu.reg.y as u16),
        AddressingMode::ZeroPage(offset) => offset as u16,
        AddressingMode::ZeroPageX(offset) => ((((offset as u16) + (cpu.reg.x as u16)) as u16)
            & 0xFF) as u16,
        AddressingMode::ZeroPageY(offset) => ((((offset as u16) + (cpu.reg.y as u16)) as u16)
            & 0xFF) as u16,
        _ => 0u16,
    }
}

/// Compute a memory mode's effective address, as [`spec_eff_addr`] says.
/// The zero-page pointer reads always land in RAM, so the machine is
/// unchanged and the computation never fails.
pub fn effective_addr(am: AddressingMode, cpu: &mut Cpu) -> (r: Result<u16, NesError>)
    requires
        old(cpu).wf(),
        spec_has_eff_addr(am),
    ensures
        *final(cpu) == *old(cpu),
        r == Ok::<u16, NesError>(spec_eff_addr(old(cpu), am)),
{
    proof {
        crate::bits::lemma_bit_bounds();
    }
    match am {
        AddressingMode::Absolute(addr) => Ok(addr),
        AddressingMode::AbsoluteX(addr) => Ok(addr.wrapping_add(cpu.reg.x as u16)),
        AddressingMode::AbsoluteY(addr) => Ok(addr.wrapping_add(cpu.reg.y as u16)),
        AddressingMode::XIndirect(offset) => {
            let zp = offset.wrapping_add(cpu.reg.x);
            let lo = match cpu.read(((zp & 0xFF) as u16)) {
                Ok(b) => b,
                Err(_) => {
                    proof {
                        assert(false);
                    }
                    0
                },
            };
            let hi = match cpu.read(((zp.wrapping_add(1) & 0xFF) as u16)) {
                Ok(b) => b,
                Err(_) => {
                    proof {
                        assert(false);
                    }
                    0
                },
            };
            Ok(make_address(lo, hi))
        },
        AddressingMode::IndirectY(offset) => {
            let lo = match cpu.read(offset as u16) {
                Ok(b) => b,
                Err(_) => {
                    proof {
                        assert(false);
                    }
                    0
                },
            };
            let hi = match cpu.read(offset.wrapping_add(1) as u16) {
                Ok(b) => b,
                Err(_) => {
                    proof {
                        assert(false);
                    }
                    0
                },
            };
            Ok(make_address(lo, hi).wrapping_add(cpu.reg.y as u16))
        },
        AddressingMode::ZeroPage(offset) => Ok(offset as u16),
        AddressingMode::ZeroPageX(offset) => Ok(((offset as u16) + (cpu.reg.x as u16)) & 0xFF),
        AddressingMode::ZeroPageY(offset) => Ok(((offset as u16) + (cpu.reg.y as u16)) & 0xFF),
        _ => {
            proof {
                assert(false);
            }
            Err(NesError::UnsupportedRom)
        },
    }
}

/// Whether a mode yields an operand byte.
pub open spec fn spec_has_operand(am: AddressingMode) -> bool {
    am is Accumulator || am is Immediate || spec_has_eff_addr(am)
}

/// The operand a mode yields, where the machine determines it without
/// side effects: the accumulator, the immediate byte, or the byte a pure
/// effective address reads. A PPU or controller operand has no fixed
/// value here.
pub open spec fn spec_operand(cpu: &Cpu, am: AddressingMode) -> Option<u8> {
    match am {
        AddressingMode::Accumulator => Some(cpu.reg.a),
        AddressingMode::Immediate(v) => Some(v),
        _ => {
            let ea = spec_eff_addr(cpu, am);
            if spec_addr_pure(ea) {
                match cpu.bus.spec_read_pure(ea) {
                    Ok(v) => Some(v),
                    Err(_) => None,
                }
            } else {
                None
            }
        },
    }
}

/// Fetch a mode's operand byte. Wherever [`spec_operand`] names the
/// value, the machine is unchanged and exactly that byte comes back; a
/// device operand can move device state, but never the registers, RAM or
/// the cartridge.
pub fn deref_byte(am: AddressingMode, cpu: &mut Cpu) -> (r: Result<u8, NesError>)
    requires
        old(cpu).wf(),
        spec_has_operand(am),
    ensures
        final(cpu).bus.ppu.cycle == old(cpu).bus.ppu.cycle,
        final(cpu).bus.ppu.scanline == old(cpu).bus.ppu.scanline,
        final(cpu).bus.ppu.odd_frame == old(cpu).bus.ppu.odd_frame,
        final(cpu).wf(),
        final(cpu).reg == old(cpu).reg,
        final(cpu).interrupt == old(cpu).interrupt,
        final(cpu).cycles_left == old(cpu).cycles_left,
        final(cpu).ticks_left == old(cpu).ticks_left,
        final(cpu).num_cpu_cycles == old(cpu).num_cpu_cycles,
        final(cpu).num_system_ticks == old(cpu).num_system_ticks,
        final(cpu).bus.ram.mem@ == old(cpu).bus.ram.mem@,
        final(cpu).bus.cart == old(cpu).bus.cart,
        spec_operand(old(cpu), am) matches Some(v) ==> r == Ok::<u8, NesError>(v) && *final(cpu)
            == *old(cpu),
    {
    match am {
        AddressingMode::Accumulator => Ok(cpu.reg.a),
        AddressingMode::Immediate(val) => Ok(val),
        _ => {
            let addr = match effective_addr(am, cpu) {
                Ok(a) => a,
                Err(e) => {
                    return Err(e);
                },
            };
            cpu.read(addr)
        },
    }
}

/// The branch target: the relative offset, taken as signed, added onto
/// the program counter (which already sits past the operand).
pub open spec fn spec_rel_target(pc: u16, offset: u8) -> u16 {
    if offset & 0x80 != 0 {
        pc.wrapping_sub((256 - offset) as u16)
    } else {
        pc.wrapping_add(offset as u16)
    }
}

/// The address the `JMP` indirect pointer names, with the hardware
/// page-cross quirk: a pointer ending in `0xFF` takes its high byte from
/// the start of the same page.
pub open spec fn spec_indirect_target(cpu: &Cpu, addr: u16) -> Option<u16> {
    let hi_ptr = if addr & 0xFF == 0xFF {
        (addr & 0xFF00) as u16
    } else {
        (addr + 1) as u16
    };
    if spec_addr_pure(addr) && spec_addr_pure(hi_ptr) {
        match (cpu.bus.spec_read_pure(addr), cpu.bus.spec_read_pure(hi_ptr)) {
            (Ok(lo), Ok(hi)) => Some(spec_make_address(lo, hi)),
            _ => None,
        }
    } else {
        None
    }
}

/// Resolve a jump or branch target: `Absolute` is the operand itself,
/// `Relative` adds the signed offset to the program counter, and
/// `Indirect` follows the pointer with the page-cross quirk.
pub fn deref_address(am: AddressingMode, cpu: &mut Cpu) -> (r: Result<u16, NesError>)
    requires
        old(cpu).wf(),
        am is Indirect || am is Absolute || am is Relative,
    ensures
        final(cpu).bus.ppu.cycle == old(cpu).bus.ppu.cycle,
        final(cpu).bus.ppu.scanline == old(cpu).bus.ppu.scanline,
        final(cpu).bus.ppu.odd_frame == old(cpu).bus.ppu.odd_frame,
        final(cpu).wf(),
        final(cpu).reg == old(cpu).reg,
        final(cpu).bus.ram.mem@ == old(cpu).bus.ram.mem@,
        final(cpu).bus.cart == old(cpu).bus.cart,
        final(cpu).interrupt == old(cpu).interrupt,
        final(cpu).cycles_left == old(cpu).cycles_left,
        final(cpu).ticks_left == old(cpu).ticks_left,
        final(cpu).num_cpu_cycles == old(cpu).num_cpu_cycles,
        final(cpu).num_system_ticks == old(cpu).num_system_ticks,
        am matches AddressingMode::Absolute(addr) ==> r == Ok::<u16, NesError>(addr) && *final(cpu) == *old(cpu),
        am matches AddressingMode::Relative(offset) ==> r == Ok::<u16, NesError>(
            spec_rel_target(old(cpu).reg.pc, offset),
        ) && *final(cpu) == *old(cpu),
        am matches AddressingMode::Indirect(addr) ==> (spec_indirect_target(old(cpu), addr)
            matches Some(t) ==> r == Ok::<u16, NesError>(t) && *final(cpu) == *old(cpu)),
{
    match am {
        AddressingMode::Indirect(addr) => {
            if addr & 0xFF == 0xFF {
                let lo = cpu.read(addr)?;
                let hi = cpu.read(addr & 0xFF00)?;
                Ok(make_address(lo, hi))
            } else {
                proof {
                    crate::bits::lemma_bit_bounds();
                    assert(addr & 0xFF <= 0xFF);
                    assert(addr != 0xFFFF ==> addr + 1 <= 0xFFFF);
                    assert(addr == 0xFFFF ==> addr & 0xFF == 0xFF) by (bit_vector);
                }
                let lo = cpu.read(addr)?;
                let hi = cpu.read(addr + 1)?;
                Ok(make_address(lo, hi))
            }
        },
        AddressingMode::Absolute(addr) => Ok(addr),
        AddressingMode::Relative(offset) => {
            if offset & 0x80 != 0 {
                Ok(cpu.reg.pc.wrapping_sub(((256u16 - (offset as u16)) as u16)))
            } else {
                Ok(cpu.reg.pc.wrapping_add(offset as u16))
            }
        },
        _ => {
            proof {
                assert(false);
            }
            Err(NesError::UnsupportedRom)
        },
    }
}

/// Whether an indexed or relative access crosses a page, which costs the
/// listed extra cycle.
pub open spec fn spec_page_cross(cpu: &Cpu, am: AddressingMode) -> bool {
    match am {
        AddressingMode::AbsoluteX(addr) => addr & 0xFF00 != addr.wrapping_add(
            cpu.reg.x as u16,
        ) & 0xFF00,
        AddressingMode::AbsoluteY(addr) => addr & 0xFF00 != addr.wrapping_add(
            cpu.reg.y as u16,
        ) & 0xFF00,
        AddressingMode::IndirectY(offset) => {
            let base = spec_make_address(
                spec_ram_at(cpu, offset as u16),
                spec_ram_at(cpu, offset.wrapping_add(1) as u16),
            );
            base & 0xFF00 != base.wrapping_add(cpu.reg.y as u16) & 0xFF00
        },
        AddressingMode::Relative(offset) => cpu.reg.pc & 0xFF00 != spec_rel_target(
            cpu.reg.pc,
            offset,
        ) & 0xFF00,
        _ => false,
    }
}

/// Decide the extra-cycle page crossing, as [`spec_page_cross`] says.
pub fn cross_page_boundary(am: AddressingMode, cpu: &mut Cpu) -> (r: bool)
    requires
        old(cpu).wf(),
    ensures
        *final(cpu) == *old(cpu),
        r == spec_page_cross(old(cpu), am),
{
    match am {
        AddressingMode::AbsoluteX(addr) => {
            let target = addr.wrapping_add(cpu.reg.x as u16);
            (addr & 0xFF00) != (target & 0xFF00)
        },
        AddressingMode::AbsoluteY(addr) => {
            let target = addr.wrapping_add(cpu.reg.y as u16);
            (addr & 0xFF00) != (target & 0xFF00)
        },
        AddressingMode::IndirectY(offset) => {
            let lo = match cpu.read(offset as u16) {
                Ok(b) => b,
                Err(_) => {
                    proof {
                        assert(false);
                    }
                    0
                },
            };
            let hi = match cpu.read(offset.wrapping_add(1) as u16) {
                Ok(b) => b,
                Err(_) => {
                    proof {
                        assert(false);
                    }
                    0
                },
            };
            let effective = make_address(lo, hi);
            (effective & 0xFF00) != (effective.wrapping_add(cpu.reg.y as u16) & 0xFF00)
        },
        AddressingMode::Relative(offset) => {
            let target = if offset & 0x80 != 0 {
                cpu.reg.pc.wrapping_sub(((256u16 - (offset as u16)) as u16))
            } else {
                cpu.reg.pc.wrapping_add(offset as u16)
            };
            (cpu.reg.pc & 0xFF00) != (target & 0xFF00)
        },
        _ => false,
    }
}

} // verus!

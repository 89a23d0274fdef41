//! Execution of decoded instructions: the ALU and flag rules, the stack,
//! branches with their timing, interrupts from `BRK`, and the dispatcher.

use vstd::prelude::*;
use crate::cpu::cpu::{Cpu, STACK_OFFSET};
use crate::cpu::deref::{
    cross_page_boundary, deref_address, deref_byte, effective_addr, spec_eff_addr,
    spec_has_eff_addr, spec_has_operand, spec_indirect_target, spec_operand, spec_page_cross,
    spec_rel_target,
};
use crate::cpu::isa::{AddressingMode, Instr, Opcode};
use crate::cpu::reg::{
    StatusFlags, BREAK, CARRY, DECIMAL, INTERRUPT_DISABLE, NEGATIVE, OVERFLOW, UNUSED, ZERO,
};
use crate::error::NesError;
use crate::mem::utils::{hi_byte, lo_byte, make_address, spec_make_address};

verus! {

/// `bits` with all of `mask` driven to `cond`.
pub open spec fn spec_set(bits: u8, mask: u8, cond: bool) -> u8 {
    if cond {
        (bits | mask) as u8
    } else {
        (bits & !mask) as u8
    }
}

/// The status after an 8-bit result lands in a register: `N` takes the
/// result's top bit and `Z` its being zero; nothing else moves.
pub open spec fn spec_zn(bits: u8, val: u8) -> u8 {
    spec_set(spec_set(bits, NEGATIVE, val & 0x80 != 0), ZERO, val == 0)
}

/// The status after a compare: `N` from bit 7 of the wrapping difference,
/// `Z` when equal, `C` when the register is at least the operand.
pub open spec fn spec_compare(bits: u8, val: u8, m: u8) -> u8 {
    spec_set(
        spec_set(spec_set(bits, NEGATIVE, val.wrapping_sub(m) & 0x80 != 0), ZERO, m == val),
        CARRY,
        val >= m,
    )
}

/// The nine-bit sum an `ADC` forms.
pub open spec fn spec_adc_sum(a: u8, m: u8, c: bool) -> u16 {
    ((a as u16) + (m as u16) + (if c {
        1u16
    } else {
        0u16
    })) as u16
}

/// The accumulator after `ADC`: the sum truncated to eight bits.
pub open spec fn spec_adc_result(a: u8, m: u8, c: bool) -> u8 {
    (spec_adc_sum(a, m, c) & 0xFF) as u8
}

/// The carry after `ADC`: the sum overflowed eight bits.
pub open spec fn spec_adc_carry(a: u8, m: u8, c: bool) -> bool {
    spec_adc_sum(a, m, c) & 0xFF00 != 0
}

/// The overflow flag after `ADC`: both addends agree in sign and the
/// result disagrees.
pub open spec fn spec_adc_overflow(a: u8, m: u8, c: bool) -> bool {
    let r = spec_adc_result(a, m, c);
    (a ^ r) & (m ^ r) & 0x80 != 0
}

/// Everything outside the register file is unchanged between two machine
/// states.
pub open spec fn cpu_same_non_reg(a: &Cpu, b: &Cpu) -> bool {
    &&& a.bus == b.bus
    &&& a.interrupt == b.interrupt
    &&& a.cycles_left == b.cycles_left
    &&& a.ticks_left == b.ticks_left
    &&& a.num_cpu_cycles == b.num_cpu_cycles
    &&& a.num_system_ticks == b.num_system_ticks
}

/// The registers and everything else except RAM are unchanged; used by
/// the operations whose only side effect is a memory write.
pub open spec fn cpu_same_but_ram(a: &Cpu, b: &Cpu) -> bool {
    &&& a.reg == b.reg
    &&& a.bus.ppu == b.bus.ppu
    &&& a.bus.cart == b.bus.cart
    &&& a.bus.p1 == b.bus.p1
    &&& a.bus.p2 == b.bus.p2
    &&& a.interrupt == b.interrupt
    &&& a.ticks_left == b.ticks_left
    &&& a.num_cpu_cycles == b.num_cpu_cycles
    &&& a.num_system_ticks == b.num_system_ticks
}

/// Set `N` and `Z` from a result byte, as [`spec_zn`] says.
pub fn update_zn(cpu: &mut Cpu, val: u8)
    ensures
        *final(cpu) == (Cpu {
            reg: crate::cpu::reg::Registers {
                status: StatusFlags { bits: spec_zn(old(cpu).reg.status.bits, val) },
                ..old(cpu).reg
            },
            ..*old(cpu)
        }),
{
    cpu.reg.status.set(NEGATIVE, val & 0x80 != 0);
    cpu.reg.status.set(ZERO, val == 0);
}

/// The stack cell a stack pointer names.
pub open spec fn spec_stack_addr(sp: u8) -> u16 {
    (STACK_OFFSET + sp) as u16
}

/// Push one byte: store at the stack cell under `SP`, then decrement
/// `SP`, wrapping within the page.
pub fn push_stack(cpu: &mut Cpu, byte: u8) -> (r: Result<(), NesError>)
    requires
        old(cpu).wf(),
        old(cpu).cycles_left < 0xF000,
    ensures
        final(cpu).wf(),
        r == Ok::<(), NesError>(()),
        cpu_same_but_ram(&Cpu { reg: old(cpu).reg, ..*final(cpu) }, old(cpu)),
        final(cpu).cycles_left == old(cpu).cycles_left,
        final(cpu).reg == (crate::cpu::reg::Registers {
            sp: old(cpu).reg.sp.wrapping_sub(1),
            ..old(cpu).reg
        }),
        final(cpu).bus.ram.mem@ == old(cpu).bus.ram.mem@.update(
            (spec_stack_addr(old(cpu).reg.sp) & 0x7FF) as int,
            byte,
        ),
{
    let sp: u16 = (cpu.reg.sp as u16) + STACK_OFFSET;
    let r = cpu.write(sp, byte);
    proof {
        assert(r is Ok);
    }
    cpu.reg.sp = cpu.reg.sp.wrapping_sub(1);
    Ok(())
}

/// Push a 16-bit address, high byte first.
pub fn push_stack_addr(cpu: &mut Cpu, addr: u16) -> (r: Result<(), NesError>)
    requires
        old(cpu).wf(),
        old(cpu).cycles_left < 0xF000,
    ensures
        final(cpu).wf(),
        r == Ok::<(), NesError>(()),
        cpu_same_but_ram(&Cpu { reg: old(cpu).reg, ..*final(cpu) }, old(cpu)),
        final(cpu).cycles_left == old(cpu).cycles_left,
        final(cpu).reg == (crate::cpu::reg::Registers {
            sp: old(cpu).reg.sp.wrapping_sub(2),
            ..old(cpu).reg
        }),
        final(cpu).bus.ram.mem@ == old(cpu).bus.ram.mem@.update(
            (spec_stack_addr(old(cpu).reg.sp) & 0x7FF) as int,
            ((addr >> 8) & 0xFF) as u8,
        ).update(
            (spec_stack_addr(old(cpu).reg.sp.wrapping_sub(1)) & 0x7FF) as int,
            (addr & 0xFF) as u8,
        ),
{
    push_stack(cpu, hi_byte(addr))?;
    push_stack(cpu, lo_byte(addr))?;
    Ok(())
}

/// Pull one byte: increment `SP` (wrapping within the page), then read
/// the stack cell it names.
pub fn pop_stack(cpu: &mut Cpu) -> (r: Result<u8, NesError>)
    requires
        old(cpu).wf(),
    ensures
        final(cpu).wf(),
        cpu_same_but_ram(&Cpu { reg: old(cpu).reg, ..*final(cpu) }, old(cpu)),
        final(cpu).bus.ram.mem@ == old(cpu).bus.ram.mem@,
        final(cpu).cycles_left == old(cpu).cycles_left,
        final(cpu).reg == (crate::cpu::reg::Registers {
            sp: old(cpu).reg.sp.wrapping_add(1),
            ..old(cpu).reg
        }),
        r == Ok::<u8, NesError>(
            old(cpu).bus.ram.mem@[(spec_stack_addr(old(cpu).reg.sp.wrapping_add(1))
                & 0x7FF) as int],
        ),
{
    cpu.reg.sp = cpu.reg.sp.wrapping_add(1);
    let sp: u16 = (cpu.reg.sp as u16) + STACK_OFFSET;
    let r = cpu.read(sp);
    proof {
        assert(r is Ok);
    }
    r
}

/// Pull a 16-bit address, low byte first.
pub fn pop_stack_addr(cpu: &mut Cpu) -> (r: Result<u16, NesError>)
    requires
        old(cpu).wf(),
    ensures
        final(cpu).wf(),
        cpu_same_but_ram(&Cpu { reg: old(cpu).reg, ..*final(cpu) }, old(cpu)),
        final(cpu).bus.ram.mem@ == old(cpu).bus.ram.mem@,
        final(cpu).cycles_left == old(cpu).cycles_left,
        final(cpu).reg == (crate::cpu::reg::Registers {
            sp: old(cpu).reg.sp.wrapping_add(2),
            ..old(cpu).reg
        }),
        r == Ok::<u16, NesError>(
            spec_make_address(
                old(cpu).bus.ram.mem@[(spec_stack_addr(old(cpu).reg.sp.wrapping_add(1))
                    & 0x7FF) as int],
                old(cpu).bus.ram.mem@[(spec_stack_addr(old(cpu).reg.sp.wrapping_add(2))
                    & 0x7FF) as int],
            ),
        ),
{
    let lo = pop_stack(cpu)?;
    let hi = pop_stack(cpu)?;
    Ok(make_address(lo, hi))
}


/// `LDA`: load the accumulator, setting `N` and `Z` from the value; an indexed
/// page cross costs one extra cycle.
pub fn lda(am: AddressingMode, cpu: &mut Cpu) -> (r: Result<u16, NesError>)
    requires
        old(cpu).wf(),
        spec_has_operand(am),
    ensures
        final(cpu).bus.ppu.cycle == old(cpu).bus.ppu.cycle,
        final(cpu).bus.ppu.scanline == old(cpu).bus.ppu.scanline,
        final(cpu).bus.ppu.odd_frame == old(cpu).bus.ppu.odd_frame,
        final(cpu).ticks_left == old(cpu).ticks_left,
        final(cpu).num_cpu_cycles == old(cpu).num_cpu_cycles,
        final(cpu).num_system_ticks == old(cpu).num_system_ticks,
        final(cpu).wf(),
        final(cpu).reg.pc == old(cpu).reg.pc,
        final(cpu).reg.sp == old(cpu).reg.sp,
        final(cpu).bus.ram.mem@ == old(cpu).bus.ram.mem@,
        final(cpu).bus.cart == old(cpu).bus.cart,
        final(cpu).cycles_left == old(cpu).cycles_left,
        final(cpu).interrupt == old(cpu).interrupt,
        r matches Ok(extra) ==> extra == (if spec_page_cross(old(cpu), am) {
            1u16
        } else {
            0u16
        }),
        am is Immediate || am is Accumulator ==> r is Ok,
        spec_operand(old(cpu), am) matches Some(v) ==> (r is Ok && cpu_same_non_reg(
            final(cpu),
            old(cpu),
        ) && final(cpu).reg == (crate::cpu::reg::Registers {
            a: v,
            status: StatusFlags { bits: spec_zn(old(cpu).reg.status.bits, v) },
            ..old(cpu).reg
        })),
{
    let m = deref_byte(am, cpu)?;
    let crossed = cross_page_boundary(am, cpu);
    cpu.reg.a = m;
    update_zn(cpu, m);
    if crossed {
        Ok(1)
    } else {
        Ok(0)
    }
}

/// `LDX`: load the X index, setting `N` and `Z` from the value; an indexed
/// page cross costs one extra cycle.
pub fn ldx(am: AddressingMode, cpu: &mut Cpu) -> (r: Result<u16, NesError>)
    requires
        old(cpu).wf(),
        spec_has_operand(am),
    ensures
        final(cpu).bus.ppu.cycle == old(cpu).bus.ppu.cycle,
        final(cpu).bus.ppu.scanline == old(cpu).bus.ppu.scanline,
        final(cpu).bus.ppu.odd_frame == old(cpu).bus.ppu.odd_frame,
        final(cpu).ticks_left == old(cpu).ticks_left,
        final(cpu).num_cpu_cycles == old(cpu).num_cpu_cycles,
        final(cpu).num_system_ticks == old(cpu).num_system_ticks,
        final(cpu).wf(),
        final(cpu).reg.pc == old(cpu).reg.pc,
        final(cpu).reg.sp == old(cpu).reg.sp,
        final(cpu).bus.ram.mem@ == old(cpu).bus.ram.mem@,
        final(cpu).bus.cart == old(cpu).bus.cart,
        final(cpu).cycles_left == old(cpu).cycles_left,
        final(cpu).interrupt == old(cpu).interrupt,
        r matches Ok(extra) ==> extra == (if spec_page_cross(old(cpu), am) {
            1u16
        } else {
            0u16
        }),
        am is Immediate || am is Accumulator ==> r is Ok,
        spec_operand(old(cpu), am) matches Some(v) ==> (r is Ok && cpu_same_non_reg(
            final(cpu),
            old(cpu),
        ) && final(cpu).reg == (crate::cpu::reg::Registers {
            x: v,
            status: StatusFlags { bits: spec_zn(old(cpu).reg.status.bits, v) },
            ..old(cpu).reg
        })),
{
    let m = deref_byte(am, cpu)?;
    let crossed = cross_page_boundary(am, cpu);
    cpu.reg.x = m;
    update_zn(cpu, m);
    if crossed {
        Ok(1)
    } else {
        Ok(0)
    }
}

/// `LDY`: load the Y index, setting `N` and `Z` from the value; an indexed
/// page cross costs one extra cycle.
pub fn ldy(am: AddressingMode, cpu: &mut Cpu) -> (r: Result<u16, NesError>)
    requires
        old(cpu).wf(),
        spec_has_operand(am),
    ensures
        final(cpu).bus.ppu.cycle == old(cpu).bus.ppu.cycle,
        final(cpu).bus.ppu.scanline == old(cpu).bus.ppu.scanline,
        final(cpu).bus.ppu.odd_frame == old(cpu).bus.ppu.odd_frame,
        final(cpu).ticks_left == old(cpu).ticks_left,
        final(cpu).num_cpu_cycles == old(cpu).num_cpu_cycles,
        final(cpu).num_system_ticks == old(cpu).num_system_ticks,
        final(cpu).wf(),
        final(cpu).reg.pc == old(cpu).reg.pc,
        final(cpu).reg.sp == old(cpu).reg.sp,
        final(cpu).bus.ram.mem@ == old(cpu).bus.ram.mem@,
        final(cpu).bus.cart == old(cpu).bus.cart,
        final(cpu).cycles_left == old(cpu).cycles_left,
        final(cpu).interrupt == old(cpu).interrupt,
        r matches Ok(extra) ==> extra == (if spec_page_cross(old(cpu), am) {
            1u16
        } else {
            0u16
        }),
        am is Immediate || am is Accumulator ==> r is Ok,
        spec_operand(old(cpu), am) matches Some(v) ==> (r is Ok && cpu_same_non_reg(
            final(cpu),
            old(cpu),
        ) && final(cpu).reg == (crate::cpu::reg::Registers {
            y: v,
            status: StatusFlags { bits: spec_zn(old(cpu).reg.status.bits, v) },
            ..old(cpu).reg
        })),
{
    let m = deref_byte(am, cpu)?;
    let crossed = cross_page_boundary(am, cpu);
    cpu.reg.y = m;
    update_zn(cpu, m);
    if crossed {
        Ok(1)
    } else {
        Ok(0)
    }
}

/// `LAX`: load the accumulator and X together (undocumented), setting `N` and `Z` from the value; an indexed
/// page cross costs one extra cycle.
pub fn lax(am: AddressingMode, cpu: &mut Cpu) -> (r: Result<u16, NesError>)
    requires
        old(cpu).wf(),
        spec_has_operand(am),
    ensures
        final(cpu).bus.ppu.cycle == old(cpu).bus.ppu.cycle,
        final(cpu).bus.ppu.scanline == old(cpu).bus.ppu.scanline,
        final(cpu).bus.ppu.odd_frame == old(cpu).bus.ppu.odd_frame,
        final(cpu).ticks_left == old(cpu).ticks_left,
        final(cpu).num_cpu_cycles == old(cpu).num_cpu_cycles,
        final(cpu).num_system_ticks == old(cpu).num_system_ticks,
        final(cpu).wf(),
        final(cpu).reg.pc == old(cpu).reg.pc,
        final(cpu).reg.sp == old(cpu).reg.sp,
        final(cpu).bus.ram.mem@ == old(cpu).bus.ram.mem@,
        final(cpu).bus.cart == old(cpu).bus.cart,
        final(cpu).cycles_left == old(cpu).cycles_left,
        final(cpu).interrupt == old(cpu).interrupt,
        r matches Ok(extra) ==> extra == (if spec_page_cross(old(cpu), am) {
            1u16
        } else {
            0u16
        }),
        am is Immediate || am is Accumulator ==> r is Ok,
        spec_operand(old(cpu), am) matches Some(v) ==> (r is Ok && cpu_same_non_reg(
            final(cpu),
            old(cpu),
        ) && final(cpu).reg == (crate::cpu::reg::Registers {
            a: v,
            x: v,
            status: StatusFlags { bits: spec_zn(old(cpu).reg.status.bits, v) },
            ..old(cpu).reg
        })),
{
    let m = deref_byte(am, cpu)?;
    let crossed = cross_page_boundary(am, cpu);
    cpu.reg.x = m;
    cpu.reg.a = m;
    update_zn(cpu, m);
    if crossed {
        Ok(1)
    } else {
        Ok(0)
    }
}

/// `AND`: mask the operand into the accumulator, setting `N` and
/// `Z`; an indexed page cross costs one extra cycle.
pub fn and(am: AddressingMode, cpu: &mut Cpu) -> (r: Result<u16, NesError>)
    requires
        old(cpu).wf(),
        spec_has_operand(am),
    ensures
        final(cpu).bus.ppu.cycle == old(cpu).bus.ppu.cycle,
        final(cpu).bus.ppu.scanline == old(cpu).bus.ppu.scanline,
        final(cpu).bus.ppu.odd_frame == old(cpu).bus.ppu.odd_frame,
        final(cpu).ticks_left == old(cpu).ticks_left,
        final(cpu).num_cpu_cycles == old(cpu).num_cpu_cycles,
        final(cpu).num_system_ticks == old(cpu).num_system_ticks,
        final(cpu).wf(),
        final(cpu).reg.pc == old(cpu).reg.pc,
        final(cpu).reg.sp == old(cpu).reg.sp,
        final(cpu).reg.x == old(cpu).reg.x,
        final(cpu).reg.y == old(cpu).reg.y,
        final(cpu).bus.ram.mem@ == old(cpu).bus.ram.mem@,
        final(cpu).bus.cart == old(cpu).bus.cart,
        final(cpu).cycles_left == old(cpu).cycles_left,
        final(cpu).interrupt == old(cpu).interrupt,
        r matches Ok(extra) ==> extra == (if spec_page_cross(old(cpu), am) {
            1u16
        } else {
            0u16
        }),
        am is Immediate ==> r is Ok,
        spec_operand(old(cpu), am) matches Some(v) ==> (r is Ok && cpu_same_non_reg(
            final(cpu),
            old(cpu),
        ) && final(cpu).reg.a == (old(cpu).reg.a & v) as u8 && final(cpu).reg.status.bits
            == spec_zn(old(cpu).reg.status.bits, (old(cpu).reg.a & v) as u8)),
{
    let m = deref_byte(am, cpu)?;
    let crossed = cross_page_boundary(am, cpu);
    cpu.reg.a = cpu.reg.a & m;
    let a = cpu.reg.a;
    update_zn(cpu, a);
    if crossed {
        Ok(1)
    } else {
        Ok(0)
    }
}

/// `ORA`: merge the operand into the accumulator, setting `N` and
/// `Z`; an indexed page cross costs one extra cycle.
pub fn ora(am: AddressingMode, cpu: &mut Cpu) -> (r: Result<u16, NesError>)
    requires
        old(cpu).wf(),
        spec_has_operand(am),
    ensures
        final(cpu).bus.ppu.cycle == old(cpu).bus.ppu.cycle,
        final(cpu).bus.ppu.scanline == old(cpu).bus.ppu.scanline,
        final(cpu).bus.ppu.odd_frame == old(cpu).bus.ppu.odd_frame,
        final(cpu).ticks_left == old(cpu).ticks_left,
        final(cpu).num_cpu_cycles == old(cpu).num_cpu_cycles,
        final(cpu).num_system_ticks == old(cpu).num_system_ticks,
        final(cpu).wf(),
        final(cpu).reg.pc == old(cpu).reg.pc,
        final(cpu).reg.sp == old(cpu).reg.sp,
        final(cpu).reg.x == old(cpu).reg.x,
        final(cpu).reg.y == old(cpu).reg.y,
        final(cpu).bus.ram.mem@ == old(cpu).bus.ram.mem@,
        final(cpu).bus.cart == old(cpu).bus.cart,
        final(cpu).cycles_left == old(cpu).cycles_left,
        final(cpu).interrupt == old(cpu).interrupt,
        r matches Ok(extra) ==> extra == (if spec_page_cross(old(cpu), am) {
            1u16
        } else {
            0u16
        }),
        am is Immediate ==> r is Ok,
        spec_operand(old(cpu), am) matches Some(v) ==> (r is Ok && cpu_same_non_reg(
            final(cpu),
            old(cpu),
        ) && final(cpu).reg.a == (old(cpu).reg.a | v) as u8 && final(cpu).reg.status.bits
            == spec_zn(old(cpu).reg.status.bits, (old(cpu).reg.a | v) as u8)),
{
    let m = deref_byte(am, cpu)?;
    let crossed = cross_page_boundary(am, cpu);
    cpu.reg.a = cpu.reg.a | m;
    let a = cpu.reg.a;
    update_zn(cpu, a);
    if crossed {
        Ok(1)
    } else {
        Ok(0)
    }
}

/// `EOR`: exclusive-or the operand into the accumulator, setting `N` and
/// `Z`; an indexed page cross costs one extra cycle.
pub fn eor(am: AddressingMode, cpu: &mut Cpu) -> (r: Result<u16, NesError>)
    requires
        old(cpu).wf(),
        spec_has_operand(am),
    ensures
        final(cpu).bus.ppu.cycle == old(cpu).bus.ppu.cycle,
        final(cpu).bus.ppu.scanline == old(cpu).bus.ppu.scanline,
        final(cpu).bus.ppu.odd_frame == old(cpu).bus.ppu.odd_frame,
        final(cpu).ticks_left == old(cpu).ticks_left,
        final(cpu).num_cpu_cycles == old(cpu).num_cpu_cycles,
        final(cpu).num_system_ticks == old(cpu).num_system_ticks,
        final(cpu).wf(),
        final(cpu).reg.pc == old(cpu).reg.pc,
        final(cpu).reg.sp == old(cpu).reg.sp,
        final(cpu).reg.x == old(cpu).reg.x,
        final(cpu).reg.y == old(cpu).reg.y,
        final(cpu).bus.ram.mem@ == old(cpu).bus.ram.mem@,
        final(cpu).bus.cart == old(cpu).bus.cart,
        final(cpu).cycles_left == old(cpu).cycles_left,
        final(cpu).interrupt == old(cpu).interrupt,
        r matches Ok(extra) ==> extra == (if spec_page_cross(old(cpu), am) {
            1u16
        } else {
            0u16
        }),
        am is Immediate ==> r is Ok,
        spec_operand(old(cpu), am) matches Some(v) ==> (r is Ok && cpu_same_non_reg(
            final(cpu),
            old(cpu),
        ) && final(cpu).reg.a == (old(cpu).reg.a ^ v) as u8 && final(cpu).reg.status.bits
            == spec_zn(old(cpu).reg.status.bits, (old(cpu).reg.a ^ v) as u8)),
{
    let m = deref_byte(am, cpu)?;
    let crossed = cross_page_boundary(am, cpu);
    cpu.reg.a = cpu.reg.a ^ m;
    let a = cpu.reg.a;
    update_zn(cpu, a);
    if crossed {
        Ok(1)
    } else {
        Ok(0)
    }
}
/// `ADC`: add the operand and the carry into the accumulator. The flags
/// follow [`spec_adc_carry`] and [`spec_adc_overflow`]; an indexed page
/// cross costs one extra cycle.
pub fn adc(am: AddressingMode, cpu: &mut Cpu) -> (r: Result<u16, NesError>)
    requires
        old(cpu).wf(),
        spec_has_operand(am),
    ensures
        final(cpu).bus.ppu.cycle == old(cpu).bus.ppu.cycle,
        final(cpu).bus.ppu.scanline == old(cpu).bus.ppu.scanline,
        final(cpu).bus.ppu.odd_frame == old(cpu).bus.ppu.odd_frame,
        final(cpu).ticks_left == old(cpu).ticks_left,
        final(cpu).num_cpu_cycles == old(cpu).num_cpu_cycles,
        final(cpu).num_system_ticks == old(cpu).num_system_ticks,
        final(cpu).wf(),
        final(cpu).reg.pc == old(cpu).reg.pc,
        final(cpu).reg.sp == old(cpu).reg.sp,
        final(cpu).reg.x == old(cpu).reg.x,
        final(cpu).reg.y == old(cpu).reg.y,
        final(cpu).bus.ram.mem@ == old(cpu).bus.ram.mem@,
        final(cpu).bus.cart == old(cpu).bus.cart,
        final(cpu).cycles_left == old(cpu).cycles_left,
        final(cpu).interrupt == old(cpu).interrupt,
        r matches Ok(extra) ==> extra == (if spec_page_cross(old(cpu), am) {
            1u16
        } else {
            0u16
        }),
        am is Immediate ==> r is Ok,
        spec_operand(old(cpu), am) matches Some(m) ==> (r is Ok && cpu_same_non_reg(
            final(cpu),
            old(cpu),
        ) && ({
            let a0 = old(cpu).reg.a;
            let c0 = old(cpu).reg.status.bits & CARRY == CARRY;
            let res = spec_adc_result(a0, m, c0);
            &&& final(cpu).reg.a == res
            &&& final(cpu).reg.status.bits == spec_set(
                spec_set(spec_zn(old(cpu).reg.status.bits, res), CARRY, spec_adc_carry(a0, m, c0)),
                OVERFLOW,
                spec_adc_overflow(a0, m, c0),
            )
        })),
{
    let m = deref_byte(am, cpu)?;
    let crossed = cross_page_boundary(am, cpu);
    let c: u16 = if cpu.reg.status.contains(CARRY) {
        1
    } else {
        0
    };
    let a = cpu.reg.a;
    let sum: u16 = (a as u16) + (m as u16) + c;
    let masked = (sum & 0xFF) as u8;
    cpu.reg.a = masked;
    update_zn(cpu, masked);
    cpu.reg.status.set(CARRY, sum & 0xFF00 != 0);
    cpu.reg.status.set(OVERFLOW, (a ^ masked) & (m ^ masked) & 0x80 != 0);
    if crossed {
        Ok(1)
    } else {
        Ok(0)
    }
}

/// `SBC`: subtract the operand and the borrow; on this machine that is
/// exactly `ADC` of the operand's complement.
pub fn sbc(am: AddressingMode, cpu: &mut Cpu) -> (r: Result<u16, NesError>)
    requires
        old(cpu).wf(),
        spec_has_operand(am),
    ensures
        final(cpu).bus.ppu.cycle == old(cpu).bus.ppu.cycle,
        final(cpu).bus.ppu.scanline == old(cpu).bus.ppu.scanline,
        final(cpu).bus.ppu.odd_frame == old(cpu).bus.ppu.odd_frame,
        final(cpu).ticks_left == old(cpu).ticks_left,
        final(cpu).num_cpu_cycles == old(cpu).num_cpu_cycles,
        final(cpu).num_system_ticks == old(cpu).num_system_ticks,
        final(cpu).wf(),
        final(cpu).reg.pc == old(cpu).reg.pc,
        final(cpu).reg.sp == old(cpu).reg.sp,
        final(cpu).reg.x == old(cpu).reg.x,
        final(cpu).reg.y == old(cpu).reg.y,
        final(cpu).bus.ram.mem@ == old(cpu).bus.ram.mem@,
        final(cpu).bus.cart == old(cpu).bus.cart,
        final(cpu).cycles_left == old(cpu).cycles_left,
        final(cpu).interrupt == old(cpu).interrupt,
        r matches Ok(extra) ==> extra == (if spec_page_cross(old(cpu), am) {
            1u16
        } else {
            0u16
        }),
        am is Immediate ==> r is Ok,
        spec_operand(old(cpu), am) matches Some(v) ==> (r is Ok && cpu_same_non_reg(
            final(cpu),
            old(cpu),
        ) && ({
            let a0 = old(cpu).reg.a;
            let m = (!v) as u8;
            let c0 = old(cpu).reg.status.bits & CARRY == CARRY;
            let res = spec_adc_result(a0, m, c0);
            &&& final(cpu).reg.a == res
            &&& final(cpu).reg.status.bits == spec_set(
                spec_set(spec_zn(old(cpu).reg.status.bits, res), CARRY, spec_adc_carry(a0, m, c0)),
                OVERFLOW,
                spec_adc_overflow(a0, m, c0),
            )
        })),
{
    let m = !(deref_byte(am, cpu)?);
    let crossed = cross_page_boundary(am, cpu);
    let c: u16 = if cpu.reg.status.contains(CARRY) {
        1
    } else {
        0
    };
    let a = cpu.reg.a;
    let sum: u16 = (a as u16) + (m as u16) + c;
    let masked = (sum & 0xFF) as u8;
    cpu.reg.a = masked;
    update_zn(cpu, masked);
    cpu.reg.status.set(CARRY, sum & 0xFF00 != 0);
    cpu.reg.status.set(OVERFLOW, (a ^ masked) & (m ^ masked) & 0x80 != 0);
    if crossed {
        Ok(1)
    } else {
        Ok(0)
    }
}

/// Compare a register with the operand, as [`spec_compare`] says; an
/// indexed page cross costs one extra cycle.
pub fn compare(am: AddressingMode, cpu: &mut Cpu, val: u8) -> (r: Result<u16, NesError>)
    requires
        old(cpu).wf(),
        spec_has_operand(am),
    ensures
        final(cpu).bus.ppu.cycle == old(cpu).bus.ppu.cycle,
        final(cpu).bus.ppu.scanline == old(cpu).bus.ppu.scanline,
        final(cpu).bus.ppu.odd_frame == old(cpu).bus.ppu.odd_frame,
        final(cpu).ticks_left == old(cpu).ticks_left,
        final(cpu).num_cpu_cycles == old(cpu).num_cpu_cycles,
        final(cpu).num_system_ticks == old(cpu).num_system_ticks,
        final(cpu).wf(),
        final(cpu).reg.pc == old(cpu).reg.pc,
        final(cpu).reg.sp == old(cpu).reg.sp,
        final(cpu).reg.a == old(cpu).reg.a,
        final(cpu).reg.x == old(cpu).reg.x,
        final(cpu).reg.y == old(cpu).reg.y,
        final(cpu).bus.ram.mem@ == old(cpu).bus.ram.mem@,
        final(cpu).bus.cart == old(cpu).bus.cart,
        final(cpu).cycles_left == old(cpu).cycles_left,
        final(cpu).interrupt == old(cpu).interrupt,
        r matches Ok(extra) ==> extra == (if spec_page_cross(old(cpu), am) {
            1u16
        } else {
            0u16
        }),
        am is Immediate ==> r is Ok,
        spec_operand(old(cpu), am) matches Some(m) ==> (r is Ok && cpu_same_non_reg(
            final(cpu),
            old(cpu),
        ) && final(cpu).reg.status.bits == spec_compare(old(cpu).reg.status.bits, val, m)),
{
    let crossed = cross_page_boundary(am, cpu);
    let m = deref_byte(am, cpu)?;
    let diff = val.wrapping_sub(m);
    cpu.reg.status.set(NEGATIVE, diff & 0x80 != 0);
    cpu.reg.status.set(ZERO, m == val);
    cpu.reg.status.set(CARRY, val >= m);
    if crossed {
        Ok(1)
    } else {
        Ok(0)
    }
}

/// Branch to the relative target when the predicate holds: one extra
/// cycle for a taken branch and a second when it crosses a page.
pub fn branch_on_predicate(am: AddressingMode, cpu: &mut Cpu, take_branch: bool) -> (r: Result<
    u16,
    NesError,
>)
    requires
        old(cpu).wf(),
        am is Relative,
    ensures
        final(cpu).wf(),
        !take_branch ==> *final(cpu) == *old(cpu) && r == Ok::<u16, NesError>(0),
        take_branch ==> (am matches AddressingMode::Relative(off) && *final(cpu) == (Cpu {
            reg: crate::cpu::reg::Registers {
                pc: spec_rel_target(old(cpu).reg.pc, off),
                ..old(cpu).reg
            },
            ..*old(cpu)
        }) && r == Ok::<u16, NesError>(
            if spec_page_cross(old(cpu), am) {
                2
            } else {
                1
            },
        )),
{
    let cross = cross_page_boundary(am, cpu);
    if take_branch {
        let addr = deref_address(am, cpu)?;
        cpu.reg.pc = addr;
        if cross {
            Ok(2)
        } else {
            Ok(1)
        }
    } else {
        Ok(0)
    }
}

/// `CLC`: clear carry.
pub fn clc(am: AddressingMode, cpu: &mut Cpu) -> (r: Result<u16, NesError>)
    requires
        old(cpu).wf(),
    ensures
        final(cpu).wf(),
        r == Ok::<u16, NesError>(0),
        *final(cpu) == (Cpu {
            reg: crate::cpu::reg::Registers {
                status: StatusFlags { bits: (old(cpu).reg.status.bits & !CARRY) as u8 },
                ..old(cpu).reg
            },
            ..*old(cpu)
        }),
{
    cpu.reg.status.remove(CARRY);
    Ok(0)
}

/// `CLD`: clear decimal mode.
pub fn cld(am: AddressingMode, cpu: &mut Cpu) -> (r: Result<u16, NesError>)
    requires
        old(cpu).wf(),
    ensures
        final(cpu).wf(),
        r == Ok::<u16, NesError>(0),
        *final(cpu) == (Cpu {
            reg: crate::cpu::reg::Registers {
                status: StatusFlags { bits: (old(cpu).reg.status.bits & !DECIMAL) as u8 },
                ..old(cpu).reg
            },
            ..*old(cpu)
        }),
{
    cpu.reg.status.remove(DECIMAL);
    Ok(0)
}

/// `CLI`: clear the interrupt mask.
pub fn cli(am: AddressingMode, cpu: &mut Cpu) -> (r: Result<u16, NesError>)
    requires
        old(cpu).wf(),
    ensures
        final(cpu).wf(),
        r == Ok::<u16, NesError>(0),
        *final(cpu) == (Cpu {
            reg: crate::cpu::reg::Registers {
                status: StatusFlags { bits: (old(cpu).reg.status.bits & !INTERRUPT_DISABLE) as u8 },
                ..old(cpu).reg
            },
            ..*old(cpu)
        }),
{
    cpu.reg.status.remove(INTERRUPT_DISABLE);
    Ok(0)
}

/// `CLV`: clear overflow.
pub fn clv(am: AddressingMode, cpu: &mut Cpu) -> (r: Result<u16, NesError>)
    requires
        old(cpu).wf(),
    ensures
        final(cpu).wf(),
        r == Ok::<u16, NesError>(0),
        *final(cpu) == (Cpu {
            reg: crate::cpu::reg::Registers {
                status: StatusFlags { bits: (old(cpu).reg.status.bits & !OVERFLOW) as u8 },
                ..old(cpu).reg
            },
            ..*old(cpu)
        }),
{
    cpu.reg.status.remove(OVERFLOW);
    Ok(0)
}

/// `SEC`: set carry.
pub fn sec(am: AddressingMode, cpu: &mut Cpu) -> (r: Result<u16, NesError>)
    requires
        old(cpu).wf(),
    ensures
        final(cpu).wf(),
        r == Ok::<u16, NesError>(0),
        *final(cpu) == (Cpu {
            reg: crate::cpu::reg::Registers {
                status: StatusFlags { bits: (old(cpu).reg.status.bits | CARRY) as u8 },
                ..old(cpu).reg
            },
            ..*old(cpu)
        }),
{
    cpu.reg.status.insert(CARRY);
    Ok(0)
}

/// `SED`: set decimal mode.
pub fn sed(am: AddressingMode, cpu: &mut Cpu) -> (r: Result<u16, NesError>)
    requires
        old(cpu).wf(),
    ensures
        final(cpu).wf(),
        r == Ok::<u16, NesError>(0),
        *final(cpu) == (Cpu {
            reg: crate::cpu::reg::Registers {
                status: StatusFlags { bits: (old(cpu).reg.status.bits | DECIMAL) as u8 },
                ..old(cpu).reg
            },
            ..*old(cpu)
        }),
{
    cpu.reg.status.insert(DECIMAL);
    Ok(0)
}

/// `SEI`: set the interrupt mask.
pub fn sei(am: AddressingMode, cpu: &mut Cpu) -> (r: Result<u16, NesError>)
    requires
        old(cpu).wf(),
    ensures
        final(cpu).wf(),
        r == Ok::<u16, NesError>(0),
        *final(cpu) == (Cpu {
            reg: crate::cpu::reg::Registers {
                status: StatusFlags { bits: (old(cpu).reg.status.bits | INTERRUPT_DISABLE) as u8 },
                ..old(cpu).reg
            },
            ..*old(cpu)
        }),
{
    cpu.reg.status.insert(INTERRUPT_DISABLE);
    Ok(0)
}

/// `TAX`: copy the accumulator into X, setting `N` and `Z`.
pub fn tax(am: AddressingMode, cpu: &mut Cpu) -> (r: Result<u16, NesError>)
    requires
        old(cpu).wf(),
    ensures
        final(cpu).wf(),
        r == Ok::<u16, NesError>(0),
        *final(cpu) == (Cpu {
            reg: crate::cpu::reg::Registers {
                x: old(cpu).reg.a,
                status: StatusFlags {
                    bits: spec_zn(old(cpu).reg.status.bits, old(cpu).reg.a),
                },
                ..old(cpu).reg
            },
            ..*old(cpu)
        }),
{
    cpu.reg.x = cpu.reg.a;
    let v = cpu.reg.x;
    update_zn(cpu, v);
    Ok(0)
}

/// `TAY`: copy the accumulator into Y, setting `N` and `Z`.
pub fn tay(am: AddressingMode, cpu: &mut Cpu) -> (r: Result<u16, NesError>)
    requires
        old(cpu).wf(),
    ensures
        final(cpu).wf(),
        r == Ok::<u16, NesError>(0),
        *final(cpu) == (Cpu {
            reg: crate::cpu::reg::Registers {
                y: old(cpu).reg.a,
                status: StatusFlags {
                    bits: spec_zn(old(cpu).reg.status.bits, old(cpu).reg.a),
                },
                ..old(cpu).reg
            },
            ..*old(cpu)
        }),
{
    cpu.reg.y = cpu.reg.a;
    let v = cpu.reg.y;
    update_zn(cpu, v);
    Ok(0)
}

/// `TSX`: copy the stack pointer into X, setting `N` and `Z`.
pub fn tsx(am: AddressingMode, cpu: &mut Cpu) -> (r: Result<u16, NesError>)
    requires
        old(cpu).wf(),
    ensures
        final(cpu).wf(),
        r == Ok::<u16, NesError>(0),
        *final(cpu) == (Cpu {
            reg: crate::cpu::reg::Registers {
                x: old(cpu).reg.sp,
                status: StatusFlags {
                    bits: spec_zn(old(cpu).reg.status.bits, old(cpu).reg.sp),
                },
                ..old(cpu).reg
            },
            ..*old(cpu)
        }),
{
    cpu.reg.x = cpu.reg.sp;
    let v = cpu.reg.x;
    update_zn(cpu, v);
    Ok(0)
}

/// `TXA`: copy X into the accumulator, setting `N` and `Z`.
pub fn txa(am: AddressingMode, cpu: &mut Cpu) -> (r: Result<u16, NesError>)
    requires
        old(cpu).wf(),
    ensures
        final(cpu).wf(),
        r == Ok::<u16, NesError>(0),
        *final(cpu) == (Cpu {
            reg: crate::cpu::reg::Registers {
                a: old(cpu).reg.x,
                status: StatusFlags {
                    bits: spec_zn(old(cpu).reg.status.bits, old(cpu).reg.x),
                },
                ..old(cpu).reg
            },
            ..*old(cpu)
        }),
{
    cpu.reg.a = cpu.reg.x;
    let v = cpu.reg.a;
    update_zn(cpu, v);
    Ok(0)
}

/// `TYA`: copy Y into the accumulator, setting `N` and `Z`.
pub fn tya(am: AddressingMode, cpu: &mut Cpu) -> (r: Result<u16, NesError>)
    requires
        old(cpu).wf(),
    ensures
        final(cpu).wf(),
        r == Ok::<u16, NesError>(0),
        *final(cpu) == (Cpu {
            reg: crate::cpu::reg::Registers {
                a: old(cpu).reg.y,
                status: StatusFlags {
                    bits: spec_zn(old(cpu).reg.status.bits, old(cpu).reg.y),
                },
                ..old(cpu).reg
            },
            ..*old(cpu)
        }),
{
    cpu.reg.a = cpu.reg.y;
    let v = cpu.reg.a;
    update_zn(cpu, v);
    Ok(0)
}

/// `TXS`: copy X into the stack pointer.
pub fn txs(am: AddressingMode, cpu: &mut Cpu) -> (r: Result<u16, NesError>)
    requires
        old(cpu).wf(),
    ensures
        final(cpu).wf(),
        r == Ok::<u16, NesError>(0),
        *final(cpu) == (Cpu {
            reg: crate::cpu::reg::Registers {
                sp: old(cpu).reg.x,
                ..old(cpu).reg
            },
            ..*old(cpu)
        }),
{
    cpu.reg.sp = cpu.reg.x;
    Ok(0)
}

/// `INX`: step up the X register, wrapping, and set `N` and `Z`.
fn inx(am: AddressingMode, cpu: &mut Cpu) -> (r: Result<u16, NesError>)
    requires
        old(cpu).wf(),
    ensures
        final(cpu).wf(),
        r == Ok::<u16, NesError>(0),
        *final(cpu) == (Cpu {
            reg: crate::cpu::reg::Registers {
                x: old(cpu).reg.x.wrapping_add(1),
                status: StatusFlags {
                    bits: spec_zn(old(cpu).reg.status.bits, old(cpu).reg.x.wrapping_add(1)),
                },
                ..old(cpu).reg
            },
            ..*old(cpu)
        }),
{
    cpu.reg.x = cpu.reg.x.wrapping_add(1);
    let v = cpu.reg.x;
    update_zn(cpu, v);
    Ok(0)
}

/// `INY`: step up the Y register, wrapping, and set `N` and `Z`.
fn iny(am: AddressingMode, cpu: &mut Cpu) -> (r: Result<u16, NesError>)
    requires
        old(cpu).wf(),
    ensures
        final(cpu).wf(),
        r == Ok::<u16, NesError>(0),
        *final(cpu) == (Cpu {
            reg: crate::cpu::reg::Registers {
                y: old(cpu).reg.y.wrapping_add(1),
                status: StatusFlags {
                    bits: spec_zn(old(cpu).reg.status.bits, old(cpu).reg.y.wrapping_add(1)),
                },
                ..old(cpu).reg
            },
            ..*old(cpu)
        }),
{
    cpu.reg.y = cpu.reg.y.wrapping_add(1);
    let v = cpu.reg.y;
    update_zn(cpu, v);
    Ok(0)
}

/// `DEX`: step down the X register, wrapping, and set `N` and `Z`.
fn dex(am: AddressingMode, cpu: &mut Cpu) -> (r: Result<u16, NesError>)
    requires
        old(cpu).wf(),
    ensures
        final(cpu).wf(),
        r == Ok::<u16, NesError>(0),
        *final(cpu) == (Cpu {
            reg: crate::cpu::reg::Registers {
                x: old(cpu).reg.x.wrapping_sub(1),
                status: StatusFlags {
                    bits: spec_zn(old(cpu).reg.status.bits, old(cpu).reg.x.wrapping_sub(1)),
                },
                ..old(cpu).reg
            },
            ..*old(cpu)
        }),
{
    cpu.reg.x = cpu.reg.x.wrapping_sub(1);
    let v = cpu.reg.x;
    update_zn(cpu, v);
    Ok(0)
}

/// `DEY`: step down the Y register, wrapping, and set `N` and `Z`.
fn dey(am: AddressingMode, cpu: &mut Cpu) -> (r: Result<u16, NesError>)
    requires
        old(cpu).wf(),
    ensures
        final(cpu).wf(),
        r == Ok::<u16, NesError>(0),
        *final(cpu) == (Cpu {
            reg: crate::cpu::reg::Registers {
                y: old(cpu).reg.y.wrapping_sub(1),
                status: StatusFlags {
                    bits: spec_zn(old(cpu).reg.status.bits, old(cpu).reg.y.wrapping_sub(1)),
                },
                ..old(cpu).reg
            },
            ..*old(cpu)
        }),
{
    cpu.reg.y = cpu.reg.y.wrapping_sub(1);
    let v = cpu.reg.y;
    update_zn(cpu, v);
    Ok(0)
}

/// `BCC`: branch when carry is clear.
pub fn bcc(am: AddressingMode, cpu: &mut Cpu) -> (r: Result<u16, NesError>)
    requires
        old(cpu).wf(),
        am is Relative,
    ensures
        final(cpu).wf(),
        ({
            let take = old(cpu).reg.status.bits & CARRY != CARRY;
            &&& !take ==> *final(cpu) == *old(cpu) && r == Ok::<u16, NesError>(0)
            &&& take ==> (am matches AddressingMode::Relative(off) && *final(cpu) == (Cpu {
                reg: crate::cpu::reg::Registers {
                    pc: spec_rel_target(old(cpu).reg.pc, off),
                    ..old(cpu).reg
                },
                ..*old(cpu)
            }) && r == Ok::<u16, NesError>(
                if spec_page_cross(old(cpu), am) {
                    2
                } else {
                    1
                },
            ))
        }),
{
    let take = !cpu.reg.status.contains(CARRY);
    branch_on_predicate(am, cpu, take)
}

/// `BCS`: branch when carry is set.
pub fn bcs(am: AddressingMode, cpu: &mut Cpu) -> (r: Result<u16, NesError>)
    requires
        old(cpu).wf(),
        am is Relative,
    ensures
        final(cpu).wf(),
        ({
            let take = old(cpu).reg.status.bits & CARRY == CARRY;
            &&& !take ==> *final(cpu) == *old(cpu) && r == Ok::<u16, NesError>(0)
            &&& take ==> (am matches AddressingMode::Relative(off) && *final(cpu) == (Cpu {
                reg: crate::cpu::reg::Registers {
                    pc: spec_rel_target(old(cpu).reg.pc, off),
                    ..old(cpu).reg
                },
                ..*old(cpu)
            }) && r == Ok::<u16, NesError>(
                if spec_page_cross(old(cpu), am) {
                    2
                } else {
                    1
                },
            ))
        }),
{
    let take = cpu.reg.status.contains(CARRY);
    branch_on_predicate(am, cpu, take)
}

/// `BNE`: branch when the zero flag is clear.
pub fn bne(am: AddressingMode, cpu: &mut Cpu) -> (r: Result<u16, NesError>)
    requires
        old(cpu).wf(),
        am is Relative,
    ensures
        final(cpu).wf(),
        ({
            let take = old(cpu).reg.status.bits & ZERO != ZERO;
            &&& !take ==> *final(cpu) == *old(cpu) && r == Ok::<u16, NesError>(0)
            &&& take ==> (am matches AddressingMode::Relative(off) && *final(cpu) == (Cpu {
                reg: crate::cpu::reg::Registers {
                    pc: spec_rel_target(old(cpu).reg.pc, off),
                    ..old(cpu).reg
                },
                ..*old(cpu)
            }) && r == Ok::<u16, NesError>(
                if spec_page_cross(old(cpu), am) {
                    2
                } else {
                    1
                },
            ))
        }),
{
    let take = !cpu.reg.status.contains(ZERO);
    branch_on_predicate(am, cpu, take)
}

/// `BEQ`: branch when the zero flag is set.
pub fn beq(am: AddressingMode, cpu: &mut Cpu) -> (r: Result<u16, NesError>)
    requires
        old(cpu).wf(),
        am is Relative,
    ensures
        final(cpu).wf(),
        ({
            let take = old(cpu).reg.status.bits & ZERO == ZERO;
            &&& !take ==> *final(cpu) == *old(cpu) && r == Ok::<u16, NesError>(0)
            &&& take ==> (am matches AddressingMode::Relative(off) && *final(cpu) == (Cpu {
                reg: crate::cpu::reg::Registers {
                    pc: spec_rel_target(old(cpu).reg.pc, off),
                    ..old(cpu).reg
                },
                ..*old(cpu)
            }) && r == Ok::<u16, NesError>(
                if spec_page_cross(old(cpu), am) {
                    2
                } else {
                    1
                },
            ))
        }),
{
    let take = cpu.reg.status.contains(ZERO);
    branch_on_predicate(am, cpu, take)
}

/// `BPL`: branch when the negative flag is clear.
pub fn bpl(am: AddressingMode, cpu: &mut Cpu) -> (r: Result<u16, NesError>)
    requires
        old(cpu).wf(),
        am is Relative,
    ensures
        final(cpu).wf(),
        ({
            let take = old(cpu).reg.status.bits & NEGATIVE != NEGATIVE;
            &&& !take ==> *final(cpu) == *old(cpu) && r == Ok::<u16, NesError>(0)
            &&& take ==> (am matches AddressingMode::Relative(off) && *final(cpu) == (Cpu {
                reg: crate::cpu::reg::Registers {
                    pc: spec_rel_target(old(cpu).reg.pc, off),
                    ..old(cpu).reg
                },
                ..*old(cpu)
            }) && r == Ok::<u16, NesError>(
                if spec_page_cross(old(cpu), am) {
                    2
                } else {
                    1
                },
            ))
        }),
{
    let take = !cpu.reg.status.contains(NEGATIVE);
    branch_on_predicate(am, cpu, take)
}

/// `BMI`: branch when the negative flag is set.
pub fn bmi(am: AddressingMode, cpu: &mut Cpu) -> (r: Result<u16, NesError>)
    requires
        old(cpu).wf(),
        am is Relative,
    ensures
        final(cpu).wf(),
        ({
            let take = old(cpu).reg.status.bits & NEGATIVE == NEGATIVE;
            &&& !take ==> *final(cpu) == *old(cpu) && r == Ok::<u16, NesError>(0)
            &&& take ==> (am matches AddressingMode::Relative(off) && *final(cpu) == (Cpu {
                reg: crate::cpu::reg::Registers {
                    pc: spec_rel_target(old(cpu).reg.pc, off),
                    ..old(cpu).reg
                },
                ..*old(cpu)
            }) && r == Ok::<u16, NesError>(
                if spec_page_cross(old(cpu), am) {
                    2
                } else {
                    1
                },
            ))
        }),
{
    let take = cpu.reg.status.contains(NEGATIVE);
    branch_on_predicate(am, cpu, take)
}

/// `BVC`: branch when overflow is clear.
pub fn bvc(am: AddressingMode, cpu: &mut Cpu) -> (r: Result<u16, NesError>)
    requires
        old(cpu).wf(),
        am is Relative,
    ensures
        final(cpu).wf(),
        ({
            let take = old(cpu).reg.status.bits & OVERFLOW != OVERFLOW;
            &&& !take ==> *final(cpu) == *old(cpu) && r == Ok::<u16, NesError>(0)
            &&& take ==> (am matches AddressingMode::Relative(off) && *final(cpu) == (Cpu {
                reg: crate::cpu::reg::Registers {
                    pc: spec_rel_target(old(cpu).reg.pc, off),
                    ..old(cpu).reg
                },
                ..*old(cpu)
            }) && r == Ok::<u16, NesError>(
                if spec_page_cross(old(cpu), am) {
                    2
                } else {
                    1
                },
            ))
        }),
{
    let take = !cpu.reg.status.contains(OVERFLOW);
    branch_on_predicate(am, cpu, take)
}

/// `BVS`: branch when overflow is set.
pub fn bvs(am: AddressingMode, cpu: &mut Cpu) -> (r: Result<u16, NesError>)
    requires
        old(cpu).wf(),
        am is Relative,
    ensures
        final(cpu).wf(),
        ({
            let take = old(cpu).reg.status.bits & OVERFLOW == OVERFLOW;
            &&& !take ==> *final(cpu) == *old(cpu) && r == Ok::<u16, NesError>(0)
            &&& take ==> (am matches AddressingMode::Relative(off) && *final(cpu) == (Cpu {
                reg: crate::cpu::reg::Registers {
                    pc: spec_rel_target(old(cpu).reg.pc, off),
                    ..old(cpu).reg
                },
                ..*old(cpu)
            }) && r == Ok::<u16, NesError>(
                if spec_page_cross(old(cpu), am) {
                    2
                } else {
                    1
                },
            ))
        }),
{
    let take = cpu.reg.status.contains(OVERFLOW);
    branch_on_predicate(am, cpu, take)
}

/// `CMP`: compare the accumulator with the operand.
pub fn cmp(am: AddressingMode, cpu: &mut Cpu) -> (r: Result<u16, NesError>)
    requires
        old(cpu).wf(),
        spec_has_operand(am),
    ensures
        final(cpu).bus.ppu.cycle == old(cpu).bus.ppu.cycle,
        final(cpu).bus.ppu.scanline == old(cpu).bus.ppu.scanline,
        final(cpu).bus.ppu.odd_frame == old(cpu).bus.ppu.odd_frame,
        final(cpu).ticks_left == old(cpu).ticks_left,
        final(cpu).num_cpu_cycles == old(cpu).num_cpu_cycles,
        final(cpu).num_system_ticks == old(cpu).num_system_ticks,
        final(cpu).interrupt == old(cpu).interrupt,
        final(cpu).wf(),
        final(cpu).reg.pc == old(cpu).reg.pc,
        final(cpu).reg.a == old(cpu).reg.a,
        final(cpu).reg.x == old(cpu).reg.x,
        final(cpu).reg.y == old(cpu).reg.y,
        final(cpu).reg.sp == old(cpu).reg.sp,
        final(cpu).bus.ram.mem@ == old(cpu).bus.ram.mem@,
        final(cpu).bus.cart == old(cpu).bus.cart,
        final(cpu).cycles_left == old(cpu).cycles_left,
        r matches Ok(extra) ==> extra == (if spec_page_cross(old(cpu), am) {
            1u16
        } else {
            0u16
        }),
        am is Immediate ==> r is Ok,
        spec_operand(old(cpu), am) matches Some(m) ==> (r is Ok && cpu_same_non_reg(
            final(cpu),
            old(cpu),
        ) && final(cpu).reg.status.bits == spec_compare(
            old(cpu).reg.status.bits,
            old(cpu).reg.a,
            m,
        )),
{
    let val = cpu.reg.a;
    compare(am, cpu, val)
}

/// `CPX`: compare the X index with the operand.
pub fn cpx(am: AddressingMode, cpu: &mut Cpu) -> (r: Result<u16, NesError>)
    requires
        old(cpu).wf(),
        spec_has_operand(am),
    ensures
        final(cpu).bus.ppu.cycle == old(cpu).bus.ppu.cycle,
        final(cpu).bus.ppu.scanline == old(cpu).bus.ppu.scanline,
        final(cpu).bus.ppu.odd_frame == old(cpu).bus.ppu.odd_frame,
        final(cpu).ticks_left == old(cpu).ticks_left,
        final(cpu).num_cpu_cycles == old(cpu).num_cpu_cycles,
        final(cpu).num_system_ticks == old(cpu).num_system_ticks,
        final(cpu).interrupt == old(cpu).interrupt,
        final(cpu).wf(),
        final(cpu).reg.pc == old(cpu).reg.pc,
        final(cpu).reg.a == old(cpu).reg.a,
        final(cpu).reg.x == old(cpu).reg.x,
        final(cpu).reg.y == old(cpu).reg.y,
        final(cpu).reg.sp == old(cpu).reg.sp,
        final(cpu).bus.ram.mem@ == old(cpu).bus.ram.mem@,
        final(cpu).bus.cart == old(cpu).bus.cart,
        final(cpu).cycles_left == old(cpu).cycles_left,
        r matches Ok(extra) ==> extra == (if spec_page_cross(old(cpu), am) {
            1u16
        } else {
            0u16
        }),
        am is Immediate ==> r is Ok,
        spec_operand(old(cpu), am) matches Some(m) ==> (r is Ok && cpu_same_non_reg(
            final(cpu),
            old(cpu),
        ) && final(cpu).reg.status.bits == spec_compare(
            old(cpu).reg.status.bits,
            old(cpu).reg.x,
            m,
        )),
{
    let val = cpu.reg.x;
    compare(am, cpu, val)
}

/// `CPY`: compare the Y index with the operand.
pub fn cpy(am: AddressingMode, cpu: &mut Cpu) -> (r: Result<u16, NesError>)
    requires
        old(cpu).wf(),
        spec_has_operand(am),
    ensures
        final(cpu).bus.ppu.cycle == old(cpu).bus.ppu.cycle,
        final(cpu).bus.ppu.scanline == old(cpu).bus.ppu.scanline,
        final(cpu).bus.ppu.odd_frame == old(cpu).bus.ppu.odd_frame,
        final(cpu).ticks_left == old(cpu).ticks_left,
        final(cpu).num_cpu_cycles == old(cpu).num_cpu_cycles,
        final(cpu).num_system_ticks == old(cpu).num_system_ticks,
        final(cpu).interrupt == old(cpu).interrupt,
        final(cpu).wf(),
        final(cpu).reg.pc == old(cpu).reg.pc,
        final(cpu).reg.a == old(cpu).reg.a,
        final(cpu).reg.x == old(cpu).reg.x,
        final(cpu).reg.y == old(cpu).reg.y,
        final(cpu).reg.sp == old(cpu).reg.sp,
        final(cpu).bus.ram.mem@ == old(cpu).bus.ram.mem@,
        final(cpu).bus.cart == old(cpu).bus.cart,
        final(cpu).cycles_left == old(cpu).cycles_left,
        r matches Ok(extra) ==> extra == (if spec_page_cross(old(cpu), am) {
            1u16
        } else {
            0u16
        }),
        am is Immediate ==> r is Ok,
        spec_operand(old(cpu), am) matches Some(m) ==> (r is Ok && cpu_same_non_reg(
            final(cpu),
            old(cpu),
        ) && final(cpu).reg.status.bits == spec_compare(
            old(cpu).reg.status.bits,
            old(cpu).reg.y,
            m,
        )),
{
    let val = cpu.reg.y;
    compare(am, cpu, val)
}

/// `PHA`: push the accumulator.
pub fn pha(am: AddressingMode, cpu: &mut Cpu) -> (r: Result<u16, NesError>)
    requires
        old(cpu).wf(),
        old(cpu).cycles_left < 0xF000,
    ensures
        final(cpu).wf(),
        r == Ok::<u16, NesError>(0),
        cpu_same_but_ram(&Cpu { reg: old(cpu).reg, ..*final(cpu) }, old(cpu)),
        final(cpu).cycles_left == old(cpu).cycles_left,
        final(cpu).reg == (crate::cpu::reg::Registers {
            sp: old(cpu).reg.sp.wrapping_sub(1),
            ..old(cpu).reg
        }),
        final(cpu).bus.ram.mem@ == old(cpu).bus.ram.mem@.update(
            (spec_stack_addr(old(cpu).reg.sp) & 0x7FF) as int,
            old(cpu).reg.a,
        ),
{
    let a = cpu.reg.a;
    push_stack(cpu, a)?;
    Ok(0)
}

/// `PHP`: push the status with the break and unused bits set.
pub fn php(am: AddressingMode, cpu: &mut Cpu) -> (r: Result<u16, NesError>)
    requires
        old(cpu).wf(),
        old(cpu).cycles_left < 0xF000,
    ensures
        final(cpu).wf(),
        r == Ok::<u16, NesError>(0),
        cpu_same_but_ram(&Cpu { reg: old(cpu).reg, ..*final(cpu) }, old(cpu)),
        final(cpu).cycles_left == old(cpu).cycles_left,
        final(cpu).reg == (crate::cpu::reg::Registers {
            sp: old(cpu).reg.sp.wrapping_sub(1),
            ..old(cpu).reg
        }),
        final(cpu).bus.ram.mem@ == old(cpu).bus.ram.mem@.update(
            (spec_stack_addr(old(cpu).reg.sp) & 0x7FF) as int,
            ((old(cpu).reg.status.bits | BREAK) | UNUSED) as u8,
        ),
{
    let flags = (cpu.reg.status.bits() | BREAK) | UNUSED;
    push_stack(cpu, flags)?;
    Ok(0)
}

/// `PLA`: pull the accumulator and set `N` and `Z` from it.
pub fn pla(am: AddressingMode, cpu: &mut Cpu) -> (r: Result<u16, NesError>)
    requires
        old(cpu).wf(),
    ensures
        final(cpu).wf(),
        r == Ok::<u16, NesError>(0),
        cpu_same_but_ram(&Cpu { reg: old(cpu).reg, ..*final(cpu) }, old(cpu)),
        final(cpu).bus.ram.mem@ == old(cpu).bus.ram.mem@,
        final(cpu).cycles_left == old(cpu).cycles_left,
        ({
            let v = old(cpu).bus.ram.mem@[(spec_stack_addr(old(cpu).reg.sp.wrapping_add(1))
                & 0x7FF) as int];
            final(cpu).reg == (crate::cpu::reg::Registers {
                sp: old(cpu).reg.sp.wrapping_add(1),
                a: v,
                status: StatusFlags { bits: spec_zn(old(cpu).reg.status.bits, v) },
                ..old(cpu).reg
            })
        }),
{
    let v = pop_stack(cpu)?;
    cpu.reg.a = v;
    update_zn(cpu, v);
    Ok(0)
}

/// `PLP`: pull the status; the break bit reads back clear and the unused
/// bit reads back set.
pub fn plp(am: AddressingMode, cpu: &mut Cpu) -> (r: Result<u16, NesError>)
    requires
        old(cpu).wf(),
    ensures
        final(cpu).wf(),
        r == Ok::<u16, NesError>(0),
        cpu_same_but_ram(&Cpu { reg: old(cpu).reg, ..*final(cpu) }, old(cpu)),
        final(cpu).bus.ram.mem@ == old(cpu).bus.ram.mem@,
        final(cpu).cycles_left == old(cpu).cycles_left,
        ({
            let v = old(cpu).bus.ram.mem@[(spec_stack_addr(old(cpu).reg.sp.wrapping_add(1))
                & 0x7FF) as int];
            final(cpu).reg == (crate::cpu::reg::Registers {
                sp: old(cpu).reg.sp.wrapping_add(1),
                status: StatusFlags { bits: ((v & !BREAK) | UNUSED) as u8 },
                ..old(cpu).reg
            })
        }),
{
    let v = pop_stack(cpu)?;
    cpu.reg.status = StatusFlags::from_bits(v);
    cpu.reg.status.remove(BREAK);
    cpu.reg.status.insert(UNUSED);
    Ok(0)
}

/// `BIT`: `Z` from the accumulator masked with the operand, `N` and `V`
/// straight from the operand's top bits.
pub fn bit(am: AddressingMode, cpu: &mut Cpu) -> (r: Result<u16, NesError>)
    requires
        old(cpu).wf(),
        spec_has_operand(am),
    ensures
        final(cpu).bus.ppu.cycle == old(cpu).bus.ppu.cycle,
        final(cpu).bus.ppu.scanline == old(cpu).bus.ppu.scanline,
        final(cpu).bus.ppu.odd_frame == old(cpu).bus.ppu.odd_frame,
        final(cpu).ticks_left == old(cpu).ticks_left,
        final(cpu).num_cpu_cycles == old(cpu).num_cpu_cycles,
        final(cpu).num_system_ticks == old(cpu).num_system_ticks,
        final(cpu).interrupt == old(cpu).interrupt,
        final(cpu).wf(),
        final(cpu).reg.pc == old(cpu).reg.pc,
        final(cpu).reg.a == old(cpu).reg.a,
        final(cpu).reg.x == old(cpu).reg.x,
        final(cpu).reg.y == old(cpu).reg.y,
        final(cpu).reg.sp == old(cpu).reg.sp,
        final(cpu).bus.ram.mem@ == old(cpu).bus.ram.mem@,
        final(cpu).bus.cart == old(cpu).bus.cart,
        final(cpu).cycles_left == old(cpu).cycles_left,
        r matches Ok(extra) ==> extra == 0,
        spec_operand(old(cpu), am) matches Some(m) ==> (r is Ok && cpu_same_non_reg(
            final(cpu),
            old(cpu),
        ) && final(cpu).reg.status.bits == spec_set(
            spec_set(
                spec_set(old(cpu).reg.status.bits, NEGATIVE, m & 0x80 != 0),
                OVERFLOW,
                m & 0x40 != 0,
            ),
            ZERO,
            old(cpu).reg.a & m == 0,
        )),
{
    let m = deref_byte(am, cpu)?;
    cpu.reg.status.set(NEGATIVE, m & 0x80 != 0);
    cpu.reg.status.set(OVERFLOW, m & 0x40 != 0);
    let z = cpu.reg.a & m == 0;
    cpu.reg.status.set(ZERO, z);
    Ok(0)
}

/// `STA`: store the accumulator at the effective address.
pub fn sta(am: AddressingMode, cpu: &mut Cpu) -> (r: Result<u16, NesError>)
    requires
        old(cpu).wf(),
        old(cpu).cycles_left < 0xF000,
        spec_has_eff_addr(am),
    ensures
        final(cpu).bus.ppu.cycle == old(cpu).bus.ppu.cycle,
        final(cpu).bus.ppu.scanline == old(cpu).bus.ppu.scanline,
        final(cpu).bus.ppu.odd_frame == old(cpu).bus.ppu.odd_frame,
        final(cpu).ticks_left == old(cpu).ticks_left,
        final(cpu).num_cpu_cycles == old(cpu).num_cpu_cycles,
        final(cpu).num_system_ticks == old(cpu).num_system_ticks,
        final(cpu).cycles_left <= old(cpu).cycles_left + 514,
        final(cpu).wf(),
        final(cpu).reg == old(cpu).reg,
        final(cpu).interrupt == old(cpu).interrupt,
        r matches Ok(extra) ==> extra == 0,
        ({
            let ea = spec_eff_addr(old(cpu), am);
            ea <= 0x1FFF ==> (r is Ok && cpu_same_but_ram(final(cpu), old(cpu)) && final(cpu).cycles_left == old(cpu).cycles_left && final(cpu).bus.ram.mem@ == old(cpu).bus.ram.mem@.update((ea & 0x7FF) as int, old(cpu).reg.a))
        }),
{
    let addr = effective_addr(am, cpu)?;
    let a = cpu.reg.a;
    cpu.write(addr, a)?;
    Ok(0)
}

/// `STX`: store the X index at the effective address.
pub fn stx(am: AddressingMode, cpu: &mut Cpu) -> (r: Result<u16, NesError>)
    requires
        old(cpu).wf(),
        old(cpu).cycles_left < 0xF000,
        spec_has_eff_addr(am),
    ensures
        final(cpu).bus.ppu.cycle == old(cpu).bus.ppu.cycle,
        final(cpu).bus.ppu.scanline == old(cpu).bus.ppu.scanline,
        final(cpu).bus.ppu.odd_frame == old(cpu).bus.ppu.odd_frame,
        final(cpu).ticks_left == old(cpu).ticks_left,
        final(cpu).num_cpu_cycles == old(cpu).num_cpu_cycles,
        final(cpu).num_system_ticks == old(cpu).num_system_ticks,
        final(cpu).cycles_left <= old(cpu).cycles_left + 514,
        final(cpu).wf(),
        final(cpu).reg == old(cpu).reg,
        final(cpu).interrupt == old(cpu).interrupt,
        r matches Ok(extra) ==> extra == 0,
        ({
            let ea = spec_eff_addr(old(cpu), am);
            ea <= 0x1FFF ==> (r is Ok && cpu_same_but_ram(final(cpu), old(cpu)) && final(cpu).cycles_left == old(cpu).cycles_left && final(cpu).bus.ram.mem@ == old(cpu).bus.ram.mem@.update((ea & 0x7FF) as int, old(cpu).reg.x))
        }),
{
    let addr = effective_addr(am, cpu)?;
    let x = cpu.reg.x;
    cpu.write(addr, x)?;
    Ok(0)
}

/// `STY`: store the Y index at the effective address.
pub fn sty(am: AddressingMode, cpu: &mut Cpu) -> (r: Result<u16, NesError>)
    requires
        old(cpu).wf(),
        old(cpu).cycles_left < 0xF000,
        spec_has_eff_addr(am),
    ensures
        final(cpu).bus.ppu.cycle == old(cpu).bus.ppu.cycle,
        final(cpu).bus.ppu.scanline == old(cpu).bus.ppu.scanline,
        final(cpu).bus.ppu.odd_frame == old(cpu).bus.ppu.odd_frame,
        final(cpu).ticks_left == old(cpu).ticks_left,
        final(cpu).num_cpu_cycles == old(cpu).num_cpu_cycles,
        final(cpu).num_system_ticks == old(cpu).num_system_ticks,
        final(cpu).cycles_left <= old(cpu).cycles_left + 514,
        final(cpu).wf(),
        final(cpu).reg == old(cpu).reg,
        final(cpu).interrupt == old(cpu).interrupt,
        r matches Ok(extra) ==> extra == 0,
        ({
            let ea = spec_eff_addr(old(cpu), am);
            ea <= 0x1FFF ==> (r is Ok && cpu_same_but_ram(final(cpu), old(cpu)) && final(cpu).cycles_left == old(cpu).cycles_left && final(cpu).bus.ram.mem@ == old(cpu).bus.ram.mem@.update((ea & 0x7FF) as int, old(cpu).reg.y))
        }),
{
    let addr = effective_addr(am, cpu)?;
    let y = cpu.reg.y;
    cpu.write(addr, y)?;
    Ok(0)
}

/// The accumulator or memory byte shifted left; bit 7 leaves to carry.
pub open spec fn spec_asl(v: u8) -> u8 {
    (v << 1) as u8
}

/// Shifted right; bit 0 leaves to carry.
pub open spec fn spec_lsr(v: u8) -> u8 {
    (v >> 1) as u8
}

/// Rotated left through carry.
pub open spec fn spec_rol(v: u8, c: bool) -> u8 {
    (((((v as u16) << 1) | (if c {
        1u16
    } else {
        0u16
    })) & 0xFF)) as u8
}

/// Rotated right through carry.
pub open spec fn spec_ror(v: u8, c: bool) -> u8 {
    (((((v as u16) >> 1) | (if c {
        0x80u16
    } else {
        0u16
    })) & 0xFF)) as u8
}

/// `ASL`: shift left, in the accumulator or in memory; carry takes the
/// bit shifted out and `N`/`Z` follow the result.
pub fn asl(am: AddressingMode, cpu: &mut Cpu) -> (r: Result<u16, NesError>)
    requires
        old(cpu).wf(),
        old(cpu).cycles_left < 0xF000,
        am is Accumulator || spec_has_eff_addr(am),
    ensures
        final(cpu).bus.ppu.cycle == old(cpu).bus.ppu.cycle,
        final(cpu).bus.ppu.scanline == old(cpu).bus.ppu.scanline,
        final(cpu).bus.ppu.odd_frame == old(cpu).bus.ppu.odd_frame,
        final(cpu).ticks_left == old(cpu).ticks_left,
        final(cpu).num_cpu_cycles == old(cpu).num_cpu_cycles,
        final(cpu).num_system_ticks == old(cpu).num_system_ticks,
        final(cpu).interrupt == old(cpu).interrupt,
        final(cpu).cycles_left <= old(cpu).cycles_left + 514,
        final(cpu).wf(),
        final(cpu).reg.pc == old(cpu).reg.pc,
        final(cpu).reg.x == old(cpu).reg.x,
        final(cpu).reg.y == old(cpu).reg.y,
        final(cpu).reg.sp == old(cpu).reg.sp,
        r matches Ok(extra) ==> extra == 0,
        am is Accumulator ==> r is Ok && *final(cpu) == (Cpu {
            reg: crate::cpu::reg::Registers {
                a: spec_asl(old(cpu).reg.a),
                status: StatusFlags {
                    bits: spec_zn(
                        spec_set(old(cpu).reg.status.bits, CARRY, old(cpu).reg.a & 0x80 != 0),
                        spec_asl(old(cpu).reg.a),
                    ),
                },
                ..old(cpu).reg
            },
            ..*old(cpu)
        }),
        spec_has_eff_addr(am) && spec_eff_addr(old(cpu), am) <= 0x1FFF ==> (r is Ok && ({
            let ea = spec_eff_addr(old(cpu), am);
            let v = old(cpu).bus.ram.mem@[(ea & 0x7FF) as int];
            &&& final(cpu).bus.ram.mem@ == old(cpu).bus.ram.mem@.update(
                (ea & 0x7FF) as int,
                spec_asl(v),
            )
            &&& final(cpu).reg.a == old(cpu).reg.a
            &&& final(cpu).reg.status.bits == spec_zn(
                spec_set(old(cpu).reg.status.bits, CARRY, v & 0x80 != 0),
                spec_asl(v),
            )
            &&& final(cpu).bus.ppu == old(cpu).bus.ppu
            &&& final(cpu).bus.cart == old(cpu).bus.cart
            &&& final(cpu).cycles_left == old(cpu).cycles_left
        })),
{
    if matches!(am, AddressingMode::Accumulator) {
        let a = cpu.reg.a;
        let res = a << 1;
        cpu.reg.a = res;
        cpu.reg.status.set(CARRY, a & 0x80 != 0);
        update_zn(cpu, res);
        Ok(0)
    } else {
        let addr = effective_addr(am, cpu)?;
        let val = deref_byte(am, cpu)?;
        let res = val << 1;
        cpu.write(addr, res)?;
        cpu.reg.status.set(CARRY, val & 0x80 != 0);
        update_zn(cpu, res);
        Ok(0)
    }
}

/// `LSR`: shift right; carry takes bit 0 and `N` always clears.
pub fn lsr(am: AddressingMode, cpu: &mut Cpu) -> (r: Result<u16, NesError>)
    requires
        old(cpu).wf(),
        old(cpu).cycles_left < 0xF000,
        am is Accumulator || spec_has_eff_addr(am),
    ensures
        final(cpu).bus.ppu.cycle == old(cpu).bus.ppu.cycle,
        final(cpu).bus.ppu.scanline == old(cpu).bus.ppu.scanline,
        final(cpu).bus.ppu.odd_frame == old(cpu).bus.ppu.odd_frame,
        final(cpu).ticks_left == old(cpu).ticks_left,
        final(cpu).num_cpu_cycles == old(cpu).num_cpu_cycles,
        final(cpu).num_system_ticks == old(cpu).num_system_ticks,
        final(cpu).interrupt == old(cpu).interrupt,
        final(cpu).cycles_left <= old(cpu).cycles_left + 514,
        final(cpu).wf(),
        final(cpu).reg.pc == old(cpu).reg.pc,
        final(cpu).reg.x == old(cpu).reg.x,
        final(cpu).reg.y == old(cpu).reg.y,
        final(cpu).reg.sp == old(cpu).reg.sp,
        r matches Ok(extra) ==> extra == 0,
        am is Accumulator ==> r is Ok && *final(cpu) == (Cpu {
            reg: crate::cpu::reg::Registers {
                a: spec_lsr(old(cpu).reg.a),
                status: StatusFlags {
                    bits: spec_zn(
                        spec_set(old(cpu).reg.status.bits, CARRY, old(cpu).reg.a & 1 == 1),
                        spec_lsr(old(cpu).reg.a),
                    ),
                },
                ..old(cpu).reg
            },
            ..*old(cpu)
        }),
        spec_has_eff_addr(am) && spec_eff_addr(old(cpu), am) <= 0x1FFF ==> (r is Ok && ({
            let ea = spec_eff_addr(old(cpu), am);
            let v = old(cpu).bus.ram.mem@[(ea & 0x7FF) as int];
            &&& final(cpu).bus.ram.mem@ == old(cpu).bus.ram.mem@.update(
                (ea & 0x7FF) as int,
                spec_lsr(v),
            )
            &&& final(cpu).reg.a == old(cpu).reg.a
            &&& final(cpu).reg.status.bits == spec_zn(
                spec_set(old(cpu).reg.status.bits, CARRY, v & 1 == 1),
                spec_lsr(v),
            )
            &&& final(cpu).bus.ppu == old(cpu).bus.ppu
            &&& final(cpu).bus.cart == old(cpu).bus.cart
            &&& final(cpu).cycles_left == old(cpu).cycles_left
        })),
{
    if matches!(am, AddressingMode::Accumulator) {
        let a = cpu.reg.a;
        let res = a >> 1;
        cpu.reg.a = res;
        cpu.reg.status.set(CARRY, a & 1 == 1);
        update_zn(cpu, res);
        Ok(0)
    } else {
        let addr = effective_addr(am, cpu)?;
        let val = deref_byte(am, cpu)?;
        let res = val >> 1;
        cpu.write(addr, res)?;
        cpu.reg.status.set(CARRY, val & 1 == 1);
        update_zn(cpu, res);
        Ok(0)
    }
}

/// `ROL`: rotate left through carry.
pub fn rol(am: AddressingMode, cpu: &mut Cpu) -> (r: Result<u16, NesError>)
    requires
        old(cpu).wf(),
        old(cpu).cycles_left < 0xF000,
        am is Accumulator || spec_has_eff_addr(am),
    ensures
        final(cpu).bus.ppu.cycle == old(cpu).bus.ppu.cycle,
        final(cpu).bus.ppu.scanline == old(cpu).bus.ppu.scanline,
        final(cpu).bus.ppu.odd_frame == old(cpu).bus.ppu.odd_frame,
        final(cpu).ticks_left == old(cpu).ticks_left,
        final(cpu).num_cpu_cycles == old(cpu).num_cpu_cycles,
        final(cpu).num_system_ticks == old(cpu).num_system_ticks,
        final(cpu).interrupt == old(cpu).interrupt,
        final(cpu).cycles_left <= old(cpu).cycles_left + 514,
        final(cpu).wf(),
        final(cpu).reg.pc == old(cpu).reg.pc,
        final(cpu).reg.x == old(cpu).reg.x,
        final(cpu).reg.y == old(cpu).reg.y,
        final(cpu).reg.sp == old(cpu).reg.sp,
        r matches Ok(extra) ==> extra == 0,
        am is Accumulator ==> r is Ok && ({
            let c0 = old(cpu).reg.status.bits & CARRY == CARRY;
            *final(cpu) == (Cpu {
                reg: crate::cpu::reg::Registers {
                    a: spec_rol(old(cpu).reg.a, c0),
                    status: StatusFlags {
                        bits: spec_zn(
                            spec_set(old(cpu).reg.status.bits, CARRY, old(cpu).reg.a & 0x80 != 0),
                            spec_rol(old(cpu).reg.a, c0),
                        ),
                    },
                    ..old(cpu).reg
                },
                ..*old(cpu)
            })
        }),
        spec_has_eff_addr(am) && spec_eff_addr(old(cpu), am) <= 0x1FFF ==> (r is Ok && ({
            let ea = spec_eff_addr(old(cpu), am);
            let v = old(cpu).bus.ram.mem@[(ea & 0x7FF) as int];
            let c0 = old(cpu).reg.status.bits & CARRY == CARRY;
            &&& final(cpu).bus.ram.mem@ == old(cpu).bus.ram.mem@.update(
                (ea & 0x7FF) as int,
                spec_rol(v, c0),
            )
            &&& final(cpu).reg.a == old(cpu).reg.a
            &&& final(cpu).reg.status.bits == spec_zn(
                spec_set(old(cpu).reg.status.bits, CARRY, v & 0x80 != 0),
                spec_rol(v, c0),
            )
            &&& final(cpu).bus.ppu == old(cpu).bus.ppu
            &&& final(cpu).bus.cart == old(cpu).bus.cart
            &&& final(cpu).cycles_left == old(cpu).cycles_left
        })),
{
    let carry: u16 = if cpu.reg.status.contains(CARRY) {
        1
    } else {
        0
    };
    if matches!(am, AddressingMode::Accumulator) {
        let a = cpu.reg.a;
        let rot = ((a as u16) << 1) | carry;
        let masked = (rot & 0xFF) as u8;
        cpu.reg.status.set(CARRY, a & 0x80 != 0);
        cpu.reg.a = masked;
        update_zn(cpu, masked);
        Ok(0)
    } else {
        let addr = effective_addr(am, cpu)?;
        let m = deref_byte(am, cpu)?;
        let rot = ((m as u16) << 1) | carry;
        let masked = (rot & 0xFF) as u8;
        cpu.write(addr, masked)?;
        cpu.reg.status.set(CARRY, m & 0x80 != 0);
        update_zn(cpu, masked);
        Ok(0)
    }
}

/// `ROR`: rotate right through carry.
pub fn ror(am: AddressingMode, cpu: &mut Cpu) -> (r: Result<u16, NesError>)
    requires
        old(cpu).wf(),
        old(cpu).cycles_left < 0xF000,
        am is Accumulator || spec_has_eff_addr(am),
    ensures
        final(cpu).bus.ppu.cycle == old(cpu).bus.ppu.cycle,
        final(cpu).bus.ppu.scanline == old(cpu).bus.ppu.scanline,
        final(cpu).bus.ppu.odd_frame == old(cpu).bus.ppu.odd_frame,
        final(cpu).ticks_left == old(cpu).ticks_left,
        final(cpu).num_cpu_cycles == old(cpu).num_cpu_cycles,
        final(cpu).num_system_ticks == old(cpu).num_system_ticks,
        final(cpu).interrupt == old(cpu).interrupt,
        final(cpu).cycles_left <= old(cpu).cycles_left + 514,
        final(cpu).wf(),
        final(cpu).reg.pc == old(cpu).reg.pc,
        final(cpu).reg.x == old(cpu).reg.x,
        final(cpu).reg.y == old(cpu).reg.y,
        final(cpu).reg.sp == old(cpu).reg.sp,
        r matches Ok(extra) ==> extra == 0,
        am is Accumulator ==> r is Ok && ({
            let c0 = old(cpu).reg.status.bits & CARRY == CARRY;
            *final(cpu) == (Cpu {
                reg: crate::cpu::reg::Registers {
                    a: spec_ror(old(cpu).reg.a, c0),
                    status: StatusFlags {
                        bits: spec_zn(
                            spec_set(old(cpu).reg.status.bits, CARRY, old(cpu).reg.a & 1 == 1),
                            spec_ror(old(cpu).reg.a, c0),
                        ),
                    },
                    ..old(cpu).reg
                },
                ..*old(cpu)
            })
        }),
        spec_has_eff_addr(am) && spec_eff_addr(old(cpu), am) <= 0x1FFF ==> (r is Ok && ({
            let ea = spec_eff_addr(old(cpu), am);
            let v = old(cpu).bus.ram.mem@[(ea & 0x7FF) as int];
            let c0 = old(cpu).reg.status.bits & CARRY == CARRY;
            &&& final(cpu).bus.ram.mem@ == old(cpu).bus.ram.mem@.update(
                (ea & 0x7FF) as int,
                spec_ror(v, c0),
            )
            &&& final(cpu).reg.a == old(cpu).reg.a
            &&& final(cpu).reg.status.bits == spec_zn(
                spec_set(old(cpu).reg.status.bits, CARRY, v & 1 == 1),
                spec_ror(v, c0),
            )
            &&& final(cpu).bus.ppu == old(cpu).bus.ppu
            &&& final(cpu).bus.cart == old(cpu).bus.cart
            &&& final(cpu).cycles_left == old(cpu).cycles_left
        })),
{
    let carry: u16 = if cpu.reg.status.contains(CARRY) {
        0x80
    } else {
        0
    };
    if matches!(am, AddressingMode::Accumulator) {
        let a = cpu.reg.a;
        let rot = ((a as u16) >> 1) | carry;
        let masked = (rot & 0xFF) as u8;
        cpu.reg.status.set(CARRY, a & 1 == 1);
        cpu.reg.a = masked;
        update_zn(cpu, masked);
        Ok(0)
    } else {
        let addr = effective_addr(am, cpu)?;
        let m = deref_byte(am, cpu)?;
        let rot = ((m as u16) >> 1) | carry;
        let masked = (rot & 0xFF) as u8;
        cpu.write(addr, masked)?;
        cpu.reg.status.set(CARRY, m & 1 == 1);
        update_zn(cpu, masked);
        Ok(0)
    }
}

/// `INC`: step the memory byte up, wrapping, and set `N` and `Z`.
pub fn inc(am: AddressingMode, cpu: &mut Cpu) -> (r: Result<u16, NesError>)
    requires
        old(cpu).wf(),
        old(cpu).cycles_left < 0xF000,
        spec_has_eff_addr(am),
    ensures
        final(cpu).bus.ppu.cycle == old(cpu).bus.ppu.cycle,
        final(cpu).bus.ppu.scanline == old(cpu).bus.ppu.scanline,
        final(cpu).bus.ppu.odd_frame == old(cpu).bus.ppu.odd_frame,
        final(cpu).ticks_left == old(cpu).ticks_left,
        final(cpu).num_cpu_cycles == old(cpu).num_cpu_cycles,
        final(cpu).num_system_ticks == old(cpu).num_system_ticks,
        final(cpu).interrupt == old(cpu).interrupt,
        final(cpu).cycles_left <= old(cpu).cycles_left + 514,
        final(cpu).wf(),
        final(cpu).reg.pc == old(cpu).reg.pc,
        final(cpu).reg.a == old(cpu).reg.a,
        final(cpu).reg.x == old(cpu).reg.x,
        final(cpu).reg.y == old(cpu).reg.y,
        final(cpu).reg.sp == old(cpu).reg.sp,
        r matches Ok(extra) ==> extra == 0,
        spec_eff_addr(old(cpu), am) <= 0x1FFF ==> (r is Ok && ({
            let ea = spec_eff_addr(old(cpu), am);
            let v = old(cpu).bus.ram.mem@[(ea & 0x7FF) as int].wrapping_add(1);
            &&& final(cpu).bus.ram.mem@ == old(cpu).bus.ram.mem@.update((ea & 0x7FF) as int, v)
            &&& final(cpu).reg.status.bits == spec_zn(old(cpu).reg.status.bits, v)
            &&& final(cpu).bus.ppu == old(cpu).bus.ppu
            &&& final(cpu).bus.cart == old(cpu).bus.cart
            &&& final(cpu).cycles_left == old(cpu).cycles_left
        })),
{
    let addr = effective_addr(am, cpu)?;
    let val = cpu.read(addr)?.wrapping_add(1);
    cpu.write(addr, val)?;
    update_zn(cpu, val);
    Ok(0)
}

/// `DEC`: step the memory byte down, wrapping, and set `N` and `Z`.
pub fn dec(am: AddressingMode, cpu: &mut Cpu) -> (r: Result<u16, NesError>)
    requires
        old(cpu).wf(),
        old(cpu).cycles_left < 0xF000,
        spec_has_eff_addr(am),
    ensures
        final(cpu).bus.ppu.cycle == old(cpu).bus.ppu.cycle,
        final(cpu).bus.ppu.scanline == old(cpu).bus.ppu.scanline,
        final(cpu).bus.ppu.odd_frame == old(cpu).bus.ppu.odd_frame,
        final(cpu).ticks_left == old(cpu).ticks_left,
        final(cpu).num_cpu_cycles == old(cpu).num_cpu_cycles,
        final(cpu).num_system_ticks == old(cpu).num_system_ticks,
        final(cpu).interrupt == old(cpu).interrupt,
        final(cpu).cycles_left <= old(cpu).cycles_left + 514,
        final(cpu).wf(),
        final(cpu).reg.pc == old(cpu).reg.pc,
        final(cpu).reg.a == old(cpu).reg.a,
        final(cpu).reg.x == old(cpu).reg.x,
        final(cpu).reg.y == old(cpu).reg.y,
        final(cpu).reg.sp == old(cpu).reg.sp,
        r matches Ok(extra) ==> extra == 0,
        spec_eff_addr(old(cpu), am) <= 0x1FFF ==> (r is Ok && ({
            let ea = spec_eff_addr(old(cpu), am);
            let v = old(cpu).bus.ram.mem@[(ea & 0x7FF) as int].wrapping_sub(1);
            &&& final(cpu).bus.ram.mem@ == old(cpu).bus.ram.mem@.update((ea & 0x7FF) as int, v)
            &&& final(cpu).reg.status.bits == spec_zn(old(cpu).reg.status.bits, v)
            &&& final(cpu).bus.ppu == old(cpu).bus.ppu
            &&& final(cpu).bus.cart == old(cpu).bus.cart
            &&& final(cpu).cycles_left == old(cpu).cycles_left
        })),
{
    let addr = effective_addr(am, cpu)?;
    let val = deref_byte(am, cpu)?.wrapping_sub(1);
    cpu.write(addr, val)?;
    update_zn(cpu, val);
    Ok(0)
}

/// `JMP`: load the program counter from the operand, following the
/// indirect pointer (with its page-cross quirk) when asked.
pub fn jmp(am: AddressingMode, cpu: &mut Cpu) -> (r: Result<u16, NesError>)
    requires
        old(cpu).wf(),
        am is Absolute || am is Indirect,
    ensures
        final(cpu).bus.ppu.cycle == old(cpu).bus.ppu.cycle,
        final(cpu).bus.ppu.scanline == old(cpu).bus.ppu.scanline,
        final(cpu).bus.ppu.odd_frame == old(cpu).bus.ppu.odd_frame,
        final(cpu).ticks_left == old(cpu).ticks_left,
        final(cpu).num_cpu_cycles == old(cpu).num_cpu_cycles,
        final(cpu).num_system_ticks == old(cpu).num_system_ticks,
        final(cpu).interrupt == old(cpu).interrupt,
        final(cpu).cycles_left == old(cpu).cycles_left,
        final(cpu).wf(),
        r matches Ok(extra) ==> extra == 0,
        am matches AddressingMode::Absolute(addr) ==> r is Ok && *final(cpu) == (Cpu {
            reg: crate::cpu::reg::Registers { pc: addr, ..old(cpu).reg },
            ..*old(cpu)
        }),
        am matches AddressingMode::Indirect(addr) ==> (spec_indirect_target(old(cpu), addr)
            matches Some(t) ==> r is Ok && *final(cpu) == (Cpu {
            reg: crate::cpu::reg::Registers { pc: t, ..old(cpu).reg },
            ..*old(cpu)
        })),
{
    let target = deref_address(am, cpu)?;
    cpu.reg.pc = target;
    Ok(0)
}

/// `JSR`: push the address of the operand's last byte, then jump.
pub fn jsr(am: AddressingMode, cpu: &mut Cpu) -> (r: Result<u16, NesError>)
    requires
        old(cpu).wf(),
        old(cpu).cycles_left < 0xF000,
        am is Absolute,
    ensures
        final(cpu).wf(),
        r matches Ok(extra) ==> extra == 0,
        am matches AddressingMode::Absolute(addr) ==> r is Ok && cpu_same_but_ram(
            &Cpu { reg: old(cpu).reg, ..*final(cpu) },
            old(cpu),
        ) && final(cpu).cycles_left == old(cpu).cycles_left && final(cpu).reg
            == (crate::cpu::reg::Registers {
            pc: addr,
            sp: old(cpu).reg.sp.wrapping_sub(2),
            ..old(cpu).reg
        }) && final(cpu).bus.ram.mem@ == old(cpu).bus.ram.mem@.update(
            (spec_stack_addr(old(cpu).reg.sp) & 0x7FF) as int,
            ((old(cpu).reg.pc.wrapping_sub(1) >> 8) & 0xFF) as u8,
        ).update(
            (spec_stack_addr(old(cpu).reg.sp.wrapping_sub(1)) & 0x7FF) as int,
            (old(cpu).reg.pc.wrapping_sub(1) & 0xFF) as u8,
        ),
{
    let ret = cpu.reg.pc.wrapping_sub(1);
    push_stack_addr(cpu, ret)?;
    let target = deref_address(am, cpu)?;
    cpu.reg.pc = target;
    Ok(0)
}

/// `RTS`: pull the return address and resume one byte past it.
pub fn rts(am: AddressingMode, cpu: &mut Cpu) -> (r: Result<u16, NesError>)
    requires
        old(cpu).wf(),
    ensures
        final(cpu).wf(),
        r matches Ok(extra) ==> extra == 0,
        r is Ok,
        cpu_same_but_ram(&Cpu { reg: old(cpu).reg, ..*final(cpu) }, old(cpu)),
        final(cpu).bus.ram.mem@ == old(cpu).bus.ram.mem@,
        final(cpu).cycles_left == old(cpu).cycles_left,
        final(cpu).reg == (crate::cpu::reg::Registers {
            pc: spec_make_address(
                old(cpu).bus.ram.mem@[(spec_stack_addr(old(cpu).reg.sp.wrapping_add(1))
                    & 0x7FF) as int],
                old(cpu).bus.ram.mem@[(spec_stack_addr(old(cpu).reg.sp.wrapping_add(2))
                    & 0x7FF) as int],
            ).wrapping_add(1),
            sp: old(cpu).reg.sp.wrapping_add(2),
            ..old(cpu).reg
        }),
{
    let addr = pop_stack_addr(cpu)?;
    cpu.reg.pc = addr.wrapping_add(1);
    Ok(0)
}

/// `RTI`: pull the status (break reads back clear, unused set), then the
/// return address, with no increment.
pub fn rti(am: AddressingMode, cpu: &mut Cpu) -> (r: Result<u16, NesError>)
    requires
        old(cpu).wf(),
    ensures
        final(cpu).wf(),
        r matches Ok(extra) ==> extra == 0,
        r is Ok,
        cpu_same_but_ram(&Cpu { reg: old(cpu).reg, ..*final(cpu) }, old(cpu)),
        final(cpu).bus.ram.mem@ == old(cpu).bus.ram.mem@,
        final(cpu).cycles_left == old(cpu).cycles_left,
        final(cpu).reg == (crate::cpu::reg::Registers {
            status: StatusFlags {
                bits: ((old(cpu).bus.ram.mem@[(spec_stack_addr(old(cpu).reg.sp.wrapping_add(1))
                    & 0x7FF) as int] & !BREAK) | UNUSED) as u8,
            },
            pc: spec_make_address(
                old(cpu).bus.ram.mem@[(spec_stack_addr(old(cpu).reg.sp.wrapping_add(2))
                    & 0x7FF) as int],
                old(cpu).bus.ram.mem@[(spec_stack_addr(old(cpu).reg.sp.wrapping_add(3))
                    & 0x7FF) as int],
            ),
            sp: old(cpu).reg.sp.wrapping_add(3),
            ..old(cpu).reg
        }),
{
    let v = pop_stack(cpu)?;
    let mut status = StatusFlags::from_bits(v);
    status.remove(BREAK);
    status.insert(UNUSED);
    cpu.reg.status = status;
    let addr = pop_stack_addr(cpu)?;
    cpu.reg.pc = addr;
    Ok(0)
}

/// `BRK`: push the address two past the opcode (the program counter,
/// already past the opcode, plus one) and the status with the break and
/// unused bits set, raise the interrupt mask, and jump through the
/// request vector.
pub fn brk(am: AddressingMode, cpu: &mut Cpu) -> (r: Result<u16, NesError>)
    requires
        old(cpu).wf(),
        old(cpu).cycles_left < 0xF000,
    ensures
        final(cpu).bus.ppu.cycle == old(cpu).bus.ppu.cycle,
        final(cpu).bus.ppu.scanline == old(cpu).bus.ppu.scanline,
        final(cpu).bus.ppu.odd_frame == old(cpu).bus.ppu.odd_frame,
        final(cpu).ticks_left == old(cpu).ticks_left,
        final(cpu).num_cpu_cycles == old(cpu).num_cpu_cycles,
        final(cpu).num_system_ticks == old(cpu).num_system_ticks,
        final(cpu).interrupt == old(cpu).interrupt,
        final(cpu).cycles_left <= old(cpu).cycles_left + 514,
        final(cpu).wf(),
        r matches Ok(extra) ==> extra == 0,
        ({
            let lo = old(cpu).bus.cart.spec_cpu_read(0xFFFE);
            let hi = old(cpu).bus.cart.spec_cpu_read(0xFFFF);
            (lo is Ok && hi is Ok) ==> ({
                &&& lo matches Ok(l)
                &&& hi matches Ok(h)
                &&& r is Ok
                &&& cpu_same_but_ram(&Cpu { reg: old(cpu).reg, ..*final(cpu) }, old(cpu))
                &&& final(cpu).cycles_left == old(cpu).cycles_left
                &&& final(cpu).reg == (crate::cpu::reg::Registers {
                    pc: spec_make_address(l, h),
                    sp: old(cpu).reg.sp.wrapping_sub(3),
                    status: StatusFlags {
                        bits: (old(cpu).reg.status.bits | INTERRUPT_DISABLE) as u8,
                    },
                    ..old(cpu).reg
                })
                &&& final(cpu).bus.ram.mem@ == old(cpu).bus.ram.mem@.update(
                    (spec_stack_addr(old(cpu).reg.sp) & 0x7FF) as int,
                    ((old(cpu).reg.pc.wrapping_add(1) >> 8) & 0xFF) as u8,
                ).update(
                    (spec_stack_addr(old(cpu).reg.sp.wrapping_sub(1)) & 0x7FF) as int,
                    (old(cpu).reg.pc.wrapping_add(1) & 0xFF) as u8,
                ).update(
                    (spec_stack_addr(old(cpu).reg.sp.wrapping_sub(2)) & 0x7FF) as int,
                    ((old(cpu).reg.status.bits | BREAK) | UNUSED) as u8,
                )
            })
        }),
{
    let ret = cpu.reg.pc.wrapping_add(1);
    push_stack_addr(cpu, ret)?;
    let flags = (cpu.reg.status.bits() | BREAK) | UNUSED;
    push_stack(cpu, flags)?;
    cpu.reg.status.insert(INTERRUPT_DISABLE);
    let lo = cpu.read(0xFFFE)?;
    let hi = cpu.read(0xFFFF)?;
    cpu.reg.pc = make_address(lo, hi);
    Ok(0)
}

/// `NOP`: no effect, but the indexed forms still pay the page-cross
/// cycle.
pub fn nop(am: AddressingMode, cpu: &mut Cpu) -> (r: Result<u16, NesError>)
    requires
        old(cpu).wf(),
    ensures
        final(cpu).wf(),
        *final(cpu) == *old(cpu),
        r == Ok::<u16, NesError>(
            if spec_page_cross(old(cpu), am) {
                1u16
            } else {
                0u16
            },
        ),
{
    if cross_page_boundary(am, cpu) {
        Ok(1)
    } else {
        Ok(0)
    }
}

/// An unassigned opcode: refused with the decoded instruction.
pub fn invalid_op(am: AddressingMode, cpu: &mut Cpu) -> (r: Result<u16, NesError>)
    ensures
        *final(cpu) == *old(cpu),
        r == Err::<u16, NesError>(
            NesError::InvalidInstruction(Instr { op: Opcode::INVALID, mode: am }),
        ),
{
    Err(NesError::InvalidInstruction(Instr { op: Opcode::INVALID, mode: am }))
}

/// How one instruction moves the machine: for every operation, the whole
/// contract of its handler, as one relation between the machine before
/// (`pre`) and after (`post`) with the result `r`. An operation paired
/// with a mode it cannot take leaves the machine alone and is refused.
pub open spec fn spec_op_effect(
    op: Opcode,
    am: AddressingMode,
    pre: Cpu,
    post: Cpu,
    r: Result<u16, NesError>,
) -> bool {
    match op {
        Opcode::ADC => if spec_has_operand(am) {
            &&& (post.ticks_left == pre.ticks_left)
            &&& (post.num_cpu_cycles == pre.num_cpu_cycles)
            &&& (post.num_system_ticks == pre.num_system_ticks)
            &&& (post.reg.pc == pre.reg.pc)
            &&& (post.reg.sp == pre.reg.sp)
            &&& (post.reg.x == pre.reg.x)
            &&& (post.reg.y == pre.reg.y)
            &&& (post.bus.ram.mem@ == pre.bus.ram.mem@)
            &&& (post.bus.cart == pre.bus.cart)
            &&& (post.cycles_left == pre.cycles_left)
            &&& (post.interrupt == pre.interrupt)
            &&& (r matches Ok(extra) ==> extra == (if spec_page_cross(&pre, am) {
            1u16
        } else {
            0u16
        }))
            &&& (am is Immediate ==> r is Ok)
            &&& (spec_operand(&pre, am) matches Some(m) ==> (r is Ok && cpu_same_non_reg(&post, &pre) && ({
            let a0 = pre.reg.a;
            let c0 = pre.reg.status.bits & CARRY == CARRY;
            let res = spec_adc_result(a0, m, c0);
            &&& post.reg.a == res
            &&& post.reg.status.bits == spec_set(
                spec_set(spec_zn(pre.reg.status.bits, res), CARRY, spec_adc_carry(a0, m, c0)),
                OVERFLOW,
                spec_adc_overflow(a0, m, c0),
            )
        })))
        } else {
            &&& post == pre
            &&& r == Err::<u16, NesError>(
                NesError::InvalidInstruction(Instr { op: Opcode::ADC, mode: am }),
            )
        },
        Opcode::AND => if spec_has_operand(am) {
            &&& (post.ticks_left == pre.ticks_left)
            &&& (post.num_cpu_cycles == pre.num_cpu_cycles)
            &&& (post.num_system_ticks == pre.num_system_ticks)
            &&& (post.reg.pc == pre.reg.pc)
            &&& (post.reg.sp == pre.reg.sp)
            &&& (post.reg.x == pre.reg.x)
            &&& (post.reg.y == pre.reg.y)
            &&& (post.bus.ram.mem@ == pre.bus.ram.mem@)
            &&& (post.bus.cart == pre.bus.cart)
            &&& (post.cycles_left == pre.cycles_left)
            &&& (post.interrupt == pre.interrupt)
            &&& (r matches Ok(extra) ==> extra == (if spec_page_cross(&pre, am) {
            1u16
        } else {
            0u16
        }))
            &&& (am is Immediate ==> r is Ok)
            &&& (spec_operand(&pre, am) matches Some(v) ==> (r is Ok && cpu_same_non_reg(&post, &pre) && post.reg.a == (pre.reg.a & v) as u8 && post.reg.status.bits
            == spec_zn(pre.reg.status.bits, (pre.reg.a & v) as u8)))
        } else {
            &&& post == pre
            &&& r == Err::<u16, NesError>(
                NesError::InvalidInstruction(Instr { op: Opcode::AND, mode: am }),
            )
        },
        Opcode::ASL => if am is Accumulator || spec_has_eff_addr(am) {
            &&& (post.ticks_left == pre.ticks_left)
            &&& (post.num_cpu_cycles == pre.num_cpu_cycles)
            &&& (post.num_system_ticks == pre.num_system_ticks)
            &&& (post.interrupt == pre.interrupt)
            &&& (post.cycles_left <= pre.cycles_left + 514)
            &&& (post.reg.pc == pre.reg.pc)
            &&& (post.reg.x == pre.reg.x)
            &&& (post.reg.y == pre.reg.y)
            &&& (post.reg.sp == pre.reg.sp)
            &&& (r matches Ok(extra) ==> extra == 0)
            &&& (am is Accumulator ==> r is Ok && post == (Cpu {
            reg: crate::cpu::reg::Registers {
                a: spec_asl(pre.reg.a),
                status: StatusFlags {
                    bits: spec_zn(
                        spec_set(pre.reg.status.bits, CARRY, pre.reg.a & 0x80 != 0),
                        spec_asl(pre.reg.a),
                    ),
                },
                ..pre.reg
            },
            ..pre
        }))
            &&& (spec_has_eff_addr(am) && spec_eff_addr(&pre, am) <= 0x1FFF ==> (r is Ok && ({
            let ea = spec_eff_addr(&pre, am);
            let v = pre.bus.ram.mem@[(ea & 0x7FF) as int];
            &&& post.bus.ram.mem@ == pre.bus.ram.mem@.update(
                (ea & 0x7FF) as int,
                spec_asl(v),
            )
            &&& post.reg.a == pre.reg.a
            &&& post.reg.status.bits == spec_zn(
                spec_set(pre.reg.status.bits, CARRY, v & 0x80 != 0),
                spec_asl(v),
            )
            &&& post.bus.ppu == pre.bus.ppu
            &&& post.bus.cart == pre.bus.cart
            &&& post.cycles_left == pre.cycles_left
        })))
        } else {
            &&& post == pre
            &&& r == Err::<u16, NesError>(
                NesError::InvalidInstruction(Instr { op: Opcode::ASL, mode: am }),
            )
        },
        Opcode::BCC => if am is Relative {
            &&& (({
            let take = pre.reg.status.bits & CARRY != CARRY;
            &&& !take ==> post == pre && r == Ok::<u16, NesError>(0)
            &&& take ==> (am matches AddressingMode::Relative(off) && post == (Cpu {
                reg: crate::cpu::reg::Registers {
                    pc: spec_rel_target(pre.reg.pc, off),
                    ..pre.reg
                },
                ..pre
            }) && r == Ok::<u16, NesError>(
                if spec_page_cross(&pre, am) {
                    2
                } else {
                    1
                },
            ))
        }))
        } else {
            &&& post == pre
            &&& r == Err::<u16, NesError>(
                NesError::InvalidInstruction(Instr { op: Opcode::BCC, mode: am }),
            )
        },
        Opcode::BCS => if am is Relative {
            &&& (({
            let take = pre.reg.status.bits & CARRY == CARRY;
            &&& !take ==> post == pre && r == Ok::<u16, NesError>(0)
            &&& take ==> (am matches AddressingMode::Relative(off) && post == (Cpu {
                reg: crate::cpu::reg::Registers {
                    pc: spec_rel_target(pre.reg.pc, off),
                    ..pre.reg
                },
                ..pre
            }) && r == Ok::<u16, NesError>(
                if spec_page_cross(&pre, am) {
                    2
                } else {
                    1
                },
            ))
        }))
        } else {
            &&& post == pre
            &&& r == Err::<u16, NesError>(
                NesError::InvalidInstruction(Instr { op: Opcode::BCS, mode: am }),
            )
        },
        Opcode::BEQ => if am is Relative {
            &&& (({
            let take = pre.reg.status.bits & ZERO == ZERO;
            &&& !take ==> post == pre && r == Ok::<u16, NesError>(0)
            &&& take ==> (am matches AddressingMode::Relative(off) && post == (Cpu {
                reg: crate::cpu::reg::Registers {
                    pc: spec_rel_target(pre.reg.pc, off),
                    ..pre.reg
                },
                ..pre
            }) && r == Ok::<u16, NesError>(
                if spec_page_cross(&pre, am) {
                    2
                } else {
                    1
                },
            ))
        }))
        } else {
            &&& post == pre
            &&& r == Err::<u16, NesError>(
                NesError::InvalidInstruction(Instr { op: Opcode::BEQ, mode: am }),
            )
        },
        Opcode::BIT => if spec_has_operand(am) {
            &&& (post.ticks_left == pre.ticks_left)
            &&& (post.num_cpu_cycles == pre.num_cpu_cycles)
            &&& (post.num_system_ticks == pre.num_system_ticks)
            &&& (post.interrupt == pre.interrupt)
            &&& (post.reg.pc == pre.reg.pc)
            &&& (post.reg.a == pre.reg.a)
            &&& (post.reg.x == pre.reg.x)
            &&& (post.reg.y == pre.reg.y)
            &&& (post.reg.sp == pre.reg.sp)
            &&& (post.bus.ram.mem@ == pre.bus.ram.mem@)
            &&& (post.bus.cart == pre.bus.cart)
            &&& (post.cycles_left == pre.cycles_left)
            &&& (r matches Ok(extra) ==> extra == 0)
            &&& (spec_operand(&pre, am) matches Some(m) ==> (r is Ok && cpu_same_non_reg(&post, &pre) && post.reg.status.bits == spec_set(
            spec_set(
                spec_set(pre.reg.status.bits, NEGATIVE, m & 0x80 != 0),
                OVERFLOW,
                m & 0x40 != 0,
            ),
            ZERO,
            pre.reg.a & m == 0,
        )))
        } else {
            &&& post == pre
            &&& r == Err::<u16, NesError>(
                NesError::InvalidInstruction(Instr { op: Opcode::BIT, mode: am }),
            )
        },
        Opcode::BMI => if am is Relative {
            &&& (({
            let take = pre.reg.status.bits & NEGATIVE == NEGATIVE;
            &&& !take ==> post == pre && r == Ok::<u16, NesError>(0)
            &&& take ==> (am matches AddressingMode::Relative(off) && post == (Cpu {
                reg: crate::cpu::reg::Registers {
                    pc: spec_rel_target(pre.reg.pc, off),
                    ..pre.reg
                },
                ..pre
            }) && r == Ok::<u16, NesError>(
                if spec_page_cross(&pre, am) {
                    2
                } else {
                    1
                },
            ))
        }))
        } else {
            &&& post == pre
            &&& r == Err::<u16, NesError>(
                NesError::InvalidInstruction(Instr { op: Opcode::BMI, mode: am }),
            )
        },
        Opcode::BNE => if am is Relative {
            &&& (({
            let take = pre.reg.status.bits & ZERO != ZERO;
            &&& !take ==> post == pre && r == Ok::<u16, NesError>(0)
            &&& take ==> (am matches AddressingMode::Relative(off) && post == (Cpu {
                reg: crate::cpu::reg::Registers {
                    pc: spec_rel_target(pre.reg.pc, off),
                    ..pre.reg
                },
                ..pre
            }) && r == Ok::<u16, NesError>(
                if spec_page_cross(&pre, am) {
                    2
                } else {
                    1
                },
            ))
        }))
        } else {
            &&& post == pre
            &&& r == Err::<u16, NesError>(
                NesError::InvalidInstruction(Instr { op: Opcode::BNE, mode: am }),
            )
        },
        Opcode::BPL => if am is Relative {
            &&& (({
            let take = pre.reg.status.bits & NEGATIVE != NEGATIVE;
            &&& !take ==> post == pre && r == Ok::<u16, NesError>(0)
            &&& take ==> (am matches AddressingMode::Relative(off) && post == (Cpu {
                reg: crate::cpu::reg::Registers {
                    pc: spec_rel_target(pre.reg.pc, off),
                    ..pre.reg
                },
                ..pre
            }) && r == Ok::<u16, NesError>(
                if spec_page_cross(&pre, am) {
                    2
                } else {
                    1
                },
            ))
        }))
        } else {
            &&& post == pre
            &&& r == Err::<u16, NesError>(
                NesError::InvalidInstruction(Instr { op: Opcode::BPL, mode: am }),
            )
        },
        Opcode::BRK => ({
            &&& (post.ticks_left == pre.ticks_left)
            &&& (post.num_cpu_cycles == pre.num_cpu_cycles)
            &&& (post.num_system_ticks == pre.num_system_ticks)
            &&& (post.interrupt == pre.interrupt)
            &&& (post.cycles_left <= pre.cycles_left + 514)
            &&& (r matches Ok(extra) ==> extra == 0)
            &&& (({
            let lo = pre.bus.cart.spec_cpu_read(0xFFFE);
            let hi = pre.bus.cart.spec_cpu_read(0xFFFF);
            (lo is Ok && hi is Ok) ==> ({
                &&& lo matches Ok(l)
                &&& hi matches Ok(h)
                &&& r is Ok
                &&& cpu_same_but_ram(&Cpu { reg: pre.reg, ..post }, &pre)
                &&& post.cycles_left == pre.cycles_left
                &&& post.reg == (crate::cpu::reg::Registers {
                    pc: spec_make_address(l, h),
                    sp: pre.reg.sp.wrapping_sub(3),
                    status: StatusFlags {
                        bits: (pre.reg.status.bits | INTERRUPT_DISABLE) as u8,
                    },
                    ..pre.reg
                })
                &&& post.bus.ram.mem@ == pre.bus.ram.mem@.update(
                    (spec_stack_addr(pre.reg.sp) & 0x7FF) as int,
                    ((pre.reg.pc.wrapping_add(1) >> 8) & 0xFF) as u8,
                ).update(
                    (spec_stack_addr(pre.reg.sp.wrapping_sub(1)) & 0x7FF) as int,
                    (pre.reg.pc.wrapping_add(1) & 0xFF) as u8,
                ).update(
                    (spec_stack_addr(pre.reg.sp.wrapping_sub(2)) & 0x7FF) as int,
                    ((pre.reg.status.bits | BREAK) | UNUSED) as u8,
                )
            })
        }))
        }),
        Opcode::BVC => if am is Relative {
            &&& (({
            let take = pre.reg.status.bits & OVERFLOW != OVERFLOW;
            &&& !take ==> post == pre && r == Ok::<u16, NesError>(0)
            &&& take ==> (am matches AddressingMode::Relative(off) && post == (Cpu {
                reg: crate::cpu::reg::Registers {
                    pc: spec_rel_target(pre.reg.pc, off),
                    ..pre.reg
                },
                ..pre
            }) && r == Ok::<u16, NesError>(
                if spec_page_cross(&pre, am) {
                    2
                } else {
                    1
                },
            ))
        }))
        } else {
            &&& post == pre
            &&& r == Err::<u16, NesError>(
                NesError::InvalidInstruction(Instr { op: Opcode::BVC, mode: am }),
            )
        },
        Opcode::BVS => if am is Relative {
            &&& (({
            let take = pre.reg.status.bits & OVERFLOW == OVERFLOW;
            &&& !take ==> post == pre && r == Ok::<u16, NesError>(0)
            &&& take ==> (am matches AddressingMode::Relative(off) && post == (Cpu {
                reg: crate::cpu::reg::Registers {
                    pc: spec_rel_target(pre.reg.pc, off),
                    ..pre.reg
                },
                ..pre
            }) && r == Ok::<u16, NesError>(
                if spec_page_cross(&pre, am) {
                    2
                } else {
                    1
                },
            ))
        }))
        } else {
            &&& post == pre
            &&& r == Err::<u16, NesError>(
                NesError::InvalidInstruction(Instr { op: Opcode::BVS, mode: am }),
            )
        },
        Opcode::CLC => ({
            &&& (r == Ok::<u16, NesError>(0))
            &&& (post == (Cpu {
            reg: crate::cpu::reg::Registers {
                status: StatusFlags { bits: (pre.reg.status.bits & !CARRY) as u8 },
                ..pre.reg
            },
            ..pre
        }))
        }),
        Opcode::CLD => ({
            &&& (r == Ok::<u16, NesError>(0))
            &&& (post == (Cpu {
            reg: crate::cpu::reg::Registers {
                status: StatusFlags { bits: (pre.reg.status.bits & !DECIMAL) as u8 },
                ..pre.reg
            },
            ..pre
        }))
        }),
        Opcode::CLI => ({
            &&& (r == Ok::<u16, NesError>(0))
            &&& (post == (Cpu {
            reg: crate::cpu::reg::Registers {
                status: StatusFlags { bits: (pre.reg.status.bits & !INTERRUPT_DISABLE) as u8 },
                ..pre.reg
            },
            ..pre
        }))
        }),
        Opcode::CLV => ({
            &&& (r == Ok::<u16, NesError>(0))
            &&& (post == (Cpu {
            reg: crate::cpu::reg::Registers {
                status: StatusFlags { bits: (pre.reg.status.bits & !OVERFLOW) as u8 },
                ..pre.reg
            },
            ..pre
        }))
        }),
        Opcode::CMP => if spec_has_operand(am) {
            &&& (post.ticks_left == pre.ticks_left)
            &&& (post.num_cpu_cycles == pre.num_cpu_cycles)
            &&& (post.num_system_ticks == pre.num_system_ticks)
            &&& (post.interrupt == pre.interrupt)
            &&& (post.reg.pc == pre.reg.pc)
            &&& (post.reg.a == pre.reg.a)
            &&& (post.reg.x == pre.reg.x)
            &&& (post.reg.y == pre.reg.y)
            &&& (post.reg.sp == pre.reg.sp)
            &&& (post.bus.ram.mem@ == pre.bus.ram.mem@)
            &&& (post.bus.cart == pre.bus.cart)
            &&& (post.cycles_left == pre.cycles_left)
            &&& (r matches Ok(extra) ==> extra == (if spec_page_cross(&pre, am) {
            1u16
        } else {
            0u16
        }))
            &&& (am is Immediate ==> r is Ok)
            &&& (spec_operand(&pre, am) matches Some(m) ==> (r is Ok && cpu_same_non_reg(&post, &pre) && post.reg.status.bits == spec_compare(
            pre.reg.status.bits,
            pre.reg.a,
            m,
        )))
        } else {
            &&& post == pre
            &&& r == Err::<u16, NesError>(
                NesError::InvalidInstruction(Instr { op: Opcode::CMP, mode: am }),
            )
        },
        Opcode::CPX => if spec_has_operand(am) {
            &&& (post.ticks_left == pre.ticks_left)
            &&& (post.num_cpu_cycles == pre.num_cpu_cycles)
            &&& (post.num_system_ticks == pre.num_system_ticks)
            &&& (post.interrupt == pre.interrupt)
            &&& (post.reg.pc == pre.reg.pc)
            &&& (post.reg.a == pre.reg.a)
            &&& (post.reg.x == pre.reg.x)
            &&& (post.reg.y == pre.reg.y)
            &&& (post.reg.sp == pre.reg.sp)
            &&& (post.bus.ram.mem@ == pre.bus.ram.mem@)
            &&& (post.bus.cart == pre.bus.cart)
            &&& (post.cycles_left == pre.cycles_left)
            &&& (r matches Ok(extra) ==> extra == (if spec_page_cross(&pre, am) {
            1u16
        } else {
            0u16
        }))
            &&& (am is Immediate ==> r is Ok)
            &&& (spec_operand(&pre, am) matches Some(m) ==> (r is Ok && cpu_same_non_reg(&post, &pre) && post.reg.status.bits == spec_compare(
            pre.reg.status.bits,
            pre.reg.x,
            m,
        )))
        } else {
            &&& post == pre
            &&& r == Err::<u16, NesError>(
                NesError::InvalidInstruction(Instr { op: Opcode::CPX, mode: am }),
            )
        },
        Opcode::CPY => if spec_has_operand(am) {
            &&& (post.ticks_left == pre.ticks_left)
            &&& (post.num_cpu_cycles == pre.num_cpu_cycles)
            &&& (post.num_system_ticks == pre.num_system_ticks)
            &&& (post.interrupt == pre.interrupt)
            &&& (post.reg.pc == pre.reg.pc)
            &&& (post.reg.a == pre.reg.a)
            &&& (post.reg.x == pre.reg.x)
            &&& (post.reg.y == pre.reg.y)
            &&& (post.reg.sp == pre.reg.sp)
            &&& (post.bus.ram.mem@ == pre.bus.ram.mem@)
            &&& (post.bus.cart == pre.bus.cart)
            &&& (post.cycles_left == pre.cycles_left)
            &&& (r matches Ok(extra) ==> extra == (if spec_page_cross(&pre, am) {
            1u16
        } else {
            0u16
        }))
            &&& (am is Immediate ==> r is Ok)
            &&& (spec_operand(&pre, am) matches Some(m) ==> (r is Ok && cpu_same_non_reg(&post, &pre) && post.reg.status.bits == spec_compare(
            pre.reg.status.bits,
            pre.reg.y,
            m,
        )))
        } else {
            &&& post == pre
            &&& r == Err::<u16, NesError>(
                NesError::InvalidInstruction(Instr { op: Opcode::CPY, mode: am }),
            )
        },
        Opcode::DEC => if spec_has_eff_addr(am) {
            &&& (post.ticks_left == pre.ticks_left)
            &&& (post.num_cpu_cycles == pre.num_cpu_cycles)
            &&& (post.num_system_ticks == pre.num_system_ticks)
            &&& (post.interrupt == pre.interrupt)
            &&& (post.cycles_left <= pre.cycles_left + 514)
            &&& (post.reg.pc == pre.reg.pc)
            &&& (post.reg.a == pre.reg.a)
            &&& (post.reg.x == pre.reg.x)
            &&& (post.reg.y == pre.reg.y)
            &&& (post.reg.sp == pre.reg.sp)
            &&& (r matches Ok(extra) ==> extra == 0)
            &&& (spec_eff_addr(&pre, am) <= 0x1FFF ==> (r is Ok && ({
            let ea = spec_eff_addr(&pre, am);
            let v = pre.bus.ram.mem@[(ea & 0x7FF) as int].wrapping_sub(1);
            &&& post.bus.ram.mem@ == pre.bus.ram.mem@.update((ea & 0x7FF) as int, v)
            &&& post.reg.status.bits == spec_zn(pre.reg.status.bits, v)
            &&& post.bus.ppu == pre.bus.ppu
            &&& post.bus.cart == pre.bus.cart
            &&& post.cycles_left == pre.cycles_left
        })))
        } else {
            &&& post == pre
            &&& r == Err::<u16, NesError>(
                NesError::InvalidInstruction(Instr { op: Opcode::DEC, mode: am }),
            )
        },
        Opcode::DEX => ({
            &&& (r == Ok::<u16, NesError>(0))
            &&& (post == (Cpu {
            reg: crate::cpu::reg::Registers {
                x: pre.reg.x.wrapping_sub(1),
                status: StatusFlags {
                    bits: spec_zn(pre.reg.status.bits, pre.reg.x.wrapping_sub(1)),
                },
                ..pre.reg
            },
            ..pre
        }))
        }),
        Opcode::DEY => ({
            &&& (r == Ok::<u16, NesError>(0))
            &&& (post == (Cpu {
            reg: crate::cpu::reg::Registers {
                y: pre.reg.y.wrapping_sub(1),
                status: StatusFlags {
                    bits: spec_zn(pre.reg.status.bits, pre.reg.y.wrapping_sub(1)),
                },
                ..pre.reg
            },
            ..pre
        }))
        }),
        Opcode::EOR => if spec_has_operand(am) {
            &&& (post.ticks_left == pre.ticks_left)
            &&& (post.num_cpu_cycles == pre.num_cpu_cycles)
            &&& (post.num_system_ticks == pre.num_system_ticks)
            &&& (post.reg.pc == pre.reg.pc)
            &&& (post.reg.sp == pre.reg.sp)
            &&& (post.reg.x == pre.reg.x)
            &&& (post.reg.y == pre.reg.y)
            &&& (post.bus.ram.mem@ == pre.bus.ram.mem@)
            &&& (post.bus.cart == pre.bus.cart)
            &&& (post.cycles_left == pre.cycles_left)
            &&& (post.interrupt == pre.interrupt)
            &&& (r matches Ok(extra) ==> extra == (if spec_page_cross(&pre, am) {
            1u16
        } else {
            0u16
        }))
            &&& (am is Immediate ==> r is Ok)
            &&& (spec_operand(&pre, am) matches Some(v) ==> (r is Ok && cpu_same_non_reg(&post, &pre) && post.reg.a == (pre.reg.a ^ v) as u8 && post.reg.status.bits
            == spec_zn(pre.reg.status.bits, (pre.reg.a ^ v) as u8)))
        } else {
            &&& post == pre
            &&& r == Err::<u16, NesError>(
                NesError::InvalidInstruction(Instr { op: Opcode::EOR, mode: am }),
            )
        },
        Opcode::INC => if spec_has_eff_addr(am) {
            &&& (post.ticks_left == pre.ticks_left)
            &&& (post.num_cpu_cycles == pre.num_cpu_cycles)
            &&& (post.num_system_ticks == pre.num_system_ticks)
            &&& (post.interrupt == pre.interrupt)
            &&& (post.cycles_left <= pre.cycles_left + 514)
            &&& (post.reg.pc == pre.reg.pc)
            &&& (post.reg.a == pre.reg.a)
            &&& (post.reg.x == pre.reg.x)
            &&& (post.reg.y == pre.reg.y)
            &&& (post.reg.sp == pre.reg.sp)
            &&& (r matches Ok(extra) ==> extra == 0)
            &&& (spec_eff_addr(&pre, am) <= 0x1FFF ==> (r is Ok && ({
            let ea = spec_eff_addr(&pre, am);
            let v = pre.bus.ram.mem@[(ea & 0x7FF) as int].wrapping_add(1);
            &&& post.bus.ram.mem@ == pre.bus.ram.mem@.update((ea & 0x7FF) as int, v)
            &&& post.reg.status.bits == spec_zn(pre.reg.status.bits, v)
            &&& post.bus.ppu == pre.bus.ppu
            &&& post.bus.cart == pre.bus.cart
            &&& post.cycles_left == pre.cycles_left
        })))
        } else {
            &&& post == pre
            &&& r == Err::<u16, NesError>(
                NesError::InvalidInstruction(Instr { op: Opcode::INC, mode: am }),
            )
        },
        Opcode::INX => ({
            &&& (r == Ok::<u16, NesError>(0))
            &&& (post == (Cpu {
            reg: crate::cpu::reg::Registers {
                x: pre.reg.x.wrapping_add(1),
                status: StatusFlags {
                    bits: spec_zn(pre.reg.status.bits, pre.reg.x.wrapping_add(1)),
                },
                ..pre.reg
            },
            ..pre
        }))
        }),
        Opcode::INY => ({
            &&& (r == Ok::<u16, NesError>(0))
            &&& (post == (Cpu {
            reg: crate::cpu::reg::Registers {
                y: pre.reg.y.wrapping_add(1),
                status: StatusFlags {
                    bits: spec_zn(pre.reg.status.bits, pre.reg.y.wrapping_add(1)),
                },
                ..pre.reg
            },
            ..pre
        }))
        }),
        Opcode::JMP => if am is Absolute || am is Indirect {
            &&& (post.ticks_left == pre.ticks_left)
            &&& (post.num_cpu_cycles == pre.num_cpu_cycles)
            &&& (post.num_system_ticks == pre.num_system_ticks)
            &&& (post.interrupt == pre.interrupt)
            &&& (post.cycles_left == pre.cycles_left)
            &&& (r matches Ok(extra) ==> extra == 0)
            &&& (am matches AddressingMode::Absolute(addr) ==> r is Ok && post == (Cpu {
            reg: crate::cpu::reg::Registers { pc: addr, ..pre.reg },
            ..pre
        }))
            &&& (am matches AddressingMode::Indirect(addr) ==> (spec_indirect_target(&pre, addr)
            matches Some(t) ==> r is Ok && post == (Cpu {
            reg: crate::cpu::reg::Registers { pc: t, ..pre.reg },
            ..pre
        })))
        } else {
            &&& post == pre
            &&& r == Err::<u16, NesError>(
                NesError::InvalidInstruction(Instr { op: Opcode::JMP, mode: am }),
            )
        },
        Opcode::JSR => if am is Absolute {
            &&& (r matches Ok(extra) ==> extra == 0)
            &&& (am matches AddressingMode::Absolute(addr) ==> r is Ok && cpu_same_but_ram(&Cpu { reg: pre.reg, ..post }, &pre) && post.cycles_left == pre.cycles_left && post.reg
            == (crate::cpu::reg::Registers {
            pc: addr,
            sp: pre.reg.sp.wrapping_sub(2),
            ..pre.reg
        }) && post.bus.ram.mem@ == pre.bus.ram.mem@.update(
            (spec_stack_addr(pre.reg.sp) & 0x7FF) as int,
            ((pre.reg.pc.wrapping_sub(1) >> 8) & 0xFF) as u8,
        ).update(
            (spec_stack_addr(pre.reg.sp.wrapping_sub(1)) & 0x7FF) as int,
            (pre.reg.pc.wrapping_sub(1) & 0xFF) as u8,
        ))
        } else {
            &&& post == pre
            &&& r == Err::<u16, NesError>(
                NesError::InvalidInstruction(Instr { op: Opcode::JSR, mode: am }),
            )
        },
        Opcode::LAX => if spec_has_operand(am) {
            &&& (post.ticks_left == pre.ticks_left)
            &&& (post.num_cpu_cycles == pre.num_cpu_cycles)
            &&& (post.num_system_ticks == pre.num_system_ticks)
            &&& (post.reg.pc == pre.reg.pc)
            &&& (post.reg.sp == pre.reg.sp)
            &&& (post.bus.ram.mem@ == pre.bus.ram.mem@)
            &&& (post.bus.cart == pre.bus.cart)
            &&& (post.cycles_left == pre.cycles_left)
            &&& (post.interrupt == pre.interrupt)
            &&& (r matches Ok(extra) ==> extra == (if spec_page_cross(&pre, am) {
            1u16
        } else {
            0u16
        }))
            &&& (am is Immediate || am is Accumulator ==> r is Ok)
            &&& (spec_operand(&pre, am) matches Some(v) ==> (r is Ok && cpu_same_non_reg(&post, &pre) && post.reg == (crate::cpu::reg::Registers {
            a: v,
            x: v,
            status: StatusFlags { bits: spec_zn(pre.reg.status.bits, v) },
            ..pre.reg
        })))
        } else {
            &&& post == pre
            &&& r == Err::<u16, NesError>(
                NesError::InvalidInstruction(Instr { op: Opcode::LAX, mode: am }),
            )
        },
        Opcode::LDA => if spec_has_operand(am) {
            &&& (post.ticks_left == pre.ticks_left)
            &&& (post.num_cpu_cycles == pre.num_cpu_cycles)
            &&& (post.num_system_ticks == pre.num_system_ticks)
            &&& (post.reg.pc == pre.reg.pc)
            &&& (post.reg.sp == pre.reg.sp)
            &&& (post.bus.ram.mem@ == pre.bus.ram.mem@)
            &&& (post.bus.cart == pre.bus.cart)
            &&& (post.cycles_left == pre.cycles_left)
            &&& (post.interrupt == pre.interrupt)
            &&& (r matches Ok(extra) ==> extra == (if spec_page_cross(&pre, am) {
            1u16
        } else {
            0u16
        }))
            &&& (am is Immediate || am is Accumulator ==> r is Ok)
            &&& (spec_operand(&pre, am) matches Some(v) ==> (r is Ok && cpu_same_non_reg(&post, &pre) && post.reg == (crate::cpu::reg::Registers {
            a: v,
            status: StatusFlags { bits: spec_zn(pre.reg.status.bits, v) },
            ..pre.reg
        })))
        } else {
            &&& post == pre
            &&& r == Err::<u16, NesError>(
                NesError::InvalidInstruction(Instr { op: Opcode::LDA, mode: am }),
            )
        },
        Opcode::LDX => if spec_has_operand(am) {
            &&& (post.ticks_left == pre.ticks_left)
            &&& (post.num_cpu_cycles == pre.num_cpu_cycles)
            &&& (post.num_system_ticks == pre.num_system_ticks)
            &&& (post.reg.pc == pre.reg.pc)
            &&& (post.reg.sp == pre.reg.sp)
            &&& (post.bus.ram.mem@ == pre.bus.ram.mem@)
            &&& (post.bus.cart == pre.bus.cart)
            &&& (post.cycles_left == pre.cycles_left)
            &&& (post.interrupt == pre.interrupt)
            &&& (r matches Ok(extra) ==> extra == (if spec_page_cross(&pre, am) {
            1u16
        } else {
            0u16
        }))
            &&& (am is Immediate || am is Accumulator ==> r is Ok)
            &&& (spec_operand(&pre, am) matches Some(v) ==> (r is Ok && cpu_same_non_reg(&post, &pre) && post.reg == (crate::cpu::reg::Registers {
            x: v,
            status: StatusFlags { bits: spec_zn(pre.reg.status.bits, v) },
            ..pre.reg
        })))
        } else {
            &&& post == pre
            &&& r == Err::<u16, NesError>(
                NesError::InvalidInstruction(Instr { op: Opcode::LDX, mode: am }),
            )
        },
        Opcode::LDY => if spec_has_operand(am) {
            &&& (post.ticks_left == pre.ticks_left)
            &&& (post.num_cpu_cycles == pre.num_cpu_cycles)
            &&& (post.num_system_ticks == pre.num_system_ticks)
            &&& (post.reg.pc == pre.reg.pc)
            &&& (post.reg.sp == pre.reg.sp)
            &&& (post.bus.ram.mem@ == pre.bus.ram.mem@)
            &&& (post.bus.cart == pre.bus.cart)
            &&& (post.cycles_left == pre.cycles_left)
            &&& (post.interrupt == pre.interrupt)
            &&& (r matches Ok(extra) ==> extra == (if spec_page_cross(&pre, am) {
            1u16
        } else {
            0u16
        }))
            &&& (am is Immediate || am is Accumulator ==> r is Ok)
            &&& (spec_operand(&pre, am) matches Some(v) ==> (r is Ok && cpu_same_non_reg(&post, &pre) && post.reg == (crate::cpu::reg::Registers {
            y: v,
            status: StatusFlags { bits: spec_zn(pre.reg.status.bits, v) },
            ..pre.reg
        })))
        } else {
            &&& post == pre
            &&& r == Err::<u16, NesError>(
                NesError::InvalidInstruction(Instr { op: Opcode::LDY, mode: am }),
            )
        },
        Opcode::LSR => if am is Accumulator || spec_has_eff_addr(am) {
            &&& (post.ticks_left == pre.ticks_left)
            &&& (post.num_cpu_cycles == pre.num_cpu_cycles)
            &&& (post.num_system_ticks == pre.num_system_ticks)
            &&& (post.interrupt == pre.interrupt)
            &&& (post.cycles_left <= pre.cycles_left + 514)
            &&& (post.reg.pc == pre.reg.pc)
            &&& (post.reg.x == pre.reg.x)
            &&& (post.reg.y == pre.reg.y)
            &&& (post.reg.sp == pre.reg.sp)
            &&& (r matches Ok(extra) ==> extra == 0)
            &&& (am is Accumulator ==> r is Ok && post == (Cpu {
            reg: crate::cpu::reg::Registers {
                a: spec_lsr(pre.reg.a),
                status: StatusFlags {
                    bits: spec_zn(
                        spec_set(pre.reg.status.bits, CARRY, pre.reg.a & 1 == 1),
                        spec_lsr(pre.reg.a),
                    ),
                },
                ..pre.reg
            },
            ..pre
        }))
            &&& (spec_has_eff_addr(am) && spec_eff_addr(&pre, am) <= 0x1FFF ==> (r is Ok && ({
            let ea = spec_eff_addr(&pre, am);
            let v = pre.bus.ram.mem@[(ea & 0x7FF) as int];
            &&& post.bus.ram.mem@ == pre.bus.ram.mem@.update(
                (ea & 0x7FF) as int,
                spec_lsr(v),
            )
            &&& post.reg.a == pre.reg.a
            &&& post.reg.status.bits == spec_zn(
                spec_set(pre.reg.status.bits, CARRY, v & 1 == 1),
                spec_lsr(v),
            )
            &&& post.bus.ppu == pre.bus.ppu
            &&& post.bus.cart == pre.bus.cart
            &&& post.cycles_left == pre.cycles_left
        })))
        } else {
            &&& post == pre
            &&& r == Err::<u16, NesError>(
                NesError::InvalidInstruction(Instr { op: Opcode::LSR, mode: am }),
            )
        },
        Opcode::NOP => ({
            &&& (post == pre)
            &&& (r == Ok::<u16, NesError>(
            if spec_page_cross(&pre, am) {
                1u16
            } else {
                0u16
            },
        ))
        }),
        Opcode::ORA => if spec_has_operand(am) {
            &&& (post.ticks_left == pre.ticks_left)
            &&& (post.num_cpu_cycles == pre.num_cpu_cycles)
            &&& (post.num_system_ticks == pre.num_system_ticks)
            &&& (post.reg.pc == pre.reg.pc)
            &&& (post.reg.sp == pre.reg.sp)
            &&& (post.reg.x == pre.reg.x)
            &&& (post.reg.y == pre.reg.y)
            &&& (post.bus.ram.mem@ == pre.bus.ram.mem@)
            &&& (post.bus.cart == pre.bus.cart)
            &&& (post.cycles_left == pre.cycles_left)
            &&& (post.interrupt == pre.interrupt)
            &&& (r matches Ok(extra) ==> extra == (if spec_page_cross(&pre, am) {
            1u16
        } else {
            0u16
        }))
            &&& (am is Immediate ==> r is Ok)
            &&& (spec_operand(&pre, am) matches Some(v) ==> (r is Ok && cpu_same_non_reg(&post, &pre) && post.reg.a == (pre.reg.a | v) as u8 && post.reg.status.bits
            == spec_zn(pre.reg.status.bits, (pre.reg.a | v) as u8)))
        } else {
            &&& post == pre
            &&& r == Err::<u16, NesError>(
                NesError::InvalidInstruction(Instr { op: Opcode::ORA, mode: am }),
            )
        },
        Opcode::PHA => ({
            &&& (r == Ok::<u16, NesError>(0))
            &&& (cpu_same_but_ram(&Cpu { reg: pre.reg, ..post }, &pre))
            &&& (post.cycles_left == pre.cycles_left)
            &&& (post.reg == (crate::cpu::reg::Registers {
            sp: pre.reg.sp.wrapping_sub(1),
            ..pre.reg
        }))
            &&& (post.bus.ram.mem@ == pre.bus.ram.mem@.update(
            (spec_stack_addr(pre.reg.sp) & 0x7FF) as int,
            pre.reg.a,
        ))
        }),
        Opcode::PHP => ({
            &&& (r == Ok::<u16, NesError>(0))
            &&& (cpu_same_but_ram(&Cpu { reg: pre.reg, ..post }, &pre))
            &&& (post.cycles_left == pre.cycles_left)
            &&& (post.reg == (crate::cpu::reg::Registers {
            sp: pre.reg.sp.wrapping_sub(1),
            ..pre.reg
        }))
            &&& (post.bus.ram.mem@ == pre.bus.ram.mem@.update(
            (spec_stack_addr(pre.reg.sp) & 0x7FF) as int,
            ((pre.reg.status.bits | BREAK) | UNUSED) as u8,
        ))
        }),
        Opcode::PLA => ({
            &&& (r == Ok::<u16, NesError>(0))
            &&& (cpu_same_but_ram(&Cpu { reg: pre.reg, ..post }, &pre))
            &&& (post.bus.ram.mem@ == pre.bus.ram.mem@)
            &&& (post.cycles_left == pre.cycles_left)
            &&& (({
            let v = pre.bus.ram.mem@[(spec_stack_addr(pre.reg.sp.wrapping_add(1))
                & 0x7FF) as int];
            post.reg == (crate::cpu::reg::Registers {
                sp: pre.reg.sp.wrapping_add(1),
                a: v,
                status: StatusFlags { bits: spec_zn(pre.reg.status.bits, v) },
                ..pre.reg
            })
        }))
        }),
        Opcode::PLP => ({
            &&& (r == Ok::<u16, NesError>(0))
            &&& (cpu_same_but_ram(&Cpu { reg: pre.reg, ..post }, &pre))
            &&& (post.bus.ram.mem@ == pre.bus.ram.mem@)
            &&& (post.cycles_left == pre.cycles_left)
            &&& (({
            let v = pre.bus.ram.mem@[(spec_stack_addr(pre.reg.sp.wrapping_add(1))
                & 0x7FF) as int];
            post.reg == (crate::cpu::reg::Registers {
                sp: pre.reg.sp.wrapping_add(1),
                status: StatusFlags { bits: ((v & !BREAK) | UNUSED) as u8 },
                ..pre.reg
            })
        }))
        }),
        Opcode::ROL => if am is Accumulator || spec_has_eff_addr(am) {
            &&& (post.ticks_left == pre.ticks_left)
            &&& (post.num_cpu_cycles == pre.num_cpu_cycles)
            &&& (post.num_system_ticks == pre.num_system_ticks)
            &&& (post.interrupt == pre.interrupt)
            &&& (post.cycles_left <= pre.cycles_left + 514)
            &&& (post.reg.pc == pre.reg.pc)
            &&& (post.reg.x == pre.reg.x)
            &&& (post.reg.y == pre.reg.y)
            &&& (post.reg.sp == pre.reg.sp)
            &&& (r matches Ok(extra) ==> extra == 0)
            &&& (am is Accumulator ==> r is Ok && ({
            let c0 = pre.reg.status.bits & CARRY == CARRY;
            post == (Cpu {
                reg: crate::cpu::reg::Registers {
                    a: spec_rol(pre.reg.a, c0),
                    status: StatusFlags {
                        bits: spec_zn(
                            spec_set(pre.reg.status.bits, CARRY, pre.reg.a & 0x80 != 0),
                            spec_rol(pre.reg.a, c0),
                        ),
                    },
                    ..pre.reg
                },
                ..pre
            })
        }))
            &&& (spec_has_eff_addr(am) && spec_eff_addr(&pre, am) <= 0x1FFF ==> (r is Ok && ({
            let ea = spec_eff_addr(&pre, am);
            let v = pre.bus.ram.mem@[(ea & 0x7FF) as int];
            let c0 = pre.reg.status.bits & CARRY == CARRY;
            &&& post.bus.ram.mem@ == pre.bus.ram.mem@.update(
                (ea & 0x7FF) as int,
                spec_rol(v, c0),
            )
            &&& post.reg.a == pre.reg.a
            &&& post.reg.status.bits == spec_zn(
                spec_set(pre.reg.status.bits, CARRY, v & 0x80 != 0),
                spec_rol(v, c0),
            )
            &&& post.bus.ppu == pre.bus.ppu
            &&& post.bus.cart == pre.bus.cart
            &&& post.cycles_left == pre.cycles_left
        })))
        } else {
            &&& post == pre
            &&& r == Err::<u16, NesError>(
                NesError::InvalidInstruction(Instr { op: Opcode::ROL, mode: am }),
            )
        },
        Opcode::ROR => if am is Accumulator || spec_has_eff_addr(am) {
            &&& (post.ticks_left == pre.ticks_left)
            &&& (post.num_cpu_cycles == pre.num_cpu_cycles)
            &&& (post.num_system_ticks == pre.num_system_ticks)
            &&& (post.interrupt == pre.interrupt)
            &&& (post.cycles_left <= pre.cycles_left + 514)
            &&& (post.reg.pc == pre.reg.pc)
            &&& (post.reg.x == pre.reg.x)
            &&& (post.reg.y == pre.reg.y)
            &&& (post.reg.sp == pre.reg.sp)
            &&& (r matches Ok(extra) ==> extra == 0)
            &&& (am is Accumulator ==> r is Ok && ({
            let c0 = pre.reg.status.bits & CARRY == CARRY;
            post == (Cpu {
                reg: crate::cpu::reg::Registers {
                    a: spec_ror(pre.reg.a, c0),
                    status: StatusFlags {
                        bits: spec_zn(
                            spec_set(pre.reg.status.bits, CARRY, pre.reg.a & 1 == 1),
                            spec_ror(pre.reg.a, c0),
                        ),
                    },
                    ..pre.reg
                },
                ..pre
            })
        }))
            &&& (spec_has_eff_addr(am) && spec_eff_addr(&pre, am) <= 0x1FFF ==> (r is Ok && ({
            let ea = spec_eff_addr(&pre, am);
            let v = pre.bus.ram.mem@[(ea & 0x7FF) as int];
            let c0 = pre.reg.status.bits & CARRY == CARRY;
            &&& post.bus.ram.mem@ == pre.bus.ram.mem@.update(
                (ea & 0x7FF) as int,
                spec_ror(v, c0),
            )
            &&& post.reg.a == pre.reg.a
            &&& post.reg.status.bits == spec_zn(
                spec_set(pre.reg.status.bits, CARRY, v & 1 == 1),
                spec_ror(v, c0),
            )
            &&& post.bus.ppu == pre.bus.ppu
            &&& post.bus.cart == pre.bus.cart
            &&& post.cycles_left == pre.cycles_left
        })))
        } else {
            &&& post == pre
            &&& r == Err::<u16, NesError>(
                NesError::InvalidInstruction(Instr { op: Opcode::ROR, mode: am }),
            )
        },
        Opcode::RTI => ({
            &&& (r matches Ok(extra) ==> extra == 0)
            &&& (r is Ok)
            &&& (cpu_same_but_ram(&Cpu { reg: pre.reg, ..post }, &pre))
            &&& (post.bus.ram.mem@ == pre.bus.ram.mem@)
            &&& (post.cycles_left == pre.cycles_left)
            &&& (post.reg == (crate::cpu::reg::Registers {
            status: StatusFlags {
                bits: ((pre.bus.ram.mem@[(spec_stack_addr(pre.reg.sp.wrapping_add(1))
                    & 0x7FF) as int] & !BREAK) | UNUSED) as u8,
            },
            pc: spec_make_address(
                pre.bus.ram.mem@[(spec_stack_addr(pre.reg.sp.wrapping_add(2))
                    & 0x7FF) as int],
                pre.bus.ram.mem@[(spec_stack_addr(pre.reg.sp.wrapping_add(3))
                    & 0x7FF) as int],
            ),
            sp: pre.reg.sp.wrapping_add(3),
            ..pre.reg
        }))
        }),
        Opcode::RTS => ({
            &&& (r matches Ok(extra) ==> extra == 0)
            &&& (r is Ok)
            &&& (cpu_same_but_ram(&Cpu { reg: pre.reg, ..post }, &pre))
            &&& (post.bus.ram.mem@ == pre.bus.ram.mem@)
            &&& (post.cycles_left == pre.cycles_left)
            &&& (post.reg == (crate::cpu::reg::Registers {
            pc: spec_make_address(
                pre.bus.ram.mem@[(spec_stack_addr(pre.reg.sp.wrapping_add(1))
                    & 0x7FF) as int],
                pre.bus.ram.mem@[(spec_stack_addr(pre.reg.sp.wrapping_add(2))
                    & 0x7FF) as int],
            ).wrapping_add(1),
            sp: pre.reg.sp.wrapping_add(2),
            ..pre.reg
        }))
        }),
        Opcode::SBC => if spec_has_operand(am) {
            &&& (post.ticks_left == pre.ticks_left)
            &&& (post.num_cpu_cycles == pre.num_cpu_cycles)
            &&& (post.num_system_ticks == pre.num_system_ticks)
            &&& (post.reg.pc == pre.reg.pc)
            &&& (post.reg.sp == pre.reg.sp)
            &&& (post.reg.x == pre.reg.x)
            &&& (post.reg.y == pre.reg.y)
            &&& (post.bus.ram.mem@ == pre.bus.ram.mem@)
            &&& (post.bus.cart == pre.bus.cart)
            &&& (post.cycles_left == pre.cycles_left)
            &&& (post.interrupt == pre.interrupt)
            &&& (r matches Ok(extra) ==> extra == (if spec_page_cross(&pre, am) {
            1u16
        } else {
            0u16
        }))
            &&& (am is Immediate ==> r is Ok)
            &&& (spec_operand(&pre, am) matches Some(v) ==> (r is Ok && cpu_same_non_reg(&post, &pre) && ({
            let a0 = pre.reg.a;
            let m = (!v) as u8;
            let c0 = pre.reg.status.bits & CARRY == CARRY;
            let res = spec_adc_result(a0, m, c0);
            &&& post.reg.a == res
            &&& post.reg.status.bits == spec_set(
                spec_set(spec_zn(pre.reg.status.bits, res), CARRY, spec_adc_carry(a0, m, c0)),
                OVERFLOW,
                spec_adc_overflow(a0, m, c0),
            )
        })))
        } else {
            &&& post == pre
            &&& r == Err::<u16, NesError>(
                NesError::InvalidInstruction(Instr { op: Opcode::SBC, mode: am }),
            )
        },
        Opcode::SEC => ({
            &&& (r == Ok::<u16, NesError>(0))
            &&& (post == (Cpu {
            reg: crate::cpu::reg::Registers {
                status: StatusFlags { bits: (pre.reg.status.bits | CARRY) as u8 },
                ..pre.reg
            },
            ..pre
        }))
        }),
        Opcode::SED => ({
            &&& (r == Ok::<u16, NesError>(0))
            &&& (post == (Cpu {
            reg: crate::cpu::reg::Registers {
                status: StatusFlags { bits: (pre.reg.status.bits | DECIMAL) as u8 },
                ..pre.reg
            },
            ..pre
        }))
        }),
        Opcode::SEI => ({
            &&& (r == Ok::<u16, NesError>(0))
            &&& (post == (Cpu {
            reg: crate::cpu::reg::Registers {
                status: StatusFlags { bits: (pre.reg.status.bits | INTERRUPT_DISABLE) as u8 },
                ..pre.reg
            },
            ..pre
        }))
        }),
        Opcode::STA => if spec_has_eff_addr(am) {
            &&& (post.ticks_left == pre.ticks_left)
            &&& (post.num_cpu_cycles == pre.num_cpu_cycles)
            &&& (post.num_system_ticks == pre.num_system_ticks)
            &&& (post.cycles_left <= pre.cycles_left + 514)
            &&& (post.reg == pre.reg)
            &&& (post.interrupt == pre.interrupt)
            &&& (r matches Ok(extra) ==> extra == 0)
            &&& (({
            let ea = spec_eff_addr(&pre, am);
            ea <= 0x1FFF ==> (r is Ok && cpu_same_but_ram(&post, &pre) && post.cycles_left == pre.cycles_left && post.bus.ram.mem@ == pre.bus.ram.mem@.update((ea & 0x7FF) as int, pre.reg.a))
        }))
        } else {
            &&& post == pre
            &&& r == Err::<u16, NesError>(
                NesError::InvalidInstruction(Instr { op: Opcode::STA, mode: am }),
            )
        },
        Opcode::STX => if spec_has_eff_addr(am) {
            &&& (post.ticks_left == pre.ticks_left)
            &&& (post.num_cpu_cycles == pre.num_cpu_cycles)
            &&& (post.num_system_ticks == pre.num_system_ticks)
            &&& (post.cycles_left <= pre.cycles_left + 514)
            &&& (post.reg == pre.reg)
            &&& (post.interrupt == pre.interrupt)
            &&& (r matches Ok(extra) ==> extra == 0)
            &&& (({
            let ea = spec_eff_addr(&pre, am);
            ea <= 0x1FFF ==> (r is Ok && cpu_same_but_ram(&post, &pre) && post.cycles_left == pre.cycles_left && post.bus.ram.mem@ == pre.bus.ram.mem@.update((ea & 0x7FF) as int, pre.reg.x))
        }))
        } else {
            &&& post == pre
            &&& r == Err::<u16, NesError>(
                NesError::InvalidInstruction(Instr { op: Opcode::STX, mode: am }),
            )
        },
        Opcode::STY => if spec_has_eff_addr(am) {
            &&& (post.ticks_left == pre.ticks_left)
            &&& (post.num_cpu_cycles == pre.num_cpu_cycles)
            &&& (post.num_system_ticks == pre.num_system_ticks)
            &&& (post.cycles_left <= pre.cycles_left + 514)
            &&& (post.reg == pre.reg)
            &&& (post.interrupt == pre.interrupt)
            &&& (r matches Ok(extra) ==> extra == 0)
            &&& (({
            let ea = spec_eff_addr(&pre, am);
            ea <= 0x1FFF ==> (r is Ok && cpu_same_but_ram(&post, &pre) && post.cycles_left == pre.cycles_left && post.bus.ram.mem@ == pre.bus.ram.mem@.update((ea & 0x7FF) as int, pre.reg.y))
        }))
        } else {
            &&& post == pre
            &&& r == Err::<u16, NesError>(
                NesError::InvalidInstruction(Instr { op: Opcode::STY, mode: am }),
            )
        },
        Opcode::TAX => ({
            &&& (r == Ok::<u16, NesError>(0))
            &&& (post == (Cpu {
            reg: crate::cpu::reg::Registers {
                x: pre.reg.a,
                status: StatusFlags {
                    bits: spec_zn(pre.reg.status.bits, pre.reg.a),
                },
                ..pre.reg
            },
            ..pre
        }))
        }),
        Opcode::TAY => ({
            &&& (r == Ok::<u16, NesError>(0))
            &&& (post == (Cpu {
            reg: crate::cpu::reg::Registers {
                y: pre.reg.a,
                status: StatusFlags {
                    bits: spec_zn(pre.reg.status.bits, pre.reg.a),
                },
                ..pre.reg
            },
            ..pre
        }))
        }),
        Opcode::TSX => ({
            &&& (r == Ok::<u16, NesError>(0))
            &&& (post == (Cpu {
            reg: crate::cpu::reg::Registers {
                x: pre.reg.sp,
                status: StatusFlags {
                    bits: spec_zn(pre.reg.status.bits, pre.reg.sp),
                },
                ..pre.reg
            },
            ..pre
        }))
        }),
        Opcode::TXA => ({
            &&& (r == Ok::<u16, NesError>(0))
            &&& (post == (Cpu {
            reg: crate::cpu::reg::Registers {
                a: pre.reg.x,
                status: StatusFlags {
                    bits: spec_zn(pre.reg.status.bits, pre.reg.x),
                },
                ..pre.reg
            },
            ..pre
        }))
        }),
        Opcode::TXS => ({
            &&& (r == Ok::<u16, NesError>(0))
            &&& (post == (Cpu {
            reg: crate::cpu::reg::Registers {
                sp: pre.reg.x,
                ..pre.reg
            },
            ..pre
        }))
        }),
        Opcode::TYA => ({
            &&& (r == Ok::<u16, NesError>(0))
            &&& (post == (Cpu {
            reg: crate::cpu::reg::Registers {
                a: pre.reg.y,
                status: StatusFlags {
                    bits: spec_zn(pre.reg.status.bits, pre.reg.y),
                },
                ..pre.reg
            },
            ..pre
        }))
        }),
        Opcode::INVALID => ({
            &&& (post == pre)
            &&& (r == Err::<u16, NesError>(
            NesError::InvalidInstruction(Instr { op: Opcode::INVALID, mode: am }),
        ))
        }),
    }
}

/// Whether a mode yields an operand byte, decided at run time.
pub fn mode_has_operand(am: AddressingMode) -> (r: bool)
    ensures
        r == spec_has_operand(am),
{
    match am {
        AddressingMode::Implied | AddressingMode::Indirect(_) | AddressingMode::Relative(_) =>
            false,
        _ => true,
    }
}

/// Whether a mode names a memory cell, decided at run time.
pub fn mode_has_eff_addr(am: AddressingMode) -> (r: bool)
    ensures
        r == spec_has_eff_addr(am),
{
    match am {
        AddressingMode::Implied | AddressingMode::Indirect(_) | AddressingMode::Relative(_)
            | AddressingMode::Accumulator | AddressingMode::Immediate(_) => false,
        _ => true,
    }
}

/// Run one decoded instruction and return its extra cycles (page cross,
/// branch taken). An instruction whose operation and addressing mode do
/// not belong together is refused; the opcode matrix never produces one.
pub fn exec_instr(i: Instr, cpu: &mut Cpu) -> (r: Result<u16, NesError>)
    requires
        old(cpu).wf(),
        old(cpu).cycles_left < 0xF000,
    ensures
        final(cpu).wf(),
        final(cpu).cycles_left <= old(cpu).cycles_left + 514,
        final(cpu).ticks_left == old(cpu).ticks_left,
        final(cpu).num_cpu_cycles == old(cpu).num_cpu_cycles,
        final(cpu).num_system_ticks == old(cpu).num_system_ticks,
        final(cpu).interrupt == old(cpu).interrupt,
        final(cpu).bus.ppu.cycle == old(cpu).bus.ppu.cycle,
        final(cpu).bus.ppu.scanline == old(cpu).bus.ppu.scanline,
        final(cpu).bus.ppu.odd_frame == old(cpu).bus.ppu.odd_frame,
        r matches Ok(extra) ==> extra <= 2,
        spec_op_effect(i.op, i.mode, *old(cpu), *final(cpu), r),
{
    let bad = Err(NesError::InvalidInstruction(i));
    match i.op {
        Opcode::ADC => if mode_has_operand(i.mode) {
            adc(i.mode, cpu)
        } else {
            bad
        },
        Opcode::AND => if mode_has_operand(i.mode) {
            and(i.mode, cpu)
        } else {
            bad
        },
        Opcode::ASL => if matches!(i.mode, AddressingMode::Accumulator) || mode_has_eff_addr(
            i.mode,
        ) {
            asl(i.mode, cpu)
        } else {
            bad
        },
        Opcode::BCC => if matches!(i.mode, AddressingMode::Relative(_)) {
            bcc(i.mode, cpu)
        } else {
            bad
        },
        Opcode::BCS => if matches!(i.mode, AddressingMode::Relative(_)) {
            bcs(i.mode, cpu)
        } else {
            bad
        },
        Opcode::BEQ => if matches!(i.mode, AddressingMode::Relative(_)) {
            beq(i.mode, cpu)
        } else {
            bad
        },
        Opcode::BIT => if mode_has_operand(i.mode) {
            bit(i.mode, cpu)
        } else {
            bad
        },
        Opcode::BMI => if matches!(i.mode, AddressingMode::Relative(_)) {
            bmi(i.mode, cpu)
        } else {
            bad
        },
        Opcode::BNE => if matches!(i.mode, AddressingMode::Relative(_)) {
            bne(i.mode, cpu)
        } else {
            bad
        },
        Opcode::BPL => if matches!(i.mode, AddressingMode::Relative(_)) {
            bpl(i.mode, cpu)
        } else {
            bad
        },
        Opcode::BRK => brk(i.mode, cpu),
        Opcode::BVC => if matches!(i.mode, AddressingMode::Relative(_)) {
            bvc(i.mode, cpu)
        } else {
            bad
        },
        Opcode::BVS => if matches!(i.mode, AddressingMode::Relative(_)) {
            bvs(i.mode, cpu)
        } else {
            bad
        },
        Opcode::CLC => clc(i.mode, cpu),
        Opcode::CLD => cld(i.mode, cpu),
        Opcode::CLI => cli(i.mode, cpu),
        Opcode::CLV => clv(i.mode, cpu),
        Opcode::CMP => if mode_has_operand(i.mode) {
            cmp(i.mode, cpu)
        } else {
            bad
        },
        Opcode::CPX => if mode_has_operand(i.mode) {
            cpx(i.mode, cpu)
        } else {
            bad
        },
        Opcode::CPY => if mode_has_operand(i.mode) {
            cpy(i.mode, cpu)
        } else {
            bad
        },
        Opcode::DEC => if mode_has_eff_addr(i.mode) {
            dec(i.mode, cpu)
        } else {
            bad
        },
        Opcode::DEX => dex(i.mode, cpu),
        Opcode::DEY => dey(i.mode, cpu),
        Opcode::EOR => if mode_has_operand(i.mode) {
            eor(i.mode, cpu)
        } else {
            bad
        },
        Opcode::INC => if mode_has_eff_addr(i.mode) {
            inc(i.mode, cpu)
        } else {
            bad
        },
        Opcode::INX => inx(i.mode, cpu),
        Opcode::INY => iny(i.mode, cpu),
        Opcode::JMP => if matches!(
            i.mode,
            AddressingMode::Absolute(_) | AddressingMode::Indirect(_),
        ) {
            jmp(i.mode, cpu)
        } else {
            bad
        },
        Opcode::JSR => if matches!(i.mode, AddressingMode::Absolute(_)) {
            jsr(i.mode, cpu)
        } else {
            bad
        },
        Opcode::LAX => if mode_has_operand(i.mode) {
            lax(i.mode, cpu)
        } else {
            bad
        },
        Opcode::LDA => if mode_has_operand(i.mode) {
            lda(i.mode, cpu)
        } else {
            bad
        },
        Opcode::LDX => if mode_has_operand(i.mode) {
            ldx(i.mode, cpu)
        } else {
            bad
        },
        Opcode::LDY => if mode_has_operand(i.mode) {
            ldy(i.mode, cpu)
        } else {
            bad
        },
        Opcode::LSR => if matches!(i.mode, AddressingMode::Accumulator) || mode_has_eff_addr(
            i.mode,
        ) {
            lsr(i.mode, cpu)
        } else {
            bad
        },
        Opcode::NOP => nop(i.mode, cpu),
        Opcode::ORA => if mode_has_operand(i.mode) {
            ora(i.mode, cpu)
        } else {
            bad
        },
        Opcode::PHA => pha(i.mode, cpu),
        Opcode::PHP => php(i.mode, cpu),
        Opcode::PLA => pla(i.mode, cpu),
        Opcode::PLP => plp(i.mode, cpu),
        Opcode::ROL => if matches!(i.mode, AddressingMode::Accumulator) || mode_has_eff_addr(
            i.mode,
        ) {
            rol(i.mode, cpu)
        } else {
            bad
        },
        Opcode::ROR => if matches!(i.mode, AddressingMode::Accumulator) || mode_has_eff_addr(
            i.mode,
        ) {
            ror(i.mode, cpu)
        } else {
            bad
        },
        Opcode::RTI => rti(i.mode, cpu),
        Opcode::RTS => rts(i.mode, cpu),
        Opcode::SBC => if mode_has_operand(i.mode) {
            sbc(i.mode, cpu)
        } else {
            bad
        },
        Opcode::SEC => sec(i.mode, cpu),
        Opcode::SED => sed(i.mode, cpu),
        Opcode::SEI => sei(i.mode, cpu),
        Opcode::STA => if mode_has_eff_addr(i.mode) {
            sta(i.mode, cpu)
        } else {
            bad
        },
        Opcode::STX => if mode_has_eff_addr(i.mode) {
            stx(i.mode, cpu)
        } else {
            bad
        },
        Opcode::STY => if mode_has_eff_addr(i.mode) {
            sty(i.mode, cpu)
        } else {
            bad
        },
        Opcode::TAX => tax(i.mode, cpu),
        Opcode::TAY => tay(i.mode, cpu),
        Opcode::TSX => tsx(i.mode, cpu),
        Opcode::TXA => txa(i.mode, cpu),
        Opcode::TXS => txs(i.mode, cpu),
        Opcode::TYA => tya(i.mode, cpu),
        Opcode::INVALID => invalid_op(i.mode, cpu),
    }
}

/// Loading a value drives `Z` exactly when the value is zero and `N`
/// exactly from its top bit, and leaves every other flag alone; with the
/// contract of the loads, this is the immediate-load law: `LDA #v` gives
/// `A == v`, `Z == (v == 0)`, `N == (v & 0x80 != 0)`, other flags
/// unchanged.
pub proof fn lemma_load_flags(bits: u8, v: u8)
    by (bit_vector)
    ensures
        spec_zn(bits, v) & ZERO == ZERO <==> v == 0,
        spec_zn(bits, v) & NEGATIVE == NEGATIVE <==> v & 0x80 != 0,
        spec_zn(bits, v) & !(ZERO | NEGATIVE) == bits & !(ZERO | NEGATIVE),
{
}

/// The add-with-carry law: for every `(a, m, c)`, the result `ADC`
/// commits is `(a + m + c) & 0xFF`, the carry reads exactly "the nine-bit
/// sum overflowed", and the overflow flag reads exactly the signed
/// formula `(a ^ r) & (m ^ r) & 0x80 != 0`.
pub proof fn lemma_adc_formula(a: u8, m: u8, c: bool)
    ensures
        spec_adc_result(a, m, c) == ((a + m + (if c {
            1int
        } else {
            0int
        })) % 256) as u8,
        spec_adc_carry(a, m, c) <==> a + m + (if c {
            1int
        } else {
            0int
        }) > 0xFF,
        spec_adc_overflow(a, m, c) <==> (a ^ spec_adc_result(a, m, c)) & (m ^ spec_adc_result(
            a,
            m,
            c,
        )) & 0x80 != 0,
{
    let s = spec_adc_sum(a, m, c);
    assert((s & 0xFF) == s % 256 && ((s & 0xFF00) != 0 <==> s > 0xFF)) by (bit_vector)
        requires
            s < 0x200,
    ;
}

/// The stack round-trip law: pushing the accumulator and pulling it back
/// restores it, and the flags a pull sets reflect the restored value.
/// The addresses follow the contracts of the push and pull operations:
/// a push stores at the cell under `SP` and steps `SP` down, and the pull
/// that follows steps `SP` back up and reads the same cell.
pub proof fn lemma_stack_round_trip(ram: Seq<u8>, sp: u8, a: u8, bits: u8)
    requires
        ram.len() == 2048,
    ensures
        ({
            let pushed = ram.update((spec_stack_addr(sp) & 0x7FF) as int, a);
            let sp_after_push = sp.wrapping_sub(1);
            &&& pushed[(spec_stack_addr(sp_after_push.wrapping_add(1)) & 0x7FF) as int] == a
            &&& (spec_zn(bits, a) & ZERO == ZERO <==> a == 0)
            &&& (spec_zn(bits, a) & NEGATIVE == NEGATIVE <==> a & 0x80 != 0)
        }),
{
    assert(sp.wrapping_sub(1).wrapping_add(1) == sp);
    assert((spec_stack_addr(sp) & 0x7FF) < 2048) by {
        crate::bits::lemma_bit_bounds();
    }
    lemma_load_flags(bits, a);
}

/// The branch-timing law, from the contract of the branches: a branch
/// not taken costs nothing extra; a taken branch costs one extra cycle,
/// and two when the target sits on a different page from the program
/// counter. The target adds the offset, taken as signed, to the program
/// counter modulo the address space; the carry-clear branch itself costs
/// two base cycles.
pub proof fn lemma_branch_timing(pc: u16, off: u8)
    ensures
        off < 0x80 ==> spec_rel_target(pc, off) as int == (pc + off) % 0x10000,
        off >= 0x80 ==> spec_rel_target(pc, off) as int == (pc + off - 0x100 + 0x10000)
            % 0x10000,
        crate::cpu::decode::spec_opcode_entry(0x90) == (
            Opcode::BCC,
            crate::cpu::decode::Mode::Rel,
            2u8,
        ),
{
    assert(off & 0x80 != 0 <==> off >= 0x80) by (bit_vector);
}

/// The indexed-load decode law. Opcode byte `0xBD` is `LDA` with the
/// absolute-X mode and four base cycles, and that mode carries two
/// operand bytes, so the fetch contract advances the program counter
/// three bytes in all. The load's extra cycle (`spec_page_cross` in its
/// contract) is paid exactly when adding `X` to the operand address
/// leaves the operand's page.
pub proof fn lemma_lda_absolute_x(cpu: &Cpu, addr: u16, x: u8)
    requires
        cpu.reg.x == x,
    ensures
        crate::cpu::decode::spec_opcode_entry(0xBD) == (
            Opcode::LDA,
            crate::cpu::decode::Mode::AbsX,
            4u8,
        ),
        crate::cpu::decode::spec_mode_len(crate::cpu::decode::Mode::AbsX) == 2,
        spec_page_cross(cpu, AddressingMode::AbsoluteX(addr)) <==> (addr & 0xFF00) != (((addr
            + x) as u16) & 0xFF00),
{
    assert(addr.wrapping_add(x as u16) == ((addr + x) as u16)) by (bit_vector);
}

} // verus!

use nes_emu::cart::mapper0::build_nrom_cart;
use nes_emu::cpu::cpu::{Cpu, Interrupt};
use nes_emu::cpu::decode::fetch_instr;
use nes_emu::cpu::deref::{cross_page_boundary, deref_address, deref_byte};
use nes_emu::cpu::exec::exec_instr;
use nes_emu::cpu::isa::{AddressingMode, Instr, Opcode};
use nes_emu::cpu::reg::{CARRY, NEGATIVE, OVERFLOW, UNUSED, ZERO};
use nes_emu::error::NesError;
use nes_emu::ines::parse::MirrorType;
use nes_emu::ppu::regs::PpuControl;

use AddressingMode::{
    Absolute, AbsoluteX, AbsoluteY, Accumulator, Immediate, Implied, Indirect, IndirectY,
    Relative, XIndirect, ZeroPage, ZeroPageX, ZeroPageY,
};
use Opcode::{ADC, ASL, BCC, BRK, JMP, LDA, ORA, PHA, PHP, PLA};

fn check_decode(binary: &[u8], op: Opcode, mode: AddressingMode, n_cycles: u16) {
    let mut cpu = Cpu::mock(Some(binary));
    cpu.reg.pc = 0;
    let instr = Instr { op, mode };

    let (act_instr, act_n_cycles) = fetch_instr(&mut cpu).unwrap();
    assert_eq!(act_instr, instr);
    assert_eq!(binary.len(), cpu.reg.pc as usize);
    assert_eq!(act_n_cycles, n_cycles);
}

#[test]
fn decode_test() {
    check_decode(&[0x1D, 0xEF, 0xBE], ORA, AbsoluteX(0xBEEF), 4);
    check_decode(&[0x0E, 0xFE, 0xCA], ASL, Absolute(0xCAFE), 6);
    check_decode(&[0x15, 0xBB], ORA, ZeroPageX(0xBB), 4);
    check_decode(&[0x08], PHP, Implied, 3);
}

#[test]
fn decode_invalid_opcode() {
    let mut cpu = Cpu::mock(Some(&[0x02]));
    cpu.reg.pc = 0;
    assert!(matches!(fetch_instr(&mut cpu), Err(NesError::InvalidOpcode(0x02, 0))));
}

#[test]
fn accumulator() {
    let mut cpu = Cpu::mock(None);
    cpu.reg.a = 42;
    assert_eq!(deref_byte(Accumulator, &mut cpu).unwrap(), 42);
}

#[test]
fn absolute_byte() {
    let mut cpu = Cpu::mock(Some(&[0xFE, 0xCA, 0xEF, 0xBE]));
    assert_eq!(deref_byte(Absolute(0x0000), &mut cpu).unwrap(), 0xFE);
    assert_eq!(deref_byte(Absolute(0x0002), &mut cpu).unwrap(), 0xEF);
}

#[test]
fn absolute_x_index() {
    let mut cpu = Cpu::mock(None);
    // no carry
    cpu.bus.write(0x08F7, 0x42).unwrap();
    cpu.reg.x = 0x7;
    assert_eq!(deref_byte(AbsoluteX(0x08F0), &mut cpu).unwrap(), 0x42);

    // carry
    cpu.bus.write(0x0200, 0x17).unwrap();
    cpu.reg.x = 0xFF;
    assert_eq!(deref_byte(AbsoluteX(0x101), &mut cpu).unwrap(), 0x17);
}

#[test]
fn absolute_y_index() {
    let mut cpu = Cpu::mock(None);
    // no carry
    cpu.bus.write(0x08F7, 0x42).unwrap();
    cpu.reg.y = 0x7;
    assert_eq!(deref_byte(AbsoluteY(0x08F0), &mut cpu).unwrap(), 0x42);

    // carry
    cpu.bus.write(0x0200, 0x17).unwrap();
    cpu.reg.y = 0xFF;
    assert_eq!(deref_byte(AbsoluteY(0x101), &mut cpu).unwrap(), 0x17);
}

#[test]
fn immediate() {
    let mut cpu = Cpu::mock(None);
    assert_eq!(deref_byte(Immediate(0x25), &mut cpu).unwrap(), 0x25);
    assert_eq!(deref_byte(Immediate(0xFF), &mut cpu).unwrap(), 0xFF);
    assert_eq!(deref_byte(Immediate(0x00), &mut cpu).unwrap(), 0x00);
}

#[test]
fn x_indirect() {
    let mut cpu = Cpu::mock(None);
    cpu.reg.x = 0x04;
    cpu.bus.write(0x0024, 0x74).unwrap();
    cpu.bus.write(0x0025, 0x01).unwrap();
    cpu.bus.write(0x0174, 0x42).unwrap();
    assert_eq!(deref_byte(XIndirect(0x20), &mut cpu).unwrap(), 0x42);
}

#[test]
fn indirect_y() {
    let mut cpu = Cpu::mock(None);
    cpu.reg.y = 0x10;
    cpu.bus.write(0x74, 0x28).unwrap();
    cpu.bus.write(0x75, 0x01).unwrap();
    cpu.bus.write(0x0138, 0x42).unwrap();
    assert_eq!(deref_byte(IndirectY(0x74), &mut cpu).unwrap(), 0x42);
}

#[test]
fn zero_page() {
    let mut cpu = Cpu::mock(None);
    cpu.bus.write(0x00, 0xAB).unwrap();
    cpu.bus.write(0x22, 0xCD).unwrap();
    cpu.bus.write(0x33, 0xEF).unwrap();
    cpu.bus.write(0xFF, 0x77).unwrap();
    assert_eq!(deref_byte(ZeroPage(0x00), &mut cpu).unwrap(), 0xAB);
    assert_eq!(deref_byte(ZeroPage(0x22), &mut cpu).unwrap(), 0xCD);
    assert_eq!(deref_byte(ZeroPage(0x33), &mut cpu).unwrap(), 0xEF);
    assert_eq!(deref_byte(ZeroPage(0xFF), &mut cpu).unwrap(), 0x77);
}

#[test]
fn zero_page_x() {
    let mut cpu = Cpu::mock(None);
    cpu.bus.write(0x20, 0x42).unwrap();
    cpu.reg.x = 0x60;

    // carry ignored
    // 0x60 + 0xC0 = 0x120 -> 0x20
    assert_eq!(deref_byte(ZeroPageX(0xC0), &mut cpu).unwrap(), 0x42);

    // no carry
    cpu.reg.x = 0x01;
    assert_eq!(deref_byte(ZeroPageX(0x1F), &mut cpu).unwrap(), 0x42);
}

#[test]
fn zero_page_y() {
    let mut cpu = Cpu::mock(None);
    cpu.bus.write(0x20, 0x42).unwrap();
    cpu.reg.y = 0x60;

    // carry ignored
    // 0x60 + 0xC0 = 0x120 -> 0x20
    assert_eq!(deref_byte(ZeroPageY(0xC0), &mut cpu).unwrap(), 0x42);

    // no carry
    cpu.reg.y = 0x01;
    assert_eq!(deref_byte(ZeroPageY(0x1F), &mut cpu).unwrap(), 0x42);
}

#[test]
fn relative() {
    let mut cpu = Cpu::mock(None);

    cpu.reg.pc = 0x100;
    // Positive offsets
    assert_eq!(deref_address(Relative(0x8), &mut cpu).unwrap(), 0x108);
    assert_eq!(deref_address(Relative(0x7F), &mut cpu).unwrap(), 0x17F);

    // Negative offsets
    assert_eq!(deref_address(Relative(0xFF), &mut cpu).unwrap(), 0x0FF);
    assert_eq!(deref_address(Relative(0x9C), &mut cpu).unwrap(), 0x9C);

    cpu.reg.pc = 0x0123;
    assert_eq!(deref_address(Relative(0xFD), &mut cpu).unwrap(), 0x120);
    assert_eq!(deref_address(Relative(0xFB), &mut cpu).unwrap(), 0x11E);
    assert_eq!(deref_address(Relative(0xD8), &mut cpu).unwrap(), 0xFB);
    assert_eq!(deref_address(Relative(0x80), &mut cpu).unwrap(), 0xA3);
}

#[test]
fn absolute_addr() {
    let mut cpu = Cpu::mock(None);
    assert_eq!(deref_address(Absolute(0xCAFE), &mut cpu).unwrap(), 0xCAFE);
    assert_eq!(deref_address(Absolute(0xBEA7), &mut cpu).unwrap(), 0xBEA7);
    assert_eq!(deref_address(Absolute(0x0101), &mut cpu).unwrap(), 0x0101);
}

#[test]
fn indirect() {
    let mut cpu = Cpu::mock(None);
    cpu.bus.write(0x100, 0x52).unwrap();
    cpu.bus.write(0x101, 0x3a).unwrap();
    assert_eq!(deref_address(Indirect(0x100), &mut cpu).unwrap(), 0x3a52);

    // A pointer whose low byte is 0xFF takes its high byte from the
    // start of the same page, not from the next page.
    cpu.bus.write(0xFF, 0x76).unwrap();
    cpu.bus.write(0x00, 0x17).unwrap();
    cpu.bus.write(0x100, 0x99).unwrap();
    assert_eq!(deref_address(Indirect(0xFF), &mut cpu).unwrap(), 0x1776);
}

#[test]
fn cross_page_boundary_test() {
    let mut cpu = Cpu::mock(None);
    cpu.reg.x = 0xFF;
    cpu.reg.y = 0xFF;
    assert!(cross_page_boundary(AbsoluteX(0x17), &mut cpu));
    assert!(cross_page_boundary(AbsoluteX(0x01), &mut cpu));
    assert!(cross_page_boundary(AbsoluteX(0xFF), &mut cpu));
    assert!(cross_page_boundary(AbsoluteY(0x17), &mut cpu));
    assert!(cross_page_boundary(AbsoluteY(0x01), &mut cpu));
    assert!(cross_page_boundary(AbsoluteY(0xFF), &mut cpu));

    cpu.reg.x = 0x20;
    cpu.reg.y = 0x20;
    assert!(!cross_page_boundary(AbsoluteX(0x17), &mut cpu));
    assert!(cross_page_boundary(AbsoluteX(0xEE), &mut cpu));
    assert!(!cross_page_boundary(AbsoluteX(0x00), &mut cpu));
    assert!(!cross_page_boundary(AbsoluteY(0x17), &mut cpu));
    assert!(cross_page_boundary(AbsoluteY(0xEE), &mut cpu));
    assert!(!cross_page_boundary(AbsoluteY(0x00), &mut cpu));

    cpu.reg.y = 0x80;
    cpu.write(0x42, 0xFF).unwrap();
    cpu.write(0x43, 0x00).unwrap();
    assert!(cross_page_boundary(IndirectY(0x42), &mut cpu));

    cpu.write(0x42, 0x00).unwrap();
    cpu.write(0x43, 0x10).unwrap();
    assert!(!cross_page_boundary(IndirectY(0x42), &mut cpu));

    cpu.reg.pc = 0x01FF;
    assert!(!cross_page_boundary(Relative(0xFF), &mut cpu));
    assert!(!cross_page_boundary(Relative(0xC0), &mut cpu));
    assert!(cross_page_boundary(Relative(0x1), &mut cpu));
    assert!(cross_page_boundary(Relative(0x40), &mut cpu));

    cpu.reg.pc = 0x0100;
    assert!(cross_page_boundary(Relative(0xFF), &mut cpu));
    assert!(cross_page_boundary(Relative(0xC0), &mut cpu));
    assert!(!cross_page_boundary(Relative(0x1), &mut cpu));
    assert!(!cross_page_boundary(Relative(0x40), &mut cpu));
}

#[test]
fn instr_display_test() {
    let i1 = Instr { op: ADC, mode: Absolute(0xCAFE) };
    assert_eq!(i1.display(), "ADC $CAFE (Abs)".to_string());

    let i2 = Instr { op: JMP, mode: Indirect(0x1234) };
    assert_eq!(i2.display(), "JMP ($1234) (Ind)".to_string());

    let i3 = Instr { op: ASL, mode: Accumulator };
    assert_eq!(i3.display(), "ASL A".to_string());

    let i4 = Instr { op: BRK, mode: Implied };
    assert_eq!(i4.display(), "BRK".to_string());
}

#[test]
fn lda_immediate_flags() {
    // Loading zero raises Z; loading a high-bit value raises N; other
    // flags stay put.
    let mut cpu = Cpu::mock(None);
    cpu.reg.status.insert(CARRY);
    assert_eq!(exec_instr(Instr { op: LDA, mode: Immediate(0x00) }, &mut cpu).unwrap(), 0);
    assert_eq!(cpu.reg.a, 0);
    assert_eq!(cpu.reg.status.bits & ZERO, ZERO);
    assert_eq!(cpu.reg.status.bits & NEGATIVE, 0);
    assert_eq!(cpu.reg.status.bits & CARRY, CARRY);

    assert_eq!(exec_instr(Instr { op: LDA, mode: Immediate(0x80) }, &mut cpu).unwrap(), 0);
    assert_eq!(cpu.reg.a, 0x80);
    assert_eq!(cpu.reg.status.bits & ZERO, 0);
    assert_eq!(cpu.reg.status.bits & NEGATIVE, NEGATIVE);
    assert_eq!(cpu.reg.status.bits & CARRY, CARRY);
}

#[test]
fn adc_cases() {
    // 200 + 100 + 1 = 301: result 45, carry out, no signed overflow.
    let mut cpu = Cpu::mock(None);
    cpu.reg.a = 200;
    cpu.reg.status.insert(CARRY);
    exec_instr(Instr { op: ADC, mode: Immediate(100) }, &mut cpu).unwrap();
    assert_eq!(cpu.reg.a, 45);
    assert_eq!(cpu.reg.status.bits & CARRY, CARRY);
    assert_eq!(cpu.reg.status.bits & OVERFLOW, 0);

    // 80 + 80 = 160: signed overflow, no carry, negative.
    let mut cpu = Cpu::mock(None);
    cpu.reg.a = 80;
    exec_instr(Instr { op: ADC, mode: Immediate(80) }, &mut cpu).unwrap();
    assert_eq!(cpu.reg.a, 160);
    assert_eq!(cpu.reg.status.bits & CARRY, 0);
    assert_eq!(cpu.reg.status.bits & OVERFLOW, OVERFLOW);
    assert_eq!(cpu.reg.status.bits & NEGATIVE, NEGATIVE);
}

#[test]
fn stack_round_trip() {
    // PHA; PLA restores A, and the pull's flags reflect the value.
    let mut cpu = Cpu::mock(None);
    cpu.reg.sp = 0xFD;
    cpu.reg.a = 0xAB;
    exec_instr(Instr { op: PHA, mode: Implied }, &mut cpu).unwrap();
    assert_eq!(cpu.reg.sp, 0xFC);
    cpu.reg.a = 0;
    exec_instr(Instr { op: PLA, mode: Implied }, &mut cpu).unwrap();
    assert_eq!(cpu.reg.sp, 0xFD);
    assert_eq!(cpu.reg.a, 0xAB);
    assert_eq!(cpu.reg.status.bits & NEGATIVE, NEGATIVE);
    assert_eq!(cpu.reg.status.bits & ZERO, 0);
}

#[test]
fn branch_timing() {
    // BCC $05 at 0x01FD with carry clear: taken and page-crossing, so
    // 2 base + 1 taken + 1 cross = 4 cycles, and PC lands on 0x0204.
    let mut cpu = Cpu::mock(None);
    cpu.bus.write(0x01FD, 0x90).unwrap();
    cpu.bus.write(0x01FE, 0x05).unwrap();
    cpu.reg.pc = 0x01FD;
    let (i, base) = fetch_instr(&mut cpu).unwrap();
    assert_eq!(i, Instr { op: BCC, mode: Relative(0x05) });
    assert_eq!(base, 2);
    let extra = exec_instr(i, &mut cpu).unwrap();
    assert_eq!(cpu.reg.pc, 0x0204);
    assert_eq!(base + extra, 4);
}

#[test]
fn oam_dma_stall() {
    // STA $4014 with A = 0x02 copies page 2 into OAM and stalls 513
    // cycles (514 when the cycle count is odd).
    let mut cpu = Cpu::mock(None);
    for k in 0..256u16 {
        cpu.bus.write(0x0200 + k, (k as u8).wrapping_mul(3)).unwrap();
    }
    cpu.write(0x4014, 0x02).unwrap();
    assert_eq!(cpu.cycles_left, 513);
    for k in 0..256usize {
        let expected = (k as u8).wrapping_mul(3);
        let expected = if k % 4 == 2 { expected & 0xE3 } else { expected };
        assert_eq!(cpu.bus.ppu.oam[k], expected);
    }

    // An odd cycle count at the start costs one more.
    let mut cpu = Cpu::mock(None);
    cpu.num_cpu_cycles = 7;
    cpu.write(0x4014, 0x02).unwrap();
    assert_eq!(cpu.cycles_left, 514);
}

#[test]
fn oam_dma_starts_at_oam_addr() {
    let mut cpu = Cpu::mock(None);
    cpu.bus.write(0x0200, 0x11).unwrap();
    cpu.bus.ppu.reg.oam_addr = 0x10;
    cpu.write(0x4014, 0x02).unwrap();
    assert_eq!(cpu.bus.ppu.oam[0x10], 0x11);
}

#[test]
fn nrom_reset_vector() {
    // An NROM cart whose last two PRG bytes are $34 $12 resets to
    // PC = 0x1234 with SP = 0xFD, P = 0x24, and cleared registers.
    let mut prg = vec![0u8; 32 * 1024];
    prg[0x7FFC] = 0x34;
    prg[0x7FFD] = 0x12;
    let chr = vec![0u8; 8 * 1024];
    let cart = build_nrom_cart(&prg, &chr, MirrorType::Vertical).unwrap();
    let mut cpu = Cpu::new(cart, None, None);
    cpu.reset().unwrap();
    assert_eq!(cpu.reg.pc, 0x1234);
    assert_eq!(cpu.reg.sp, 0xFD);
    assert_eq!(cpu.reg.status.bits, 0x24);
    assert_eq!(cpu.reg.a, 0);
    assert_eq!(cpu.reg.x, 0);
    assert_eq!(cpu.reg.y, 0);
}

#[test]
fn vblank_nmi() {
    // With NMI enabled, dot 1 of scanline 241 latches a non-maskable
    // interrupt; the next instruction boundary pushes PC and P (B clear,
    // U set) and loads PC from $FFFA.
    let mut prg = vec![0u8; 32 * 1024];
    prg[0x7FFA] = 0x00;
    prg[0x7FFB] = 0x80;
    // Fill the PRG image with NOPs so the CPU can run from it.
    for k in 0..0x7FF0 {
        prg[k] = 0xEA;
    }
    let chr = vec![0u8; 8 * 1024];
    let cart = build_nrom_cart(&prg, &chr, MirrorType::Vertical).unwrap();
    let mut cpu = Cpu::new(cart, None, None);
    cpu.interrupt = None;
    cpu.reg.pc = 0x9000;
    cpu.reg.sp = 0xFD;
    cpu.reg.status.bits = UNUSED;
    cpu.bus.ppu.reg.control = PpuControl(0x80);
    cpu.bus.ppu.scanline = 241;
    cpu.bus.ppu.cycle = 1;
    // Hold the CPU mid-instruction so the boundary comes after the latch.
    cpu.cycles_left = 1;

    // The tick at (241, 1) raises and latches the interrupt.
    cpu.system_tick().unwrap();
    assert_eq!(cpu.interrupt, Some(Interrupt::NonMaskable));

    // Drive to the next instruction boundary: the NMI is taken.
    while cpu.interrupt.is_some() {
        cpu.system_tick().unwrap();
    }
    assert_eq!(cpu.reg.pc, 0x8000);
    assert_eq!(cpu.reg.sp, 0xFA);
    // The pushed status has B clear and U set.
    let pushed = cpu.bus.ram.mem[(0x0100 + 0xFB) & 0x7FF];
    assert_eq!(pushed & 0x10, 0);
    assert_eq!(pushed & 0x20, 0x20);
    // Pushed return address is the pre-interrupt program counter.
    let lo = cpu.bus.ram.mem[(0x0100 + 0xFC) & 0x7FF];
    let hi = cpu.bus.ram.mem[(0x0100 + 0xFD) & 0x7FF];
    assert_eq!(((hi as u16) << 8) | lo as u16, 0x9000);
}

#[test]
fn exec_refuses_mismatched_mode() {
    // An operation paired with a mode it cannot take is refused.
    let mut cpu = Cpu::mock(None);
    let i = Instr { op: LDA, mode: Implied };
    assert!(matches!(exec_instr(i, &mut cpu), Err(NesError::InvalidInstruction(_))));
}

#[test]
fn alu_shift_and_compare() {
    // ASL on the accumulator: 0x81 << 1 = 0x02 with carry out.
    let mut cpu = Cpu::mock(None);
    cpu.reg.a = 0x81;
    exec_instr(Instr { op: Opcode::ASL, mode: Accumulator }, &mut cpu).unwrap();
    assert_eq!(cpu.reg.a, 0x02);
    assert_eq!(cpu.reg.status.bits & CARRY, CARRY);

    // ROR pulls the carry into bit 7.
    exec_instr(Instr { op: Opcode::ROR, mode: Accumulator }, &mut cpu).unwrap();
    assert_eq!(cpu.reg.a, 0x81);

    // SBC with borrow clear: 0x50 - 0x20 - 1 = 0x2F.
    let mut cpu = Cpu::mock(None);
    cpu.reg.a = 0x50;
    exec_instr(Instr { op: Opcode::SBC, mode: Immediate(0x20) }, &mut cpu).unwrap();
    assert_eq!(cpu.reg.a, 0x2F);
    assert_eq!(cpu.reg.status.bits & CARRY, CARRY);

    // CMP: equal values raise Z and C.
    let mut cpu = Cpu::mock(None);
    cpu.reg.a = 0x42;
    exec_instr(Instr { op: Opcode::CMP, mode: Immediate(0x42) }, &mut cpu).unwrap();
    assert_eq!(cpu.reg.status.bits & ZERO, ZERO);
    assert_eq!(cpu.reg.status.bits & CARRY, CARRY);
}

#[test]
fn bus_decode_gap() {
    // The hole between the APU stub and the cartridge window is fatal.
    let mut cpu = Cpu::mock(None);
    assert!(matches!(
        cpu.read(0x4018),
        Err(NesError::Mem(nes_emu::mem::error::MemoryError::InvalidAddress(0x4018)))
    ));
}

#[test]
fn brk_pushes_next_address_and_break_flag() {
    // BRK at 0x8122 pushes 0x8124 (the address two past the opcode) and
    // the status with B and U set but the old interrupt mask; the mask
    // is raised only afterwards.
    let mut prg = vec![0u8; 32 * 1024];
    prg[0x7FFE] = 0x00;
    prg[0x7FFF] = 0x90;
    let chr = vec![0u8; 8 * 1024];
    let cart = build_nrom_cart(&prg, &chr, MirrorType::Vertical).unwrap();
    let mut cpu = Cpu::new(cart, None, None);
    cpu.interrupt = None;
    cpu.reg.sp = 0xFD;
    cpu.reg.status.bits = UNUSED;
    // The fetch has already stepped past the opcode at 0x8122.
    cpu.reg.pc = 0x8123;
    nes_emu::cpu::exec::brk(Implied, &mut cpu).unwrap();
    assert_eq!(cpu.reg.pc, 0x9000);
    assert_eq!(cpu.bus.ram.mem[0x1FD], 0x81);
    assert_eq!(cpu.bus.ram.mem[0x1FC], 0x24);
    let pushed = cpu.bus.ram.mem[0x1FB];
    assert_eq!(pushed & 0x10, 0x10); // B set
    assert_eq!(pushed & 0x20, 0x20); // U set
    assert_eq!(pushed & 0x04, 0x00); // old mask pushed
    assert_eq!(cpu.reg.status.bits & 0x04, 0x04); // mask raised after
}

#[test]
fn trace_line_renders_state() {
    let mut cpu = Cpu::mock(None);
    cpu.reg.pc = 0xC000;
    cpu.reg.a = 0x1A;
    cpu.bus.ppu.scanline = -1;
    cpu.bus.ppu.cycle = 27;
    cpu.num_cpu_cycles = 7;
    assert_eq!(cpu.trace_line(), "C000 A:1A X:00 Y:00 P:20 SP:00 PPU:-1,27 CYC:7");
}

#[test]
fn load_handler_directly() {
    // The load handler's contract is the immediate-load law; exercise it
    // on concrete values through the public handler.
    let mut cpu = Cpu::mock(None);
    cpu.reg.status.insert(OVERFLOW);
    let extra = nes_emu::cpu::exec::lda(Immediate(0x7F), &mut cpu).unwrap();
    assert_eq!(extra, 0);
    assert_eq!(cpu.reg.a, 0x7F);
    assert_eq!(cpu.reg.status.bits & ZERO, 0);
    assert_eq!(cpu.reg.status.bits & NEGATIVE, 0);
    assert_eq!(cpu.reg.status.bits & OVERFLOW, OVERFLOW);

    // And the add law: 0x7F + 1 overflows the signed range.
    let mut cpu = Cpu::mock(None);
    cpu.reg.a = 0x7F;
    nes_emu::cpu::exec::adc(Immediate(0x01), &mut cpu).unwrap();
    assert_eq!(cpu.reg.a, 0x80);
    assert_eq!(cpu.reg.status.bits & OVERFLOW, OVERFLOW);
    assert_eq!(cpu.reg.status.bits & CARRY, 0);
}

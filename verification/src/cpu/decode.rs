//! Instruction fetch: the 256-entry opcode matrix and the operand
//! decoder that walks the program counter over the instruction bytes.

use vstd::prelude::*;
use crate::cpu::cpu::Cpu;
use crate::cpu::isa::{AddressingMode, Instr, Opcode};
use crate::error::NesError;
use crate::mem::bus::spec_addr_pure;
use crate::mem::utils::{make_address, spec_make_address};

verus! {

/// An addressing mode before its operand bytes are read.
#[derive(Clone, Copy, Debug, PartialEq, Eq, Structural)]
pub enum Mode {
    Acc,
    Abs,
    AbsX,
    AbsY,
    Imm,
    Imp,
    Ind,
    XInd,
    IndY,
    Rel,
    Zpg,
    ZpgX,
    ZpgY,
}

/// How many operand bytes a mode carries.
pub open spec fn spec_mode_len(m: Mode) -> int {
    match m {
        Mode::Acc | Mode::Imp => 0,
        Mode::Abs | Mode::AbsX | Mode::AbsY | Mode::Ind => 2,
        _ => 1,
    }
}

/// The opcode matrix: the operation, addressing mode and base cycle count
/// assigned to each opcode byte. Unassigned bytes decode to `INVALID`.
pub open spec fn spec_opcode_entry(b: u8) -> (Opcode, Mode, u8) {
    match b {
        0x00 => (Opcode::BRK, Mode::Imp, 7u8),
        0x01 => (Opcode::ORA, Mode::XInd, 6u8),
        0x04 => (Opcode::NOP, Mode::Zpg, 3u8),
        0x05 => (Opcode::ORA, Mode::Zpg, 3u8),
        0x06 => (Opcode::ASL, Mode::Zpg, 5u8),
        0x08 => (Opcode::PHP, Mode::Imp, 3u8),
        0x09 => (Opcode::ORA, Mode::Imm, 2u8),
        0x0a => (Opcode::ASL, Mode::Acc, 2u8),
        0x0c => (Opcode::NOP, Mode::Abs, 4u8),
        0x0d => (Opcode::ORA, Mode::Abs, 4u8),
        0x0e => (Opcode::ASL, Mode::Abs, 6u8),
        0x10 => (Opcode::BPL, Mode::Rel, 2u8),
        0x11 => (Opcode::ORA, Mode::IndY, 5u8),
        0x14 => (Opcode::NOP, Mode::ZpgX, 4u8),
        0x15 => (Opcode::ORA, Mode::ZpgX, 4u8),
        0x16 => (Opcode::ASL, Mode::ZpgX, 6u8),
        0x18 => (Opcode::CLC, Mode::Imp, 2u8),
        0x19 => (Opcode::ORA, Mode::AbsY, 4u8),
        0x1a => (Opcode::NOP, Mode::Imp, 2u8),
        0x1c => (Opcode::NOP, Mode::AbsX, 4u8),
        0x1d => (Opcode::ORA, Mode::AbsX, 4u8),
        0x1e => (Opcode::ASL, Mode::AbsX, 7u8),
        0x20 => (Opcode::JSR, Mode::Abs, 6u8),
        0x21 => (Opcode::AND, Mode::XInd, 6u8),
        0x24 => (Opcode::BIT, Mode::Zpg, 3u8),
        0x25 => (Opcode::AND, Mode::Zpg, 3u8),
        0x26 => (Opcode::ROL, Mode::Zpg, 5u8),
        0x28 => (Opcode::PLP, Mode::Imp, 4u8),
        0x29 => (Opcode::AND, Mode::Imm, 2u8),
        0x2a => (Opcode::ROL, Mode::Acc, 2u8),
        0x2c => (Opcode::BIT, Mode::Abs, 4u8),
        0x2d => (Opcode::AND, Mode::Abs, 4u8),
        0x2e => (Opcode::ROL, Mode::Abs, 6u8),
        0x30 => (Opcode::BMI, Mode::Rel, 2u8),
        0x31 => (Opcode::AND, Mode::IndY, 5u8),
        0x34 => (Opcode::NOP, Mode::ZpgX, 4u8),
        0x35 => (Opcode::AND, Mode::ZpgX, 4u8),
        0x36 => (Opcode::ROL, Mode::ZpgX, 6u8),
        0x38 => (Opcode::SEC, Mode::Imp, 2u8),
        0x39 => (Opcode::AND, Mode::AbsY, 4u8),
        0x3a => (Opcode::NOP, Mode::Imp, 2u8),
        0x3c => (Opcode::NOP, Mode::AbsX, 4u8),
        0x3d => (Opcode::AND, Mode::AbsX, 4u8),
        0x3e => (Opcode::ROL, Mode::AbsX, 7u8),
        0x40 => (Opcode::RTI, Mode::Imp, 6u8),
        0x41 => (Opcode::EOR, Mode::XInd, 6u8),
        0x44 => (Opcode::NOP, Mode::Zpg, 3u8),
        0x45 => (Opcode::EOR, Mode::Zpg, 3u8),
        0x46 => (Opcode::LSR, Mode::Zpg, 5u8),
        0x48 => (Opcode::PHA, Mode::Imp, 3u8),
        0x49 => (Opcode::EOR, Mode::Imm, 2u8),
        0x4a => (Opcode::LSR, Mode::Acc, 2u8),
        0x4c => (Opcode::JMP, Mode::Abs, 3u8),
        0x4d => (Opcode::EOR, Mode::Abs, 4u8),
        0x4e => (Opcode::LSR, Mode::Abs, 6u8),
        0x50 => (Opcode::BVC, Mode::Rel, 2u8),
        0x51 => (Opcode::EOR, Mode::IndY, 5u8),
        0x54 => (Opcode::NOP, Mode::ZpgX, 4u8),
        0x55 => (Opcode::EOR, Mode::ZpgX, 4u8),
        0x56 => (Opcode::LSR, Mode::ZpgX, 6u8),
        0x58 => (Opcode::CLI, Mode::Imp, 2u8),
        0x59 => (Opcode::EOR, Mode::AbsY, 4u8),
        0x5a => (Opcode::NOP, Mode::Imp, 2u8),
        0x5c => (Opcode::NOP, Mode::AbsX, 4u8),
        0x5d => (Opcode::EOR, Mode::AbsX, 4u8),
        0x5e => (Opcode::LSR, Mode::AbsX, 7u8),
        0x60 => (Opcode::RTS, Mode::Imp, 6u8),
        0x61 => (Opcode::ADC, Mode::XInd, 6u8),
        0x64 => (Opcode::NOP, Mode::Zpg, 3u8),
        0x65 => (Opcode::ADC, Mode::Zpg, 3u8),
        0x66 => (Opcode::ROR, Mode::Zpg, 5u8),
        0x68 => (Opcode::PLA, Mode::Imp, 4u8),
        0x69 => (Opcode::ADC, Mode::Imm, 2u8),
        0x6a => (Opcode::ROR, Mode::Acc, 2u8),
        0x6c => (Opcode::JMP, Mode::Ind, 5u8),
        0x6d => (Opcode::ADC, Mode::Abs, 4u8),
        0x6e => (Opcode::ROR, Mode::Abs, 6u8),
        0x70 => (Opcode::BVS, Mode::Rel, 2u8),
        0x71 => (Opcode::ADC, Mode::IndY, 5u8),
        0x74 => (Opcode::NOP, Mode::ZpgX, 4u8),
        0x75 => (Opcode::ADC, Mode::ZpgX, 4u8),
        0x76 => (Opcode::ROR, Mode::ZpgX, 6u8),
        0x78 => (Opcode::SEI, Mode::Imp, 2u8),
        0x79 => (Opcode::ADC, Mode::AbsY, 4u8),
        0x7a => (Opcode::NOP, Mode::Imp, 2u8),
        0x7c => (Opcode::NOP, Mode::AbsX, 4u8),
        0x7d => (Opcode::ADC, Mode::AbsX, 4u8),
        0x7e => (Opcode::ROR, Mode::AbsX, 7u8),
        0x80 => (Opcode::NOP, Mode::Imm, 2u8),
        0x81 => (Opcode::STA, Mode::XInd, 6u8),
        0x84 => (Opcode::STY, Mode::Zpg, 3u8),
        0x85 => (Opcode::STA, Mode::Zpg, 3u8),
        0x86 => (Opcode::STX, Mode::Zpg, 3u8),
        0x88 => (Opcode::DEY, Mode::Imp, 2u8),
        0x89 => (Opcode::NOP, Mode::Imm, 2u8),
        0x8a => (Opcode::TXA, Mode::Imp, 2u8),
        0x8c => (Opcode::STY, Mode::Abs, 4u8),
        0x8d => (Opcode::STA, Mode::Abs, 4u8),
        0x8e => (Opcode::STX, Mode::Abs, 4u8),
        0x90 => (Opcode::BCC, Mode::Rel, 2u8),
        0x91 => (Opcode::STA, Mode::IndY, 6u8),
        0x94 => (Opcode::STY, Mode::ZpgX, 4u8),
        0x95 => (Opcode::STA, Mode::ZpgX, 4u8),
        0x96 => (Opcode::STX, Mode::ZpgY, 4u8),
        0x98 => (Opcode::TYA, Mode::Imp, 2u8),
        0x99 => (Opcode::STA, Mode::AbsY, 5u8),
        0x9a => (Opcode::TXS, Mode::Imp, 2u8),
        0x9c => (Opcode::NOP, Mode::AbsX, 4u8),
        0x9d => (Opcode::STA, Mode::AbsX, 5u8),
        0xa0 => (Opcode::LDY, Mode::Imm, 2u8),
        0xa1 => (Opcode::LDA, Mode::XInd, 6u8),
        0xa2 => (Opcode::LDX, Mode::Imm, 2u8),
        0xa3 => (Opcode::LAX, Mode::XInd, 6u8),
        0xa4 => (Opcode::LDY, Mode::Zpg, 3u8),
        0xa5 => (Opcode::LDA, Mode::Zpg, 3u8),
        0xa6 => (Opcode::LDX, Mode::Zpg, 3u8),
        0xa7 => (Opcode::LAX, Mode::Zpg, 3u8),
        0xa8 => (Opcode::TAY, Mode::Imp, 2u8),
        0xa9 => (Opcode::LDA, Mode::Imm, 2u8),
        0xaa => (Opcode::TAX, Mode::Imp, 2u8),
        0xab => (Opcode::LAX, Mode::Imm, 3u8),
        0xac => (Opcode::LDY, Mode::Abs, 4u8),
        0xad => (Opcode::LDA, Mode::Abs, 4u8),
        0xae => (Opcode::LDX, Mode::Abs, 4u8),
        0xaf => (Opcode::LAX, Mode::Abs, 4u8),
        0xb0 => (Opcode::BCS, Mode::Rel, 2u8),
        0xb1 => (Opcode::LDA, Mode::IndY, 5u8),
        0xb3 => (Opcode::LAX, Mode::IndY, 5u8),
        0xb4 => (Opcode::LDY, Mode::ZpgX, 4u8),
        0xb5 => (Opcode::LDA, Mode::ZpgX, 4u8),
        0xb6 => (Opcode::LDX, Mode::ZpgY, 4u8),
        0xb7 => (Opcode::LAX, Mode::ZpgY, 4u8),
        0xb8 => (Opcode::CLV, Mode::Imp, 2u8),
        0xb9 => (Opcode::LDA, Mode::AbsY, 4u8),
        0xba => (Opcode::TSX, Mode::Imp, 2u8),
        0xbc => (Opcode::LDY, Mode::AbsX, 4u8),
        0xbd => (Opcode::LDA, Mode::AbsX, 4u8),
        0xbe => (Opcode::LDX, Mode::AbsY, 4u8),
        0xbf => (Opcode::LAX, Mode::AbsY, 4u8),
        0xc0 => (Opcode::CPY, Mode::Imm, 2u8),
        0xc1 => (Opcode::CMP, Mode::XInd, 6u8),
        0xc4 => (Opcode::CPY, Mode::Zpg, 3u8),
        0xc5 => (Opcode::CMP, Mode::Zpg, 3u8),
        0xc6 => (Opcode::DEC, Mode::Zpg, 5u8),
        0xc8 => (Opcode::INY, Mode::Imp, 2u8),
        0xc9 => (Opcode::CMP, Mode::Imm, 2u8),
        0xca => (Opcode::DEX, Mode::Imp, 2u8),
        0xcc => (Opcode::CPY, Mode::Abs, 4u8),
        0xcd => (Opcode::CMP, Mode::Abs, 4u8),
        0xce => (Opcode::DEC, Mode::Abs, 6u8),
        0xd0 => (Opcode::BNE, Mode::Rel, 2u8),
        0xd1 => (Opcode::CMP, Mode::IndY, 5u8),
        0xd4 => (Opcode::NOP, Mode::ZpgX, 4u8),
        0xd5 => (Opcode::CMP, Mode::ZpgX, 4u8),
        0xd6 => (Opcode::DEC, Mode::ZpgX, 6u8),
        0xd8 => (Opcode::CLD, Mode::Imp, 2u8),
        0xd9 => (Opcode::CMP, Mode::AbsY, 4u8),
        0xda => (Opcode::NOP, Mode::Imp, 2u8),
        0xdc => (Opcode::NOP, Mode::AbsX, 4u8),
        0xdd => (Opcode::CMP, Mode::AbsX, 4u8),
        0xde => (Opcode::DEC, Mode::AbsX, 7u8),
        0xe0 => (Opcode::CPX, Mode::Imm, 2u8),
        0xe1 => (Opcode::SBC, Mode::XInd, 6u8),
        0xe4 => (Opcode::CPX, Mode::Zpg, 3u8),
        0xe5 => (Opcode::SBC, Mode::Zpg, 3u8),
        0xe6 => (Opcode::INC, Mode::Zpg, 5u8),
        0xe8 => (Opcode::INX, Mode::Imp, 2u8),
        0xe9 => (Opcode::SBC, Mode::Imm, 2u8),
        0xea => (Opcode::NOP, Mode::Imp, 2u8),
        0xec => (Opcode::CPX, Mode::Abs, 4u8),
        0xed => (Opcode::SBC, Mode::Abs, 4u8),
        0xee => (Opcode::INC, Mode::Abs, 6u8),
        0xf0 => (Opcode::BEQ, Mode::Rel, 2u8),
        0xf1 => (Opcode::SBC, Mode::IndY, 5u8),
        0xf4 => (Opcode::NOP, Mode::ZpgX, 4u8),
        0xf5 => (Opcode::SBC, Mode::ZpgX, 4u8),
        0xf6 => (Opcode::INC, Mode::ZpgX, 6u8),
        0xf8 => (Opcode::SED, Mode::Imp, 2u8),
        0xf9 => (Opcode::SBC, Mode::AbsY, 4u8),
        0xfa => (Opcode::NOP, Mode::Imp, 2u8),
        0xfc => (Opcode::NOP, Mode::AbsX, 4u8),
        0xfd => (Opcode::SBC, Mode::AbsX, 4u8),
        0xfe => (Opcode::INC, Mode::AbsX, 7u8),
        _ => (Opcode::INVALID, Mode::Imp, 0u8),
    }
}

/// Look an opcode byte up in the matrix, as [`spec_opcode_entry`] says.
pub fn opcode_entry(b: u8) -> (r: (Opcode, Mode, u8))
    ensures
        r == spec_opcode_entry(b),
        !(r.0 is INVALID) ==> 2 <= r.2 <= 7,
{
    match b {
        0x00 => (Opcode::BRK, Mode::Imp, 7u8),
        0x01 => (Opcode::ORA, Mode::XInd, 6u8),
        0x04 => (Opcode::NOP, Mode::Zpg, 3u8),
        0x05 => (Opcode::ORA, Mode::Zpg, 3u8),
        0x06 => (Opcode::ASL, Mode::Zpg, 5u8),
        0x08 => (Opcode::PHP, Mode::Imp, 3u8),
        0x09 => (Opcode::ORA, Mode::Imm, 2u8),
        0x0a => (Opcode::ASL, Mode::Acc, 2u8),
        0x0c => (Opcode::NOP, Mode::Abs, 4u8),
        0x0d => (Opcode::ORA, Mode::Abs, 4u8),
        0x0e => (Opcode::ASL, Mode::Abs, 6u8),
        0x10 => (Opcode::BPL, Mode::Rel, 2u8),
        0x11 => (Opcode::ORA, Mode::IndY, 5u8),
        0x14 => (Opcode::NOP, Mode::ZpgX, 4u8),
        0x15 => (Opcode::ORA, Mode::ZpgX, 4u8),
        0x16 => (Opcode::ASL, Mode::ZpgX, 6u8),
        0x18 => (Opcode::CLC, Mode::Imp, 2u8),
        0x19 => (Opcode::ORA, Mode::AbsY, 4u8),
        0x1a => (Opcode::NOP, Mode::Imp, 2u8),
        0x1c => (Opcode::NOP, Mode::AbsX, 4u8),
        0x1d => (Opcode::ORA, Mode::AbsX, 4u8),
        0x1e => (Opcode::ASL, Mode::AbsX, 7u8),
        0x20 => (Opcode::JSR, Mode::Abs, 6u8),
        0x21 => (Opcode::AND, Mode::XInd, 6u8),
        0x24 => (Opcode::BIT, Mode::Zpg, 3u8),
        0x25 => (Opcode::AND, Mode::Zpg, 3u8),
        0x26 => (Opcode::ROL, Mode::Zpg, 5u8),
        0x28 => (Opcode::PLP, Mode::Imp, 4u8),
        0x29 => (Opcode::AND, Mode::Imm, 2u8),
        0x2a => (Opcode::ROL, Mode::Acc, 2u8),
        0x2c => (Opcode::BIT, Mode::Abs, 4u8),
        0x2d => (Opcode::AND, Mode::Abs, 4u8),
        0x2e => (Opcode::ROL, Mode::Abs, 6u8),
        0x30 => (Opcode::BMI, Mode::Rel, 2u8),
        0x31 => (Opcode::AND, Mode::IndY, 5u8),
        0x34 => (Opcode::NOP, Mode::ZpgX, 4u8),
        0x35 => (Opcode::AND, Mode::ZpgX, 4u8),
        0x36 => (Opcode::ROL, Mode::ZpgX, 6u8),
        0x38 => (Opcode::SEC, Mode::Imp, 2u8),
        0x39 => (Opcode::AND, Mode::AbsY, 4u8),
        0x3a => (Opcode::NOP, Mode::Imp, 2u8),
        0x3c => (Opcode::NOP, Mode::AbsX, 4u8),
        0x3d => (Opcode::AND, Mode::AbsX, 4u8),
        0x3e => (Opcode::ROL, Mode::AbsX, 7u8),
        0x40 => (Opcode::RTI, Mode::Imp, 6u8),
        0x41 => (Opcode::EOR, Mode::XInd, 6u8),
        0x44 => (Opcode::NOP, Mode::Zpg, 3u8),
        0x45 => (Opcode::EOR, Mode::Zpg, 3u8),
        0x46 => (Opcode::LSR, Mode::Zpg, 5u8),
        0x48 => (Opcode::PHA, Mode::Imp, 3u8),
        0x49 => (Opcode::EOR, Mode::Imm, 2u8),
        0x4a => (Opcode::LSR, Mode::Acc, 2u8),
        0x4c => (Opcode::JMP, Mode::Abs, 3u8),
        0x4d => (Opcode::EOR, Mode::Abs, 4u8),
        0x4e => (Opcode::LSR, Mode::Abs, 6u8),
        0x50 => (Opcode::BVC, Mode::Rel, 2u8),
        0x51 => (Opcode::EOR, Mode::IndY, 5u8),
        0x54 => (Opcode::NOP, Mode::ZpgX, 4u8),
        0x55 => (Opcode::EOR, Mode::ZpgX, 4u8),
        0x56 => (Opcode::LSR, Mode::ZpgX, 6u8),
        0x58 => (Opcode::CLI, Mode::Imp, 2u8),
        0x59 => (Opcode::EOR, Mode::AbsY, 4u8),
        0x5a => (Opcode::NOP, Mode::Imp, 2u8),
        0x5c => (Opcode::NOP, Mode::AbsX, 4u8),
        0x5d => (Opcode::EOR, Mode::AbsX, 4u8),
        0x5e => (Opcode::LSR, Mode::AbsX, 7u8),
        0x60 => (Opcode::RTS, Mode::Imp, 6u8),
        0x61 => (Opcode::ADC, Mode::XInd, 6u8),
        0x64 => (Opcode::NOP, Mode::Zpg, 3u8),
        0x65 => (Opcode::ADC, Mode::Zpg, 3u8),
        0x66 => (Opcode::ROR, Mode::Zpg, 5u8),
        0x68 => (Opcode::PLA, Mode::Imp, 4u8),
        0x69 => (Opcode::ADC, Mode::Imm, 2u8),
        0x6a => (Opcode::ROR, Mode::Acc, 2u8),
        0x6c => (Opcode::JMP, Mode::Ind, 5u8),
        0x6d => (Opcode::ADC, Mode::Abs, 4u8),
        0x6e => (Opcode::ROR, Mode::Abs, 6u8),
        0x70 => (Opcode::BVS, Mode::Rel, 2u8),
        0x71 => (Opcode::ADC, Mode::IndY, 5u8),
        0x74 => (Opcode::NOP, Mode::ZpgX, 4u8),
        0x75 => (Opcode::ADC, Mode::ZpgX, 4u8),
        0x76 => (Opcode::ROR, Mode::ZpgX, 6u8),
        0x78 => (Opcode::SEI, Mode::Imp, 2u8),
        0x79 => (Opcode::ADC, Mode::AbsY, 4u8),
        0x7a => (Opcode::NOP, Mode::Imp, 2u8),
        0x7c => (Opcode::NOP, Mode::AbsX, 4u8),
        0x7d => (Opcode::ADC, Mode::AbsX, 4u8),
        0x7e => (Opcode::ROR, Mode::AbsX, 7u8),
        0x80 => (Opcode::NOP, Mode::Imm, 2u8),
        0x81 => (Opcode::STA, Mode::XInd, 6u8),
        0x84 => (Opcode::STY, Mode::Zpg, 3u8),
        0x85 => (Opcode::STA, Mode::Zpg, 3u8),
        0x86 => (Opcode::STX, Mode::Zpg, 3u8),
        0x88 => (Opcode::DEY, Mode::Imp, 2u8),
        0x89 => (Opcode::NOP, Mode::Imm, 2u8),
        0x8a => (Opcode::TXA, Mode::Imp, 2u8),
        0x8c => (Opcode::STY, Mode::Abs, 4u8),
        0x8d => (Opcode::STA, Mode::Abs, 4u8),
        0x8e => (Opcode::STX, Mode::Abs, 4u8),
        0x90 => (Opcode::BCC, Mode::Rel, 2u8),
        0x91 => (Opcode::STA, Mode::IndY, 6u8),
        0x94 => (Opcode::STY, Mode::ZpgX, 4u8),
        0x95 => (Opcode::STA, Mode::ZpgX, 4u8),
        0x96 => (Opcode::STX, Mode::ZpgY, 4u8),
        0x98 => (Opcode::TYA, Mode::Imp, 2u8),
        0x99 => (Opcode::STA, Mode::AbsY, 5u8),
        0x9a => (Opcode::TXS, Mode::Imp, 2u8),
        0x9c => (Opcode::NOP, Mode::AbsX, 4u8),
        0x9d => (Opcode::STA, Mode::AbsX, 5u8),
        0xa0 => (Opcode::LDY, Mode::Imm, 2u8),
        0xa1 => (Opcode::LDA, Mode::XInd, 6u8),
        0xa2 => (Opcode::LDX, Mode::Imm, 2u8),
        0xa3 => (Opcode::LAX, Mode::XInd, 6u8),
        0xa4 => (Opcode::LDY, Mode::Zpg, 3u8),
        0xa5 => (Opcode::LDA, Mode::Zpg, 3u8),
        0xa6 => (Opcode::LDX, Mode::Zpg, 3u8),
        0xa7 => (Opcode::LAX, Mode::Zpg, 3u8),
        0xa8 => (Opcode::TAY, Mode::Imp, 2u8),
        0xa9 => (Opcode::LDA, Mode::Imm, 2u8),
        0xaa => (Opcode::TAX, Mode::Imp, 2u8),
        0xab => (Opcode::LAX, Mode::Imm, 3u8),
        0xac => (Opcode::LDY, Mode::Abs, 4u8),
        0xad => (Opcode::LDA, Mode::Abs, 4u8),
        0xae => (Opcode::LDX, Mode::Abs, 4u8),
        0xaf => (Opcode::LAX, Mode::Abs, 4u8),
        0xb0 => (Opcode::BCS, Mode::Rel, 2u8),
        0xb1 => (Opcode::LDA, Mode::IndY, 5u8),
        0xb3 => (Opcode::LAX, Mode::IndY, 5u8),
        0xb4 => (Opcode::LDY, Mode::ZpgX, 4u8),
        0xb5 => (Opcode::LDA, Mode::ZpgX, 4u8),
        0xb6 => (Opcode::LDX, Mode::ZpgY, 4u8),
        0xb7 => (Opcode::LAX, Mode::ZpgY, 4u8),
        0xb8 => (Opcode::CLV, Mode::Imp, 2u8),
        0xb9 => (Opcode::LDA, Mode::AbsY, 4u8),
        0xba => (Opcode::TSX, Mode::Imp, 2u8),
        0xbc => (Opcode::LDY, Mode::AbsX, 4u8),
        0xbd => (Opcode::LDA, Mode::AbsX, 4u8),
        0xbe => (Opcode::LDX, Mode::AbsY, 4u8),
        0xbf => (Opcode::LAX, Mode::AbsY, 4u8),
        0xc0 => (Opcode::CPY, Mode::Imm, 2u8),
        0xc1 => (Opcode::CMP, Mode::XInd, 6u8),
        0xc4 => (Opcode::CPY, Mode::Zpg, 3u8),
        0xc5 => (Opcode::CMP, Mode::Zpg, 3u8),
        0xc6 => (Opcode::DEC, Mode::Zpg, 5u8),
        0xc8 => (Opcode::INY, Mode::Imp, 2u8),
        0xc9 => (Opcode::CMP, Mode::Imm, 2u8),
        0xca => (Opcode::DEX, Mode::Imp, 2u8),
        0xcc => (Opcode::CPY, Mode::Abs, 4u8),
        0xcd => (Opcode::CMP, Mode::Abs, 4u8),
        0xce => (Opcode::DEC, Mode::Abs, 6u8),
        0xd0 => (Opcode::BNE, Mode::Rel, 2u8),
        0xd1 => (Opcode::CMP, Mode::IndY, 5u8),
        0xd4 => (Opcode::NOP, Mode::ZpgX, 4u8),
        0xd5 => (Opcode::CMP, Mode::ZpgX, 4u8),
        0xd6 => (Opcode::DEC, Mode::ZpgX, 6u8),
        0xd8 => (Opcode::CLD, Mode::Imp, 2u8),
        0xd9 => (Opcode::CMP, Mode::AbsY, 4u8),
        0xda => (Opcode::NOP, Mode::Imp, 2u8),
        0xdc => (Opcode::NOP, Mode::AbsX, 4u8),
        0xdd => (Opcode::CMP, Mode::AbsX, 4u8),
        0xde => (Opcode::DEC, Mode::AbsX, 7u8),
        0xe0 => (Opcode::CPX, Mode::Imm, 2u8),
        0xe1 => (Opcode::SBC, Mode::XInd, 6u8),
        0xe4 => (Opcode::CPX, Mode::Zpg, 3u8),
        0xe5 => (Opcode::SBC, Mode::Zpg, 3u8),
        0xe6 => (Opcode::INC, Mode::Zpg, 5u8),
        0xe8 => (Opcode::INX, Mode::Imp, 2u8),
        0xe9 => (Opcode::SBC, Mode::Imm, 2u8),
        0xea => (Opcode::NOP, Mode::Imp, 2u8),
        0xec => (Opcode::CPX, Mode::Abs, 4u8),
        0xed => (Opcode::SBC, Mode::Abs, 4u8),
        0xee => (Opcode::INC, Mode::Abs, 6u8),
        0xf0 => (Opcode::BEQ, Mode::Rel, 2u8),
        0xf1 => (Opcode::SBC, Mode::IndY, 5u8),
        0xf4 => (Opcode::NOP, Mode::ZpgX, 4u8),
        0xf5 => (Opcode::SBC, Mode::ZpgX, 4u8),
        0xf6 => (Opcode::INC, Mode::ZpgX, 6u8),
        0xf8 => (Opcode::SED, Mode::Imp, 2u8),
        0xf9 => (Opcode::SBC, Mode::AbsY, 4u8),
        0xfa => (Opcode::NOP, Mode::Imp, 2u8),
        0xfc => (Opcode::NOP, Mode::AbsX, 4u8),
        0xfd => (Opcode::SBC, Mode::AbsX, 4u8),
        0xfe => (Opcode::INC, Mode::AbsX, 7u8),
        _ => (Opcode::INVALID, Mode::Imp, 0u8),
    }
}

/// The addressing mode built from a decoded mode and its operand bytes;
/// `v8` feeds the one-byte forms and `v16` the two-byte forms.
pub open spec fn spec_decode_mode(m: Mode, v8: u8, v16: u16) -> AddressingMode {
    match m {
        Mode::Acc => AddressingMode::Accumulator,
        Mode::Imp => AddressingMode::Implied,
        Mode::Abs => AddressingMode::Absolute(v16),
        Mode::AbsX => AddressingMode::AbsoluteX(v16),
        Mode::AbsY => AddressingMode::AbsoluteY(v16),
        Mode::Ind => AddressingMode::Indirect(v16),
        Mode::Imm => AddressingMode::Immediate(v8),
        Mode::XInd => AddressingMode::XIndirect(v8),
        Mode::IndY => AddressingMode::IndirectY(v8),
        Mode::Rel => AddressingMode::Relative(v8),
        Mode::Zpg => AddressingMode::ZeroPage(v8),
        Mode::ZpgX => AddressingMode::ZeroPageX(v8),
        Mode::ZpgY => AddressingMode::ZeroPageY(v8),
    }
}

/// What fetching at the current program counter decodes to, where every
/// byte read is pure and assigned: the instruction, its base cycles, and
/// the program counter after the operand. `None` when a byte comes from
/// a device or fails, or the opcode byte is unassigned.
pub open spec fn spec_fetch(cpu: &Cpu) -> Option<(Instr, u16, u16)> {
    let pc = cpu.reg.pc;
    if !spec_addr_pure(pc) {
        None
    } else {
        match cpu.bus.spec_read_pure(pc) {
            Err(_) => None,
            Ok(b) => {
                let (op, mode, cyc) = spec_opcode_entry(b);
                if op is INVALID {
                    None
                } else if spec_mode_len(mode) == 0 {
                    Some(
                        (
                            Instr { op, mode: spec_decode_mode(mode, 0, 0) },
                            cyc as u16,
                            pc.wrapping_add(1),
                        ),
                    )
                } else if spec_mode_len(mode) == 1 {
                    let p1 = pc.wrapping_add(1);
                    if !spec_addr_pure(p1) {
                        None
                    } else {
                        match cpu.bus.spec_read_pure(p1) {
                            Err(_) => None,
                            Ok(v) => Some(
                                (
                                    Instr { op, mode: spec_decode_mode(mode, v, 0) },
                                    cyc as u16,
                                    pc.wrapping_add(2),
                                ),
                            ),
                        }
                    }
                } else {
                    let p1 = pc.wrapping_add(1);
                    let p2 = pc.wrapping_add(2);
                    if !spec_addr_pure(p1) || !spec_addr_pure(p2) {
                        None
                    } else {
                        match (cpu.bus.spec_read_pure(p1), cpu.bus.spec_read_pure(p2)) {
                            (Ok(lo), Ok(hi)) => Some(
                                (
                                    Instr {
                                        op,
                                        mode: spec_decode_mode(mode, 0, spec_make_address(lo, hi)),
                                    },
                                    cyc as u16,
                                    pc.wrapping_add(3),
                                ),
                            ),
                            _ => None,
                        }
                    }
                }
            },
        }
    }
}

/// Read the byte under the program counter and step past it.
fn read_next_byte(cpu: &mut Cpu) -> (r: Result<u8, NesError>)
    requires
        old(cpu).wf(),
    ensures
        final(cpu).bus.ppu.cycle == old(cpu).bus.ppu.cycle,
        final(cpu).bus.ppu.scanline == old(cpu).bus.ppu.scanline,
        final(cpu).bus.ppu.odd_frame == old(cpu).bus.ppu.odd_frame,
        final(cpu).wf(),
        final(cpu).reg.a == old(cpu).reg.a && final(cpu).reg.x == old(cpu).reg.x && final(cpu).reg.y == old(cpu).reg.y && final(cpu).reg.sp == old(cpu).reg.sp && final(cpu).reg.status == old(cpu).reg.status,
        r is Ok ==> final(cpu).reg.pc == old(cpu).reg.pc.wrapping_add(1),
        r is Err ==> final(cpu).reg.pc == old(cpu).reg.pc,
        final(cpu).bus.ram.mem@ == old(cpu).bus.ram.mem@,
        final(cpu).bus.cart == old(cpu).bus.cart,
        final(cpu).interrupt == old(cpu).interrupt,
        final(cpu).cycles_left == old(cpu).cycles_left,
        final(cpu).ticks_left == old(cpu).ticks_left,
        final(cpu).num_cpu_cycles == old(cpu).num_cpu_cycles,
        final(cpu).num_system_ticks == old(cpu).num_system_ticks,
        spec_addr_pure(old(cpu).reg.pc) ==> r == old(cpu).bus.spec_read_pure(old(cpu).reg.pc)
            && final(cpu).bus == old(cpu).bus,
    {
    let byte = cpu.read(cpu.reg.pc)?;
    cpu.reg.pc = cpu.reg.pc.wrapping_add(1);
    Ok(byte)
}

/// Fetch and decode one instruction at the program counter.
///
/// Where [`spec_fetch`] names the outcome, exactly that instruction and
/// base cycle count come back and the program counter ends just past the
/// operand; an unassigned opcode byte is refused with the address it was
/// fetched from. Only the program counter (and, for operand bytes read
/// from devices, that device) changes.
#[verifier::rlimit(60)]
pub fn fetch_instr(cpu: &mut Cpu) -> (r: Result<(Instr, u16), NesError>)
    requires
        old(cpu).wf(),
    ensures
        final(cpu).bus.ppu.cycle == old(cpu).bus.ppu.cycle,
        final(cpu).bus.ppu.scanline == old(cpu).bus.ppu.scanline,
        final(cpu).bus.ppu.odd_frame == old(cpu).bus.ppu.odd_frame,
        final(cpu).wf(),
        final(cpu).reg.a == old(cpu).reg.a && final(cpu).reg.x == old(cpu).reg.x && final(cpu).reg.y == old(cpu).reg.y && final(cpu).reg.sp == old(cpu).reg.sp && final(cpu).reg.status == old(cpu).reg.status,
        final(cpu).bus.ram.mem@ == old(cpu).bus.ram.mem@,
        final(cpu).bus.cart == old(cpu).bus.cart,
        final(cpu).interrupt == old(cpu).interrupt,
        final(cpu).cycles_left == old(cpu).cycles_left,
        final(cpu).ticks_left == old(cpu).ticks_left,
        final(cpu).num_cpu_cycles == old(cpu).num_cpu_cycles,
        final(cpu).num_system_ticks == old(cpu).num_system_ticks,
        spec_fetch(old(cpu)) matches Some((i, cyc, npc)) ==> r == Ok::<(Instr, u16), NesError>(
            (i, cyc),
        ) && final(cpu).reg.pc == npc && final(cpu).bus == old(cpu).bus,
        ({
            let pc0 = old(cpu).reg.pc;
            ({
                &&& spec_addr_pure(pc0)
                &&& old(cpu).bus.spec_read_pure(pc0) matches Ok(b)
                &&& spec_opcode_entry(b).0 is INVALID
            }) ==> (old(cpu).bus.spec_read_pure(pc0) matches Ok(b) && r == Err::<
                (Instr, u16),
                NesError,
            >(NesError::InvalidOpcode(b, pc0)))
        }),
        r matches Ok((i, cyc)) ==> 2 <= cyc <= 7,
{
    let ghost pc0 = cpu.reg.pc;
    let next_instr = read_next_byte(cpu)?;
    let (opcode, mode, ncycles) = opcode_entry(next_instr);
    if matches!(opcode, Opcode::INVALID) {
        return Err(NesError::InvalidOpcode(next_instr, cpu.reg.pc.wrapping_sub(1)));
    }
    proof {
        assert(cpu.reg.pc.wrapping_sub(1) == pc0);
    }
    let am: AddressingMode = match mode {
        Mode::Acc => AddressingMode::Accumulator,
        Mode::Imp => AddressingMode::Implied,
        Mode::Imm => AddressingMode::Immediate(read_next_byte(cpu)?),
        Mode::XInd => AddressingMode::XIndirect(read_next_byte(cpu)?),
        Mode::IndY => AddressingMode::IndirectY(read_next_byte(cpu)?),
        Mode::Rel => AddressingMode::Relative(read_next_byte(cpu)?),
        Mode::Zpg => AddressingMode::ZeroPage(read_next_byte(cpu)?),
        Mode::ZpgX => AddressingMode::ZeroPageX(read_next_byte(cpu)?),
        Mode::ZpgY => AddressingMode::ZeroPageY(read_next_byte(cpu)?),
        Mode::Abs => {
            let lo = read_next_byte(cpu)?;
            let hi = read_next_byte(cpu)?;
            AddressingMode::Absolute(make_address(lo, hi))
        },
        Mode::AbsX => {
            let lo = read_next_byte(cpu)?;
            let hi = read_next_byte(cpu)?;
            AddressingMode::AbsoluteX(make_address(lo, hi))
        },
        Mode::AbsY => {
            let lo = read_next_byte(cpu)?;
            let hi = read_next_byte(cpu)?;
            AddressingMode::AbsoluteY(make_address(lo, hi))
        },
        Mode::Ind => {
            let lo = read_next_byte(cpu)?;
            let hi = read_next_byte(cpu)?;
            AddressingMode::Indirect(make_address(lo, hi))
        },
    };
    Ok((Instr { op: opcode, mode: am }, ncycles as u16))
}

} // verus!

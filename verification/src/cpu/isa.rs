//! The instruction set: opcodes, addressing modes with their decoded
//! operands, and a plain-text rendering for diagnostics.

use vstd::prelude::*;
use vstd::string::StringExecFns;

verus! {

/// An addressing mode together with the operand bytes it decoded.
#[derive(Clone, Copy, Debug, PartialEq, Eq, Structural)]
pub enum AddressingMode {
    Accumulator,
    Absolute(u16),
    AbsoluteX(u16),
    AbsoluteY(u16),
    Immediate(u8),
    Implied,
    Indirect(u16),
    XIndirect(u8),
    IndirectY(u8),
    Relative(u8),
    ZeroPage(u8),
    ZeroPageX(u8),
    ZeroPageY(u8),
}

/// The 56 documented operations, the undocumented `LAX`, and the marker
/// for unassigned opcode bytes.
#[derive(Clone, Copy, Debug, PartialEq, Eq, Structural)]
pub enum Opcode {
    ADC,
    AND,
    ASL,
    BCC,
    BCS,
    BEQ,
    BIT,
    BMI,
    BNE,
    BPL,
    BRK,
    BVC,
    BVS,
    CLC,
    CLD,
    CLI,
    CLV,
    CMP,
    CPX,
    CPY,
    DEC,
    DEX,
    DEY,
    EOR,
    INC,
    INX,
    INY,
    JMP,
    JSR,
    LAX,
    LDA,
    LDX,
    LDY,
    LSR,
    NOP,
    ORA,
    PHA,
    PHP,
    PLA,
    PLP,
    ROL,
    ROR,
    RTI,
    RTS,
    SBC,
    SEC,
    SED,
    SEI,
    STA,
    STX,
    STY,
    TAX,
    TAY,
    TSX,
    TXA,
    TXS,
    TYA,
    INVALID,
}

/// One decoded instruction.
#[derive(Clone, Copy, Debug, PartialEq, Eq, Structural)]
pub struct Instr {
    pub op: Opcode,
    pub mode: AddressingMode,
}

/// One hex digit, upper case.
fn hex_digit(n: u8) -> (r: &'static str)
    requires
        n < 16,
{
    if n == 0 {
        "0"
    } else if n == 1 {
        "1"
    } else if n == 2 {
        "2"
    } else if n == 3 {
        "3"
    } else if n == 4 {
        "4"
    } else if n == 5 {
        "5"
    } else if n == 6 {
        "6"
    } else if n == 7 {
        "7"
    } else if n == 8 {
        "8"
    } else if n == 9 {
        "9"
    } else if n == 10 {
        "A"
    } else if n == 11 {
        "B"
    } else if n == 12 {
        "C"
    } else if n == 13 {
        "D"
    } else if n == 14 {
        "E"
    } else {
        "F"
    }
}

/// Two upper-case hex digits.
pub fn hex2(v: u8) -> (r: String) {
    proof {
        crate::bits::lemma_bit_bounds();
    }
    let mut s = String::new();
    s.append(hex_digit((v >> 4) & 0xF));
    s.append(hex_digit(v & 0xF));
    s
}

/// Four upper-case hex digits.
pub fn hex4(v: u16) -> (r: String) {
    proof {
        crate::bits::lemma_bit_bounds();
    }
    let mut s = String::new();
    s.append(hex_digit(((v >> 12) & 0xF) as u8));
    s.append(hex_digit(((v >> 8) & 0xF) as u8));
    s.append(hex_digit(((v >> 4) & 0xF) as u8));
    s.append(hex_digit((v & 0xF) as u8));
    s
}

impl Opcode {
    /// The opcode's mnemonic.
    pub fn name(&self) -> (r: &'static str) {
        match self {
            Opcode::ADC => "ADC",
            Opcode::AND => "AND",
            Opcode::ASL => "ASL",
            Opcode::BCC => "BCC",
            Opcode::BCS => "BCS",
            Opcode::BEQ => "BEQ",
            Opcode::BIT => "BIT",
            Opcode::BMI => "BMI",
            Opcode::BNE => "BNE",
            Opcode::BPL => "BPL",
            Opcode::BRK => "BRK",
            Opcode::BVC => "BVC",
            Opcode::BVS => "BVS",
            Opcode::CLC => "CLC",
            Opcode::CLD => "CLD",
            Opcode::CLI => "CLI",
            Opcode::CLV => "CLV",
            Opcode::CMP => "CMP",
            Opcode::CPX => "CPX",
            Opcode::CPY => "CPY",
            Opcode::DEC => "DEC",
            Opcode::DEX => "DEX",
            Opcode::DEY => "DEY",
            Opcode::EOR => "EOR",
            Opcode::INC => "INC",
            Opcode::INX => "INX",
            Opcode::INY => "INY",
            Opcode::JMP => "JMP",
            Opcode::JSR => "JSR",
            Opcode::LAX => "LAX",
            Opcode::LDA => "LDA",
            Opcode::LDX => "LDX",
            Opcode::LDY => "LDY",
            Opcode::LSR => "LSR",
            Opcode::NOP => "NOP",
            Opcode::ORA => "ORA",
            Opcode::PHA => "PHA",
            Opcode::PHP => "PHP",
            Opcode::PLA => "PLA",
            Opcode::PLP => "PLP",
            Opcode::ROL => "ROL",
            Opcode::ROR => "ROR",
            Opcode::RTI => "RTI",
            Opcode::RTS => "RTS",
            Opcode::SBC => "SBC",
            Opcode::SEC => "SEC",
            Opcode::SED => "SED",
            Opcode::SEI => "SEI",
            Opcode::STA => "STA",
            Opcode::STX => "STX",
            Opcode::STY => "STY",
            Opcode::TAX => "TAX",
            Opcode::TAY => "TAY",
            Opcode::TSX => "TSX",
            Opcode::TXA => "TXA",
            Opcode::TXS => "TXS",
            Opcode::TYA => "TYA",
            Opcode::INVALID => "INVALID",
        }
    }
}

impl AddressingMode {
    /// The operand as the diagnostics print it: the value in hex and a
    /// short mode tag.
    pub fn display(&self) -> (r: String) {
        match self {
            AddressingMode::Accumulator => String::from_str("A"),
            AddressingMode::Absolute(addr) => {
                let mut s = String::from_str("$");
                s.append(hex4(*addr).as_str());
                s.append(" (Abs)");
                s
            },
            AddressingMode::AbsoluteX(addr) => {
                let mut s = String::from_str("$");
                s.append(hex4(*addr).as_str());
                s.append(",X (AbsX)");
                s
            },
            AddressingMode::AbsoluteY(addr) => {
                let mut s = String::from_str("$");
                s.append(hex4(*addr).as_str());
                s.append(",Y (AbsY)");
                s
            },
            AddressingMode::Immediate(val) => {
                let mut s = String::from_str("#$");
                s.append(hex2(*val).as_str());
                s.append(" (Imm)");
                s
            },
            AddressingMode::Implied => String::from_str(" (Imp)"),
            AddressingMode::Indirect(addr) => {
                let mut s = String::from_str("($");
                s.append(hex4(*addr).as_str());
                s.append(") (Ind)");
                s
            },
            AddressingMode::XIndirect(offset) => {
                let mut s = String::from_str("($");
                s.append(hex2(*offset).as_str());
                s.append(", X) (XInd)");
                s
            },
            AddressingMode::IndirectY(offset) => {
                let mut s = String::from_str("($");
                s.append(hex2(*offset).as_str());
                s.append("), Y (IndY)");
                s
            },
            AddressingMode::Relative(offset) => {
                let mut s = String::from_str("$");
                s.append(hex2(*offset).as_str());
                s.append(" (Rel)");
                s
            },
            AddressingMode::ZeroPage(offset) => {
                let mut s = String::from_str("$");
                s.append(hex2(*offset).as_str());
                s.append(" (Zpg)");
                s
            },
            AddressingMode::ZeroPageX(offset) => {
                let mut s = String::from_str("$");
                s.append(hex2(*offset).as_str());
                s.append(",X (ZpgX)");
                s
            },
            AddressingMode::ZeroPageY(offset) => {
                let mut s = String::from_str("$");
                s.append(hex2(*offset).as_str());
                s.append(",Y (ZpgY)");
                s
            },
        }
    }
}

/// A decimal rendering of an unsigned count.
pub fn dec_u64(v: u64) -> (r: String) {
    if v == 0 {
        return String::from_str("0");
    }
    let mut digits: Vec<u8> = Vec::new();
    let mut n = v;
    while n > 0
        invariant
            n <= v,
            forall|k: int| 0 <= k < digits@.len() ==> digits@[k] < 10,
        decreases n,
    {
        digits.push((n % 10) as u8);
        n = n / 10;
    }
    let mut out = String::new();
    let mut i = digits.len();
    while i > 0
        invariant
            i <= digits@.len(),
            forall|k: int| 0 <= k < digits@.len() ==> digits@[k] < 10,
        decreases i,
    {
        i = i - 1;
        out.append(hex_digit(digits[i]));
    }
    out
}

impl Instr {
    /// The instruction as the diagnostics print it: the mnemonic, and the
    /// operand unless the mode is implied.
    pub fn display(&self) -> (r: String) {
        if matches!(self.mode, AddressingMode::Implied) {
            String::from_str(self.op.name())
        } else {
            let mut s = String::from_str(self.op.name());
            s.append(" ");
            s.append(self.mode.display().as_str());
            s
        }
    }
}

} // verus!

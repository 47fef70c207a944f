//! The 6502 instruction set: operations, addressing modes, and the decoding
//! of an opcode byte into both.

use vstd::pervasive::unreached;
use vstd::prelude::*;

verus! {

/// An operation of the 6502, documented or not.
#[allow(clippy::upper_case_acronyms)]
#[derive(Clone, Copy, Debug, PartialEq, Eq, Hash, Structural)]
pub enum Op {
    ADC,
    AND,
    ASL,
    BCC,
    BCS,
    BEQ,
    BIT,
    BMI,
    BNE,
    BPL,
    BRK,
    BVC,
    BVS,
    CLC,
    CLD,
    CLI,
    CLV,
    CMP,
    CPX,
    CPY,
    DEC,
    DEX,
    DEY,
    EOR,
    INC,
    INX,
    INY,
    JMP,
    JSR,
    LDA,
    LDX,
    LDY,
    LSR,
    NOP,
    ORA,
    PHA,
    PHP,
    PLA,
    PLP,
    ROL,
    ROR,
    RTI,
    RTS,
    SBC,
    SEC,
    SED,
    SEI,
    STA,
    STX,
    STY,
    TAX,
    TAY,
    TSX,
    TXA,
    TXS,
    TYA,
    // Undocumented operations
    ALR,
    ANC,
    ANE,
    ARR,
    DCP,
    ISC,
    LAS,
    LAX,
    LXA,
    RLA,
    RRA,
    SAX,
    SBX,
    SHA,
    SHX,
    SHY,
    SLO,
    SRE,
    TAS,
    JAM,
}

impl Op {
    /// Whether the operation reads its operand, writes it back unchanged and
    /// then writes the result: the read-modify-write group.
    pub open spec fn spec_is_rmw(self) -> bool {
        self == Op::ASL || self == Op::LSR || self == Op::ROL || self == Op::ROR || self == Op::INC
            || self == Op::DEC || self == Op::SLO || self == Op::SRE || self == Op::RLA
            || self == Op::RRA || self == Op::ISC || self == Op::DCP
    }

    /// Whether the operation belongs to the documented instruction set.
    pub open spec fn is_documented(self) -> bool {
        !(self == Op::ALR || self == Op::ANC || self == Op::ANE || self == Op::ARR
            || self == Op::DCP || self == Op::ISC || self == Op::LAS || self == Op::LAX
            || self == Op::LXA || self == Op::RLA || self == Op::RRA || self == Op::SAX
            || self == Op::SBX || self == Op::SHA || self == Op::SHX || self == Op::SHY
            || self == Op::SLO || self == Op::SRE || self == Op::TAS || self == Op::JAM)
    }

    /// Whether the operation takes a value from memory.
    pub open spec fn spec_reads_operand(self) -> bool {
        self.spec_is_rmw() || self == Op::LDA || self == Op::LDX || self == Op::LDY
            || self == Op::EOR || self == Op::AND || self == Op::ORA || self == Op::ADC
            || self == Op::SBC || self == Op::CMP || self == Op::CPX || self == Op::CPY
            || self == Op::BIT || self == Op::LAX || self == Op::NOP || self == Op::LAS
    }

    /// Whether the operation stores a value to memory.
    pub open spec fn spec_writes_operand(self) -> bool {
        self.spec_is_rmw() || self == Op::STA || self == Op::STX || self == Op::STY
            || self == Op::SAX || self == Op::SHA || self == Op::SHX || self == Op::SHY
            || self == Op::TAS
    }

    /// Whether the operation takes a value from memory.
    #[verifier::when_used_as_spec(spec_reads_operand)]
    pub fn reads_operand(self) -> (reads: bool)
        ensures
            reads == self.spec_reads_operand(),
    {
        self.is_rmw() || matches!(
            self,
            Op::LDA | Op::LDX | Op::LDY | Op::EOR | Op::AND | Op::ORA | Op::ADC | Op::SBC | Op::CMP
                | Op::CPX | Op::CPY | Op::BIT | Op::LAX | Op::NOP | Op::LAS
        )
    }

    /// Whether the operation stores a value to memory.
    #[verifier::when_used_as_spec(spec_writes_operand)]
    pub fn writes_operand(self) -> (writes: bool)
        ensures
            writes == self.spec_writes_operand(),
    {
        self.is_rmw() || matches!(
            self,
            Op::STA | Op::STX | Op::STY | Op::SAX | Op::SHA | Op::SHX | Op::SHY | Op::TAS
        )
    }

    /// Whether the operation belongs to the read-modify-write group.
    #[verifier::when_used_as_spec(spec_is_rmw)]
    pub fn is_rmw(self) -> (rmw: bool)
        ensures
            rmw == self.spec_is_rmw(),
    {
        matches!(
            self,
            Op::ASL | Op::LSR | Op::ROL | Op::ROR | Op::INC | Op::DEC | Op::SLO | Op::SRE | Op::RLA
                | Op::RRA | Op::ISC | Op::DCP
        )
    }
}

/// How an instruction finds its operand.
#[derive(Clone, Copy, Debug, PartialEq, Eq, Hash, Structural)]
pub enum AddrMode {
    Implied,
    Immediate,
    Relative,
    Accumulator,
    Zero,
    ZeroX,
    ZeroY,
    Absolute,
    AbsoluteX,
    AbsoluteY,
    Indirect,
    XIndirect,
    IndirectY,
}

impl AddrMode {
    /// The assembler-like notation of the mode, `#` standing for a byte and
    /// `$` for a word.
    pub open spec fn notation_text(self) -> Seq<char> {
        match self {
            Self::Implied => ""@,
            Self::Immediate => "#"@,
            Self::Relative => "#"@,
            Self::Accumulator => "A"@,
            Self::Zero => "[#]"@,
            Self::ZeroX => "[#+X]"@,
            Self::ZeroY => "[#+Y]"@,
            Self::Absolute => "[$]"@,
            Self::AbsoluteX => "[$+X]"@,
            Self::AbsoluteY => "[$+Y]"@,
            Self::Indirect => "[[$]]"@,
            Self::XIndirect => "[[#+X]]"@,
            Self::IndirectY => "[[#] + Y]"@,
        }
    }

    /// The notation of the mode as text.
    pub fn notation(&self) -> (text: &'static str)
        ensures
            text@ == self.notation_text(),
    {
        match self {
            Self::Implied => "",
            Self::Immediate => "#",
            Self::Relative => "#",
            Self::Accumulator => "A",
            Self::Zero => "[#]",
            Self::ZeroX => "[#+X]",
            Self::ZeroY => "[#+Y]",
            Self::Absolute => "[$]",
            Self::AbsoluteX => "[$+X]",
            Self::AbsoluteY => "[$+Y]",
            Self::Indirect => "[[$]]",
            Self::XIndirect => "[[#+X]]",
            Self::IndirectY => "[[#] + Y]",
        }
    }
}

/// The operation that each of the 256 opcode bytes selects.
#[verifier::opaque]
pub open spec fn op_of(opcode: u8) -> Op {
    match opcode {
        0x61 | 0x65 | 0x69 | 0x6D | 0x71 | 0x75 | 0x79 | 0x7D => Op::ADC,
        0x21 | 0x25 | 0x29 | 0x2D | 0x31 | 0x35 | 0x39 | 0x3D => Op::AND,
        0x06 | 0x0A | 0x0E | 0x16 | 0x1E => Op::ASL,
        0x90 => Op::BCC,
        0xB0 => Op::BCS,
        0xF0 => Op::BEQ,
        0x24 | 0x2C => Op::BIT,
        0x30 => Op::BMI,
        0xD0 => Op::BNE,
        0x10 => Op::BPL,
        0x00 => Op::BRK,
        0x50 => Op::BVC,
        0x70 => Op::BVS,
        0x18 => Op::CLC,
        0xD8 => Op::CLD,
        0x58 => Op::CLI,
        0xB8 => Op::CLV,
        0xC1 | 0xC5 | 0xC9 | 0xCD | 0xD1 | 0xD5 | 0xD9 | 0xDD => Op::CMP,
        0xE0 | 0xE4 | 0xEC => Op::CPX,
        0xC0 | 0xC4 | 0xCC => Op::CPY,
        0xC6 | 0xCE | 0xD6 | 0xDE => Op::DEC,
        0xCA => Op::DEX,
        0x88 => Op::DEY,
        0x41 | 0x45 | 0x49 | 0x4D | 0x51 | 0x55 | 0x59 | 0x5D => Op::EOR,
        0xE6 | 0xEE | 0xF6 | 0xFE => Op::INC,
        0xE8 => Op::INX,
        0xC8 => Op::INY,
        0x4C | 0x6C => Op::JMP,
        0x20 => Op::JSR,
        0xA1 | 0xA5 | 0xA9 | 0xAD | 0xB1 | 0xB5 | 0xB9 | 0xBD => Op::LDA,
        0xA2 | 0xA6 | 0xAE | 0xB6 | 0xBE => Op::LDX,
        0xA0 | 0xA4 | 0xAC | 0xB4 | 0xBC => Op::LDY,
        0x46 | 0x4A | 0x4E | 0x56 | 0x5E => Op::LSR,
        0x04 | 0x0C | 0x14 | 0x1A | 0x1C | 0x34 | 0x3A | 0x3C | 0x44 | 0x54
        | 0x5A | 0x5C | 0x64 | 0x74 | 0x7A | 0x7C | 0x80 | 0x82 | 0x89 | 0xC2
        | 0xD4 | 0xDA | 0xDC | 0xE2 | 0xEA | 0xF4 | 0xFA | 0xFC => Op::NOP,
        0x01 | 0x05 | 0x09 | 0x0D | 0x11 | 0x15 | 0x19 | 0x1D => Op::ORA,
        0x48 => Op::PHA,
        0x08 => Op::PHP,
        0x68 => Op::PLA,
        0x28 => Op::PLP,
        0x26 | 0x2A | 0x2E | 0x36 | 0x3E => Op::ROL,
        0x66 | 0x6A | 0x6E | 0x76 | 0x7E => Op::ROR,
        0x40 => Op::RTI,
        0x60 => Op::RTS,
        0xE1 | 0xE5 | 0xE9 | 0xEB | 0xED | 0xF1 | 0xF5 | 0xF9 | 0xFD => Op::SBC,
        0x38 => Op::SEC,
        0xF8 => Op::SED,
        0x78 => Op::SEI,
        0x81 | 0x85 | 0x8D | 0x91 | 0x95 | 0x99 | 0x9D => Op::STA,
        0x86 | 0x8E | 0x96 => Op::STX,
        0x84 | 0x8C | 0x94 => Op::STY,
        0xAA => Op::TAX,
        0xA8 => Op::TAY,
        0xBA => Op::TSX,
        0x8A => Op::TXA,
        0x9A => Op::TXS,
        0x98 => Op::TYA,
        0x4B => Op::ALR,
        0x0B | 0x2B => Op::ANC,
        0x8B => Op::ANE,
        0x6B => Op::ARR,
        0xC3 | 0xC7 | 0xCF | 0xD3 | 0xD7 | 0xDB | 0xDF => Op::DCP,
        0xE3 | 0xE7 | 0xEF | 0xF3 | 0xF7 | 0xFB | 0xFF => Op::ISC,
        0xBB => Op::LAS,
        0xA3 | 0xA7 | 0xAF | 0xB3 | 0xB7 | 0xBF => Op::LAX,
        0xAB => Op::LXA,
        0x23 | 0x27 | 0x2F | 0x33 | 0x37 | 0x3B | 0x3F => Op::RLA,
        0x63 | 0x67 | 0x6F | 0x73 | 0x77 | 0x7B | 0x7F => Op::RRA,
        0x83 | 0x87 | 0x8F | 0x97 => Op::SAX,
        0xCB => Op::SBX,
        0x93 | 0x9F => Op::SHA,
        0x9E => Op::SHX,
        0x9C => Op::SHY,
        0x03 | 0x07 | 0x0F | 0x13 | 0x17 | 0x1B | 0x1F => Op::SLO,
        0x43 | 0x47 | 0x4F | 0x53 | 0x57 | 0x5B | 0x5F => Op::SRE,
        0x9B => Op::TAS,
        _ => Op::JAM,
    }
}

/// The addressing mode that each of the 256 opcode bytes selects.
#[verifier::opaque]
pub open spec fn mode_of(opcode: u8) -> AddrMode {
    match opcode {
        0x09 | 0x0B | 0x29 | 0x2B | 0x49 | 0x4B | 0x69 | 0x6B | 0x80 | 0x82
        | 0x89 | 0x8B | 0xA0 | 0xA2 | 0xA9 | 0xAB | 0xC0 | 0xC2 | 0xC9 | 0xCB
        | 0xE0 | 0xE2 | 0xE9 | 0xEB => AddrMode::Immediate,
        0x10 | 0x30 | 0x50 | 0x70 | 0x90 | 0xB0 | 0xD0 | 0xF0 => AddrMode::Relative,
        0x0A | 0x2A | 0x4A | 0x6A => AddrMode::Accumulator,
        0x04 | 0x05 | 0x06 | 0x07 | 0x24 | 0x25 | 0x26 | 0x27 | 0x44 | 0x45
        | 0x46 | 0x47 | 0x64 | 0x65 | 0x66 | 0x67 | 0x84 | 0x85 | 0x86 | 0x87
        | 0xA4 | 0xA5 | 0xA6 | 0xA7 | 0xC4 | 0xC5 | 0xC6 | 0xC7 | 0xE4 | 0xE5
        | 0xE6 | 0xE7 => AddrMode::Zero,
        0x14 | 0x15 | 0x16 | 0x17 | 0x34 | 0x35 | 0x36 | 0x37 | 0x54 | 0x55
        | 0x56 | 0x57 | 0x74 | 0x75 | 0x76 | 0x77 | 0x94 | 0x95 | 0xB4 | 0xB5
        | 0xD4 | 0xD5 | 0xD6 | 0xD7 | 0xF4 | 0xF5 | 0xF6 | 0xF7 => AddrMode::ZeroX,
        0x96 | 0x97 | 0xB6 | 0xB7 => AddrMode::ZeroY,
        0x0C | 0x0D | 0x0E | 0x0F | 0x20 | 0x2C | 0x2D | 0x2E | 0x2F | 0x4C
        | 0x4D | 0x4E | 0x4F | 0x6D | 0x6E | 0x6F | 0x8C | 0x8D | 0x8E | 0x8F
        | 0xAC | 0xAD | 0xAE | 0xAF | 0xCC | 0xCD | 0xCE | 0xCF | 0xEC | 0xED
        | 0xEE | 0xEF => AddrMode::Absolute,
        0x1C | 0x1D | 0x1E | 0x1F | 0x3C | 0x3D | 0x3E | 0x3F | 0x5C | 0x5D
        | 0x5E | 0x5F | 0x7C | 0x7D | 0x7E | 0x7F | 0x9C | 0x9D | 0xBC | 0xBD
        | 0xDC | 0xDD | 0xDE | 0xDF | 0xFC | 0xFD | 0xFE | 0xFF => AddrMode::AbsoluteX,
        0x19 | 0x1B | 0x39 | 0x3B | 0x59 | 0x5B | 0x79 | 0x7B | 0x99 | 0x9B
        | 0x9E | 0x9F | 0xB9 | 0xBB | 0xBE | 0xBF | 0xD9 | 0xDB | 0xF9 | 0xFB => AddrMode::AbsoluteY,
        0x6C => AddrMode::Indirect,
        0x01 | 0x03 | 0x21 | 0x23 | 0x41 | 0x43 | 0x61 | 0x63 | 0x81 | 0x83
        | 0xA1 | 0xA3 | 0xC1 | 0xC3 | 0xE1 | 0xE3 => AddrMode::XIndirect,
        0x11 | 0x13 | 0x31 | 0x33 | 0x51 | 0x53 | 0x71 | 0x73 | 0x91 | 0x93
        | 0xB1 | 0xB3 | 0xD1 | 0xD3 | 0xF1 | 0xF3 => AddrMode::IndirectY,
        _ => AddrMode::Implied,
    }
}

/// The opcode whose top three bits are `a`, middle three `b` and low two `c`.
pub open spec fn opcode_of(a: u8, b: u8, c: u8) -> u8 {
    (a * 32 + b * 4 + c) as u8
}

/// Splits an opcode into operation and addressing mode.
pub fn decode(opcode: u8) -> (instruction: (Op, AddrMode))
    ensures
        instruction == (op_of(opcode), mode_of(opcode)),
{
    let a: u8 = opcode / 32;
    let b: u8 = (opcode / 4) % 8;
    let c: u8 = opcode % 4;
    assert(opcode_of(a, b, c) == opcode);

    let addr_mode = decode_addr_mode(a, b, c);
    let op = decode_op(a, b, c);

    (op, addr_mode)
}

/// The operation of the opcode with the bit fields `a`, `b`, `c`.
pub fn decode_op(a: u8, b: u8, c: u8) -> (op: Op)
    requires
        a < 8,
        b < 8,
        c < 4,
    ensures
        op == op_of(opcode_of(a, b, c)),
{
    match c {
        0 => decode_control_op(a, b),
        1 => decode_alu_op(a, b),
        2 => decode_rmw_op(a, b),
        _ => decode_combined_op(a, b),
    }
}

/// The operation of an opcode of the control group, whose opcodes end in the bits 00.
fn decode_control_op(a: u8, b: u8) -> (op: Op)
    requires
        a < 8,
        b < 8,
    ensures
        op == op_of(opcode_of(a, b, 0)),
{
    reveal(op_of);
    assert(opcode_of(a, b, 0) == a * 32 + b * 4 + 0);
    match (a, b) {
        (0, 0) => Op::BRK,
        (0, 2) => Op::PHP,
        (0, 4) => Op::BPL,
        (0, 6) => Op::CLC,
        (0, _) => Op::NOP,

        (1, 0) => Op::JSR,
        (1, 1) => Op::BIT,
        (1, 2) => Op::PLP,
        (1, 3) => Op::BIT,
        (1, 4) => Op::BMI,
        (1, 5) => Op::NOP,
        (1, 6) => Op::SEC,
        (1, 7) => Op::NOP,

        (2, 0) => Op::RTI,
        (2, 1) => Op::NOP,
        (2, 2) => Op::PHA,
        (2, 3) => Op::JMP,
        (2, 4) => Op::BVC,
        (2, 5) => Op::NOP,
        (2, 6) => Op::CLI,
        (2, 7) => Op::NOP,

        (3, 0) => Op::RTS,
        (3, 1) => Op::NOP,
        (3, 2) => Op::PLA,
        (3, 3) => Op::JMP,
        (3, 4) => Op::BVS,
        (3, 5) => Op::NOP,
        (3, 6) => Op::SEI,
        (3, 7) => Op::NOP,

        (4, 0) => Op::NOP,
        (4, 1) => Op::STY,
        (4, 2) => Op::DEY,
        (4, 3) => Op::STY,
        (4, 4) => Op::BCC,
        (4, 5) => Op::STY,
        (4, 6) => Op::TYA,
        (4, 7) => Op::SHY,

        (5, 0) => Op::LDY,
        (5, 1) => Op::LDY,
        (5, 2) => Op::TAY,
        (5, 3) => Op::LDY,
        (5, 4) => Op::BCS,
        (5, 5) => Op::LDY,
        (5, 6) => Op::CLV,
        (5, 7) => Op::LDY,

        (6, 0) => Op::CPY,
        (6, 1) => Op::CPY,
        (6, 2) => Op::INY,
        (6, 3) => Op::CPY,
        (6, 4) => Op::BNE,
        (6, 5) => Op::NOP,
        (6, 6) => Op::CLD,
        (6, 7) => Op::NOP,

        (7, 0) => Op::CPX,
        (7, 1) => Op::CPX,
        (7, 2) => Op::INX,
        (7, 3) => Op::CPX,
        (7, 4) => Op::BEQ,
        (7, 5) => Op::NOP,
        (7, 6) => Op::SED,
        (7, 7) => Op::NOP,
        _ => unreached(),
    }
}

/// The operation of an opcode of the arithmetic group, whose opcodes end in the bits 01.
fn decode_alu_op(a: u8, b: u8) -> (op: Op)
    requires
        a < 8,
        b < 8,
    ensures
        op == op_of(opcode_of(a, b, 1)),
{
    reveal(op_of);
    assert(opcode_of(a, b, 1) == a * 32 + b * 4 + 1);
    match (a, b) {
        (0, _) => Op::ORA,

        (1, _) => Op::AND,

        (2, _) => Op::EOR,

        (3, _) => Op::ADC,

        (4, 2) => Op::NOP,
        (4, _) => Op::STA,

        (5, _) => Op::LDA,

        (6, _) => Op::CMP,

        (7, _) => Op::SBC,
        _ => unreached(),
    }
}

/// The operation of an opcode of the read-modify-write group, whose opcodes end in the bits 10.
fn decode_rmw_op(a: u8, b: u8) -> (op: Op)
    requires
        a < 8,
        b < 8,
    ensures
        op == op_of(opcode_of(a, b, 2)),
{
    reveal(op_of);
    assert(opcode_of(a, b, 2) == a * 32 + b * 4 + 2);
    match (a, b) {
        (_, 4) => Op::JAM,
        (0..=3, 0) => Op::JAM,
        (0..=3, 6) => Op::NOP,
        (0, _) => Op::ASL,

        (1, _) => Op::ROL,

        (2, _) => Op::LSR,

        (3, _) => Op::ROR,

        (4, 0) => Op::NOP,
        (4, 1) => Op::STX,
        (4, 2) => Op::TXA,
        (4, 3) => Op::STX,
        (4, 5) => Op::STX,
        (4, 6) => Op::TXS,
        (4, 7) => Op::SHX,

        (5, 0) => Op::LDX,
        (5, 1) => Op::LDX,
        (5, 2) => Op::TAX,
        (5, 3) => Op::LDX,
        (5, 5) => Op::LDX,
        (5, 6) => Op::TSX,
        (5, 7) => Op::LDX,

        (6, 0) => Op::NOP,
        (6, 1) => Op::DEC,
        (6, 2) => Op::DEX,
        (6, 3) => Op::DEC,
        (6, 5) => Op::DEC,
        (6, 6) => Op::NOP,
        (6, 7) => Op::DEC,

        (7, 0) => Op::NOP,
        (7, 1) => Op::INC,
        (7, 2) => Op::NOP,
        (7, 3) => Op::INC,
        (7, 5) => Op::INC,
        (7, 6) => Op::NOP,
        (7, 7) => Op::INC,
        _ => unreached(),
    }
}

/// The operation of an opcode of the undocumented group, whose opcodes end in the bits 11.
fn decode_combined_op(a: u8, b: u8) -> (op: Op)
    requires
        a < 8,
        b < 8,
    ensures
        op == op_of(opcode_of(a, b, 3)),
{
    reveal(op_of);
    assert(opcode_of(a, b, 3) == a * 32 + b * 4 + 3);
    match (a, b) {
        (0, 2) => Op::ANC,
        (0, _) => Op::SLO,

        (1, 2) => Op::ANC,
        (1, _) => Op::RLA,

        (2, 2) => Op::ALR,
        (2, _) => Op::SRE,

        (3, 2) => Op::ARR,
        (3, _) => Op::RRA,

        (4, 0) => Op::SAX,
        (4, 1) => Op::SAX,
        (4, 2) => Op::ANE,
        (4, 3) => Op::SAX,
        (4, 4) => Op::SHA,
        (4, 5) => Op::SAX,
        (4, 6) => Op::TAS,
        (4, 7) => Op::SHA,

        (5, 0) => Op::LAX,
        (5, 1) => Op::LAX,
        (5, 2) => Op::LXA,
        (5, 3) => Op::LAX,
        (5, 4) => Op::LAX,
        (5, 5) => Op::LAX,
        (5, 6) => Op::LAS,
        (5, 7) => Op::LAX,

        (6, 2) => Op::SBX,
        (6, _) => Op::DCP,

        (7, 2) => Op::SBC,
        (7, _) => Op::ISC,
        _ => unreached(),
    }
}

/// The addressing mode of the opcode with the bit fields `a`, `b`, `c`.
pub fn decode_addr_mode(a: u8, b: u8, c: u8) -> (mode: AddrMode)
    requires
        a < 8,
        b < 8,
        c < 4,
    ensures
        mode == mode_of(opcode_of(a, b, c)),
{
    reveal(mode_of);
    match (b, c) {
        (0, 0) if a == 1 => AddrMode::Absolute,
        (0, 0) if a < 4 => AddrMode::Implied,
        (0, 0) => AddrMode::Immediate,
        (0, 1) => AddrMode::XIndirect,
        (0, 2) if a < 4 => AddrMode::Implied,
        (0, 2) => AddrMode::Immediate,
        (0, 3) => AddrMode::XIndirect,

        (1, _) => AddrMode::Zero,

        (2, 0) => AddrMode::Implied,
        (2, 1) => AddrMode::Immediate,
        (2, 2) if a < 4 => AddrMode::Accumulator,
        (2, 2) => AddrMode::Implied,
        (2, 3) => AddrMode::Immediate,

        (3, 0) if a == 3 => AddrMode::Indirect,
        (3, _) => AddrMode::Absolute,

        (4, 0) => AddrMode::Relative,
        (4, 1) => AddrMode::IndirectY,
        (4, 2) => AddrMode::Implied,
        (4, 3) => AddrMode::IndirectY,

        (5, 2) if a == 4 || a == 5 => AddrMode::ZeroY,
        (5, 3) if a == 4 || a == 5 => AddrMode::ZeroY,
        (5, _) => AddrMode::ZeroX,

        (6, 0 | 2) => AddrMode::Implied,
        (6, 1 | 3) => AddrMode::AbsoluteY,

        (7, 0 | 1) => AddrMode::AbsoluteX,
        (7, 2) if a == 4 || a == 5 => AddrMode::AbsoluteY,
        (7, 3) if a == 4 || a == 5 => AddrMode::AbsoluteY,
        (7, 2 | 3) => AddrMode::AbsoluteX,

        _ => unreached(),
    }
}

/// Every opcode byte decodes, and exactly twelve of them jam the processor.
pub proof fn lemma_jam_opcodes(opcode: u8)
    ensures
        op_of(opcode) == Op::JAM <==> (opcode % 16 == 2 && opcode != 0x82 && opcode != 0xA2
            && opcode != 0xC2 && opcode != 0xE2),
        op_of(opcode) == Op::JAM ==> mode_of(opcode) == AddrMode::Implied,
{
    reveal(op_of);
    reveal(mode_of);
}

} // verus!

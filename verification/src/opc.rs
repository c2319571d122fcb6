use vstd::prelude::*;

verus! {

/// A decoded opcode: the instruction tag, the addressing mode, and the base
/// cycle count the instruction consumes.
#[derive(Debug, Clone, Copy, PartialEq, Eq, Structural)]
pub struct OpMode(pub Inst, pub AddressMode, pub u8);

/// The 6502 instruction tags.
#[derive(Debug, Clone, Copy, PartialEq, Eq, Hash, Structural)]
pub enum Inst {
    ADC,
    AND,
    ASL,
    BCC,
    BCS,
    BEQ,
    BIT,
    BMI,
    BNE,
    BPL,
    BRK,
    BVC,
    BVS,
    CLC,
    CLD,
    CLI,
    CLV,
    CMP,
    CPX,
    CPY,
    DEC,
    DEX,
    DEY,
    EOR,
    INC,
    INX,
    INY,
    JMP,
    JSR,
    LDA,
    LDX,
    LDY,
    LSR,
    NOP,
    ORA,
    PHA,
    PHP,
    PLA,
    PLP,
    ROL,
    ROR,
    RTI,
    RTS,
    SBC,
    SEC,
    SED,
    SEI,
    STA,
    STX,
    STY,
    TAX,
    TAY,
    TSX,
    TXA,
    TXS,
    TYA,
}

/// The 6502 addressing modes.
#[derive(Debug, Clone, Copy, PartialEq, Eq, Hash, Structural)]
pub enum AddressMode {
    ACC,
    ABS,
    ABSX,
    ABSY,
    IMM,
    IMPL,
    IND,
    INDX,
    INDY,
    REL,
    ZPG,
    ZPGX,
    ZPGY,
}

/// The number of bytes an instruction with the given addressing mode
/// occupies: the opcode byte plus zero, one or two operand bytes.
pub open spec fn instr_len(addr_mode: AddressMode) -> u16 {
    match addr_mode {
        AddressMode::ACC => 1,
        AddressMode::ABS => 3,
        AddressMode::ABSX => 3,
        AddressMode::ABSY => 3,
        AddressMode::IMM => 2,
        AddressMode::IMPL => 1,
        AddressMode::IND => 3,
        AddressMode::INDX => 2,
        AddressMode::INDY => 2,
        AddressMode::REL => 2,
        AddressMode::ZPGX => 2,
        AddressMode::ZPGY => 2,
        AddressMode::ZPG => 2,
    }
}

/// The frozen opcode table: the decoding of each of the 256 opcode bytes.
/// Exactly 151 bytes decode to an instruction; the rest are undefined and
/// yield `None`.
pub open spec fn opc_entry(b: u8) -> Option<OpMode> {
    match b {
        0x69 => Some(OpMode(Inst::ADC, AddressMode::IMM, 2)),
        0x65 => Some(OpMode(Inst::ADC, AddressMode::ZPG, 3)),
        0x75 => Some(OpMode(Inst::ADC, AddressMode::ZPGX, 4)),
        0x6D => Some(OpMode(Inst::ADC, AddressMode::ABS, 4)),
        0x7D => Some(OpMode(Inst::ADC, AddressMode::ABSX, 4)),
        0x79 => Some(OpMode(Inst::ADC, AddressMode::ABSY, 4)),
        0x61 => Some(OpMode(Inst::ADC, AddressMode::INDX, 6)),
        0x71 => Some(OpMode(Inst::ADC, AddressMode::INDY, 5)),
        0x29 => Some(OpMode(Inst::AND, AddressMode::IMM, 2)),
        0x25 => Some(OpMode(Inst::AND, AddressMode::ZPG, 3)),
        0x35 => Some(OpMode(Inst::AND, AddressMode::ZPGX, 4)),
        0x2D => Some(OpMode(Inst::AND, AddressMode::ABS, 4)),
        0x3D => Some(OpMode(Inst::AND, AddressMode::ABSX, 4)),
        0x39 => Some(OpMode(Inst::AND, AddressMode::ABSY, 4)),
        0x21 => Some(OpMode(Inst::AND, AddressMode::INDX, 6)),
        0x31 => Some(OpMode(Inst::AND, AddressMode::INDY, 5)),
        0x0A => Some(OpMode(Inst::ASL, AddressMode::ACC, 2)),
        0x06 => Some(OpMode(Inst::ASL, AddressMode::ZPG, 5)),
        0x16 => Some(OpMode(Inst::ASL, AddressMode::ZPGX, 6)),
        0x0E => Some(OpMode(Inst::ASL, AddressMode::ABS, 6)),
        0x1E => Some(OpMode(Inst::ASL, AddressMode::ABSX, 7)),
        0x90 => Some(OpMode(Inst::BCC, AddressMode::REL, 2)),
        0xB0 => Some(OpMode(Inst::BCS, AddressMode::REL, 2)),
        0xF0 => Some(OpMode(Inst::BEQ, AddressMode::REL, 2)),
        0x24 => Some(OpMode(Inst::BIT, AddressMode::ZPG, 3)),
        0x2C => Some(OpMode(Inst::BIT, AddressMode::ABS, 3)),
        0x30 => Some(OpMode(Inst::BMI, AddressMode::REL, 2)),
        0xD0 => Some(OpMode(Inst::BNE, AddressMode::REL, 2)),
        0x10 => Some(OpMode(Inst::BPL, AddressMode::REL, 2)),
        0x00 => Some(OpMode(Inst::BRK, AddressMode::IMPL, 7)),
        0x50 => Some(OpMode(Inst::BVC, AddressMode::REL, 2)),
        0x70 => Some(OpMode(Inst::BVS, AddressMode::REL, 2)),
        0x18 => Some(OpMode(Inst::CLC, AddressMode::IMPL, 2)),
        0xD8 => Some(OpMode(Inst::CLD, AddressMode::IMPL, 2)),
        0x58 => Some(OpMode(Inst::CLI, AddressMode::IMPL, 2)),
        0xB8 => Some(OpMode(Inst::CLV, AddressMode::IMPL, 2)),
        0xC9 => Some(OpMode(Inst::CMP, AddressMode::IMM, 2)),
        0xC5 => Some(OpMode(Inst::CMP, AddressMode::ZPG, 3)),
        0xD5 => Some(OpMode(Inst::CMP, AddressMode::ZPGX, 4)),
        0xCD => Some(OpMode(Inst::CMP, AddressMode::ABS, 4)),
        0xDD => Some(OpMode(Inst::CMP, AddressMode::ABSX, 4)),
        0xD9 => Some(OpMode(Inst::CMP, AddressMode::ABSY, 4)),
        0xC1 => Some(OpMode(Inst::CMP, AddressMode::INDX, 6)),
        0xD1 => Some(OpMode(Inst::CMP, AddressMode::INDY, 5)),
        0xE0 => Some(OpMode(Inst::CPX, AddressMode::IMM, 2)),
        0xE4 => Some(OpMode(Inst::CPX, AddressMode::ZPG, 3)),
        0xEC => Some(OpMode(Inst::CPX, AddressMode::ABS, 4)),
        0xC0 => Some(OpMode(Inst::CPY, AddressMode::IMM, 2)),
        0xC4 => Some(OpMode(Inst::CPY, AddressMode::ZPG, 3)),
        0xCC => Some(OpMode(Inst::CPY, AddressMode::ABS, 4)),
        0xC6 => Some(OpMode(Inst::DEC, AddressMode::ZPG, 5)),
        0xD6 => Some(OpMode(Inst::DEC, AddressMode::ZPGX, 6)),
        0xCE => Some(OpMode(Inst::DEC, AddressMode::ABS, 6)),
        0xDE => Some(OpMode(Inst::DEC, AddressMode::ABSX, 7)),
        0xCA => Some(OpMode(Inst::DEX, AddressMode::IMPL, 2)),
        0x88 => Some(OpMode(Inst::DEY, AddressMode::IMPL, 2)),
        0x49 => Some(OpMode(Inst::EOR, AddressMode::IMM, 2)),
        0x45 => Some(OpMode(Inst::EOR, AddressMode::ZPG, 3)),
        0x55 => Some(OpMode(Inst::EOR, AddressMode::ZPGX, 4)),
        0x4D => Some(OpMode(Inst::EOR, AddressMode::ABS, 4)),
        0x5D => Some(OpMode(Inst::EOR, AddressMode::ABSX, 4)),
        0x59 => Some(OpMode(Inst::EOR, AddressMode::ABSY, 4)),
        0x41 => Some(OpMode(Inst::EOR, AddressMode::INDX, 6)),
        0x51 => Some(OpMode(Inst::EOR, AddressMode::INDY, 5)),
        0xE6 => Some(OpMode(Inst::INC, AddressMode::ZPG, 5)),
        0xF6 => Some(OpMode(Inst::INC, AddressMode::ZPGX, 6)),
        0xEE => Some(OpMode(Inst::INC, AddressMode::ABS, 6)),
        0xFE => Some(OpMode(Inst::INC, AddressMode::ABSX, 7)),
        0xE8 => Some(OpMode(Inst::INX, AddressMode::IMPL, 2)),
        0xC8 => Some(OpMode(Inst::INY, AddressMode::IMPL, 2)),
        0x4C => Some(OpMode(Inst::JMP, AddressMode::ABS, 3)),
        0x6C => Some(OpMode(Inst::JMP, AddressMode::IND, 5)),
        0x20 => Some(OpMode(Inst::JSR, AddressMode::ABS, 6)),
        0xA9 => Some(OpMode(Inst::LDA, AddressMode::IMM, 2)),
        0xA5 => Some(OpMode(Inst::LDA, AddressMode::ZPG, 3)),
        0xB5 => Some(OpMode(Inst::LDA, AddressMode::ZPGX, 6)),
        0xAD => Some(OpMode(Inst::LDA, AddressMode::ABS, 6)),
        0xBD => Some(OpMode(Inst::LDA, AddressMode::ABSX, 6)),
        0xB9 => Some(OpMode(Inst::LDA, AddressMode::ABSY, 6)),
        0xA1 => Some(OpMode(Inst::LDA, AddressMode::INDX, 6)),
        0xB1 => Some(OpMode(Inst::LDA, AddressMode::INDY, 6)),
        0xA2 => Some(OpMode(Inst::LDX, AddressMode::IMM, 2)),
        0xA6 => Some(OpMode(Inst::LDX, AddressMode::ZPG, 3)),
        0xB6 => Some(OpMode(Inst::LDX, AddressMode::ZPGY, 4)),
        0xAE => Some(OpMode(Inst::LDX, AddressMode::ABS, 4)),
        0xBE => Some(OpMode(Inst::LDX, AddressMode::ABSY, 4)),
        0xA0 => Some(OpMode(Inst::LDY, AddressMode::IMM, 2)),
        0xA4 => Some(OpMode(Inst::LDY, AddressMode::ZPG, 3)),
        0xB4 => Some(OpMode(Inst::LDY, AddressMode::ZPGX, 4)),
        0xAC => Some(OpMode(Inst::LDY, AddressMode::ABS, 4)),
        0xBC => Some(OpMode(Inst::LDY, AddressMode::ABSX, 4)),
        0x4A => Some(OpMode(Inst::LSR, AddressMode::ACC, 2)),
        0x46 => Some(OpMode(Inst::LSR, AddressMode::ZPG, 5)),
        0x56 => Some(OpMode(Inst::LSR, AddressMode::ZPGX, 6)),
        0x4E => Some(OpMode(Inst::LSR, AddressMode::ABS, 6)),
        0x5E => Some(OpMode(Inst::LSR, AddressMode::ABSX, 7)),
        0xEA => Some(OpMode(Inst::NOP, AddressMode::IMPL, 2)),
        0x09 => Some(OpMode(Inst::ORA, AddressMode::IMM, 2)),
        0x05 => Some(OpMode(Inst::ORA, AddressMode::ZPG, 3)),
        0x15 => Some(OpMode(Inst::ORA, AddressMode::ZPGX, 4)),
        0x0D => Some(OpMode(Inst::ORA, AddressMode::ABS, 4)),
        0x1D => Some(OpMode(Inst::ORA, AddressMode::ABSX, 4)),
        0x19 => Some(OpMode(Inst::ORA, AddressMode::ABSY, 4)),
        0x01 => Some(OpMode(Inst::ORA, AddressMode::INDX, 6)),
        0x11 => Some(OpMode(Inst::ORA, AddressMode::INDY, 5)),
        0x48 => Some(OpMode(Inst::PHA, AddressMode::IMPL, 3)),
        0x08 => Some(OpMode(Inst::PHP, AddressMode::IMPL, 3)),
        0x68 => Some(OpMode(Inst::PLA, AddressMode::IMPL, 3)),
        0x28 => Some(OpMode(Inst::PLP, AddressMode::IMPL, 3)),
        0x2A => Some(OpMode(Inst::ROL, AddressMode::ACC, 2)),
        0x26 => Some(OpMode(Inst::ROL, AddressMode::ZPG, 5)),
        0x36 => Some(OpMode(Inst::ROL, AddressMode::ZPGX, 6)),
        0x2E => Some(OpMode(Inst::ROL, AddressMode::ABS, 6)),
        0x3E => Some(OpMode(Inst::ROL, AddressMode::ABSX, 7)),
        0x6A => Some(OpMode(Inst::ROR, AddressMode::ACC, 2)),
        0x66 => Some(OpMode(Inst::ROR, AddressMode::ZPG, 5)),
        0x76 => Some(OpMode(Inst::ROR, AddressMode::ZPGX, 6)),
        0x6E => Some(OpMode(Inst::ROR, AddressMode::ABS, 6)),
        0x7E => Some(OpMode(Inst::ROR, AddressMode::ABSX, 7)),
        0x40 => Some(OpMode(Inst::RTI, AddressMode::IMPL, 6)),
        0x60 => Some(OpMode(Inst::RTS, AddressMode::IMPL, 6)),
        0xE9 => Some(OpMode(Inst::SBC, AddressMode::IMM, 2)),
        0xE5 => Some(OpMode(Inst::SBC, AddressMode::ZPG, 3)),
        0xF5 => Some(OpMode(Inst::SBC, AddressMode::ZPGX, 4)),
        0xED => Some(OpMode(Inst::SBC, AddressMode::ABS, 4)),
        0xFD => Some(OpMode(Inst::SBC, AddressMode::ABSX, 4)),
        0xF9 => Some(OpMode(Inst::SBC, AddressMode::ABSY, 4)),
        0xE1 => Some(OpMode(Inst::SBC, AddressMode::INDX, 6)),
        0xF1 => Some(OpMode(Inst::SBC, AddressMode::INDY, 5)),
        0x38 => Some(OpMode(Inst::SEC, AddressMode::IMPL, 2)),
        0xF8 => Some(OpMode(Inst::SED, AddressMode::IMPL, 2)),
        0x78 => Some(OpMode(Inst::SEI, AddressMode::IMPL, 2)),
        0x85 => Some(OpMode(Inst::STA, AddressMode::ZPG, 3)),
        0x95 => Some(OpMode(Inst::STA, AddressMode::ZPGX, 4)),
        0x8D => Some(OpMode(Inst::STA, AddressMode::ABS, 4)),
        0x9D => Some(OpMode(Inst::STA, AddressMode::ABSX, 5)),
        0x99 => Some(OpMode(Inst::STA, AddressMode::ABSY, 5)),
        0x81 => Some(OpMode(Inst::STA, AddressMode::INDX, 6)),
        0x91 => Some(OpMode(Inst::STA, AddressMode::INDY, 6)),
        0x86 => Some(OpMode(Inst::STX, AddressMode::ZPG, 3)),
        0x96 => Some(OpMode(Inst::STX, AddressMode::ZPGY, 4)),
        0x8E => Some(OpMode(Inst::STX, AddressMode::ABS, 4)),
        0x84 => Some(OpMode(Inst::STY, AddressMode::ZPG, 3)),
        0x94 => Some(OpMode(Inst::STY, AddressMode::ZPGY, 4)),
        0x8C => Some(OpMode(Inst::STY, AddressMode::ABS, 4)),
        0xAA => Some(OpMode(Inst::TAX, AddressMode::IMPL, 2)),
        0xA8 => Some(OpMode(Inst::TAY, AddressMode::IMPL, 2)),
        0xBA => Some(OpMode(Inst::TSX, AddressMode::IMPL, 2)),
        0x8A => Some(OpMode(Inst::TXA, AddressMode::IMPL, 2)),
        0x9A => Some(OpMode(Inst::TXS, AddressMode::IMPL, 2)),
        0x98 => Some(OpMode(Inst::TYA, AddressMode::IMPL, 2)),
        _ => None,
    }
}


/// The opcode byte that encodes the pair `(inst, mode)`, where the table
/// defines one: the inverse of the opcode table.
pub open spec fn opcode_of(inst: Inst, mode: AddressMode) -> Option<u8> {
    match (inst, mode) {
        (Inst::ADC, AddressMode::IMM) => Some(0x69),
        (Inst::ADC, AddressMode::ZPG) => Some(0x65),
        (Inst::ADC, AddressMode::ZPGX) => Some(0x75),
        (Inst::ADC, AddressMode::ABS) => Some(0x6D),
        (Inst::ADC, AddressMode::ABSX) => Some(0x7D),
        (Inst::ADC, AddressMode::ABSY) => Some(0x79),
        (Inst::ADC, AddressMode::INDX) => Some(0x61),
        (Inst::ADC, AddressMode::INDY) => Some(0x71),
        (Inst::AND, AddressMode::IMM) => Some(0x29),
        (Inst::AND, AddressMode::ZPG) => Some(0x25),
        (Inst::AND, AddressMode::ZPGX) => Some(0x35),
        (Inst::AND, AddressMode::ABS) => Some(0x2D),
        (Inst::AND, AddressMode::ABSX) => Some(0x3D),
        (Inst::AND, AddressMode::ABSY) => Some(0x39),
        (Inst::AND, AddressMode::INDX) => Some(0x21),
        (Inst::AND, AddressMode::INDY) => Some(0x31),
        (Inst::ASL, AddressMode::ACC) => Some(0x0A),
        (Inst::ASL, AddressMode::ZPG) => Some(0x06),
        (Inst::ASL, AddressMode::ZPGX) => Some(0x16),
        (Inst::ASL, AddressMode::ABS) => Some(0x0E),
        (Inst::ASL, AddressMode::ABSX) => Some(0x1E),
        (Inst::BCC, AddressMode::REL) => Some(0x90),
        (Inst::BCS, AddressMode::REL) => Some(0xB0),
        (Inst::BEQ, AddressMode::REL) => Some(0xF0),
        (Inst::BIT, AddressMode::ZPG) => Some(0x24),
        (Inst::BIT, AddressMode::ABS) => Some(0x2C),
        (Inst::BMI, AddressMode::REL) => Some(0x30),
        (Inst::BNE, AddressMode::REL) => Some(0xD0),
        (Inst::BPL, AddressMode::REL) => Some(0x10),
        (Inst::BRK, AddressMode::IMPL) => Some(0x00),
        (Inst::BVC, AddressMode::REL) => Some(0x50),
        (Inst::BVS, AddressMode::REL) => Some(0x70),
        (Inst::CLC, AddressMode::IMPL) => Some(0x18),
        (Inst::CLD, AddressMode::IMPL) => Some(0xD8),
        (Inst::CLI, AddressMode::IMPL) => Some(0x58),
        (Inst::CLV, AddressMode::IMPL) => Some(0xB8),
        (Inst::CMP, AddressMode::IMM) => Some(0xC9),
        (Inst::CMP, AddressMode::ZPG) => Some(0xC5),
        (Inst::CMP, AddressMode::ZPGX) => Some(0xD5),
        (Inst::CMP, AddressMode::ABS) => Some(0xCD),
        (Inst::CMP, AddressMode::ABSX) => Some(0xDD),
        (Inst::CMP, AddressMode::ABSY) => Some(0xD9),
        (Inst::CMP, AddressMode::INDX) => Some(0xC1),
        (Inst::CMP, AddressMode::INDY) => Some(0xD1),
        (Inst::CPX, AddressMode::IMM) => Some(0xE0),
        (Inst::CPX, AddressMode::ZPG) => Some(0xE4),
        (Inst::CPX, AddressMode::ABS) => Some(0xEC),
        (Inst::CPY, AddressMode::IMM) => Some(0xC0),
        (Inst::CPY, AddressMode::ZPG) => Some(0xC4),
        (Inst::CPY, AddressMode::ABS) => Some(0xCC),
        (Inst::DEC, AddressMode::ZPG) => Some(0xC6),
        (Inst::DEC, AddressMode::ZPGX) => Some(0xD6),
        (Inst::DEC, AddressMode::ABS) => Some(0xCE),
        (Inst::DEC, AddressMode::ABSX) => Some(0xDE),
        (Inst::DEX, AddressMode::IMPL) => Some(0xCA),
        (Inst::DEY, AddressMode::IMPL) => Some(0x88),
        (Inst::EOR, AddressMode::IMM) => Some(0x49),
        (Inst::EOR, AddressMode::ZPG) => Some(0x45),
        (Inst::EOR, AddressMode::ZPGX) => Some(0x55),
        (Inst::EOR, AddressMode::ABS) => Some(0x4D),
        (Inst::EOR, AddressMode::ABSX) => Some(0x5D),
        (Inst::EOR, AddressMode::ABSY) => Some(0x59),
        (Inst::EOR, AddressMode::INDX) => Some(0x41),
        (Inst::EOR, AddressMode::INDY) => Some(0x51),
        (Inst::INC, AddressMode::ZPG) => Some(0xE6),
        (Inst::INC, AddressMode::ZPGX) => Some(0xF6),
        (Inst::INC, AddressMode::ABS) => Some(0xEE),
        (Inst::INC, AddressMode::ABSX) => Some(0xFE),
        (Inst::INX, AddressMode::IMPL) => Some(0xE8),
        (Inst::INY, AddressMode::IMPL) => Some(0xC8),
        (Inst::JMP, AddressMode::ABS) => Some(0x4C),
        (Inst::JMP, AddressMode::IND) => Some(0x6C),
        (Inst::JSR, AddressMode::ABS) => Some(0x20),
        (Inst::LDA, AddressMode::IMM) => Some(0xA9),
        (Inst::LDA, AddressMode::ZPG) => Some(0xA5),
        (Inst::LDA, AddressMode::ZPGX) => Some(0xB5),
        (Inst::LDA, AddressMode::ABS) => Some(0xAD),
        (Inst::LDA, AddressMode::ABSX) => Some(0xBD),
        (Inst::LDA, AddressMode::ABSY) => Some(0xB9),
        (Inst::LDA, AddressMode::INDX) => Some(0xA1),
        (Inst::LDA, AddressMode::INDY) => Some(0xB1),
        (Inst::LDX, AddressMode::IMM) => Some(0xA2),
        (Inst::LDX, AddressMode::ZPG) => Some(0xA6),
        (Inst::LDX, AddressMode::ZPGY) => Some(0xB6),
        (Inst::LDX, AddressMode::ABS) => Some(0xAE),
        (Inst::LDX, AddressMode::ABSY) => Some(0xBE),
        (Inst::LDY, AddressMode::IMM) => Some(0xA0),
        (Inst::LDY, AddressMode::ZPG) => Some(0xA4),
        (Inst::LDY, AddressMode::ZPGX) => Some(0xB4),
        (Inst::LDY, AddressMode::ABS) => Some(0xAC),
        (Inst::LDY, AddressMode::ABSX) => Some(0xBC),
        (Inst::LSR, AddressMode::ACC) => Some(0x4A),
        (Inst::LSR, AddressMode::ZPG) => Some(0x46),
        (Inst::LSR, AddressMode::ZPGX) => Some(0x56),
        (Inst::LSR, AddressMode::ABS) => Some(0x4E),
        (Inst::LSR, AddressMode::ABSX) => Some(0x5E),
        (Inst::NOP, AddressMode::IMPL) => Some(0xEA),
        (Inst::ORA, AddressMode::IMM) => Some(0x09),
        (Inst::ORA, AddressMode::ZPG) => Some(0x05),
        (Inst::ORA, AddressMode::ZPGX) => Some(0x15),
        (Inst::ORA, AddressMode::ABS) => Some(0x0D),
        (Inst::ORA, AddressMode::ABSX) => Some(0x1D),
        (Inst::ORA, AddressMode::ABSY) => Some(0x19),
        (Inst::ORA, AddressMode::INDX) => Some(0x01),
        (Inst::ORA, AddressMode::INDY) => Some(0x11),
        (Inst::PHA, AddressMode::IMPL) => Some(0x48),
        (Inst::PHP, AddressMode::IMPL) => Some(0x08),
        (Inst::PLA, AddressMode::IMPL) => Some(0x68),
        (Inst::PLP, AddressMode::IMPL) => Some(0x28),
        (Inst::ROL, AddressMode::ACC) => Some(0x2A),
        (Inst::ROL, AddressMode::ZPG) => Some(0x26),
        (Inst::ROL, AddressMode::ZPGX) => Some(0x36),
        (Inst::ROL, AddressMode::ABS) => Some(0x2E),
        (Inst::ROL, AddressMode::ABSX) => Some(0x3E),
        (Inst::ROR, AddressMode::ACC) => Some(0x6A),
        (Inst::ROR, AddressMode::ZPG) => Some(0x66),
        (Inst::ROR, AddressMode::ZPGX) => Some(0x76),
        (Inst::ROR, AddressMode::ABS) => Some(0x6E),
        (Inst::ROR, AddressMode::ABSX) => Some(0x7E),
        (Inst::RTI, AddressMode::IMPL) => Some(0x40),
        (Inst::RTS, AddressMode::IMPL) => Some(0x60),
        (Inst::SBC, AddressMode::IMM) => Some(0xE9),
        (Inst::SBC, AddressMode::ZPG) => Some(0xE5),
        (Inst::SBC, AddressMode::ZPGX) => Some(0xF5),
        (Inst::SBC, AddressMode::ABS) => Some(0xED),
        (Inst::SBC, AddressMode::ABSX) => Some(0xFD),
        (Inst::SBC, AddressMode::ABSY) => Some(0xF9),
        (Inst::SBC, AddressMode::INDX) => Some(0xE1),
        (Inst::SBC, AddressMode::INDY) => Some(0xF1),
        (Inst::SEC, AddressMode::IMPL) => Some(0x38),
        (Inst::SED, AddressMode::IMPL) => Some(0xF8),
        (Inst::SEI, AddressMode::IMPL) => Some(0x78),
        (Inst::STA, AddressMode::ZPG) => Some(0x85),
        (Inst::STA, AddressMode::ZPGX) => Some(0x95),
        (Inst::STA, AddressMode::ABS) => Some(0x8D),
        (Inst::STA, AddressMode::ABSX) => Some(0x9D),
        (Inst::STA, AddressMode::ABSY) => Some(0x99),
        (Inst::STA, AddressMode::INDX) => Some(0x81),
        (Inst::STA, AddressMode::INDY) => Some(0x91),
        (Inst::STX, AddressMode::ZPG) => Some(0x86),
        (Inst::STX, AddressMode::ZPGY) => Some(0x96),
        (Inst::STX, AddressMode::ABS) => Some(0x8E),
        (Inst::STY, AddressMode::ZPG) => Some(0x84),
        (Inst::STY, AddressMode::ZPGY) => Some(0x94),
        (Inst::STY, AddressMode::ABS) => Some(0x8C),
        (Inst::TAX, AddressMode::IMPL) => Some(0xAA),
        (Inst::TAY, AddressMode::IMPL) => Some(0xA8),
        (Inst::TSX, AddressMode::IMPL) => Some(0xBA),
        (Inst::TXA, AddressMode::IMPL) => Some(0x8A),
        (Inst::TXS, AddressMode::IMPL) => Some(0x9A),
        (Inst::TYA, AddressMode::IMPL) => Some(0x98),
        _ => None,
    }
}

/// The number of opcode bytes below `n` that the table defines.
pub open spec fn defined_below(n: nat) -> nat
    decreases n,
{
    if n == 0 {
        0
    } else {
        defined_below((n - 1) as nat) + if opc_entry((n - 1) as u8) is Some {
            1nat
        } else {
            0nat
        }
    }
}

/// Whether `t` is the opcode table: one slot per opcode byte, each holding
/// that byte's decoding.
pub open spec fn is_opc_table(t: Seq<Option<OpMode>>) -> bool {
    &&& t.len() == 256
    &&& forall|b: u8| t[b as int] == opc_entry(b)
}

/// Decode a single opcode byte against the frozen table.
pub fn opcode_lookup(b: u8) -> (r: Option<OpMode>)
    ensures
        r == opc_entry(b),
{
    match b {
        0x69 => Some(OpMode(Inst::ADC, AddressMode::IMM, 2)),
        0x65 => Some(OpMode(Inst::ADC, AddressMode::ZPG, 3)),
        0x75 => Some(OpMode(Inst::ADC, AddressMode::ZPGX, 4)),
        0x6D => Some(OpMode(Inst::ADC, AddressMode::ABS, 4)),
        0x7D => Some(OpMode(Inst::ADC, AddressMode::ABSX, 4)),
        0x79 => Some(OpMode(Inst::ADC, AddressMode::ABSY, 4)),
        0x61 => Some(OpMode(Inst::ADC, AddressMode::INDX, 6)),
        0x71 => Some(OpMode(Inst::ADC, AddressMode::INDY, 5)),
        0x29 => Some(OpMode(Inst::AND, AddressMode::IMM, 2)),
        0x25 => Some(OpMode(Inst::AND, AddressMode::ZPG, 3)),
        0x35 => Some(OpMode(Inst::AND, AddressMode::ZPGX, 4)),
        0x2D => Some(OpMode(Inst::AND, AddressMode::ABS, 4)),
        0x3D => Some(OpMode(Inst::AND, AddressMode::ABSX, 4)),
        0x39 => Some(OpMode(Inst::AND, AddressMode::ABSY, 4)),
        0x21 => Some(OpMode(Inst::AND, AddressMode::INDX, 6)),
        0x31 => Some(OpMode(Inst::AND, AddressMode::INDY, 5)),
        0x0A => Some(OpMode(Inst::ASL, AddressMode::ACC, 2)),
        0x06 => Some(OpMode(Inst::ASL, AddressMode::ZPG, 5)),
        0x16 => Some(OpMode(Inst::ASL, AddressMode::ZPGX, 6)),
        0x0E => Some(OpMode(Inst::ASL, AddressMode::ABS, 6)),
        0x1E => Some(OpMode(Inst::ASL, AddressMode::ABSX, 7)),
        0x90 => Some(OpMode(Inst::BCC, AddressMode::REL, 2)),
        0xB0 => Some(OpMode(Inst::BCS, AddressMode::REL, 2)),
        0xF0 => Some(OpMode(Inst::BEQ, AddressMode::REL, 2)),
        0x24 => Some(OpMode(Inst::BIT, AddressMode::ZPG, 3)),
        0x2C => Some(OpMode(Inst::BIT, AddressMode::ABS, 3)),
        0x30 => Some(OpMode(Inst::BMI, AddressMode::REL, 2)),
        0xD0 => Some(OpMode(Inst::BNE, AddressMode::REL, 2)),
        0x10 => Some(OpMode(Inst::BPL, AddressMode::REL, 2)),
        0x00 => Some(OpMode(Inst::BRK, AddressMode::IMPL, 7)),
        0x50 => Some(OpMode(Inst::BVC, AddressMode::REL, 2)),
        0x70 => Some(OpMode(Inst::BVS, AddressMode::REL, 2)),
        0x18 => Some(OpMode(Inst::CLC, AddressMode::IMPL, 2)),
        0xD8 => Some(OpMode(Inst::CLD, AddressMode::IMPL, 2)),
        0x58 => Some(OpMode(Inst::CLI, AddressMode::IMPL, 2)),
        0xB8 => Some(OpMode(Inst::CLV, AddressMode::IMPL, 2)),
        0xC9 => Some(OpMode(Inst::CMP, AddressMode::IMM, 2)),
        0xC5 => Some(OpMode(Inst::CMP, AddressMode::ZPG, 3)),
        0xD5 => Some(OpMode(Inst::CMP, AddressMode::ZPGX, 4)),
        0xCD => Some(OpMode(Inst::CMP, AddressMode::ABS, 4)),
        0xDD => Some(OpMode(Inst::CMP, AddressMode::ABSX, 4)),
        0xD9 => Some(OpMode(Inst::CMP, AddressMode::ABSY, 4)),
        0xC1 => Some(OpMode(Inst::CMP, AddressMode::INDX, 6)),
        0xD1 => Some(OpMode(Inst::CMP, AddressMode::INDY, 5)),
        0xE0 => Some(OpMode(Inst::CPX, AddressMode::IMM, 2)),
        0xE4 => Some(OpMode(Inst::CPX, AddressMode::ZPG, 3)),
        0xEC => Some(OpMode(Inst::CPX, AddressMode::ABS, 4)),
        0xC0 => Some(OpMode(Inst::CPY, AddressMode::IMM, 2)),
        0xC4 => Some(OpMode(Inst::CPY, AddressMode::ZPG, 3)),
        0xCC => Some(OpMode(Inst::CPY, AddressMode::ABS, 4)),
        0xC6 => Some(OpMode(Inst::DEC, AddressMode::ZPG, 5)),
        0xD6 => Some(OpMode(Inst::DEC, AddressMode::ZPGX, 6)),
        0xCE => Some(OpMode(Inst::DEC, AddressMode::ABS, 6)),
        0xDE => Some(OpMode(Inst::DEC, AddressMode::ABSX, 7)),
        0xCA => Some(OpMode(Inst::DEX, AddressMode::IMPL, 2)),
        0x88 => Some(OpMode(Inst::DEY, AddressMode::IMPL, 2)),
        0x49 => Some(OpMode(Inst::EOR, AddressMode::IMM, 2)),
        0x45 => Some(OpMode(Inst::EOR, AddressMode::ZPG, 3)),
        0x55 => Some(OpMode(Inst::EOR, AddressMode::ZPGX, 4)),
        0x4D => Some(OpMode(Inst::EOR, AddressMode::ABS, 4)),
        0x5D => Some(OpMode(Inst::EOR, AddressMode::ABSX, 4)),
        0x59 => Some(OpMode(Inst::EOR, AddressMode::ABSY, 4)),
        0x41 => Some(OpMode(Inst::EOR, AddressMode::INDX, 6)),
        0x51 => Some(OpMode(Inst::EOR, AddressMode::INDY, 5)),
        0xE6 => Some(OpMode(Inst::INC, AddressMode::ZPG, 5)),
        0xF6 => Some(OpMode(Inst::INC, AddressMode::ZPGX, 6)),
        0xEE => Some(OpMode(Inst::INC, AddressMode::ABS, 6)),
        0xFE => Some(OpMode(Inst::INC, AddressMode::ABSX, 7)),
        0xE8 => Some(OpMode(Inst::INX, AddressMode::IMPL, 2)),
        0xC8 => Some(OpMode(Inst::INY, AddressMode::IMPL, 2)),
        0x4C => Some(OpMode(Inst::JMP, AddressMode::ABS, 3)),
        0x6C => Some(OpMode(Inst::JMP, AddressMode::IND, 5)),
        0x20 => Some(OpMode(Inst::JSR, AddressMode::ABS, 6)),
        0xA9 => Some(OpMode(Inst::LDA, AddressMode::IMM, 2)),
        0xA5 => Some(OpMode(Inst::LDA, AddressMode::ZPG, 3)),
        0xB5 => Some(OpMode(Inst::LDA, AddressMode::ZPGX, 6)),
        0xAD => Some(OpMode(Inst::LDA, AddressMode::ABS, 6)),
        0xBD => Some(OpMode(Inst::LDA, AddressMode::ABSX, 6)),
        0xB9 => Some(OpMode(Inst::LDA, AddressMode::ABSY, 6)),
        0xA1 => Some(OpMode(Inst::LDA, AddressMode::INDX, 6)),
        0xB1 => Some(OpMode(Inst::LDA, AddressMode::INDY, 6)),
        0xA2 => Some(OpMode(Inst::LDX, AddressMode::IMM, 2)),
        0xA6 => Some(OpMode(Inst::LDX, AddressMode::ZPG, 3)),
        0xB6 => Some(OpMode(Inst::LDX, AddressMode::ZPGY, 4)),
        0xAE => Some(OpMode(Inst::LDX, AddressMode::ABS, 4)),
        0xBE => Some(OpMode(Inst::LDX, AddressMode::ABSY, 4)),
        0xA0 => Some(OpMode(Inst::LDY, AddressMode::IMM, 2)),
        0xA4 => Some(OpMode(Inst::LDY, AddressMode::ZPG, 3)),
        0xB4 => Some(OpMode(Inst::LDY, AddressMode::ZPGX, 4)),
        0xAC => Some(OpMode(Inst::LDY, AddressMode::ABS, 4)),
        0xBC => Some(OpMode(Inst::LDY, AddressMode::ABSX, 4)),
        0x4A => Some(OpMode(Inst::LSR, AddressMode::ACC, 2)),
        0x46 => Some(OpMode(Inst::LSR, AddressMode::ZPG, 5)),
        0x56 => Some(OpMode(Inst::LSR, AddressMode::ZPGX, 6)),
        0x4E => Some(OpMode(Inst::LSR, AddressMode::ABS, 6)),
        0x5E => Some(OpMode(Inst::LSR, AddressMode::ABSX, 7)),
        0xEA => Some(OpMode(Inst::NOP, AddressMode::IMPL, 2)),
        0x09 => Some(OpMode(Inst::ORA, AddressMode::IMM, 2)),
        0x05 => Some(OpMode(Inst::ORA, AddressMode::ZPG, 3)),
        0x15 => Some(OpMode(Inst::ORA, AddressMode::ZPGX, 4)),
        0x0D => Some(OpMode(Inst::ORA, AddressMode::ABS, 4)),
        0x1D => Some(OpMode(Inst::ORA, AddressMode::ABSX, 4)),
        0x19 => Some(OpMode(Inst::ORA, AddressMode::ABSY, 4)),
        0x01 => Some(OpMode(Inst::ORA, AddressMode::INDX, 6)),
        0x11 => Some(OpMode(Inst::ORA, AddressMode::INDY, 5)),
        0x48 => Some(OpMode(Inst::PHA, AddressMode::IMPL, 3)),
        0x08 => Some(OpMode(Inst::PHP, AddressMode::IMPL, 3)),
        0x68 => Some(OpMode(Inst::PLA, AddressMode::IMPL, 3)),
        0x28 => Some(OpMode(Inst::PLP, AddressMode::IMPL, 3)),
        0x2A => Some(OpMode(Inst::ROL, AddressMode::ACC, 2)),
        0x26 => Some(OpMode(Inst::ROL, AddressMode::ZPG, 5)),
        0x36 => Some(OpMode(Inst::ROL, AddressMode::ZPGX, 6)),
        0x2E => Some(OpMode(Inst::ROL, AddressMode::ABS, 6)),
        0x3E => Some(OpMode(Inst::ROL, AddressMode::ABSX, 7)),
        0x6A => Some(OpMode(Inst::ROR, AddressMode::ACC, 2)),
        0x66 => Some(OpMode(Inst::ROR, AddressMode::ZPG, 5)),
        0x76 => Some(OpMode(Inst::ROR, AddressMode::ZPGX, 6)),
        0x6E => Some(OpMode(Inst::ROR, AddressMode::ABS, 6)),
        0x7E => Some(OpMode(Inst::ROR, AddressMode::ABSX, 7)),
        0x40 => Some(OpMode(Inst::RTI, AddressMode::IMPL, 6)),
        0x60 => Some(OpMode(Inst::RTS, AddressMode::IMPL, 6)),
        0xE9 => Some(OpMode(Inst::SBC, AddressMode::IMM, 2)),
        0xE5 => Some(OpMode(Inst::SBC, AddressMode::ZPG, 3)),
        0xF5 => Some(OpMode(Inst::SBC, AddressMode::ZPGX, 4)),
        0xED => Some(OpMode(Inst::SBC, AddressMode::ABS, 4)),
        0xFD => Some(OpMode(Inst::SBC, AddressMode::ABSX, 4)),
        0xF9 => Some(OpMode(Inst::SBC, AddressMode::ABSY, 4)),
        0xE1 => Some(OpMode(Inst::SBC, AddressMode::INDX, 6)),
        0xF1 => Some(OpMode(Inst::SBC, AddressMode::INDY, 5)),
        0x38 => Some(OpMode(Inst::SEC, AddressMode::IMPL, 2)),
        0xF8 => Some(OpMode(Inst::SED, AddressMode::IMPL, 2)),
        0x78 => Some(OpMode(Inst::SEI, AddressMode::IMPL, 2)),
        0x85 => Some(OpMode(Inst::STA, AddressMode::ZPG, 3)),
        0x95 => Some(OpMode(Inst::STA, AddressMode::ZPGX, 4)),
        0x8D => Some(OpMode(Inst::STA, AddressMode::ABS, 4)),
        0x9D => Some(OpMode(Inst::STA, AddressMode::ABSX, 5)),
        0x99 => Some(OpMode(Inst::STA, AddressMode::ABSY, 5)),
        0x81 => Some(OpMode(Inst::STA, AddressMode::INDX, 6)),
        0x91 => Some(OpMode(Inst::STA, AddressMode::INDY, 6)),
        0x86 => Some(OpMode(Inst::STX, AddressMode::ZPG, 3)),
        0x96 => Some(OpMode(Inst::STX, AddressMode::ZPGY, 4)),
        0x8E => Some(OpMode(Inst::STX, AddressMode::ABS, 4)),
        0x84 => Some(OpMode(Inst::STY, AddressMode::ZPG, 3)),
        0x94 => Some(OpMode(Inst::STY, AddressMode::ZPGY, 4)),
        0x8C => Some(OpMode(Inst::STY, AddressMode::ABS, 4)),
        0xAA => Some(OpMode(Inst::TAX, AddressMode::IMPL, 2)),
        0xA8 => Some(OpMode(Inst::TAY, AddressMode::IMPL, 2)),
        0xBA => Some(OpMode(Inst::TSX, AddressMode::IMPL, 2)),
        0x8A => Some(OpMode(Inst::TXA, AddressMode::IMPL, 2)),
        0x9A => Some(OpMode(Inst::TXS, AddressMode::IMPL, 2)),
        0x98 => Some(OpMode(Inst::TYA, AddressMode::IMPL, 2)),
        _ => None,
    }
}

/// Build the opcode table as a 256-slot array of optional entries, one per
/// opcode byte.
pub fn init_opc_array() -> (r: Vec<Option<OpMode>>)
    ensures
        is_opc_table(r@),
{
    let mut arr: Vec<Option<OpMode>> = Vec::new();
    let mut i: usize = 0;
    while i < 256
        invariant
            i <= 256,
            arr@.len() == i,
            forall|j: int| 0 <= j < i ==> arr@[j] == opc_entry(j as u8),
        decreases 256 - i,
    {
        arr.push(opcode_lookup(i as u8));
        i = i + 1;
    }
    proof {
        assert(forall|b: u8| arr@[b as int] == opc_entry(b));
    }
    arr
}

} // verus!

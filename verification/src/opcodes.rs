//! The instruction set: mnemonics, addressing modes and their byte encoding.

use vstd::prelude::*;

verus! {

/// How an instruction finds its operand.
#[allow(non_camel_case_types)]
#[derive(Debug, Clone, Copy, PartialEq, Eq, Structural)]
pub enum AddressingMode {
    /// The operand is the accumulator itself.
    ACCUMULATOR,
    /// The operand is the byte that follows the opcode.
    IMMEDIATE,
    /// One operand byte names a cell of page zero.
    ZERO_PAGE,
    /// Page zero, indexed by X within the page.
    ZERO_PAGE_X,
    /// Page zero, indexed by Y within the page.
    ZERO_PAGE_Y,
    /// Two operand bytes name a cell, low byte first.
    ABSOLUTE,
    /// Absolute, indexed by X.
    ABSOLUTE_X,
    /// Absolute, indexed by Y.
    ABSOLUTE_Y,
    /// Two operand bytes name the cell that holds the target's low byte.
    INDIRECT,
    /// The operand byte plus X names a pointer in page zero.
    INDIRECT_X,
    /// The operand byte names a pointer in page zero, to which Y is added.
    INDIRECT_Y,
}

impl AddressingMode {
    /// The number of operand bytes that follow the opcode byte.
    pub open spec fn operand_len(self) -> nat {
        match self {
            AddressingMode::ACCUMULATOR => 0,
            AddressingMode::ABSOLUTE
            | AddressingMode::ABSOLUTE_X
            | AddressingMode::ABSOLUTE_Y
            | AddressingMode::INDIRECT => 2,
            _ => 1,
        }
    }

    /// By how much the program counter moves over the operand.
    pub fn get_counter_increment(&self) -> (n: u16)
        ensures
            n == self.operand_len(),
    {
        match *self {
            AddressingMode::ACCUMULATOR => 0,
            AddressingMode::IMMEDIATE => 1,
            AddressingMode::ZERO_PAGE => 1,
            AddressingMode::ZERO_PAGE_X => 1,
            AddressingMode::ZERO_PAGE_Y => 1,
            AddressingMode::ABSOLUTE => 2,
            AddressingMode::ABSOLUTE_X => 2,
            AddressingMode::ABSOLUTE_Y => 2,
            AddressingMode::INDIRECT => 2,
            AddressingMode::INDIRECT_X => 1,
            AddressingMode::INDIRECT_Y => 1,
        }
    }
}

/// A decoded instruction: the mnemonic and, where it takes an operand, the
/// addressing mode.
#[derive(Debug, Clone, Copy, PartialEq, Eq, Structural)]
pub enum Opcodes {
    /// Add memory to the accumulator with carry.
    ADC(AddressingMode),
    /// Bitwise AND of memory with the accumulator.
    AND(AddressingMode),
    /// Arithmetic shift left.
    ASL(AddressingMode),
    /// Branch if carry is clear.
    BCC,
    /// Branch if carry is set.
    BCS,
    /// Branch if zero is set.
    BEQ,
    /// Test bits of memory against the accumulator.
    BIT(AddressingMode),
    /// Branch if negative is set.
    BMI,
    /// Branch if zero is clear.
    BNE,
    /// Branch if negative is clear.
    BPL,
    /// Halt execution.
    BRK,
    /// Branch if overflow is clear.
    BVC,
    /// Branch if overflow is set.
    BVS,
    /// Clear carry.
    CLC,
    /// Clear decimal mode.
    CLD,
    /// Clear interrupt disable.
    CLI,
    /// Clear overflow.
    CLV,
    /// Compare memory with the accumulator.
    CMP(AddressingMode),
    /// Compare memory with X.
    CPX(AddressingMode),
    /// Compare memory with Y.
    CPY(AddressingMode),
    /// Decrement memory.
    DEC(AddressingMode),
    /// Decrement X.
    DEX,
    /// Decrement Y.
    DEY,
    /// Bitwise exclusive OR of memory with the accumulator.
    EOR(AddressingMode),
    /// Increment memory.
    INC(AddressingMode),
    /// Increment X.
    INX,
    /// Increment Y.
    INY,
    /// Jump.
    JMP(AddressingMode),
    /// Jump to subroutine.
    JSR(AddressingMode),
    /// Load the accumulator.
    LDA(AddressingMode),
    /// Load X.
    LDX(AddressingMode),
    /// Load Y.
    LDY(AddressingMode),
    /// Logical shift right.
    LSR(AddressingMode),
    /// No operation.
    NOP,
    /// Bitwise OR of memory with the accumulator.
    ORA(AddressingMode),
    /// Push the accumulator.
    PHA,
    /// Push the status byte.
    PHP,
    /// Pull the accumulator.
    PLA,
    /// Pull the status byte.
    PLP,
    /// Rotate left through carry.
    ROL(AddressingMode),
    /// Rotate right through carry.
    ROR(AddressingMode),
    /// Return from interrupt.
    RTI,
    /// Return from subroutine.
    RTS,
    /// Subtract memory from the accumulator with borrow.
    SBC(AddressingMode),
    /// Set carry.
    SEC,
    /// Set decimal mode.
    SED,
    /// Set interrupt disable.
    SEI,
    /// Store the accumulator.
    STA(AddressingMode),
    /// Store X.
    STX(AddressingMode),
    /// Store Y.
    STY(AddressingMode),
    /// Transfer the accumulator to X.
    TAX,
    /// Transfer the accumulator to Y.
    TAY,
    /// Transfer the stack pointer to X.
    TSX,
    /// Transfer X to the accumulator.
    TXA,
    /// Transfer X to the stack pointer.
    TXS,
    /// Transfer Y to the accumulator.
    TYA,
}

impl Opcodes {
    /// The byte that encodes this instruction, if the processor has the
    /// combination of mnemonic and addressing mode.
    pub open spec fn encoding(self) -> Option<u8> {
        match self {
            Opcodes::ADC(mode) => match mode {
                AddressingMode::IMMEDIATE => Some(0x69u8),
                AddressingMode::ZERO_PAGE => Some(0x65u8),
                AddressingMode::ZERO_PAGE_X => Some(0x75u8),
                AddressingMode::ABSOLUTE => Some(0x6Du8),
                AddressingMode::ABSOLUTE_X => Some(0x7Du8),
                AddressingMode::ABSOLUTE_Y => Some(0x79u8),
                AddressingMode::INDIRECT_X => Some(0x61u8),
                AddressingMode::INDIRECT_Y => Some(0x71u8),
                _ => None,
            },
            Opcodes::AND(mode) => match mode {
                AddressingMode::IMMEDIATE => Some(0x29u8),
                AddressingMode::ZERO_PAGE => Some(0x25u8),
                AddressingMode::ZERO_PAGE_X => Some(0x35u8),
                AddressingMode::ABSOLUTE => Some(0x2Du8),
                AddressingMode::ABSOLUTE_X => Some(0x3Du8),
                AddressingMode::ABSOLUTE_Y => Some(0x39u8),
                AddressingMode::INDIRECT_X => Some(0x21u8),
                AddressingMode::INDIRECT_Y => Some(0x31u8),
                _ => None,
            },
            Opcodes::ASL(mode) => match mode {
                AddressingMode::ACCUMULATOR => Some(0x0Au8),
                AddressingMode::ZERO_PAGE => Some(0x06u8),
                AddressingMode::ZERO_PAGE_X => Some(0x16u8),
                AddressingMode::ABSOLUTE => Some(0x0Eu8),
                AddressingMode::ABSOLUTE_X => Some(0x1Eu8),
                _ => None,
            },
            Opcodes::BCC => Some(0x90u8),
            Opcodes::BCS => Some(0xB0u8),
            Opcodes::BEQ => Some(0xF0u8),
            Opcodes::BIT(mode) => match mode {
                AddressingMode::ZERO_PAGE => Some(0x24u8),
                AddressingMode::ABSOLUTE => Some(0x2Cu8),
                _ => None,
            },
            Opcodes::BMI => Some(0x30u8),
            Opcodes::BNE => Some(0xD0u8),
            Opcodes::BPL => Some(0x10u8),
            Opcodes::BRK => Some(0x00u8),
            Opcodes::BVC => Some(0x50u8),
            Opcodes::BVS => Some(0x70u8),
            Opcodes::CLC => Some(0x18u8),
            Opcodes::CLD => Some(0xD8u8),
            Opcodes::CLI => Some(0x58u8),
            Opcodes::CLV => Some(0xB8u8),
            Opcodes::CMP(mode) => match mode {
                AddressingMode::IMMEDIATE => Some(0xC9u8),
                AddressingMode::ZERO_PAGE => Some(0xC5u8),
                AddressingMode::ZERO_PAGE_X => Some(0xD5u8),
                AddressingMode::ABSOLUTE => Some(0xCDu8),
                AddressingMode::ABSOLUTE_X => Some(0xDDu8),
                AddressingMode::ABSOLUTE_Y => Some(0xD9u8),
                AddressingMode::INDIRECT_X => Some(0xC1u8),
                AddressingMode::INDIRECT_Y => Some(0xD1u8),
                _ => None,
            },
            Opcodes::CPX(mode) => match mode {
                AddressingMode::IMMEDIATE => Some(0xE0u8),
                AddressingMode::ZERO_PAGE => Some(0xE4u8),
                AddressingMode::ABSOLUTE => Some(0xECu8),
                _ => None,
            },
            Opcodes::CPY(mode) => match mode {
                AddressingMode::IMMEDIATE => Some(0xC0u8),
                AddressingMode::ZERO_PAGE => Some(0xC4u8),
                AddressingMode::ABSOLUTE => Some(0xCCu8),
                _ => None,
            },
            Opcodes::DEC(mode) => match mode {
                AddressingMode::ZERO_PAGE => Some(0xC6u8),
                AddressingMode::ZERO_PAGE_X => Some(0xD6u8),
                AddressingMode::ABSOLUTE => Some(0xCEu8),
                AddressingMode::ABSOLUTE_X => Some(0xDEu8),
                _ => None,
            },
            Opcodes::DEX => Some(0xCAu8),
            Opcodes::DEY => Some(0x88u8),
            Opcodes::EOR(mode) => match mode {
                AddressingMode::IMMEDIATE => Some(0x49u8),
                AddressingMode::ZERO_PAGE => Some(0x45u8),
                AddressingMode::ZERO_PAGE_X => Some(0x55u8),
                AddressingMode::ABSOLUTE => Some(0x4Du8),
                AddressingMode::ABSOLUTE_X => Some(0x5Du8),
                AddressingMode::ABSOLUTE_Y => Some(0x59u8),
                AddressingMode::INDIRECT_X => Some(0x41u8),
                AddressingMode::INDIRECT_Y => Some(0x51u8),
                _ => None,
            },
            Opcodes::INC(mode) => match mode {
                AddressingMode::ZERO_PAGE => Some(0xE6u8),
                AddressingMode::ZERO_PAGE_X => Some(0xF6u8),
                AddressingMode::ABSOLUTE => Some(0xEEu8),
                AddressingMode::ABSOLUTE_X => Some(0xFEu8),
                _ => None,
            },
            Opcodes::INX => Some(0xE8u8),
            Opcodes::INY => Some(0xC8u8),
            Opcodes::JMP(mode) => match mode {
                AddressingMode::ABSOLUTE => Some(0x4Cu8),
                AddressingMode::INDIRECT => Some(0x6Cu8),
                _ => None,
            },
            Opcodes::JSR(mode) => match mode {
                AddressingMode::ABSOLUTE => Some(0x20u8),
                _ => None,
            },
            Opcodes::LDA(mode) => match mode {
                AddressingMode::IMMEDIATE => Some(0xA9u8),
                AddressingMode::ZERO_PAGE => Some(0xA5u8),
                AddressingMode::ZERO_PAGE_X => Some(0xB5u8),
                AddressingMode::ABSOLUTE => Some(0xADu8),
                AddressingMode::ABSOLUTE_X => Some(0xBDu8),
                AddressingMode::ABSOLUTE_Y => Some(0xB9u8),
                AddressingMode::INDIRECT_X => Some(0xA1u8),
                AddressingMode::INDIRECT_Y => Some(0xB1u8),
                _ => None,
            },
            Opcodes::LDX(mode) => match mode {
                AddressingMode::IMMEDIATE => Some(0xA2u8),
                AddressingMode::ZERO_PAGE => Some(0xA6u8),
                AddressingMode::ZERO_PAGE_Y => Some(0xB6u8),
                AddressingMode::ABSOLUTE => Some(0xAEu8),
                AddressingMode::ABSOLUTE_Y => Some(0xBEu8),
                _ => None,
            },
            Opcodes::LDY(mode) => match mode {
                AddressingMode::IMMEDIATE => Some(0xA0u8),
                AddressingMode::ZERO_PAGE => Some(0xA4u8),
                AddressingMode::ZERO_PAGE_X => Some(0xB4u8),
                AddressingMode::ABSOLUTE => Some(0xACu8),
                AddressingMode::ABSOLUTE_X => Some(0xBCu8),
                _ => None,
            },
            Opcodes::LSR(mode) => match mode {
                AddressingMode::ACCUMULATOR => Some(0x4Au8),
                AddressingMode::ZERO_PAGE => Some(0x46u8),
                AddressingMode::ZERO_PAGE_X => Some(0x56u8),
                AddressingMode::ABSOLUTE => Some(0x4Eu8),
                AddressingMode::ABSOLUTE_X => Some(0x5Eu8),
                _ => None,
            },
            Opcodes::NOP => Some(0xEAu8),
            Opcodes::ORA(mode) => match mode {
                AddressingMode::IMMEDIATE => Some(0x09u8),
                AddressingMode::ZERO_PAGE => Some(0x05u8),
                AddressingMode::ZERO_PAGE_X => Some(0x15u8),
                AddressingMode::ABSOLUTE => Some(0x0Du8),
                AddressingMode::ABSOLUTE_X => Some(0x1Du8),
                AddressingMode::ABSOLUTE_Y => Some(0x19u8),
                AddressingMode::INDIRECT_X => Some(0x01u8),
                AddressingMode::INDIRECT_Y => Some(0x11u8),
                _ => None,
            },
            Opcodes::PHA => Some(0x48u8),
            Opcodes::PHP => Some(0x08u8),
            Opcodes::PLA => Some(0x68u8),
            Opcodes::PLP => Some(0x28u8),
            Opcodes::ROL(mode) => match mode {
                AddressingMode::ACCUMULATOR => Some(0x2Au8),
                AddressingMode::ZERO_PAGE => Some(0x26u8),
                AddressingMode::ZERO_PAGE_X => Some(0x36u8),
                AddressingMode::ABSOLUTE => Some(0x2Eu8),
                AddressingMode::ABSOLUTE_X => Some(0x3Eu8),
                _ => None,
            },
            Opcodes::ROR(mode) => match mode {
                AddressingMode::ACCUMULATOR => Some(0x6Au8),
                AddressingMode::ZERO_PAGE => Some(0x66u8),
                AddressingMode::ZERO_PAGE_X => Some(0x76u8),
                AddressingMode::ABSOLUTE => Some(0x6Eu8),
                AddressingMode::ABSOLUTE_X => Some(0x7Eu8),
                _ => None,
            },
            Opcodes::RTI => Some(0x40u8),
            Opcodes::RTS => Some(0x60u8),
            Opcodes::SBC(mode) => match mode {
                AddressingMode::IMMEDIATE => Some(0xE9u8),
                AddressingMode::ZERO_PAGE => Some(0xE5u8),
                AddressingMode::ZERO_PAGE_X => Some(0xF5u8),
                AddressingMode::ABSOLUTE => Some(0xEDu8),
                AddressingMode::ABSOLUTE_X => Some(0xFDu8),
                AddressingMode::ABSOLUTE_Y => Some(0xF9u8),
                AddressingMode::INDIRECT_X => Some(0xE1u8),
                AddressingMode::INDIRECT_Y => Some(0xF1u8),
                _ => None,
            },
            Opcodes::SEC => Some(0x38u8),
            Opcodes::SED => Some(0xF8u8),
            Opcodes::SEI => Some(0x78u8),
            Opcodes::STA(mode) => match mode {
                AddressingMode::ZERO_PAGE => Some(0x85u8),
                AddressingMode::ZERO_PAGE_X => Some(0x95u8),
                AddressingMode::ABSOLUTE => Some(0x8Du8),
                AddressingMode::ABSOLUTE_X => Some(0x9Du8),
                AddressingMode::ABSOLUTE_Y => Some(0x99u8),
                AddressingMode::INDIRECT_X => Some(0x81u8),
                AddressingMode::INDIRECT_Y => Some(0x91u8),
                _ => None,
            },
            Opcodes::STX(mode) => match mode {
                AddressingMode::ZERO_PAGE => Some(0x86u8),
                AddressingMode::ZERO_PAGE_Y => Some(0x96u8),
                AddressingMode::ABSOLUTE => Some(0x8Eu8),
                _ => None,
            },
            Opcodes::STY(mode) => match mode {
                AddressingMode::ZERO_PAGE => Some(0x84u8),
                AddressingMode::ZERO_PAGE_X => Some(0x94u8),
                AddressingMode::ABSOLUTE => Some(0x8Cu8),
                _ => None,
            },
            Opcodes::TAX => Some(0xAAu8),
            Opcodes::TAY => Some(0xA8u8),
            Opcodes::TSX => Some(0xBAu8),
            Opcodes::TXA => Some(0x8Au8),
            Opcodes::TXS => Some(0x9Au8),
            Opcodes::TYA => Some(0x98u8),
        }
    }

    /// Whether the operand, where the instruction has one, can be resolved:
    /// only a shift, a rotate, an increment or a decrement may name the
    /// accumulator as its operand.
    pub open spec fn has_resolvable_operand(self) -> bool {
        match self {
            Opcodes::ADC(mode)
            | Opcodes::AND(mode)
            | Opcodes::BIT(mode)
            | Opcodes::CMP(mode)
            | Opcodes::CPX(mode)
            | Opcodes::CPY(mode)
            | Opcodes::EOR(mode)
            | Opcodes::LDA(mode)
            | Opcodes::LDX(mode)
            | Opcodes::LDY(mode)
            | Opcodes::ORA(mode)
            | Opcodes::SBC(mode)
            | Opcodes::STA(mode)
            | Opcodes::STX(mode)
            | Opcodes::STY(mode)
            | Opcodes::JMP(mode)
            | Opcodes::JSR(mode) => mode != AddressingMode::ACCUMULATOR,
            _ => true,
        }
    }

    /// Decodes an opcode byte. A byte that encodes no instruction is refused.
    pub fn from_u8(value: u8) -> (r: Result<Opcodes, ()>)
        ensures
            match r {
                Ok(op) => op.encoding() == Some(value),
                Err(_) => forall|op: Opcodes| op.encoding() != Some(value),
            },
            r is Ok ==> r.unwrap().has_resolvable_operand(),
            r == (match decode_spec(value) {
                Some(op) => Ok::<Opcodes, ()>(op),
                None => Err::<Opcodes, ()>(()),
            }),
    {
        let r = match value {
            0x00 => Ok(Opcodes::BRK),
            0x01 => Ok(Opcodes::ORA(AddressingMode::INDIRECT_X)),
            0x05 => Ok(Opcodes::ORA(AddressingMode::ZERO_PAGE)),
            0x06 => Ok(Opcodes::ASL(AddressingMode::ZERO_PAGE)),
            0x08 => Ok(Opcodes::PHP),
            0x09 => Ok(Opcodes::ORA(AddressingMode::IMMEDIATE)),
            0x0A => Ok(Opcodes::ASL(AddressingMode::ACCUMULATOR)),
            0x0D => Ok(Opcodes::ORA(AddressingMode::ABSOLUTE)),
            0x0E => Ok(Opcodes::ASL(AddressingMode::ABSOLUTE)),
            0x10 => Ok(Opcodes::BPL),
            0x11 => Ok(Opcodes::ORA(AddressingMode::INDIRECT_Y)),
            0x15 => Ok(Opcodes::ORA(AddressingMode::ZERO_PAGE_X)),
            0x16 => Ok(Opcodes::ASL(AddressingMode::ZERO_PAGE_X)),
            0x18 => Ok(Opcodes::CLC),
            0x19 => Ok(Opcodes::ORA(AddressingMode::ABSOLUTE_Y)),
            0x1D => Ok(Opcodes::ORA(AddressingMode::ABSOLUTE_X)),
            0x1E => Ok(Opcodes::ASL(AddressingMode::ABSOLUTE_X)),
            0x20 => Ok(Opcodes::JSR(AddressingMode::ABSOLUTE)),
            0x21 => Ok(Opcodes::AND(AddressingMode::INDIRECT_X)),
            0x24 => Ok(Opcodes::BIT(AddressingMode::ZERO_PAGE)),
            0x25 => Ok(Opcodes::AND(AddressingMode::ZERO_PAGE)),
            0x26 => Ok(Opcodes::ROL(AddressingMode::ZERO_PAGE)),
            0x28 => Ok(Opcodes::PLP),
            0x29 => Ok(Opcodes::AND(AddressingMode::IMMEDIATE)),
            0x2A => Ok(Opcodes::ROL(AddressingMode::ACCUMULATOR)),
            0x2C => Ok(Opcodes::BIT(AddressingMode::ABSOLUTE)),
            0x2D => Ok(Opcodes::AND(AddressingMode::ABSOLUTE)),
            0x2E => Ok(Opcodes::ROL(AddressingMode::ABSOLUTE)),
            0x30 => Ok(Opcodes::BMI),
            0x31 => Ok(Opcodes::AND(AddressingMode::INDIRECT_Y)),
            0x35 => Ok(Opcodes::AND(AddressingMode::ZERO_PAGE_X)),
            0x36 => Ok(Opcodes::ROL(AddressingMode::ZERO_PAGE_X)),
            0x38 => Ok(Opcodes::SEC),
            0x39 => Ok(Opcodes::AND(AddressingMode::ABSOLUTE_Y)),
            0x3D => Ok(Opcodes::AND(AddressingMode::ABSOLUTE_X)),
            0x3E => Ok(Opcodes::ROL(AddressingMode::ABSOLUTE_X)),
            0x40 => Ok(Opcodes::RTI),
            0x41 => Ok(Opcodes::EOR(AddressingMode::INDIRECT_X)),
            0x45 => Ok(Opcodes::EOR(AddressingMode::ZERO_PAGE)),
            0x46 => Ok(Opcodes::LSR(AddressingMode::ZERO_PAGE)),
            0x48 => Ok(Opcodes::PHA),
            0x49 => Ok(Opcodes::EOR(AddressingMode::IMMEDIATE)),
            0x4A => Ok(Opcodes::LSR(AddressingMode::ACCUMULATOR)),
            0x4C => Ok(Opcodes::JMP(AddressingMode::ABSOLUTE)),
            0x4D => Ok(Opcodes::EOR(AddressingMode::ABSOLUTE)),
            0x4E => Ok(Opcodes::LSR(AddressingMode::ABSOLUTE)),
            0x50 => Ok(Opcodes::BVC),
            0x51 => Ok(Opcodes::EOR(AddressingMode::INDIRECT_Y)),
            0x55 => Ok(Opcodes::EOR(AddressingMode::ZERO_PAGE_X)),
            0x56 => Ok(Opcodes::LSR(AddressingMode::ZERO_PAGE_X)),
            0x58 => Ok(Opcodes::CLI),
            0x59 => Ok(Opcodes::EOR(AddressingMode::ABSOLUTE_Y)),
            0x5D => Ok(Opcodes::EOR(AddressingMode::ABSOLUTE_X)),
            0x5E => Ok(Opcodes::LSR(AddressingMode::ABSOLUTE_X)),
            0x60 => Ok(Opcodes::RTS),
            0x61 => Ok(Opcodes::ADC(AddressingMode::INDIRECT_X)),
            0x65 => Ok(Opcodes::ADC(AddressingMode::ZERO_PAGE)),
            0x66 => Ok(Opcodes::ROR(AddressingMode::ZERO_PAGE)),
            0x68 => Ok(Opcodes::PLA),
            0x69 => Ok(Opcodes::ADC(AddressingMode::IMMEDIATE)),
            0x6A => Ok(Opcodes::ROR(AddressingMode::ACCUMULATOR)),
            0x6C => Ok(Opcodes::JMP(AddressingMode::INDIRECT)),
            0x6D => Ok(Opcodes::ADC(AddressingMode::ABSOLUTE)),
            0x6E => Ok(Opcodes::ROR(AddressingMode::ABSOLUTE)),
            0x70 => Ok(Opcodes::BVS),
            0x71 => Ok(Opcodes::ADC(AddressingMode::INDIRECT_Y)),
            0x75 => Ok(Opcodes::ADC(AddressingMode::ZERO_PAGE_X)),
            0x76 => Ok(Opcodes::ROR(AddressingMode::ZERO_PAGE_X)),
            0x78 => Ok(Opcodes::SEI),
            0x79 => Ok(Opcodes::ADC(AddressingMode::ABSOLUTE_Y)),
            0x7D => Ok(Opcodes::ADC(AddressingMode::ABSOLUTE_X)),
            0x7E => Ok(Opcodes::ROR(AddressingMode::ABSOLUTE_X)),
            0x81 => Ok(Opcodes::STA(AddressingMode::INDIRECT_X)),
            0x84 => Ok(Opcodes::STY(AddressingMode::ZERO_PAGE)),
            0x85 => Ok(Opcodes::STA(AddressingMode::ZERO_PAGE)),
            0x86 => Ok(Opcodes::STX(AddressingMode::ZERO_PAGE)),
            0x88 => Ok(Opcodes::DEY),
            0x8A => Ok(Opcodes::TXA),
            0x8C => Ok(Opcodes::STY(AddressingMode::ABSOLUTE)),
            0x8D => Ok(Opcodes::STA(AddressingMode::ABSOLUTE)),
            0x8E => Ok(Opcodes::STX(AddressingMode::ABSOLUTE)),
            0x90 => Ok(Opcodes::BCC),
            0x91 => Ok(Opcodes::STA(AddressingMode::INDIRECT_Y)),
            0x94 => Ok(Opcodes::STY(AddressingMode::ZERO_PAGE_X)),
            0x95 => Ok(Opcodes::STA(AddressingMode::ZERO_PAGE_X)),
            0x96 => Ok(Opcodes::STX(AddressingMode::ZERO_PAGE_Y)),
            0x98 => Ok(Opcodes::TYA),
            0x99 => Ok(Opcodes::STA(AddressingMode::ABSOLUTE_Y)),
            0x9A => Ok(Opcodes::TXS),
            0x9D => Ok(Opcodes::STA(AddressingMode::ABSOLUTE_X)),
            0xA0 => Ok(Opcodes::LDY(AddressingMode::IMMEDIATE)),
            0xA1 => Ok(Opcodes::LDA(AddressingMode::INDIRECT_X)),
            0xA2 => Ok(Opcodes::LDX(AddressingMode::IMMEDIATE)),
            0xA4 => Ok(Opcodes::LDY(AddressingMode::ZERO_PAGE)),
            0xA5 => Ok(Opcodes::LDA(AddressingMode::ZERO_PAGE)),
            0xA6 => Ok(Opcodes::LDX(AddressingMode::ZERO_PAGE)),
            0xA8 => Ok(Opcodes::TAY),
            0xA9 => Ok(Opcodes::LDA(AddressingMode::IMMEDIATE)),
            0xAA => Ok(Opcodes::TAX),
            0xAC => Ok(Opcodes::LDY(AddressingMode::ABSOLUTE)),
            0xAD => Ok(Opcodes::LDA(AddressingMode::ABSOLUTE)),
            0xAE => Ok(Opcodes::LDX(AddressingMode::ABSOLUTE)),
            0xB0 => Ok(Opcodes::BCS),
            0xB1 => Ok(Opcodes::LDA(AddressingMode::INDIRECT_Y)),
            0xB4 => Ok(Opcodes::LDY(AddressingMode::ZERO_PAGE_X)),
            0xB5 => Ok(Opcodes::LDA(AddressingMode::ZERO_PAGE_X)),
            0xB6 => Ok(Opcodes::LDX(AddressingMode::ZERO_PAGE_Y)),
            0xB8 => Ok(Opcodes::CLV),
            0xB9 => Ok(Opcodes::LDA(AddressingMode::ABSOLUTE_Y)),
            0xBA => Ok(Opcodes::TSX),
            0xBC => Ok(Opcodes::LDY(AddressingMode::ABSOLUTE_X)),
            0xBD => Ok(Opcodes::LDA(AddressingMode::ABSOLUTE_X)),
            0xBE => Ok(Opcodes::LDX(AddressingMode::ABSOLUTE_Y)),
            0xC0 => Ok(Opcodes::CPY(AddressingMode::IMMEDIATE)),
            0xC1 => Ok(Opcodes::CMP(AddressingMode::INDIRECT_X)),
            0xC4 => Ok(Opcodes::CPY(AddressingMode::ZERO_PAGE)),
            0xC5 => Ok(Opcodes::CMP(AddressingMode::ZERO_PAGE)),
            0xC6 => Ok(Opcodes::DEC(AddressingMode::ZERO_PAGE)),
            0xC8 => Ok(Opcodes::INY),
            0xC9 => Ok(Opcodes::CMP(AddressingMode::IMMEDIATE)),
            0xCA => Ok(Opcodes::DEX),
            0xCC => Ok(Opcodes::CPY(AddressingMode::ABSOLUTE)),
            0xCD => Ok(Opcodes::CMP(AddressingMode::ABSOLUTE)),
            0xCE => Ok(Opcodes::DEC(AddressingMode::ABSOLUTE)),
            0xD0 => Ok(Opcodes::BNE),
            0xD1 => Ok(Opcodes::CMP(AddressingMode::INDIRECT_Y)),
            0xD5 => Ok(Opcodes::CMP(AddressingMode::ZERO_PAGE_X)),
            0xD6 => Ok(Opcodes::DEC(AddressingMode::ZERO_PAGE_X)),
            0xD8 => Ok(Opcodes::CLD),
            0xD9 => Ok(Opcodes::CMP(AddressingMode::ABSOLUTE_Y)),
            0xDD => Ok(Opcodes::CMP(AddressingMode::ABSOLUTE_X)),
            0xDE => Ok(Opcodes::DEC(AddressingMode::ABSOLUTE_X)),
            0xE0 => Ok(Opcodes::CPX(AddressingMode::IMMEDIATE)),
            0xE1 => Ok(Opcodes::SBC(AddressingMode::INDIRECT_X)),
            0xE4 => Ok(Opcodes::CPX(AddressingMode::ZERO_PAGE)),
            0xE5 => Ok(Opcodes::SBC(AddressingMode::ZERO_PAGE)),
            0xE6 => Ok(Opcodes::INC(AddressingMode::ZERO_PAGE)),
            0xE8 => Ok(Opcodes::INX),
            0xE9 => Ok(Opcodes::SBC(AddressingMode::IMMEDIATE)),
            0xEA => Ok(Opcodes::NOP),
            0xEC => Ok(Opcodes::CPX(AddressingMode::ABSOLUTE)),
            0xED => Ok(Opcodes::SBC(AddressingMode::ABSOLUTE)),
            0xEE => Ok(Opcodes::INC(AddressingMode::ABSOLUTE)),
            0xF0 => Ok(Opcodes::BEQ),
            0xF1 => Ok(Opcodes::SBC(AddressingMode::INDIRECT_Y)),
            0xF5 => Ok(Opcodes::SBC(AddressingMode::ZERO_PAGE_X)),
            0xF6 => Ok(Opcodes::INC(AddressingMode::ZERO_PAGE_X)),
            0xF8 => Ok(Opcodes::SED),
            0xF9 => Ok(Opcodes::SBC(AddressingMode::ABSOLUTE_Y)),
            0xFD => Ok(Opcodes::SBC(AddressingMode::ABSOLUTE_X)),
            0xFE => Ok(Opcodes::INC(AddressingMode::ABSOLUTE_X)),
            _ => Err(()),
        };
        r
    }
}

/// The instruction that a byte stands for: the decoding table, one row for
/// each value of the high four bits of the byte.
pub open spec fn decode_spec(value: u8) -> Option<Opcodes> {
    match value / 16 {
        0 => decoding_row_0(value),
        1 => decoding_row_1(value),
        2 => decoding_row_2(value),
        3 => decoding_row_3(value),
        4 => decoding_row_4(value),
        5 => decoding_row_5(value),
        6 => decoding_row_6(value),
        7 => decoding_row_7(value),
        8 => decoding_row_8(value),
        9 => decoding_row_9(value),
        10 => decoding_row_a(value),
        11 => decoding_row_b(value),
        12 => decoding_row_c(value),
        13 => decoding_row_d(value),
        14 => decoding_row_e(value),
        _ => decoding_row_f(value),
    }
}

/// The row of the decoding table for bytes `0x00` to `0x0F`.
pub open spec fn decoding_row_0(value: u8) -> Option<Opcodes> {
    match value {
        0x00u8 => Some(Opcodes::BRK),
        0x01u8 => Some(Opcodes::ORA(AddressingMode::INDIRECT_X)),
        0x05u8 => Some(Opcodes::ORA(AddressingMode::ZERO_PAGE)),
        0x06u8 => Some(Opcodes::ASL(AddressingMode::ZERO_PAGE)),
        0x08u8 => Some(Opcodes::PHP),
        0x09u8 => Some(Opcodes::ORA(AddressingMode::IMMEDIATE)),
        0x0Au8 => Some(Opcodes::ASL(AddressingMode::ACCUMULATOR)),
        0x0Du8 => Some(Opcodes::ORA(AddressingMode::ABSOLUTE)),
        0x0Eu8 => Some(Opcodes::ASL(AddressingMode::ABSOLUTE)),
        _ => None,
    }
}

/// The row of the decoding table for bytes `0x10` to `0x1F`.
pub open spec fn decoding_row_1(value: u8) -> Option<Opcodes> {
    match value {
        0x10u8 => Some(Opcodes::BPL),
        0x11u8 => Some(Opcodes::ORA(AddressingMode::INDIRECT_Y)),
        0x15u8 => Some(Opcodes::ORA(AddressingMode::ZERO_PAGE_X)),
        0x16u8 => Some(Opcodes::ASL(AddressingMode::ZERO_PAGE_X)),
        0x18u8 => Some(Opcodes::CLC),
        0x19u8 => Some(Opcodes::ORA(AddressingMode::ABSOLUTE_Y)),
        0x1Du8 => Some(Opcodes::ORA(AddressingMode::ABSOLUTE_X)),
        0x1Eu8 => Some(Opcodes::ASL(AddressingMode::ABSOLUTE_X)),
        _ => None,
    }
}

/// The row of the decoding table for bytes `0x20` to `0x2F`.
pub open spec fn decoding_row_2(value: u8) -> Option<Opcodes> {
    match value {
        0x20u8 => Some(Opcodes::JSR(AddressingMode::ABSOLUTE)),
        0x21u8 => Some(Opcodes::AND(AddressingMode::INDIRECT_X)),
        0x24u8 => Some(Opcodes::BIT(AddressingMode::ZERO_PAGE)),
        0x25u8 => Some(Opcodes::AND(AddressingMode::ZERO_PAGE)),
        0x26u8 => Some(Opcodes::ROL(AddressingMode::ZERO_PAGE)),
        0x28u8 => Some(Opcodes::PLP),
        0x29u8 => Some(Opcodes::AND(AddressingMode::IMMEDIATE)),
        0x2Au8 => Some(Opcodes::ROL(AddressingMode::ACCUMULATOR)),
        0x2Cu8 => Some(Opcodes::BIT(AddressingMode::ABSOLUTE)),
        0x2Du8 => Some(Opcodes::AND(AddressingMode::ABSOLUTE)),
        0x2Eu8 => Some(Opcodes::ROL(AddressingMode::ABSOLUTE)),
        _ => None,
    }
}

/// The row of the decoding table for bytes `0x30` to `0x3F`.
pub open spec fn decoding_row_3(value: u8) -> Option<Opcodes> {
    match value {
        0x30u8 => Some(Opcodes::BMI),
        0x31u8 => Some(Opcodes::AND(AddressingMode::INDIRECT_Y)),
        0x35u8 => Some(Opcodes::AND(AddressingMode::ZERO_PAGE_X)),
        0x36u8 => Some(Opcodes::ROL(AddressingMode::ZERO_PAGE_X)),
        0x38u8 => Some(Opcodes::SEC),
        0x39u8 => Some(Opcodes::AND(AddressingMode::ABSOLUTE_Y)),
        0x3Du8 => Some(Opcodes::AND(AddressingMode::ABSOLUTE_X)),
        0x3Eu8 => Some(Opcodes::ROL(AddressingMode::ABSOLUTE_X)),
        _ => None,
    }
}

/// The row of the decoding table for bytes `0x40` to `0x4F`.
pub open spec fn decoding_row_4(value: u8) -> Option<Opcodes> {
    match value {
        0x40u8 => Some(Opcodes::RTI),
        0x41u8 => Some(Opcodes::EOR(AddressingMode::INDIRECT_X)),
        0x45u8 => Some(Opcodes::EOR(AddressingMode::ZERO_PAGE)),
        0x46u8 => Some(Opcodes::LSR(AddressingMode::ZERO_PAGE)),
        0x48u8 => Some(Opcodes::PHA),
        0x49u8 => Some(Opcodes::EOR(AddressingMode::IMMEDIATE)),
        0x4Au8 => Some(Opcodes::LSR(AddressingMode::ACCUMULATOR)),
        0x4Cu8 => Some(Opcodes::JMP(AddressingMode::ABSOLUTE)),
        0x4Du8 => Some(Opcodes::EOR(AddressingMode::ABSOLUTE)),
        0x4Eu8 => Some(Opcodes::LSR(AddressingMode::ABSOLUTE)),
        _ => None,
    }
}

/// The row of the decoding table for bytes `0x50` to `0x5F`.
pub open spec fn decoding_row_5(value: u8) -> Option<Opcodes> {
    match value {
        0x50u8 => Some(Opcodes::BVC),
        0x51u8 => Some(Opcodes::EOR(AddressingMode::INDIRECT_Y)),
        0x55u8 => Some(Opcodes::EOR(AddressingMode::ZERO_PAGE_X)),
        0x56u8 => Some(Opcodes::LSR(AddressingMode::ZERO_PAGE_X)),
        0x58u8 => Some(Opcodes::CLI),
        0x59u8 => Some(Opcodes::EOR(AddressingMode::ABSOLUTE_Y)),
        0x5Du8 => Some(Opcodes::EOR(AddressingMode::ABSOLUTE_X)),
        0x5Eu8 => Some(Opcodes::LSR(AddressingMode::ABSOLUTE_X)),
        _ => None,
    }
}

/// The row of the decoding table for bytes `0x60` to `0x6F`.
pub open spec fn decoding_row_6(value: u8) -> Option<Opcodes> {
    match value {
        0x60u8 => Some(Opcodes::RTS),
        0x61u8 => Some(Opcodes::ADC(AddressingMode::INDIRECT_X)),
        0x65u8 => Some(Opcodes::ADC(AddressingMode::ZERO_PAGE)),
        0x66u8 => Some(Opcodes::ROR(AddressingMode::ZERO_PAGE)),
        0x68u8 => Some(Opcodes::PLA),
        0x69u8 => Some(Opcodes::ADC(AddressingMode::IMMEDIATE)),
        0x6Au8 => Some(Opcodes::ROR(AddressingMode::ACCUMULATOR)),
        0x6Cu8 => Some(Opcodes::JMP(AddressingMode::INDIRECT)),
        0x6Du8 => Some(Opcodes::ADC(AddressingMode::ABSOLUTE)),
        0x6Eu8 => Some(Opcodes::ROR(AddressingMode::ABSOLUTE)),
        _ => None,
    }
}

/// The row of the decoding table for bytes `0x70` to `0x7F`.
pub open spec fn decoding_row_7(value: u8) -> Option<Opcodes> {
    match value {
        0x70u8 => Some(Opcodes::BVS),
        0x71u8 => Some(Opcodes::ADC(AddressingMode::INDIRECT_Y)),
        0x75u8 => Some(Opcodes::ADC(AddressingMode::ZERO_PAGE_X)),
        0x76u8 => Some(Opcodes::ROR(AddressingMode::ZERO_PAGE_X)),
        0x78u8 => Some(Opcodes::SEI),
        0x79u8 => Some(Opcodes::ADC(AddressingMode::ABSOLUTE_Y)),
        0x7Du8 => Some(Opcodes::ADC(AddressingMode::ABSOLUTE_X)),
        0x7Eu8 => Some(Opcodes::ROR(AddressingMode::ABSOLUTE_X)),
        _ => None,
    }
}

/// The row of the decoding table for bytes `0x80` to `0x8F`.
pub open spec fn decoding_row_8(value: u8) -> Option<Opcodes> {
    match value {
        0x81u8 => Some(Opcodes::STA(AddressingMode::INDIRECT_X)),
        0x84u8 => Some(Opcodes::STY(AddressingMode::ZERO_PAGE)),
        0x85u8 => Some(Opcodes::STA(AddressingMode::ZERO_PAGE)),
        0x86u8 => Some(Opcodes::STX(AddressingMode::ZERO_PAGE)),
        0x88u8 => Some(Opcodes::DEY),
        0x8Au8 => Some(Opcodes::TXA),
        0x8Cu8 => Some(Opcodes::STY(AddressingMode::ABSOLUTE)),
        0x8Du8 => Some(Opcodes::STA(AddressingMode::ABSOLUTE)),
        0x8Eu8 => Some(Opcodes::STX(AddressingMode::ABSOLUTE)),
        _ => None,
    }
}

/// The row of the decoding table for bytes `0x90` to `0x9F`.
pub open spec fn decoding_row_9(value: u8) -> Option<Opcodes> {
    match value {
        0x90u8 => Some(Opcodes::BCC),
        0x91u8 => Some(Opcodes::STA(AddressingMode::INDIRECT_Y)),
        0x94u8 => Some(Opcodes::STY(AddressingMode::ZERO_PAGE_X)),
        0x95u8 => Some(Opcodes::STA(AddressingMode::ZERO_PAGE_X)),
        0x96u8 => Some(Opcodes::STX(AddressingMode::ZERO_PAGE_Y)),
        0x98u8 => Some(Opcodes::TYA),
        0x99u8 => Some(Opcodes::STA(AddressingMode::ABSOLUTE_Y)),
        0x9Au8 => Some(Opcodes::TXS),
        0x9Du8 => Some(Opcodes::STA(AddressingMode::ABSOLUTE_X)),
        _ => None,
    }
}

/// The row of the decoding table for bytes `0xA0` to `0xAF`.
pub open spec fn decoding_row_a(value: u8) -> Option<Opcodes> {
    match value {
        0xA0u8 => Some(Opcodes::LDY(AddressingMode::IMMEDIATE)),
        0xA1u8 => Some(Opcodes::LDA(AddressingMode::INDIRECT_X)),
        0xA2u8 => Some(Opcodes::LDX(AddressingMode::IMMEDIATE)),
        0xA4u8 => Some(Opcodes::LDY(AddressingMode::ZERO_PAGE)),
        0xA5u8 => Some(Opcodes::LDA(AddressingMode::ZERO_PAGE)),
        0xA6u8 => Some(Opcodes::LDX(AddressingMode::ZERO_PAGE)),
        0xA8u8 => Some(Opcodes::TAY),
        0xA9u8 => Some(Opcodes::LDA(AddressingMode::IMMEDIATE)),
        0xAAu8 => Some(Opcodes::TAX),
        0xACu8 => Some(Opcodes::LDY(AddressingMode::ABSOLUTE)),
        0xADu8 => Some(Opcodes::LDA(AddressingMode::ABSOLUTE)),
        0xAEu8 => Some(Opcodes::LDX(AddressingMode::ABSOLUTE)),
        _ => None,
    }
}

/// The row of the decoding table for bytes `0xB0` to `0xBF`.
pub open spec fn decoding_row_b(value: u8) -> Option<Opcodes> {
    match value {
        0xB0u8 => Some(Opcodes::BCS),
        0xB1u8 => Some(Opcodes::LDA(AddressingMode::INDIRECT_Y)),
        0xB4u8 => Some(Opcodes::LDY(AddressingMode::ZERO_PAGE_X)),
        0xB5u8 => Some(Opcodes::LDA(AddressingMode::ZERO_PAGE_X)),
        0xB6u8 => Some(Opcodes::LDX(AddressingMode::ZERO_PAGE_Y)),
        0xB8u8 => Some(Opcodes::CLV),
        0xB9u8 => Some(Opcodes::LDA(AddressingMode::ABSOLUTE_Y)),
        0xBAu8 => Some(Opcodes::TSX),
        0xBCu8 => Some(Opcodes::LDY(AddressingMode::ABSOLUTE_X)),
        0xBDu8 => Some(Opcodes::LDA(AddressingMode::ABSOLUTE_X)),
        0xBEu8 => Some(Opcodes::LDX(AddressingMode::ABSOLUTE_Y)),
        _ => None,
    }
}

/// The row of the decoding table for bytes `0xC0` to `0xCF`.
pub open spec fn decoding_row_c(value: u8) -> Option<Opcodes> {
    match value {
        0xC0u8 => Some(Opcodes::CPY(AddressingMode::IMMEDIATE)),
        0xC1u8 => Some(Opcodes::CMP(AddressingMode::INDIRECT_X)),
        0xC4u8 => Some(Opcodes::CPY(AddressingMode::ZERO_PAGE)),
        0xC5u8 => Some(Opcodes::CMP(AddressingMode::ZERO_PAGE)),
        0xC6u8 => Some(Opcodes::DEC(AddressingMode::ZERO_PAGE)),
        0xC8u8 => Some(Opcodes::INY),
        0xC9u8 => Some(Opcodes::CMP(AddressingMode::IMMEDIATE)),
        0xCAu8 => Some(Opcodes::DEX),
        0xCCu8 => Some(Opcodes::CPY(AddressingMode::ABSOLUTE)),
        0xCDu8 => Some(Opcodes::CMP(AddressingMode::ABSOLUTE)),
        0xCEu8 => Some(Opcodes::DEC(AddressingMode::ABSOLUTE)),
        _ => None,
    }
}

/// The row of the decoding table for bytes `0xD0` to `0xDF`.
pub open spec fn decoding_row_d(value: u8) -> Option<Opcodes> {
    match value {
        0xD0u8 => Some(Opcodes::BNE),
        0xD1u8 => Some(Opcodes::CMP(AddressingMode::INDIRECT_Y)),
        0xD5u8 => Some(Opcodes::CMP(AddressingMode::ZERO_PAGE_X)),
        0xD6u8 => Some(Opcodes::DEC(AddressingMode::ZERO_PAGE_X)),
        0xD8u8 => Some(Opcodes::CLD),
        0xD9u8 => Some(Opcodes::CMP(AddressingMode::ABSOLUTE_Y)),
        0xDDu8 => Some(Opcodes::CMP(AddressingMode::ABSOLUTE_X)),
        0xDEu8 => Some(Opcodes::DEC(AddressingMode::ABSOLUTE_X)),
        _ => None,
    }
}

/// The row of the decoding table for bytes `0xE0` to `0xEF`.
pub open spec fn decoding_row_e(value: u8) -> Option<Opcodes> {
    match value {
        0xE0u8 => Some(Opcodes::CPX(AddressingMode::IMMEDIATE)),
        0xE1u8 => Some(Opcodes::SBC(AddressingMode::INDIRECT_X)),
        0xE4u8 => Some(Opcodes::CPX(AddressingMode::ZERO_PAGE)),
        0xE5u8 => Some(Opcodes::SBC(AddressingMode::ZERO_PAGE)),
        0xE6u8 => Some(Opcodes::INC(AddressingMode::ZERO_PAGE)),
        0xE8u8 => Some(Opcodes::INX),
        0xE9u8 => Some(Opcodes::SBC(AddressingMode::IMMEDIATE)),
        0xEAu8 => Some(Opcodes::NOP),
        0xECu8 => Some(Opcodes::CPX(AddressingMode::ABSOLUTE)),
        0xEDu8 => Some(Opcodes::SBC(AddressingMode::ABSOLUTE)),
        0xEEu8 => Some(Opcodes::INC(AddressingMode::ABSOLUTE)),
        _ => None,
    }
}

/// The row of the decoding table for bytes `0xF0` to `0xFF`.
pub open spec fn decoding_row_f(value: u8) -> Option<Opcodes> {
    match value {
        0xF0u8 => Some(Opcodes::BEQ),
        0xF1u8 => Some(Opcodes::SBC(AddressingMode::INDIRECT_Y)),
        0xF5u8 => Some(Opcodes::SBC(AddressingMode::ZERO_PAGE_X)),
        0xF6u8 => Some(Opcodes::INC(AddressingMode::ZERO_PAGE_X)),
        0xF8u8 => Some(Opcodes::SED),
        0xF9u8 => Some(Opcodes::SBC(AddressingMode::ABSOLUTE_Y)),
        0xFDu8 => Some(Opcodes::SBC(AddressingMode::ABSOLUTE_X)),
        0xFEu8 => Some(Opcodes::INC(AddressingMode::ABSOLUTE_X)),
        _ => None,
    }
}

/// Each byte from `0x00` to `0x0F` encodes one instruction at most.
proof fn lemma_encoding_is_unique_in_row_0(value: u8)
    requires
        value / 16 == 0,
    ensures
        forall|op: Opcodes| op.encoding() == Some(value) ==> decode_spec(value) == Some(op),
{
    match value {
        0x00u8 => {
            assert(forall|op: Opcodes| op.encoding() == Some(0x00u8) ==> op == Opcodes::BRK);
        },
        0x01u8 => {
            assert(forall|op: Opcodes| op.encoding() == Some(0x01u8) ==> op == Opcodes::ORA(AddressingMode::INDIRECT_X));
        },
        0x05u8 => {
            assert(forall|op: Opcodes| op.encoding() == Some(0x05u8) ==> op == Opcodes::ORA(AddressingMode::ZERO_PAGE));
        },
        0x06u8 => {
            assert(forall|op: Opcodes| op.encoding() == Some(0x06u8) ==> op == Opcodes::ASL(AddressingMode::ZERO_PAGE));
        },
        0x08u8 => {
            assert(forall|op: Opcodes| op.encoding() == Some(0x08u8) ==> op == Opcodes::PHP);
        },
        0x09u8 => {
            assert(forall|op: Opcodes| op.encoding() == Some(0x09u8) ==> op == Opcodes::ORA(AddressingMode::IMMEDIATE));
        },
        0x0Au8 => {
            assert(forall|op: Opcodes| op.encoding() == Some(0x0Au8) ==> op == Opcodes::ASL(AddressingMode::ACCUMULATOR));
        },
        0x0Du8 => {
            assert(forall|op: Opcodes| op.encoding() == Some(0x0Du8) ==> op == Opcodes::ORA(AddressingMode::ABSOLUTE));
        },
        0x0Eu8 => {
            assert(forall|op: Opcodes| op.encoding() == Some(0x0Eu8) ==> op == Opcodes::ASL(AddressingMode::ABSOLUTE));
        },
        _ => {},
    }
}

/// Each byte from `0x10` to `0x1F` encodes one instruction at most.
proof fn lemma_encoding_is_unique_in_row_1(value: u8)
    requires
        value / 16 == 1,
    ensures
        forall|op: Opcodes| op.encoding() == Some(value) ==> decode_spec(value) == Some(op),
{
    match value {
        0x10u8 => {
            assert(forall|op: Opcodes| op.encoding() == Some(0x10u8) ==> op == Opcodes::BPL);
        },
        0x11u8 => {
            assert(forall|op: Opcodes| op.encoding() == Some(0x11u8) ==> op == Opcodes::ORA(AddressingMode::INDIRECT_Y));
        },
        0x15u8 => {
            assert(forall|op: Opcodes| op.encoding() == Some(0x15u8) ==> op == Opcodes::ORA(AddressingMode::ZERO_PAGE_X));
        },
        0x16u8 => {
            assert(forall|op: Opcodes| op.encoding() == Some(0x16u8) ==> op == Opcodes::ASL(AddressingMode::ZERO_PAGE_X));
        },
        0x18u8 => {
            assert(forall|op: Opcodes| op.encoding() == Some(0x18u8) ==> op == Opcodes::CLC);
        },
        0x19u8 => {
            assert(forall|op: Opcodes| op.encoding() == Some(0x19u8) ==> op == Opcodes::ORA(AddressingMode::ABSOLUTE_Y));
        },
        0x1Du8 => {
            assert(forall|op: Opcodes| op.encoding() == Some(0x1Du8) ==> op == Opcodes::ORA(AddressingMode::ABSOLUTE_X));
        },
        0x1Eu8 => {
            assert(forall|op: Opcodes| op.encoding() == Some(0x1Eu8) ==> op == Opcodes::ASL(AddressingMode::ABSOLUTE_X));
        },
        _ => {},
    }
}

/// Each byte from `0x20` to `0x2F` encodes one instruction at most.
proof fn lemma_encoding_is_unique_in_row_2(value: u8)
    requires
        value / 16 == 2,
    ensures
        forall|op: Opcodes| op.encoding() == Some(value) ==> decode_spec(value) == Some(op),
{
    match value {
        0x20u8 => {
            assert(forall|op: Opcodes| op.encoding() == Some(0x20u8) ==> op == Opcodes::JSR(AddressingMode::ABSOLUTE));
        },
        0x21u8 => {
            assert(forall|op: Opcodes| op.encoding() == Some(0x21u8) ==> op == Opcodes::AND(AddressingMode::INDIRECT_X));
        },
        0x24u8 => {
            assert(forall|op: Opcodes| op.encoding() == Some(0x24u8) ==> op == Opcodes::BIT(AddressingMode::ZERO_PAGE));
        },
        0x25u8 => {
            assert(forall|op: Opcodes| op.encoding() == Some(0x25u8) ==> op == Opcodes::AND(AddressingMode::ZERO_PAGE));
        },
        0x26u8 => {
            assert(forall|op: Opcodes| op.encoding() == Some(0x26u8) ==> op == Opcodes::ROL(AddressingMode::ZERO_PAGE));
        },
        0x28u8 => {
            assert(forall|op: Opcodes| op.encoding() == Some(0x28u8) ==> op == Opcodes::PLP);
        },
        0x29u8 => {
            assert(forall|op: Opcodes| op.encoding() == Some(0x29u8) ==> op == Opcodes::AND(AddressingMode::IMMEDIATE));
        },
        0x2Au8 => {
            assert(forall|op: Opcodes| op.encoding() == Some(0x2Au8) ==> op == Opcodes::ROL(AddressingMode::ACCUMULATOR));
        },
        0x2Cu8 => {
            assert(forall|op: Opcodes| op.encoding() == Some(0x2Cu8) ==> op == Opcodes::BIT(AddressingMode::ABSOLUTE));
        },
        0x2Du8 => {
            assert(forall|op: Opcodes| op.encoding() == Some(0x2Du8) ==> op == Opcodes::AND(AddressingMode::ABSOLUTE));
        },
        0x2Eu8 => {
            assert(forall|op: Opcodes| op.encoding() == Some(0x2Eu8) ==> op == Opcodes::ROL(AddressingMode::ABSOLUTE));
        },
        _ => {},
    }
}

/// Each byte from `0x30` to `0x3F` encodes one instruction at most.
proof fn lemma_encoding_is_unique_in_row_3(value: u8)
    requires
        value / 16 == 3,
    ensures
        forall|op: Opcodes| op.encoding() == Some(value) ==> decode_spec(value) == Some(op),
{
    match value {
        0x30u8 => {
            assert(forall|op: Opcodes| op.encoding() == Some(0x30u8) ==> op == Opcodes::BMI);
        },
        0x31u8 => {
            assert(forall|op: Opcodes| op.encoding() == Some(0x31u8) ==> op == Opcodes::AND(AddressingMode::INDIRECT_Y));
        },
        0x35u8 => {
            assert(forall|op: Opcodes| op.encoding() == Some(0x35u8) ==> op == Opcodes::AND(AddressingMode::ZERO_PAGE_X));
        },
        0x36u8 => {
            assert(forall|op: Opcodes| op.encoding() == Some(0x36u8) ==> op == Opcodes::ROL(AddressingMode::ZERO_PAGE_X));
        },
        0x38u8 => {
            assert(forall|op: Opcodes| op.encoding() == Some(0x38u8) ==> op == Opcodes::SEC);
        },
        0x39u8 => {
            assert(forall|op: Opcodes| op.encoding() == Some(0x39u8) ==> op == Opcodes::AND(AddressingMode::ABSOLUTE_Y));
        },
        0x3Du8 => {
            assert(forall|op: Opcodes| op.encoding() == Some(0x3Du8) ==> op == Opcodes::AND(AddressingMode::ABSOLUTE_X));
        },
        0x3Eu8 => {
            assert(forall|op: Opcodes| op.encoding() == Some(0x3Eu8) ==> op == Opcodes::ROL(AddressingMode::ABSOLUTE_X));
        },
        _ => {},
    }
}

/// Each byte from `0x40` to `0x4F` encodes one instruction at most.
proof fn lemma_encoding_is_unique_in_row_4(value: u8)
    requires
        value / 16 == 4,
    ensures
        forall|op: Opcodes| op.encoding() == Some(value) ==> decode_spec(value) == Some(op),
{
    match value {
        0x40u8 => {
            assert(forall|op: Opcodes| op.encoding() == Some(0x40u8) ==> op == Opcodes::RTI);
        },
        0x41u8 => {
            assert(forall|op: Opcodes| op.encoding() == Some(0x41u8) ==> op == Opcodes::EOR(AddressingMode::INDIRECT_X));
        },
        0x45u8 => {
            assert(forall|op: Opcodes| op.encoding() == Some(0x45u8) ==> op == Opcodes::EOR(AddressingMode::ZERO_PAGE));
        },
        0x46u8 => {
            assert(forall|op: Opcodes| op.encoding() == Some(0x46u8) ==> op == Opcodes::LSR(AddressingMode::ZERO_PAGE));
        },
        0x48u8 => {
            assert(forall|op: Opcodes| op.encoding() == Some(0x48u8) ==> op == Opcodes::PHA);
        },
        0x49u8 => {
            assert(forall|op: Opcodes| op.encoding() == Some(0x49u8) ==> op == Opcodes::EOR(AddressingMode::IMMEDIATE));
        },
        0x4Au8 => {
            assert(forall|op: Opcodes| op.encoding() == Some(0x4Au8) ==> op == Opcodes::LSR(AddressingMode::ACCUMULATOR));
        },
        0x4Cu8 => {
            assert(forall|op: Opcodes| op.encoding() == Some(0x4Cu8) ==> op == Opcodes::JMP(AddressingMode::ABSOLUTE));
        },
        0x4Du8 => {
            assert(forall|op: Opcodes| op.encoding() == Some(0x4Du8) ==> op == Opcodes::EOR(AddressingMode::ABSOLUTE));
        },
        0x4Eu8 => {
            assert(forall|op: Opcodes| op.encoding() == Some(0x4Eu8) ==> op == Opcodes::LSR(AddressingMode::ABSOLUTE));
        },
        _ => {},
    }
}

/// Each byte from `0x50` to `0x5F` encodes one instruction at most.
proof fn lemma_encoding_is_unique_in_row_5(value: u8)
    requires
        value / 16 == 5,
    ensures
        forall|op: Opcodes| op.encoding() == Some(value) ==> decode_spec(value) == Some(op),
{
    match value {
        0x50u8 => {
            assert(forall|op: Opcodes| op.encoding() == Some(0x50u8) ==> op == Opcodes::BVC);
        },
        0x51u8 => {
            assert(forall|op: Opcodes| op.encoding() == Some(0x51u8) ==> op == Opcodes::EOR(AddressingMode::INDIRECT_Y));
        },
        0x55u8 => {
            assert(forall|op: Opcodes| op.encoding() == Some(0x55u8) ==> op == Opcodes::EOR(AddressingMode::ZERO_PAGE_X));
        },
        0x56u8 => {
            assert(forall|op: Opcodes| op.encoding() == Some(0x56u8) ==> op == Opcodes::LSR(AddressingMode::ZERO_PAGE_X));
        },
        0x58u8 => {
            assert(forall|op: Opcodes| op.encoding() == Some(0x58u8) ==> op == Opcodes::CLI);
        },
        0x59u8 => {
            assert(forall|op: Opcodes| op.encoding() == Some(0x59u8) ==> op == Opcodes::EOR(AddressingMode::ABSOLUTE_Y));
        },
        0x5Du8 => {
            assert(forall|op: Opcodes| op.encoding() == Some(0x5Du8) ==> op == Opcodes::EOR(AddressingMode::ABSOLUTE_X));
        },
        0x5Eu8 => {
            assert(forall|op: Opcodes| op.encoding() == Some(0x5Eu8) ==> op == Opcodes::LSR(AddressingMode::ABSOLUTE_X));
        },
        _ => {},
    }
}

/// Each byte from `0x60` to `0x6F` encodes one instruction at most.
proof fn lemma_encoding_is_unique_in_row_6(value: u8)
    requires
        value / 16 == 6,
    ensures
        forall|op: Opcodes| op.encoding() == Some(value) ==> decode_spec(value) == Some(op),
{
    match value {
        0x60u8 => {
            assert(forall|op: Opcodes| op.encoding() == Some(0x60u8) ==> op == Opcodes::RTS);
        },
        0x61u8 => {
            assert(forall|op: Opcodes| op.encoding() == Some(0x61u8) ==> op == Opcodes::ADC(AddressingMode::INDIRECT_X));
        },
        0x65u8 => {
            assert(forall|op: Opcodes| op.encoding() == Some(0x65u8) ==> op == Opcodes::ADC(AddressingMode::ZERO_PAGE));
        },
        0x66u8 => {
            assert(forall|op: Opcodes| op.encoding() == Some(0x66u8) ==> op == Opcodes::ROR(AddressingMode::ZERO_PAGE));
        },
        0x68u8 => {
            assert(forall|op: Opcodes| op.encoding() == Some(0x68u8) ==> op == Opcodes::PLA);
        },
        0x69u8 => {
            assert(forall|op: Opcodes| op.encoding() == Some(0x69u8) ==> op == Opcodes::ADC(AddressingMode::IMMEDIATE));
        },
        0x6Au8 => {
            assert(forall|op: Opcodes| op.encoding() == Some(0x6Au8) ==> op == Opcodes::ROR(AddressingMode::ACCUMULATOR));
        },
        0x6Cu8 => {
            assert(forall|op: Opcodes| op.encoding() == Some(0x6Cu8) ==> op == Opcodes::JMP(AddressingMode::INDIRECT));
        },
        0x6Du8 => {
            assert(forall|op: Opcodes| op.encoding() == Some(0x6Du8) ==> op == Opcodes::ADC(AddressingMode::ABSOLUTE));
        },
        0x6Eu8 => {
            assert(forall|op: Opcodes| op.encoding() == Some(0x6Eu8) ==> op == Opcodes::ROR(AddressingMode::ABSOLUTE));
        },
        _ => {},
    }
}

/// Each byte from `0x70` to `0x7F` encodes one instruction at most.
proof fn lemma_encoding_is_unique_in_row_7(value: u8)
    requires
        value / 16 == 7,
    ensures
        forall|op: Opcodes| op.encoding() == Some(value) ==> decode_spec(value) == Some(op),
{
    match value {
        0x70u8 => {
            assert(forall|op: Opcodes| op.encoding() == Some(0x70u8) ==> op == Opcodes::BVS);
        },
        0x71u8 => {
            assert(forall|op: Opcodes| op.encoding() == Some(0x71u8) ==> op == Opcodes::ADC(AddressingMode::INDIRECT_Y));
        },
        0x75u8 => {
            assert(forall|op: Opcodes| op.encoding() == Some(0x75u8) ==> op == Opcodes::ADC(AddressingMode::ZERO_PAGE_X));
        },
        0x76u8 => {
            assert(forall|op: Opcodes| op.encoding() == Some(0x76u8) ==> op == Opcodes::ROR(AddressingMode::ZERO_PAGE_X));
        },
        0x78u8 => {
            assert(forall|op: Opcodes| op.encoding() == Some(0x78u8) ==> op == Opcodes::SEI);
        },
        0x79u8 => {
            assert(forall|op: Opcodes| op.encoding() == Some(0x79u8) ==> op == Opcodes::ADC(AddressingMode::ABSOLUTE_Y));
        },
        0x7Du8 => {
            assert(forall|op: Opcodes| op.encoding() == Some(0x7Du8) ==> op == Opcodes::ADC(AddressingMode::ABSOLUTE_X));
        },
        0x7Eu8 => {
            assert(forall|op: Opcodes| op.encoding() == Some(0x7Eu8) ==> op == Opcodes::ROR(AddressingMode::ABSOLUTE_X));
        },
        _ => {},
    }
}

/// Each byte from `0x80` to `0x8F` encodes one instruction at most.
proof fn lemma_encoding_is_unique_in_row_8(value: u8)
    requires
        value / 16 == 8,
    ensures
        forall|op: Opcodes| op.encoding() == Some(value) ==> decode_spec(value) == Some(op),
{
    match value {
        0x81u8 => {
            assert(forall|op: Opcodes| op.encoding() == Some(0x81u8) ==> op == Opcodes::STA(AddressingMode::INDIRECT_X));
        },
        0x84u8 => {
            assert(forall|op: Opcodes| op.encoding() == Some(0x84u8) ==> op == Opcodes::STY(AddressingMode::ZERO_PAGE));
        },
        0x85u8 => {
            assert(forall|op: Opcodes| op.encoding() == Some(0x85u8) ==> op == Opcodes::STA(AddressingMode::ZERO_PAGE));
        },
        0x86u8 => {
            assert(forall|op: Opcodes| op.encoding() == Some(0x86u8) ==> op == Opcodes::STX(AddressingMode::ZERO_PAGE));
        },
        0x88u8 => {
            assert(forall|op: Opcodes| op.encoding() == Some(0x88u8) ==> op == Opcodes::DEY);
        },
        0x8Au8 => {
            assert(forall|op: Opcodes| op.encoding() == Some(0x8Au8) ==> op == Opcodes::TXA);
        },
        0x8Cu8 => {
            assert(forall|op: Opcodes| op.encoding() == Some(0x8Cu8) ==> op == Opcodes::STY(AddressingMode::ABSOLUTE));
        },
        0x8Du8 => {
            assert(forall|op: Opcodes| op.encoding() == Some(0x8Du8) ==> op == Opcodes::STA(AddressingMode::ABSOLUTE));
        },
        0x8Eu8 => {
            assert(forall|op: Opcodes| op.encoding() == Some(0x8Eu8) ==> op == Opcodes::STX(AddressingMode::ABSOLUTE));
        },
        _ => {},
    }
}

/// Each byte from `0x90` to `0x9F` encodes one instruction at most.
proof fn lemma_encoding_is_unique_in_row_9(value: u8)
    requires
        value / 16 == 9,
    ensures
        forall|op: Opcodes| op.encoding() == Some(value) ==> decode_spec(value) == Some(op),
{
    match value {
        0x90u8 => {
            assert(forall|op: Opcodes| op.encoding() == Some(0x90u8) ==> op == Opcodes::BCC);
        },
        0x91u8 => {
            assert(forall|op: Opcodes| op.encoding() == Some(0x91u8) ==> op == Opcodes::STA(AddressingMode::INDIRECT_Y));
        },
        0x94u8 => {
            assert(forall|op: Opcodes| op.encoding() == Some(0x94u8) ==> op == Opcodes::STY(AddressingMode::ZERO_PAGE_X));
        },
        0x95u8 => {
            assert(forall|op: Opcodes| op.encoding() == Some(0x95u8) ==> op == Opcodes::STA(AddressingMode::ZERO_PAGE_X));
        },
        0x96u8 => {
            assert(forall|op: Opcodes| op.encoding() == Some(0x96u8) ==> op == Opcodes::STX(AddressingMode::ZERO_PAGE_Y));
        },
        0x98u8 => {
            assert(forall|op: Opcodes| op.encoding() == Some(0x98u8) ==> op == Opcodes::TYA);
        },
        0x99u8 => {
            assert(forall|op: Opcodes| op.encoding() == Some(0x99u8) ==> op == Opcodes::STA(AddressingMode::ABSOLUTE_Y));
        },
        0x9Au8 => {
            assert(forall|op: Opcodes| op.encoding() == Some(0x9Au8) ==> op == Opcodes::TXS);
        },
        0x9Du8 => {
            assert(forall|op: Opcodes| op.encoding() == Some(0x9Du8) ==> op == Opcodes::STA(AddressingMode::ABSOLUTE_X));
        },
        _ => {},
    }
}

/// Each byte from `0xA0` to `0xAF` encodes one instruction at most.
proof fn lemma_encoding_is_unique_in_row_a(value: u8)
    requires
        value / 16 == 10,
    ensures
        forall|op: Opcodes| op.encoding() == Some(value) ==> decode_spec(value) == Some(op),
{
    match value {
        0xA0u8 => {
            assert(forall|op: Opcodes| op.encoding() == Some(0xA0u8) ==> op == Opcodes::LDY(AddressingMode::IMMEDIATE));
        },
        0xA1u8 => {
            assert(forall|op: Opcodes| op.encoding() == Some(0xA1u8) ==> op == Opcodes::LDA(AddressingMode::INDIRECT_X));
        },
        0xA2u8 => {
            assert(forall|op: Opcodes| op.encoding() == Some(0xA2u8) ==> op == Opcodes::LDX(AddressingMode::IMMEDIATE));
        },
        0xA4u8 => {
            assert(forall|op: Opcodes| op.encoding() == Some(0xA4u8) ==> op == Opcodes::LDY(AddressingMode::ZERO_PAGE));
        },
        0xA5u8 => {
            assert(forall|op: Opcodes| op.encoding() == Some(0xA5u8) ==> op == Opcodes::LDA(AddressingMode::ZERO_PAGE));
        },
        0xA6u8 => {
            assert(forall|op: Opcodes| op.encoding() == Some(0xA6u8) ==> op == Opcodes::LDX(AddressingMode::ZERO_PAGE));
        },
        0xA8u8 => {
            assert(forall|op: Opcodes| op.encoding() == Some(0xA8u8) ==> op == Opcodes::TAY);
        },
        0xA9u8 => {
            assert(forall|op: Opcodes| op.encoding() == Some(0xA9u8) ==> op == Opcodes::LDA(AddressingMode::IMMEDIATE));
        },
        0xAAu8 => {
            assert(forall|op: Opcodes| op.encoding() == Some(0xAAu8) ==> op == Opcodes::TAX);
        },
        0xACu8 => {
            assert(forall|op: Opcodes| op.encoding() == Some(0xACu8) ==> op == Opcodes::LDY(AddressingMode::ABSOLUTE));
        },
        0xADu8 => {
            assert(forall|op: Opcodes| op.encoding() == Some(0xADu8) ==> op == Opcodes::LDA(AddressingMode::ABSOLUTE));
        },
        0xAEu8 => {
            assert(forall|op: Opcodes| op.encoding() == Some(0xAEu8) ==> op == Opcodes::LDX(AddressingMode::ABSOLUTE));
        },
        _ => {},
    }
}

/// Each byte from `0xB0` to `0xBF` encodes one instruction at most.
proof fn lemma_encoding_is_unique_in_row_b(value: u8)
    requires
        value / 16 == 11,
    ensures
        forall|op: Opcodes| op.encoding() == Some(value) ==> decode_spec(value) == Some(op),
{
    match value {
        0xB0u8 => {
            assert(forall|op: Opcodes| op.encoding() == Some(0xB0u8) ==> op == Opcodes::BCS);
        },
        0xB1u8 => {
            assert(forall|op: Opcodes| op.encoding() == Some(0xB1u8) ==> op == Opcodes::LDA(AddressingMode::INDIRECT_Y));
        },
        0xB4u8 => {
            assert(forall|op: Opcodes| op.encoding() == Some(0xB4u8) ==> op == Opcodes::LDY(AddressingMode::ZERO_PAGE_X));
        },
        0xB5u8 => {
            assert(forall|op: Opcodes| op.encoding() == Some(0xB5u8) ==> op == Opcodes::LDA(AddressingMode::ZERO_PAGE_X));
        },
        0xB6u8 => {
            assert(forall|op: Opcodes| op.encoding() == Some(0xB6u8) ==> op == Opcodes::LDX(AddressingMode::ZERO_PAGE_Y));
        },
        0xB8u8 => {
            assert(forall|op: Opcodes| op.encoding() == Some(0xB8u8) ==> op == Opcodes::CLV);
        },
        0xB9u8 => {
            assert(forall|op: Opcodes| op.encoding() == Some(0xB9u8) ==> op == Opcodes::LDA(AddressingMode::ABSOLUTE_Y));
        },
        0xBAu8 => {
            assert(forall|op: Opcodes| op.encoding() == Some(0xBAu8) ==> op == Opcodes::TSX);
        },
        0xBCu8 => {
            assert(forall|op: Opcodes| op.encoding() == Some(0xBCu8) ==> op == Opcodes::LDY(AddressingMode::ABSOLUTE_X));
        },
        0xBDu8 => {
            assert(forall|op: Opcodes| op.encoding() == Some(0xBDu8) ==> op == Opcodes::LDA(AddressingMode::ABSOLUTE_X));
        },
        0xBEu8 => {
            assert(forall|op: Opcodes| op.encoding() == Some(0xBEu8) ==> op == Opcodes::LDX(AddressingMode::ABSOLUTE_Y));
        },
        _ => {},
    }
}

/// Each byte from `0xC0` to `0xCF` encodes one instruction at most.
proof fn lemma_encoding_is_unique_in_row_c(value: u8)
    requires
        value / 16 == 12,
    ensures
        forall|op: Opcodes| op.encoding() == Some(value) ==> decode_spec(value) == Some(op),
{
    match value {
        0xC0u8 => {
            assert(forall|op: Opcodes| op.encoding() == Some(0xC0u8) ==> op == Opcodes::CPY(AddressingMode::IMMEDIATE));
        },
        0xC1u8 => {
            assert(forall|op: Opcodes| op.encoding() == Some(0xC1u8) ==> op == Opcodes::CMP(AddressingMode::INDIRECT_X));
        },
        0xC4u8 => {
            assert(forall|op: Opcodes| op.encoding() == Some(0xC4u8) ==> op == Opcodes::CPY(AddressingMode::ZERO_PAGE));
        },
        0xC5u8 => {
            assert(forall|op: Opcodes| op.encoding() == Some(0xC5u8) ==> op == Opcodes::CMP(AddressingMode::ZERO_PAGE));
        },
        0xC6u8 => {
            assert(forall|op: Opcodes| op.encoding() == Some(0xC6u8) ==> op == Opcodes::DEC(AddressingMode::ZERO_PAGE));
        },
        0xC8u8 => {
            assert(forall|op: Opcodes| op.encoding() == Some(0xC8u8) ==> op == Opcodes::INY);
        },
        0xC9u8 => {
            assert(forall|op: Opcodes| op.encoding() == Some(0xC9u8) ==> op == Opcodes::CMP(AddressingMode::IMMEDIATE));
        },
        0xCAu8 => {
            assert(forall|op: Opcodes| op.encoding() == Some(0xCAu8) ==> op == Opcodes::DEX);
        },
        0xCCu8 => {
            assert(forall|op: Opcodes| op.encoding() == Some(0xCCu8) ==> op == Opcodes::CPY(AddressingMode::ABSOLUTE));
        },
        0xCDu8 => {
            assert(forall|op: Opcodes| op.encoding() == Some(0xCDu8) ==> op == Opcodes::CMP(AddressingMode::ABSOLUTE));
        },
        0xCEu8 => {
            assert(forall|op: Opcodes| op.encoding() == Some(0xCEu8) ==> op == Opcodes::DEC(AddressingMode::ABSOLUTE));
        },
        _ => {},
    }
}

/// Each byte from `0xD0` to `0xDF` encodes one instruction at most.
proof fn lemma_encoding_is_unique_in_row_d(value: u8)
    requires
        value / 16 == 13,
    ensures
        forall|op: Opcodes| op.encoding() == Some(value) ==> decode_spec(value) == Some(op),
{
    match value {
        0xD0u8 => {
            assert(forall|op: Opcodes| op.encoding() == Some(0xD0u8) ==> op == Opcodes::BNE);
        },
        0xD1u8 => {
            assert(forall|op: Opcodes| op.encoding() == Some(0xD1u8) ==> op == Opcodes::CMP(AddressingMode::INDIRECT_Y));
        },
        0xD5u8 => {
            assert(forall|op: Opcodes| op.encoding() == Some(0xD5u8) ==> op == Opcodes::CMP(AddressingMode::ZERO_PAGE_X));
        },
        0xD6u8 => {
            assert(forall|op: Opcodes| op.encoding() == Some(0xD6u8) ==> op == Opcodes::DEC(AddressingMode::ZERO_PAGE_X));
        },
        0xD8u8 => {
            assert(forall|op: Opcodes| op.encoding() == Some(0xD8u8) ==> op == Opcodes::CLD);
        },
        0xD9u8 => {
            assert(forall|op: Opcodes| op.encoding() == Some(0xD9u8) ==> op == Opcodes::CMP(AddressingMode::ABSOLUTE_Y));
        },
        0xDDu8 => {
            assert(forall|op: Opcodes| op.encoding() == Some(0xDDu8) ==> op == Opcodes::CMP(AddressingMode::ABSOLUTE_X));
        },
        0xDEu8 => {
            assert(forall|op: Opcodes| op.encoding() == Some(0xDEu8) ==> op == Opcodes::DEC(AddressingMode::ABSOLUTE_X));
        },
        _ => {},
    }
}

/// Each byte from `0xE0` to `0xEF` encodes one instruction at most.
proof fn lemma_encoding_is_unique_in_row_e(value: u8)
    requires
        value / 16 == 14,
    ensures
        forall|op: Opcodes| op.encoding() == Some(value) ==> decode_spec(value) == Some(op),
{
    match value {
        0xE0u8 => {
            assert(forall|op: Opcodes| op.encoding() == Some(0xE0u8) ==> op == Opcodes::CPX(AddressingMode::IMMEDIATE));
        },
        0xE1u8 => {
            assert(forall|op: Opcodes| op.encoding() == Some(0xE1u8) ==> op == Opcodes::SBC(AddressingMode::INDIRECT_X));
        },
        0xE4u8 => {
            assert(forall|op: Opcodes| op.encoding() == Some(0xE4u8) ==> op == Opcodes::CPX(AddressingMode::ZERO_PAGE));
        },
        0xE5u8 => {
            assert(forall|op: Opcodes| op.encoding() == Some(0xE5u8) ==> op == Opcodes::SBC(AddressingMode::ZERO_PAGE));
        },
        0xE6u8 => {
            assert(forall|op: Opcodes| op.encoding() == Some(0xE6u8) ==> op == Opcodes::INC(AddressingMode::ZERO_PAGE));
        },
        0xE8u8 => {
            assert(forall|op: Opcodes| op.encoding() == Some(0xE8u8) ==> op == Opcodes::INX);
        },
        0xE9u8 => {
            assert(forall|op: Opcodes| op.encoding() == Some(0xE9u8) ==> op == Opcodes::SBC(AddressingMode::IMMEDIATE));
        },
        0xEAu8 => {
            assert(forall|op: Opcodes| op.encoding() == Some(0xEAu8) ==> op == Opcodes::NOP);
        },
        0xECu8 => {
            assert(forall|op: Opcodes| op.encoding() == Some(0xECu8) ==> op == Opcodes::CPX(AddressingMode::ABSOLUTE));
        },
        0xEDu8 => {
            assert(forall|op: Opcodes| op.encoding() == Some(0xEDu8) ==> op == Opcodes::SBC(AddressingMode::ABSOLUTE));
        },
        0xEEu8 => {
            assert(forall|op: Opcodes| op.encoding() == Some(0xEEu8) ==> op == Opcodes::INC(AddressingMode::ABSOLUTE));
        },
        _ => {},
    }
}

/// Each byte from `0xF0` to `0xFF` encodes one instruction at most.
proof fn lemma_encoding_is_unique_in_row_f(value: u8)
    requires
        value / 16 == 15,
    ensures
        forall|op: Opcodes| op.encoding() == Some(value) ==> decode_spec(value) == Some(op),
{
    match value {
        0xF0u8 => {
            assert(forall|op: Opcodes| op.encoding() == Some(0xF0u8) ==> op == Opcodes::BEQ);
        },
        0xF1u8 => {
            assert(forall|op: Opcodes| op.encoding() == Some(0xF1u8) ==> op == Opcodes::SBC(AddressingMode::INDIRECT_Y));
        },
        0xF5u8 => {
            assert(forall|op: Opcodes| op.encoding() == Some(0xF5u8) ==> op == Opcodes::SBC(AddressingMode::ZERO_PAGE_X));
        },
        0xF6u8 => {
            assert(forall|op: Opcodes| op.encoding() == Some(0xF6u8) ==> op == Opcodes::INC(AddressingMode::ZERO_PAGE_X));
        },
        0xF8u8 => {
            assert(forall|op: Opcodes| op.encoding() == Some(0xF8u8) ==> op == Opcodes::SED);
        },
        0xF9u8 => {
            assert(forall|op: Opcodes| op.encoding() == Some(0xF9u8) ==> op == Opcodes::SBC(AddressingMode::ABSOLUTE_Y));
        },
        0xFDu8 => {
            assert(forall|op: Opcodes| op.encoding() == Some(0xFDu8) ==> op == Opcodes::SBC(AddressingMode::ABSOLUTE_X));
        },
        0xFEu8 => {
            assert(forall|op: Opcodes| op.encoding() == Some(0xFEu8) ==> op == Opcodes::INC(AddressingMode::ABSOLUTE_X));
        },
        _ => {},
    }
}

/// An instruction is the only one with its encoding: the byte that encodes
/// it decodes to it and to nothing else.
pub proof fn lemma_encoding_is_unique(value: u8)
    ensures
        forall|op: Opcodes| op.encoding() == Some(value) ==> decode_spec(value) == Some(op),
{
    match value / 16 {
        0 => lemma_encoding_is_unique_in_row_0(value),
        1 => lemma_encoding_is_unique_in_row_1(value),
        2 => lemma_encoding_is_unique_in_row_2(value),
        3 => lemma_encoding_is_unique_in_row_3(value),
        4 => lemma_encoding_is_unique_in_row_4(value),
        5 => lemma_encoding_is_unique_in_row_5(value),
        6 => lemma_encoding_is_unique_in_row_6(value),
        7 => lemma_encoding_is_unique_in_row_7(value),
        8 => lemma_encoding_is_unique_in_row_8(value),
        9 => lemma_encoding_is_unique_in_row_9(value),
        10 => lemma_encoding_is_unique_in_row_a(value),
        11 => lemma_encoding_is_unique_in_row_b(value),
        12 => lemma_encoding_is_unique_in_row_c(value),
        13 => lemma_encoding_is_unique_in_row_d(value),
        14 => lemma_encoding_is_unique_in_row_e(value),
        _ => lemma_encoding_is_unique_in_row_f(value),
    }
}

/// No two instructions share an encoding.
pub proof fn lemma_encoding_injective(a: Opcodes, b: Opcodes)
    requires
        a.encoding() is Some,
        a.encoding() == b.encoding(),
    ensures
        a == b,
{
    lemma_encoding_is_unique(a.encoding()->Some_0);
}

} // verus!

use vstd::prelude::*;
use crate::modes::AddrMode;
use crate::registers::Flag;

verus! {

/// A register named by an operation.
#[derive(Clone, Copy, PartialEq, Eq, Structural, Debug)]
pub enum Reg {
    A,
    X,
    Y,
    S,
}

#[derive(Clone, Copy, PartialEq, Eq, Structural, Debug)]
pub enum Logic {
    And,
    Or,
    Xor,
}

/// The semantic effect of an instruction.
#[derive(Clone, Copy, PartialEq, Eq, Structural, Debug)]
pub enum Op {
    Load(Reg),
    Store(Reg),
    Transfer(Reg, Reg),
    Increment(Reg),
    Decrement(Reg),
    IncrementMemory,
    DecrementMemory,
    Bitwise(Logic),
    AddWithCarry,
    SubtractWithCarry,
    Compare(Reg),
    /// Taken when the flag equals the given value.
    Branch(Flag, bool),
    Jump,
    SetFlag(Flag, bool),
    NoOperation,
    /// Every opcode without a defined behaviour: a two-cycle no-op.
    Illegal,
}

/// One entry of the catalog.
#[derive(Clone, Copy, PartialEq, Eq, Structural, Debug)]
pub struct Instruction {
    pub mode: AddrMode,
    pub cycles: u8,
    pub op: Op,
}

pub open spec fn entry(mode: AddrMode, cycles: u8, op: Op) -> Instruction {
    Instruction { mode, cycles, op }
}

/// The catalog: a total map from opcode byte to instruction.
pub open spec fn catalog(opcode: u8) -> Instruction {
    match opcode {
        0x01 => entry(AddrMode::IndexedIndirect, 6, Op::Bitwise(Logic::Or)),
        0x05 => entry(AddrMode::ZeroPage, 3, Op::Bitwise(Logic::Or)),
        0x09 => entry(AddrMode::Immediate, 2, Op::Bitwise(Logic::Or)),
        0x0D => entry(AddrMode::Absolute, 4, Op::Bitwise(Logic::Or)),
        0x10 => entry(AddrMode::Relative, 2, Op::Branch(Flag::N, false)),
        0x11 => entry(AddrMode::IndirectIndexed, 5, Op::Bitwise(Logic::Or)),
        0x15 => entry(AddrMode::ZeroPageX, 4, Op::Bitwise(Logic::Or)),
        0x18 => entry(AddrMode::Implied, 2, Op::SetFlag(Flag::C, false)),
        0x19 => entry(AddrMode::AbsoluteY, 4, Op::Bitwise(Logic::Or)),
        0x1D => entry(AddrMode::AbsoluteX, 4, Op::Bitwise(Logic::Or)),
        0x21 => entry(AddrMode::IndexedIndirect, 6, Op::Bitwise(Logic::And)),
        0x25 => entry(AddrMode::ZeroPage, 3, Op::Bitwise(Logic::And)),
        0x29 => entry(AddrMode::Immediate, 2, Op::Bitwise(Logic::And)),
        0x2D => entry(AddrMode::Absolute, 4, Op::Bitwise(Logic::And)),
        0x30 => entry(AddrMode::Relative, 2, Op::Branch(Flag::N, true)),
        0x31 => entry(AddrMode::IndirectIndexed, 5, Op::Bitwise(Logic::And)),
        0x35 => entry(AddrMode::ZeroPageX, 4, Op::Bitwise(Logic::And)),
        0x38 => entry(AddrMode::Implied, 2, Op::SetFlag(Flag::C, true)),
        0x39 => entry(AddrMode::AbsoluteY, 4, Op::Bitwise(Logic::And)),
        0x3D => entry(AddrMode::AbsoluteX, 4, Op::Bitwise(Logic::And)),
        0x41 => entry(AddrMode::IndexedIndirect, 6, Op::Bitwise(Logic::Xor)),
        0x45 => entry(AddrMode::ZeroPage, 3, Op::Bitwise(Logic::Xor)),
        0x49 => entry(AddrMode::Immediate, 2, Op::Bitwise(Logic::Xor)),
        0x4C => entry(AddrMode::Absolute, 3, Op::Jump),
        0x4D => entry(AddrMode::Absolute, 4, Op::Bitwise(Logic::Xor)),
        0x50 => entry(AddrMode::Relative, 2, Op::Branch(Flag::O, false)),
        0x51 => entry(AddrMode::IndirectIndexed, 5, Op::Bitwise(Logic::Xor)),
        0x55 => entry(AddrMode::ZeroPageX, 4, Op::Bitwise(Logic::Xor)),
        0x58 => entry(AddrMode::Implied, 2, Op::SetFlag(Flag::I, false)),
        0x59 => entry(AddrMode::AbsoluteY, 4, Op::Bitwise(Logic::Xor)),
        0x5D => entry(AddrMode::AbsoluteX, 4, Op::Bitwise(Logic::Xor)),
        0x61 => entry(AddrMode::IndexedIndirect, 6, Op::AddWithCarry),
        0x65 => entry(AddrMode::ZeroPage, 3, Op::AddWithCarry),
        0x69 => entry(AddrMode::Immediate, 2, Op::AddWithCarry),
        0x6C => entry(AddrMode::Indirect, 5, Op::Jump),
        0x6D => entry(AddrMode::Absolute, 4, Op::AddWithCarry),
        0x70 => entry(AddrMode::Relative, 2, Op::Branch(Flag::O, true)),
        0x71 => entry(AddrMode::IndirectIndexed, 5, Op::AddWithCarry),
        0x75 => entry(AddrMode::ZeroPageX, 4, Op::AddWithCarry),
        0x78 => entry(AddrMode::Implied, 2, Op::SetFlag(Flag::I, true)),
        0x79 => entry(AddrMode::AbsoluteY, 4, Op::AddWithCarry),
        0x7D => entry(AddrMode::AbsoluteX, 4, Op::AddWithCarry),
        0x81 => entry(AddrMode::IndexedIndirect, 6, Op::Store(Reg::A)),
        0x84 => entry(AddrMode::ZeroPage, 3, Op::Store(Reg::Y)),
        0x85 => entry(AddrMode::ZeroPage, 3, Op::Store(Reg::A)),
        0x86 => entry(AddrMode::ZeroPage, 3, Op::Store(Reg::X)),
        0x88 => entry(AddrMode::Implied, 2, Op::Decrement(Reg::Y)),
        0x8A => entry(AddrMode::Implied, 2, Op::Transfer(Reg::X, Reg::A)),
        0x8C => entry(AddrMode::Absolute, 4, Op::Store(Reg::Y)),
        0x8D => entry(AddrMode::Absolute, 4, Op::Store(Reg::A)),
        0x8E => entry(AddrMode::Absolute, 4, Op::Store(Reg::X)),
        0x90 => entry(AddrMode::Relative, 2, Op::Branch(Flag::C, false)),
        0x91 => entry(AddrMode::IndirectIndexed, 6, Op::Store(Reg::A)),
        0x94 => entry(AddrMode::ZeroPageX, 4, Op::Store(Reg::Y)),
        0x95 => entry(AddrMode::ZeroPageX, 4, Op::Store(Reg::A)),
        0x96 => entry(AddrMode::ZeroPageY, 4, Op::Store(Reg::X)),
        0x98 => entry(AddrMode::Implied, 2, Op::Transfer(Reg::Y, Reg::A)),
        0x99 => entry(AddrMode::AbsoluteY, 5, Op::Store(Reg::A)),
        0x9A => entry(AddrMode::Implied, 2, Op::Transfer(Reg::X, Reg::S)),
        0x9D => entry(AddrMode::AbsoluteX, 5, Op::Store(Reg::A)),
        0xA0 => entry(AddrMode::Immediate, 2, Op::Load(Reg::Y)),
        0xA1 => entry(AddrMode::IndexedIndirect, 6, Op::Load(Reg::A)),
        0xA2 => entry(AddrMode::Immediate, 2, Op::Load(Reg::X)),
        0xA4 => entry(AddrMode::ZeroPage, 3, Op::Load(Reg::Y)),
        0xA5 => entry(AddrMode::ZeroPage, 3, Op::Load(Reg::A)),
        0xA6 => entry(AddrMode::ZeroPage, 3, Op::Load(Reg::X)),
        0xA8 => entry(AddrMode::Implied, 2, Op::Transfer(Reg::A, Reg::Y)),
        0xA9 => entry(AddrMode::Immediate, 2, Op::Load(Reg::A)),
        0xAA => entry(AddrMode::Implied, 2, Op::Transfer(Reg::A, Reg::X)),
        0xAC => entry(AddrMode::Absolute, 4, Op::Load(Reg::Y)),
        0xAD => entry(AddrMode::Absolute, 4, Op::Load(Reg::A)),
        0xAE => entry(AddrMode::Absolute, 4, Op::Load(Reg::X)),
        0xB0 => entry(AddrMode::Relative, 2, Op::Branch(Flag::C, true)),
        0xB1 => entry(AddrMode::IndirectIndexed, 5, Op::Load(Reg::A)),
        0xB4 => entry(AddrMode::ZeroPageX, 4, Op::Load(Reg::Y)),
        0xB5 => entry(AddrMode::ZeroPageX, 4, Op::Load(Reg::A)),
        0xB6 => entry(AddrMode::ZeroPageY, 4, Op::Load(Reg::X)),
        0xB8 => entry(AddrMode::Implied, 2, Op::SetFlag(Flag::O, false)),
        0xB9 => entry(AddrMode::AbsoluteY, 4, Op::Load(Reg::A)),
        0xBA => entry(AddrMode::Implied, 2, Op::Transfer(Reg::S, Reg::X)),
        0xBC => entry(AddrMode::AbsoluteX, 4, Op::Load(Reg::Y)),
        0xBD => entry(AddrMode::AbsoluteX, 4, Op::Load(Reg::A)),
        0xBE => entry(AddrMode::AbsoluteY, 4, Op::Load(Reg::X)),
        0xC0 => entry(AddrMode::Immediate, 2, Op::Compare(Reg::Y)),
        0xC1 => entry(AddrMode::IndexedIndirect, 6, Op::Compare(Reg::A)),
        0xC4 => entry(AddrMode::ZeroPage, 3, Op::Compare(Reg::Y)),
        0xC5 => entry(AddrMode::ZeroPage, 3, Op::Compare(Reg::A)),
        0xC6 => entry(AddrMode::ZeroPage, 5, Op::DecrementMemory),
        0xC8 => entry(AddrMode::Implied, 2, Op::Increment(Reg::Y)),
        0xC9 => entry(AddrMode::Immediate, 2, Op::Compare(Reg::A)),
        0xCA => entry(AddrMode::Implied, 2, Op::Decrement(Reg::X)),
        0xCC => entry(AddrMode::Absolute, 4, Op::Compare(Reg::Y)),
        0xCD => entry(AddrMode::Absolute, 4, Op::Compare(Reg::A)),
        0xCE => entry(AddrMode::Absolute, 6, Op::DecrementMemory),
        0xD0 => entry(AddrMode::Relative, 2, Op::Branch(Flag::Z, false)),
        0xD1 => entry(AddrMode::IndirectIndexed, 5, Op::Compare(Reg::A)),
        0xD5 => entry(AddrMode::ZeroPageX, 4, Op::Compare(Reg::A)),
        0xD6 => entry(AddrMode::ZeroPageX, 6, Op::DecrementMemory),
        0xD8 => entry(AddrMode::Implied, 2, Op::SetFlag(Flag::D, false)),
        0xD9 => entry(AddrMode::AbsoluteY, 4, Op::Compare(Reg::A)),
        0xDD => entry(AddrMode::AbsoluteX, 4, Op::Compare(Reg::A)),
        0xDE => entry(AddrMode::AbsoluteX, 7, Op::DecrementMemory),
        0xE0 => entry(AddrMode::Immediate, 2, Op::Compare(Reg::X)),
        0xE1 => entry(AddrMode::IndexedIndirect, 6, Op::SubtractWithCarry),
        0xE4 => entry(AddrMode::ZeroPage, 3, Op::Compare(Reg::X)),
        0xE5 => entry(AddrMode::ZeroPage, 3, Op::SubtractWithCarry),
        0xE6 => entry(AddrMode::ZeroPage, 5, Op::IncrementMemory),
        0xE8 => entry(AddrMode::Implied, 2, Op::Increment(Reg::X)),
        0xE9 => entry(AddrMode::Immediate, 2, Op::SubtractWithCarry),
        0xEA => entry(AddrMode::Implied, 2, Op::NoOperation),
        0xEC => entry(AddrMode::Absolute, 4, Op::Compare(Reg::X)),
        0xED => entry(AddrMode::Absolute, 4, Op::SubtractWithCarry),
        0xEE => entry(AddrMode::Absolute, 6, Op::IncrementMemory),
        0xF0 => entry(AddrMode::Relative, 2, Op::Branch(Flag::Z, true)),
        0xF1 => entry(AddrMode::IndirectIndexed, 5, Op::SubtractWithCarry),
        0xF5 => entry(AddrMode::ZeroPageX, 4, Op::SubtractWithCarry),
        0xF6 => entry(AddrMode::ZeroPageX, 6, Op::IncrementMemory),
        0xF8 => entry(AddrMode::Implied, 2, Op::SetFlag(Flag::D, true)),
        0xF9 => entry(AddrMode::AbsoluteY, 4, Op::SubtractWithCarry),
        0xFD => entry(AddrMode::AbsoluteX, 4, Op::SubtractWithCarry),
        0xFE => entry(AddrMode::AbsoluteX, 7, Op::IncrementMemory),
        _ => entry(AddrMode::Implied, 2, Op::Illegal),
    }
}

impl Instruction {
    pub fn of(mode: AddrMode, cycles: u8, op: Op) -> (r: Instruction)
        ensures
            r == entry(mode, cycles, op),
    {
        Instruction { mode, cycles, op }
    }

    /// Looks up the catalog entry of `opcode`.
    #[verifier::rlimit(100)]
    #[verifier::spinoff_prover]
    pub fn lookup(opcode: u8) -> (r: Instruction)
        ensures
            r == catalog(opcode),
            r.cycles >= 1,
    {
        match opcode {
        0x01 => Instruction::of(AddrMode::IndexedIndirect, 6, Op::Bitwise(Logic::Or)),
            0x05 => Instruction::of(AddrMode::ZeroPage, 3, Op::Bitwise(Logic::Or)),
            0x09 => Instruction::of(AddrMode::Immediate, 2, Op::Bitwise(Logic::Or)),
            0x0D => Instruction::of(AddrMode::Absolute, 4, Op::Bitwise(Logic::Or)),
            0x10 => Instruction::of(AddrMode::Relative, 2, Op::Branch(Flag::N, false)),
            0x11 => Instruction::of(AddrMode::IndirectIndexed, 5, Op::Bitwise(Logic::Or)),
            0x15 => Instruction::of(AddrMode::ZeroPageX, 4, Op::Bitwise(Logic::Or)),
            0x18 => Instruction::of(AddrMode::Implied, 2, Op::SetFlag(Flag::C, false)),
            0x19 => Instruction::of(AddrMode::AbsoluteY, 4, Op::Bitwise(Logic::Or)),
            0x1D => Instruction::of(AddrMode::AbsoluteX, 4, Op::Bitwise(Logic::Or)),
            0x21 => Instruction::of(AddrMode::IndexedIndirect, 6, Op::Bitwise(Logic::And)),
            0x25 => Instruction::of(AddrMode::ZeroPage, 3, Op::Bitwise(Logic::And)),
            0x29 => Instruction::of(AddrMode::Immediate, 2, Op::Bitwise(Logic::And)),
            0x2D => Instruction::of(AddrMode::Absolute, 4, Op::Bitwise(Logic::And)),
            0x30 => Instruction::of(AddrMode::Relative, 2, Op::Branch(Flag::N, true)),
            0x31 => Instruction::of(AddrMode::IndirectIndexed, 5, Op::Bitwise(Logic::And)),
            0x35 => Instruction::of(AddrMode::ZeroPageX, 4, Op::Bitwise(Logic::And)),
            0x38 => Instruction::of(AddrMode::Implied, 2, Op::SetFlag(Flag::C, true)),
            0x39 => Instruction::of(AddrMode::AbsoluteY, 4, Op::Bitwise(Logic::And)),
            0x3D => Instruction::of(AddrMode::AbsoluteX, 4, Op::Bitwise(Logic::And)),
            0x41 => Instruction::of(AddrMode::IndexedIndirect, 6, Op::Bitwise(Logic::Xor)),
            0x45 => Instruction::of(AddrMode::ZeroPage, 3, Op::Bitwise(Logic::Xor)),
            0x49 => Instruction::of(AddrMode::Immediate, 2, Op::Bitwise(Logic::Xor)),
            0x4C => Instruction::of(AddrMode::Absolute, 3, Op::Jump),
            0x4D => Instruction::of(AddrMode::Absolute, 4, Op::Bitwise(Logic::Xor)),
            0x50 => Instruction::of(AddrMode::Relative, 2, Op::Branch(Flag::O, false)),
            0x51 => Instruction::of(AddrMode::IndirectIndexed, 5, Op::Bitwise(Logic::Xor)),
            0x55 => Instruction::of(AddrMode::ZeroPageX, 4, Op::Bitwise(Logic::Xor)),
            0x58 => Instruction::of(AddrMode::Implied, 2, Op::SetFlag(Flag::I, false)),
            0x59 => Instruction::of(AddrMode::AbsoluteY, 4, Op::Bitwise(Logic::Xor)),
            0x5D => Instruction::of(AddrMode::AbsoluteX, 4, Op::Bitwise(Logic::Xor)),
            0x61 => Instruction::of(AddrMode::IndexedIndirect, 6, Op::AddWithCarry),
            0x65 => Instruction::of(AddrMode::ZeroPage, 3, Op::AddWithCarry),
            0x69 => Instruction::of(AddrMode::Immediate, 2, Op::AddWithCarry),
            0x6C => Instruction::of(AddrMode::Indirect, 5, Op::Jump),
            0x6D => Instruction::of(AddrMode::Absolute, 4, Op::AddWithCarry),
            0x70 => Instruction::of(AddrMode::Relative, 2, Op::Branch(Flag::O, true)),
            0x71 => Instruction::of(AddrMode::IndirectIndexed, 5, Op::AddWithCarry),
            0x75 => Instruction::of(AddrMode::ZeroPageX, 4, Op::AddWithCarry),
            0x78 => Instruction::of(AddrMode::Implied, 2, Op::SetFlag(Flag::I, true)),
            0x79 => Instruction::of(AddrMode::AbsoluteY, 4, Op::AddWithCarry),
            0x7D => Instruction::of(AddrMode::AbsoluteX, 4, Op::AddWithCarry),
            0x81 => Instruction::of(AddrMode::IndexedIndirect, 6, Op::Store(Reg::A)),
            0x84 => Instruction::of(AddrMode::ZeroPage, 3, Op::Store(Reg::Y)),
            0x85 => Instruction::of(AddrMode::ZeroPage, 3, Op::Store(Reg::A)),
            0x86 => Instruction::of(AddrMode::ZeroPage, 3, Op::Store(Reg::X)),
            0x88 => Instruction::of(AddrMode::Implied, 2, Op::Decrement(Reg::Y)),
            0x8A => Instruction::of(AddrMode::Implied, 2, Op::Transfer(Reg::X, Reg::A)),
            0x8C => Instruction::of(AddrMode::Absolute, 4, Op::Store(Reg::Y)),
            0x8D => Instruction::of(AddrMode::Absolute, 4, Op::Store(Reg::A)),
            0x8E => Instruction::of(AddrMode::Absolute, 4, Op::Store(Reg::X)),
            0x90 => Instruction::of(AddrMode::Relative, 2, Op::Branch(Flag::C, false)),
            0x91 => Instruction::of(AddrMode::IndirectIndexed, 6, Op::Store(Reg::A)),
            0x94 => Instruction::of(AddrMode::ZeroPageX, 4, Op::Store(Reg::Y)),
            0x95 => Instruction::of(AddrMode::ZeroPageX, 4, Op::Store(Reg::A)),
            0x96 => Instruction::of(AddrMode::ZeroPageY, 4, Op::Store(Reg::X)),
            0x98 => Instruction::of(AddrMode::Implied, 2, Op::Transfer(Reg::Y, Reg::A)),
            0x99 => Instruction::of(AddrMode::AbsoluteY, 5, Op::Store(Reg::A)),
            0x9A => Instruction::of(AddrMode::Implied, 2, Op::Transfer(Reg::X, Reg::S)),
            0x9D => Instruction::of(AddrMode::AbsoluteX, 5, Op::Store(Reg::A)),
            0xA0 => Instruction::of(AddrMode::Immediate, 2, Op::Load(Reg::Y)),
            0xA1 => Instruction::of(AddrMode::IndexedIndirect, 6, Op::Load(Reg::A)),
            0xA2 => Instruction::of(AddrMode::Immediate, 2, Op::Load(Reg::X)),
            0xA4 => Instruction::of(AddrMode::ZeroPage, 3, Op::Load(Reg::Y)),
            0xA5 => Instruction::of(AddrMode::ZeroPage, 3, Op::Load(Reg::A)),
            0xA6 => Instruction::of(AddrMode::ZeroPage, 3, Op::Load(Reg::X)),
            0xA8 => Instruction::of(AddrMode::Implied, 2, Op::Transfer(Reg::A, Reg::Y)),
            0xA9 => Instruction::of(AddrMode::Immediate, 2, Op::Load(Reg::A)),
            0xAA => Instruction::of(AddrMode::Implied, 2, Op::Transfer(Reg::A, Reg::X)),
            0xAC => Instruction::of(AddrMode::Absolute, 4, Op::Load(Reg::Y)),
            0xAD => Instruction::of(AddrMode::Absolute, 4, Op::Load(Reg::A)),
            0xAE => Instruction::of(AddrMode::Absolute, 4, Op::Load(Reg::X)),
            0xB0 => Instruction::of(AddrMode::Relative, 2, Op::Branch(Flag::C, true)),
            0xB1 => Instruction::of(AddrMode::IndirectIndexed, 5, Op::Load(Reg::A)),
            0xB4 => Instruction::of(AddrMode::ZeroPageX, 4, Op::Load(Reg::Y)),
            0xB5 => Instruction::of(AddrMode::ZeroPageX, 4, Op::Load(Reg::A)),
            0xB6 => Instruction::of(AddrMode::ZeroPageY, 4, Op::Load(Reg::X)),
            0xB8 => Instruction::of(AddrMode::Implied, 2, Op::SetFlag(Flag::O, false)),
            0xB9 => Instruction::of(AddrMode::AbsoluteY, 4, Op::Load(Reg::A)),
            0xBA => Instruction::of(AddrMode::Implied, 2, Op::Transfer(Reg::S, Reg::X)),
            0xBC => Instruction::of(AddrMode::AbsoluteX, 4, Op::Load(Reg::Y)),
            0xBD => Instruction::of(AddrMode::AbsoluteX, 4, Op::Load(Reg::A)),
            0xBE => Instruction::of(AddrMode::AbsoluteY, 4, Op::Load(Reg::X)),
            0xC0 => Instruction::of(AddrMode::Immediate, 2, Op::Compare(Reg::Y)),
            0xC1 => Instruction::of(AddrMode::IndexedIndirect, 6, Op::Compare(Reg::A)),
            0xC4 => Instruction::of(AddrMode::ZeroPage, 3, Op::Compare(Reg::Y)),
            0xC5 => Instruction::of(AddrMode::ZeroPage, 3, Op::Compare(Reg::A)),
            0xC6 => Instruction::of(AddrMode::ZeroPage, 5, Op::DecrementMemory),
            0xC8 => Instruction::of(AddrMode::Implied, 2, Op::Increment(Reg::Y)),
            0xC9 => Instruction::of(AddrMode::Immediate, 2, Op::Compare(Reg::A)),
            0xCA => Instruction::of(AddrMode::Implied, 2, Op::Decrement(Reg::X)),
            0xCC => Instruction::of(AddrMode::Absolute, 4, Op::Compare(Reg::Y)),
            0xCD => Instruction::of(AddrMode::Absolute, 4, Op::Compare(Reg::A)),
            0xCE => Instruction::of(AddrMode::Absolute, 6, Op::DecrementMemory),
            0xD0 => Instruction::of(AddrMode::Relative, 2, Op::Branch(Flag::Z, false)),
            0xD1 => Instruction::of(AddrMode::IndirectIndexed, 5, Op::Compare(Reg::A)),
            0xD5 => Instruction::of(AddrMode::ZeroPageX, 4, Op::Compare(Reg::A)),
            0xD6 => Instruction::of(AddrMode::ZeroPageX, 6, Op::DecrementMemory),
            0xD8 => Instruction::of(AddrMode::Implied, 2, Op::SetFlag(Flag::D, false)),
            0xD9 => Instruction::of(AddrMode::AbsoluteY, 4, Op::Compare(Reg::A)),
            0xDD => Instruction::of(AddrMode::AbsoluteX, 4, Op::Compare(Reg::A)),
            0xDE => Instruction::of(AddrMode::AbsoluteX, 7, Op::DecrementMemory),
            0xE0 => Instruction::of(AddrMode::Immediate, 2, Op::Compare(Reg::X)),
            0xE1 => Instruction::of(AddrMode::IndexedIndirect, 6, Op::SubtractWithCarry),
            0xE4 => Instruction::of(AddrMode::ZeroPage, 3, Op::Compare(Reg::X)),
            0xE5 => Instruction::of(AddrMode::ZeroPage, 3, Op::SubtractWithCarry),
            0xE6 => Instruction::of(AddrMode::ZeroPage, 5, Op::IncrementMemory),
            0xE8 => Instruction::of(AddrMode::Implied, 2, Op::Increment(Reg::X)),
            0xE9 => Instruction::of(AddrMode::Immediate, 2, Op::SubtractWithCarry),
            0xEA => Instruction::of(AddrMode::Implied, 2, Op::NoOperation),
            0xEC => Instruction::of(AddrMode::Absolute, 4, Op::Compare(Reg::X)),
            0xED => Instruction::of(AddrMode::Absolute, 4, Op::SubtractWithCarry),
            0xEE => Instruction::of(AddrMode::Absolute, 6, Op::IncrementMemory),
            0xF0 => Instruction::of(AddrMode::Relative, 2, Op::Branch(Flag::Z, true)),
            0xF1 => Instruction::of(AddrMode::IndirectIndexed, 5, Op::SubtractWithCarry),
            0xF5 => Instruction::of(AddrMode::ZeroPageX, 4, Op::SubtractWithCarry),
            0xF6 => Instruction::of(AddrMode::ZeroPageX, 6, Op::IncrementMemory),
            0xF8 => Instruction::of(AddrMode::Implied, 2, Op::SetFlag(Flag::D, true)),
            0xF9 => Instruction::of(AddrMode::AbsoluteY, 4, Op::SubtractWithCarry),
            0xFD => Instruction::of(AddrMode::AbsoluteX, 4, Op::SubtractWithCarry),
            0xFE => Instruction::of(AddrMode::AbsoluteX, 7, Op::IncrementMemory),
            _ => Instruction::of(AddrMode::Implied, 2, Op::Illegal),
        }
    }
}

} // verus!

use vstd::prelude::*;
use crate::bus::Bus;
use crate::registers::Registers;

verus! {

/// How an instruction locates its operand.
#[derive(Clone, Copy, PartialEq, Eq, Structural, Debug)]
pub enum AddrMode {
    Implied,
    Accumulator,
    Immediate,
    ZeroPage,
    ZeroPageX,
    ZeroPageY,
    Absolute,
    AbsoluteX,
    AbsoluteY,
    Indirect,
    IndexedIndirect,
    IndirectIndexed,
    Relative,
}

/// Where the operation finds its operand.
#[derive(Clone, Copy, PartialEq, Eq, Structural, Debug)]
pub enum Target {
    Implied,
    Accumulator,
    Address(u16),
}

/// The outcome of addressing: the operand's location, the program counter
/// past the operand bytes, and whether forming the address crossed a page.
#[derive(Clone, Copy, PartialEq, Eq, Structural, Debug)]
pub struct Resolved {
    pub target: Target,
    pub pc: u16,
    pub page_crossed: bool,
}

pub open spec fn wrap16(v: int) -> u16 {
    (v % 65536) as u16
}

pub open spec fn wrap8(v: int) -> u8 {
    (v % 256) as u8
}

/// The little-endian word made of two bytes.
pub open spec fn word(lo: u8, hi: u8) -> u16 {
    (lo as int + hi as int * 256) as u16
}

pub open spec fn page(a: u16) -> int {
    a as int / 256
}

/// The number of operand bytes that follow the opcode.
pub open spec fn operand_len(mode: AddrMode) -> nat {
    match mode {
        AddrMode::Implied | AddrMode::Accumulator => 0,
        AddrMode::Absolute | AddrMode::AbsoluteX | AddrMode::AbsoluteY | AddrMode::Indirect => 2,
        _ => 1,
    }
}

/// The destination of a relative branch: `pc` moved by the signed offset.
pub open spec fn branch_target(pc: u16, offset: u8) -> u16 {
    if offset < 128 {
        wrap16(pc as int + offset as int)
    } else {
        wrap16(pc as int + offset as int + 65536 - 256)
    }
}

/// An address moved by an index register, and whether it changed page.
pub open spec fn indexed(base: u16, index: u8, pc: u16) -> Resolved {
    let a = wrap16(base as int + index as int);
    Resolved { target: Target::Address(a), pc, page_crossed: page(base) != page(a) }
}

pub open spec fn at(a: u16, pc: u16) -> Resolved {
    Resolved { target: Target::Address(a), pc, page_crossed: false }
}

/// What addressing in `mode` yields, reading operand bytes at `regs.pc`.
pub open spec fn resolve_spec(mode: AddrMode, regs: Registers, bus: &Bus) -> Resolved {
    let pc = regs.pc;
    let b0 = bus.peek(pc);
    let b1 = bus.peek(wrap16(pc + 1));
    let next1 = wrap16(pc + 1);
    let next2 = wrap16(pc + 2);
    match mode {
        AddrMode::Implied => Resolved { target: Target::Implied, pc, page_crossed: false },
        AddrMode::Accumulator => Resolved { target: Target::Accumulator, pc, page_crossed: false },
        AddrMode::Immediate => at(pc, next1),
        AddrMode::ZeroPage => at(b0 as u16, next1),
        AddrMode::ZeroPageX => at(wrap8(b0 + regs.x) as u16, next1),
        AddrMode::ZeroPageY => at(wrap8(b0 + regs.y) as u16, next1),
        AddrMode::Absolute => at(word(b0, b1), next2),
        AddrMode::AbsoluteX => indexed(word(b0, b1), regs.x, next2),
        AddrMode::AbsoluteY => indexed(word(b0, b1), regs.y, next2),
        AddrMode::Indirect => {
            let ptr = word(b0, b1);
            let hi_ptr = word(wrap8(b0 + 1), b1);
            at(word(bus.peek(ptr), bus.peek(hi_ptr)), next2)
        },
        AddrMode::IndexedIndirect => {
            let t = wrap8(b0 + regs.x);
            at(word(bus.peek(t as u16), bus.peek(wrap8(t + 1) as u16)), next1)
        },
        AddrMode::IndirectIndexed => {
            let base = word(bus.peek(b0 as u16), bus.peek(wrap8(b0 + 1) as u16));
            indexed(base, regs.y, next1)
        },
        AddrMode::Relative => at(branch_target(next1, b0), next1),
    }
}

pub fn add16(a: u16, b: u16) -> (r: u16)
    ensures
        r == wrap16(a + b),
{
    ((a as u32 + b as u32) % 65536) as u16
}

pub fn add8(a: u8, b: u8) -> (r: u8)
    ensures
        r == wrap8(a + b),
{
    ((a as u16 + b as u16) % 256) as u8
}

pub fn make_word(lo: u8, hi: u8) -> (r: u16)
    ensures
        r == word(lo, hi),
{
    lo as u16 + hi as u16 * 256
}

pub fn relative_target(pc: u16, offset: u8) -> (r: u16)
    ensures
        r == branch_target(pc, offset),
{
    if offset < 128 {
        add16(pc, offset as u16)
    } else {
        ((pc as u32 + offset as u32 + 65536 - 256) % 65536) as u16
    }
}

fn index_by(base: u16, index: u8, pc: u16) -> (r: Resolved)
    ensures
        r == indexed(base, index, pc),
{
    let a = add16(base, index as u16);
    Resolved { target: Target::Address(a), pc, page_crossed: base / 256 != a / 256 }
}

fn located(a: u16, pc: u16) -> (r: Resolved)
    ensures
        r == at(a, pc),
{
    Resolved { target: Target::Address(a), pc, page_crossed: false }
}

/// Forms the operand location of `mode`, consuming its operand bytes.
pub fn resolve(mode: AddrMode, regs: &Registers, bus: &Bus) -> (r: Resolved)
    requires
        bus.wf(),
        bus.covers_all(),
    ensures
        r == resolve_spec(mode, *regs, bus),
{
    let pc = regs.pc;
    let next1 = add16(pc, 1);
    let next2 = add16(pc, 2);
    match mode {
        AddrMode::Implied => Resolved { target: Target::Implied, pc, page_crossed: false },
        AddrMode::Accumulator => Resolved { target: Target::Accumulator, pc, page_crossed: false },
        AddrMode::Immediate => located(pc, next1),
        AddrMode::ZeroPage => located(bus.read(pc) as u16, next1),
        AddrMode::ZeroPageX => located(add8(bus.read(pc), regs.x) as u16, next1),
        AddrMode::ZeroPageY => located(add8(bus.read(pc), regs.y) as u16, next1),
        AddrMode::Absolute => located(make_word(bus.read(pc), bus.read(next1)), next2),
        AddrMode::AbsoluteX => index_by(make_word(bus.read(pc), bus.read(next1)), regs.x, next2),
        AddrMode::AbsoluteY => index_by(make_word(bus.read(pc), bus.read(next1)), regs.y, next2),
        AddrMode::Indirect => {
            let b0 = bus.read(pc);
            let b1 = bus.read(next1);
            let ptr = make_word(b0, b1);
            let hi_ptr = make_word(add8(b0, 1), b1);
            located(make_word(bus.read(ptr), bus.read(hi_ptr)), next2)
        },
        AddrMode::IndexedIndirect => {
            let t = add8(bus.read(pc), regs.x);
            located(make_word(bus.read(t as u16), bus.read(add8(t, 1) as u16)), next1)
        },
        AddrMode::IndirectIndexed => {
            let b0 = bus.read(pc);
            let base = make_word(bus.read(b0 as u16), bus.read(add8(b0, 1) as u16));
            index_by(base, regs.y, next1)
        },
        AddrMode::Relative => located(relative_target(next1, bus.read(pc)), next1),
    }
}

} // verus!

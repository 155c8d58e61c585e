use vstd::prelude::*;
use crate::bus::Bus;
use crate::catalog::{catalog, Instruction, Logic, Op, Reg};
use crate::modes::{add16, add8, make_word, resolve, resolve_spec, word, wrap16, wrap8, Resolved, Target};
use crate::registers::{baseline_registers, flag_of, with_flag, Flag, Registers};

verus! {

/// Address of the little-endian reset vector.
pub const RESET_VECTOR: u16 = 0xFFFC;

/// The processor: registers, the opcode in flight and the cycles it still owes.
#[derive(Clone, Copy, PartialEq, Eq, Structural, Debug)]
pub struct Cpu {
    pub registers: Registers,
    pub cycle: u32,
    pub opcode: u8,
}

/// What an operation does: the new registers, at most one byte stored, and
/// whether it asks for the extra cycle.
#[derive(Clone, Copy, Debug)]
pub struct Outcome {
    pub regs: Registers,
    pub store: Option<(u16, u8)>,
    pub extra: bool,
}

pub open spec fn reg_value(regs: Registers, r: Reg) -> u8 {
    match r {
        Reg::A => regs.a,
        Reg::X => regs.x,
        Reg::Y => regs.y,
        Reg::S => regs.sp,
    }
}

pub open spec fn with_reg(regs: Registers, r: Reg, v: u8) -> Registers {
    match r {
        Reg::A => Registers { a: v, ..regs },
        Reg::X => Registers { x: v, ..regs },
        Reg::Y => Registers { y: v, ..regs },
        Reg::S => Registers { sp: v, ..regs },
    }
}

/// Sets Zero and Negative from `v`.
pub open spec fn with_nz(regs: Registers, v: u8) -> Registers {
    Registers { flags: crate::registers::Flags { z: v == 0, n: v >= 128, ..regs.flags }, ..regs }
}

pub open spec fn logic_spec(l: Logic, a: u8, v: u8) -> u8 {
    match l {
        Logic::And => a & v,
        Logic::Or => a | v,
        Logic::Xor => a ^ v,
    }
}

/// Binary addition of `v` and the carry into the accumulator.
pub open spec fn add_spec(regs: Registers, v: u8) -> Registers {
    let sum = regs.a + v + if regs.flags.c { 1int } else { 0int };
    let r = wrap8(sum);
    let overflow = ((regs.a >= 128) == (v >= 128)) && ((r >= 128) != (regs.a >= 128));
    with_nz(Registers { a: r, flags: crate::registers::Flags { c: sum > 255, v: overflow, ..regs.flags }, ..regs }, r)
}

pub open spec fn compare_spec(regs: Registers, reg: u8, v: u8) -> Registers {
    let d = wrap8(reg - v + 256);
    Registers { flags: crate::registers::Flags { c: reg >= v, z: reg == v, n: d >= 128, ..regs.flags }, ..regs }
}

pub open spec fn plain(regs: Registers) -> Outcome {
    Outcome { regs, store: None, extra: false }
}

/// The effect of `op` on `regs`, with its operand at `target` holding `value`.
pub open spec fn operate_spec(op: Op, regs: Registers, target: Target, value: u8) -> Outcome {
    match op {
        Op::Load(r) => Outcome { regs: with_nz(with_reg(regs, r, value), value), store: None, extra: true },
        Op::Store(r) => match target {
            Target::Address(a) => Outcome { regs, store: Some((a, reg_value(regs, r))), extra: false },
            _ => plain(regs),
        },
        Op::Transfer(from, to) => {
            let v = reg_value(regs, from);
            if to == Reg::S {
                plain(with_reg(regs, to, v))
            } else {
                plain(with_nz(with_reg(regs, to, v), v))
            }
        },
        Op::Increment(r) => {
            let v = wrap8(reg_value(regs, r) + 1);
            plain(with_nz(with_reg(regs, r, v), v))
        },
        Op::Decrement(r) => {
            let v = wrap8(reg_value(regs, r) + 255);
            plain(with_nz(with_reg(regs, r, v), v))
        },
        Op::IncrementMemory => match target {
            Target::Address(a) => Outcome { regs: with_nz(regs, wrap8(value + 1)), store: Some((a, wrap8(value + 1))), extra: false },
            _ => plain(regs),
        },
        Op::DecrementMemory => match target {
            Target::Address(a) => Outcome { regs: with_nz(regs, wrap8(value + 255)), store: Some((a, wrap8(value + 255))), extra: false },
            _ => plain(regs),
        },
        Op::Bitwise(l) => {
            let v = logic_spec(l, regs.a, value);
            Outcome { regs: with_nz(Registers { a: v, ..regs }, v), store: None, extra: true }
        },
        Op::AddWithCarry => Outcome { regs: add_spec(regs, value), store: None, extra: true },
        Op::SubtractWithCarry => Outcome { regs: add_spec(regs, (255 - value) as u8), store: None, extra: true },
        Op::Compare(r) => Outcome { regs: compare_spec(regs, reg_value(regs, r), value), store: None, extra: true },
        Op::Branch(f, want) => match target {
            Target::Address(a) => if flag_of(regs.flags, f) == want {
                Outcome { regs: Registers { pc: a, ..regs }, store: None, extra: true }
            } else {
                plain(regs)
            },
            _ => plain(regs),
        },
        Op::Jump => match target {
            Target::Address(a) => plain(Registers { pc: a, ..regs }),
            _ => plain(regs),
        },
        Op::SetFlag(f, v) => plain(Registers { flags: with_flag(regs.flags, f, v), ..regs }),
        Op::NoOperation | Op::Illegal => plain(regs),
    }
}

/// The operand an operation reads from `target`.
pub open spec fn operand_value(target: Target, regs: Registers, bus: &Bus) -> u8 {
    match target {
        Target::Address(a) => bus.peek(a),
        Target::Accumulator => regs.a,
        Target::Implied => 0,
    }
}

/// The instruction whose opcode sits at the program counter.
pub open spec fn fetched(regs: Registers, bus: &Bus) -> Instruction {
    catalog(bus.peek(regs.pc))
}

/// The addressing outcome of that instruction, after the opcode is consumed.
pub open spec fn addressed(regs: Registers, bus: &Bus) -> Resolved {
    resolve_spec(fetched(regs, bus).mode, Registers { pc: wrap16(regs.pc + 1), ..regs }, bus)
}

/// The effect of executing the instruction at the program counter.
pub open spec fn executed(regs: Registers, bus: &Bus) -> Outcome {
    let res = addressed(regs, bus);
    let r = Registers { pc: res.pc, ..regs };
    operate_spec(fetched(regs, bus).op, r, res.target, operand_value(res.target, r, bus))
}

/// The cycles the instruction costs: its base count, plus one when both the
/// addressing and the operation ask for an extra cycle.
pub open spec fn charged(regs: Registers, bus: &Bus) -> int {
    fetched(regs, bus).cycles + if addressed(regs, bus).page_crossed && executed(regs, bus).extra { 1int } else { 0int }
}

/// `after` is `before` with the optional store applied.
pub open spec fn applied(after: &Bus, before: &Bus, store: Option<(u16, u8)>) -> bool {
    match store {
        Some((a, v)) => after.same_but(before, a, v),
        None => after.devices@ == before.devices@,
    }
}

fn get_reg(regs: &Registers, r: Reg) -> (v: u8)
    ensures
        v == reg_value(*regs, r),
{
    match r {
        Reg::A => regs.a,
        Reg::X => regs.x,
        Reg::Y => regs.y,
        Reg::S => regs.sp,
    }
}

fn set_reg(regs: &mut Registers, r: Reg, v: u8)
    ensures
        *final(regs) == with_reg(*old(regs), r, v),
{
    match r {
        Reg::A => regs.a = v,
        Reg::X => regs.x = v,
        Reg::Y => regs.y = v,
        Reg::S => regs.sp = v,
    }
}

fn set_nz(regs: &mut Registers, v: u8)
    ensures
        *final(regs) == with_nz(*old(regs), v),
{
    regs.flags.z = v == 0;
    regs.flags.n = v >= 128;
}

fn add_with_carry(regs: &mut Registers, v: u8)
    ensures
        *final(regs) == add_spec(*old(regs), v),
{
    let carry: u16 = if regs.flags.c { 1 } else { 0 };
    let sum: u16 = regs.a as u16 + v as u16 + carry;
    let r = (sum % 256) as u8;
    let overflow = ((regs.a >= 128) == (v >= 128)) && ((r >= 128) != (regs.a >= 128));
    regs.flags.c = sum > 255;
    regs.flags.v = overflow;
    regs.a = r;
    set_nz(regs, r);
}

fn load(r: Reg, regs: Registers, value: u8) -> (o: Outcome)
    ensures
        o == operate_spec(Op::Load(r), regs, Target::Implied, value),
{
    let mut regs = regs;
    set_reg(&mut regs, r, value);
    set_nz(&mut regs, value);
    Outcome { regs, store: None, extra: true }
}

fn transfer(from: Reg, to: Reg, regs: Registers) -> (o: Outcome)
    ensures
        o == operate_spec(Op::Transfer(from, to), regs, Target::Implied, 0),
{
    let mut regs = regs;
    let v = get_reg(&regs, from);
    set_reg(&mut regs, to, v);
    if to != Reg::S {
        set_nz(&mut regs, v);
    }
    Outcome { regs, store: None, extra: false }
}

fn step_register(r: Reg, up: bool, regs: Registers) -> (o: Outcome)
    ensures
        o == operate_spec(if up { Op::Increment(r) } else { Op::Decrement(r) }, regs, Target::Implied, 0),
{
    let mut regs = regs;
    let v = if up { add8(get_reg(&regs, r), 1) } else { add8(get_reg(&regs, r), 255) };
    set_reg(&mut regs, r, v);
    set_nz(&mut regs, v);
    Outcome { regs, store: None, extra: false }
}

fn step_memory(up: bool, regs: Registers, target: Target, value: u8) -> (o: Outcome)
    ensures
        o == operate_spec(if up { Op::IncrementMemory } else { Op::DecrementMemory }, regs, target, value),
{
    let mut regs = regs;
    match target {
        Target::Address(a) => {
            let v = if up { add8(value, 1) } else { add8(value, 255) };
            set_nz(&mut regs, v);
            Outcome { regs, store: Some((a, v)), extra: false }
        },
        _ => Outcome { regs, store: None, extra: false },
    }
}

fn bitwise(l: Logic, regs: Registers, value: u8) -> (o: Outcome)
    ensures
        o == operate_spec(Op::Bitwise(l), regs, Target::Implied, value),
{
    let mut regs = regs;
    let v = match l {
        Logic::And => regs.a & value,
        Logic::Or => regs.a | value,
        Logic::Xor => regs.a ^ value,
    };
    regs.a = v;
    set_nz(&mut regs, v);
    Outcome { regs, store: None, extra: true }
}

fn compare(r: Reg, regs: Registers, value: u8) -> (o: Outcome)
    ensures
        o == operate_spec(Op::Compare(r), regs, Target::Implied, value),
{
    let mut regs = regs;
    let reg = get_reg(&regs, r);
    let d = ((reg as u16 + 256 - value as u16) % 256) as u8;
    regs.flags.c = reg >= value;
    regs.flags.z = reg == value;
    regs.flags.n = d >= 128;
    Outcome { regs, store: None, extra: true }
}

fn branch(f: Flag, want: bool, regs: Registers, target: Target) -> (o: Outcome)
    ensures
        o == operate_spec(Op::Branch(f, want), regs, target, 0),
{
    let mut regs = regs;
    match target {
        Target::Address(a) => if regs.get_flag(f) == want {
            regs.pc = a;
            Outcome { regs, store: None, extra: true }
        } else {
            Outcome { regs, store: None, extra: false }
        },
        _ => Outcome { regs, store: None, extra: false },
    }
}

/// Performs `op` on the registers; a store is returned, not made.
pub fn operate(op: Op, regs: Registers, target: Target, value: u8) -> (r: Outcome)
    ensures
        r == operate_spec(op, regs, target, value),
{
    match op {
        Op::Load(r) => load(r, regs, value),
        Op::Store(r) => match target {
            Target::Address(a) => Outcome { regs, store: Some((a, get_reg(&regs, r))), extra: false },
            _ => Outcome { regs, store: None, extra: false },
        },
        Op::Transfer(from, to) => transfer(from, to, regs),
        Op::Increment(r) => step_register(r, true, regs),
        Op::Decrement(r) => step_register(r, false, regs),
        Op::IncrementMemory => step_memory(true, regs, target, value),
        Op::DecrementMemory => step_memory(false, regs, target, value),
        Op::Bitwise(l) => bitwise(l, regs, value),
        Op::AddWithCarry => {
            let mut regs = regs;
            add_with_carry(&mut regs, value);
            Outcome { regs, store: None, extra: true }
        },
        Op::SubtractWithCarry => {
            let mut regs = regs;
            add_with_carry(&mut regs, 255 - value);
            Outcome { regs, store: None, extra: true }
        },
        Op::Compare(r) => compare(r, regs, value),
        Op::Branch(f, want) => branch(f, want, regs, target),
        Op::Jump => match target {
            Target::Address(a) => Outcome { regs: Registers { pc: a, ..regs }, store: None, extra: false },
            _ => Outcome { regs, store: None, extra: false },
        },
        Op::SetFlag(f, v) => {
            let mut regs = regs;
            regs.set_flag(f, v);
            Outcome { regs, store: None, extra: false }
        },
        Op::NoOperation | Op::Illegal => Outcome { regs, store: None, extra: false },
    }
}

impl Cpu {
    /// A processor with baseline registers and no instruction in flight.
    pub fn new() -> (r: Cpu)
        ensures
            r.registers == baseline_registers(),
            r.cycle == 0,
            r.opcode == 0,
    {
        Cpu { registers: Registers::new(), cycle: 0, opcode: 0 }
    }

    /// Loads the program counter from the reset vector and clears the
    /// registers, so that the next tick fetches.
    pub fn reset(&mut self, bus: &Bus)
        requires
            bus.wf(),
            bus.covers_all(),
        ensures
            final(self).registers == (Registers {
                pc: word(bus.peek(RESET_VECTOR), bus.peek((RESET_VECTOR + 1) as u16)),
                ..baseline_registers()
            }),
            final(self).cycle == 0,
            final(self).opcode == old(self).opcode,
    {
        let lo = bus.read(RESET_VECTOR);
        let hi = bus.read(RESET_VECTOR + 1);
        let mut regs = Registers::new();
        regs.pc = make_word(lo, hi);
        self.registers = regs;
        self.cycle = 0;
    }

    /// One clock cycle. When no cycles are owed, the instruction at the
    /// program counter is fetched and executed whole, and its cost charged;
    /// every call then counts one cycle down.
    pub fn tick(&mut self, bus: &mut Bus)
        requires
            old(bus).wf(),
            old(bus).covers_all(),
        ensures
            final(bus).wf(),
            final(bus).covers_all(),
            final(bus).processor == old(bus).processor,
            final(bus).devices@.len() == old(bus).devices@.len(),
            old(self).cycle == 0 ==> {
                let regs = old(self).registers;
                &&& final(self).opcode == old(bus).peek(regs.pc)
                &&& final(self).registers == executed(regs, old(bus)).regs
                &&& final(self).cycle == charged(regs, old(bus)) - 1
                &&& applied(final(bus), old(bus), executed(regs, old(bus)).store)
            },
            old(self).cycle != 0 ==> {
                &&& final(self).opcode == old(self).opcode
                &&& final(self).registers == old(self).registers
                &&& final(self).cycle == old(self).cycle - 1
                &&& final(bus).devices@ == old(bus).devices@
            },
    {
        if self.cycle == 0 {
            let ghost regs0 = self.registers;
            self.opcode = bus.read(self.registers.pc);
            self.registers.pc = add16(self.registers.pc, 1);
            let ins = Instruction::lookup(self.opcode);
            self.cycle = ins.cycles as u32;
            let res = resolve(ins.mode, &self.registers, bus);
            self.registers.pc = res.pc;
            let value = match res.target {
                Target::Address(a) => bus.read(a),
                Target::Accumulator => self.registers.a,
                Target::Implied => 0,
            };
            let out = operate(ins.op, self.registers, res.target, value);
            assert(out == executed(regs0, bus));
            self.registers = out.regs;
            if let Some((a, v)) = out.store {
                bus.write(a, v);
            }
            if res.page_crossed && out.extra {
                self.cycle = self.cycle + 1;
            }
        }
        self.cycle = self.cycle - 1;
    }
}

} // verus!

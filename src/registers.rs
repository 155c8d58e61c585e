use vstd::prelude::*;

verus! {

/// The eight status flags of the processor.
#[derive(Clone, Copy, PartialEq, Eq, Structural, Debug)]
pub enum Flag {
    N,
    O,
    B,
    D,
    I,
    Z,
    C,
    U,
}

#[derive(Clone, Copy, PartialEq, Eq, Structural, Debug)]
pub struct Flags {
    pub n: bool,
    pub v: bool,
    pub b: bool,
    pub d: bool,
    pub i: bool,
    pub z: bool,
    pub c: bool,
    pub u: bool,
}

/// The register file. Every field is a fixed-width integer, so wrapping is
/// enforced by the types.
#[derive(Clone, Copy, PartialEq, Eq, Structural, Debug)]
pub struct Registers {
    pub a: u8,
    pub x: u8,
    pub y: u8,
    pub pc: u16,
    pub sp: u8,
    pub flags: Flags,
}

pub open spec fn flag_of(f: Flags, which: Flag) -> bool {
    match which {
        Flag::N => f.n,
        Flag::O => f.v,
        Flag::B => f.b,
        Flag::D => f.d,
        Flag::I => f.i,
        Flag::Z => f.z,
        Flag::C => f.c,
        Flag::U => f.u,
    }
}

pub open spec fn with_flag(f: Flags, which: Flag, value: bool) -> Flags {
    match which {
        Flag::N => Flags { n: value, ..f },
        Flag::O => Flags { v: value, ..f },
        Flag::B => Flags { b: value, ..f },
        Flag::D => Flags { d: value, ..f },
        Flag::I => Flags { i: value, ..f },
        Flag::Z => Flags { z: value, ..f },
        Flag::C => Flags { c: value, ..f },
        Flag::U => Flags { u: value, ..f },
    }
}

pub open spec fn bit(b: bool, weight: u8) -> u8 {
    if b { weight } else { 0 }
}

/// The status byte: N in bit 7, V in 6, U in 5, B in 4, D in 3, I in 2,
/// Z in 1 and C in 0.
pub open spec fn status_byte(f: Flags) -> u8 {
    (bit(f.n, 128) + bit(f.v, 64) + bit(f.u, 32) + bit(f.b, 16) + bit(f.d, 8) + bit(f.i, 4)
        + bit(f.z, 2) + bit(f.c, 1)) as u8
}

/// The baseline flags after a reset: only the unused bit is set.
pub open spec fn reset_flags() -> Flags {
    Flags { n: false, v: false, b: false, d: false, i: false, z: false, c: false, u: true }
}

/// The register file after a reset, before the program counter is loaded.
pub open spec fn baseline_registers() -> Registers {
    Registers { a: 0, x: 0, y: 0, pc: 0, sp: 0xFD, flags: reset_flags() }
}

impl Flags {
    pub fn new() -> (r: Flags)
        ensures
            r == reset_flags(),
    {
        Flags { n: false, v: false, b: false, d: false, i: false, z: false, c: false, u: true }
    }

    pub fn get(&self, which: Flag) -> (r: bool)
        ensures
            r == flag_of(*self, which),
    {
        match which {
            Flag::N => self.n,
            Flag::O => self.v,
            Flag::B => self.b,
            Flag::D => self.d,
            Flag::I => self.i,
            Flag::Z => self.z,
            Flag::C => self.c,
            Flag::U => self.u,
        }
    }

    pub fn set(&mut self, which: Flag, value: bool)
        ensures
            *final(self) == with_flag(*old(self), which, value),
    {
        match which {
            Flag::N => self.n = value,
            Flag::O => self.v = value,
            Flag::B => self.b = value,
            Flag::D => self.d = value,
            Flag::I => self.i = value,
            Flag::Z => self.z = value,
            Flag::C => self.c = value,
            Flag::U => self.u = value,
        }
    }
}

fn weight(b: bool, w: u8) -> (r: u8)
    ensures
        r == bit(b, w),
{
    if b { w } else { 0 }
}

impl Registers {
    /// Baseline register file: zero registers, stack pointer at 0xFD.
    pub fn new() -> (r: Registers)
        ensures
            r == baseline_registers(),
    {
        Registers { a: 0, x: 0, y: 0, pc: 0, sp: 0xFD, flags: Flags::new() }
    }

    pub fn get_flag(&self, which: Flag) -> (r: bool)
        ensures
            r == flag_of(self.flags, which),
    {
        self.flags.get(which)
    }

    pub fn set_flag(&mut self, which: Flag, value: bool)
        ensures
            *final(self) == (Registers { flags: with_flag(old(self).flags, which, value), ..*old(self) }),
    {
        self.flags.set(which, value);
    }

    /// The flags packed into one byte.
    pub fn status(&self) -> (r: u8)
        ensures
            r == status_byte(self.flags),
    {
        let f = self.flags;
        weight(f.n, 128) + weight(f.v, 64) + weight(f.u, 32) + weight(f.b, 16) + weight(f.d, 8)
            + weight(f.i, 4) + weight(f.z, 2) + weight(f.c, 1)
    }
}

} // verus!

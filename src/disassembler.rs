use vstd::prelude::*;
use crate::catalog::{catalog, Instruction, Logic, Op, Reg};
use vstd::arithmetic::div_mod::lemma_add_mod_noop;
use crate::modes::{branch_target, make_word, operand_len, relative_target, word, wrap16, AddrMode};
use crate::registers::Flag;

verus! {

/// Address at which programs are loaded and static decoding starts.
pub const ORIGIN: u16 = 0x8000;

/// The three letters naming an operation.
pub open spec fn mnemonic_spec(op: Op) -> (char, char, char) {
    match op {
        Op::Load(Reg::A) => ('L', 'D', 'A'),
        Op::Load(Reg::X) => ('L', 'D', 'X'),
        Op::Load(Reg::Y) => ('L', 'D', 'Y'),
        Op::Store(Reg::A) => ('S', 'T', 'A'),
        Op::Store(Reg::X) => ('S', 'T', 'X'),
        Op::Store(Reg::Y) => ('S', 'T', 'Y'),
        Op::Transfer(Reg::A, Reg::X) => ('T', 'A', 'X'),
        Op::Transfer(Reg::A, Reg::Y) => ('T', 'A', 'Y'),
        Op::Transfer(Reg::X, Reg::A) => ('T', 'X', 'A'),
        Op::Transfer(Reg::Y, Reg::A) => ('T', 'Y', 'A'),
        Op::Transfer(Reg::S, Reg::X) => ('T', 'S', 'X'),
        Op::Transfer(Reg::X, Reg::S) => ('T', 'X', 'S'),
        Op::Increment(Reg::X) => ('I', 'N', 'X'),
        Op::Increment(Reg::Y) => ('I', 'N', 'Y'),
        Op::Decrement(Reg::X) => ('D', 'E', 'X'),
        Op::Decrement(Reg::Y) => ('D', 'E', 'Y'),
        Op::IncrementMemory => ('I', 'N', 'C'),
        Op::DecrementMemory => ('D', 'E', 'C'),
        Op::Bitwise(Logic::And) => ('A', 'N', 'D'),
        Op::Bitwise(Logic::Or) => ('O', 'R', 'A'),
        Op::Bitwise(Logic::Xor) => ('E', 'O', 'R'),
        Op::AddWithCarry => ('A', 'D', 'C'),
        Op::SubtractWithCarry => ('S', 'B', 'C'),
        Op::Compare(Reg::A) => ('C', 'M', 'P'),
        Op::Compare(Reg::X) => ('C', 'P', 'X'),
        Op::Compare(Reg::Y) => ('C', 'P', 'Y'),
        Op::Branch(Flag::N, false) => ('B', 'P', 'L'),
        Op::Branch(Flag::N, true) => ('B', 'M', 'I'),
        Op::Branch(Flag::O, false) => ('B', 'V', 'C'),
        Op::Branch(Flag::O, true) => ('B', 'V', 'S'),
        Op::Branch(Flag::C, false) => ('B', 'C', 'C'),
        Op::Branch(Flag::C, true) => ('B', 'C', 'S'),
        Op::Branch(Flag::Z, false) => ('B', 'N', 'E'),
        Op::Branch(Flag::Z, true) => ('B', 'E', 'Q'),
        Op::Jump => ('J', 'M', 'P'),
        Op::SetFlag(Flag::C, false) => ('C', 'L', 'C'),
        Op::SetFlag(Flag::C, true) => ('S', 'E', 'C'),
        Op::SetFlag(Flag::I, false) => ('C', 'L', 'I'),
        Op::SetFlag(Flag::I, true) => ('S', 'E', 'I'),
        Op::SetFlag(Flag::O, false) => ('C', 'L', 'V'),
        Op::SetFlag(Flag::D, false) => ('C', 'L', 'D'),
        Op::SetFlag(Flag::D, true) => ('S', 'E', 'D'),
        Op::NoOperation => ('N', 'O', 'P'),
        _ => ('?', '?', '?'),
    }
}

pub open spec fn hex_digit_spec(n: u8) -> char {
    match n {
        0 => '0',
        1 => '1',
        2 => '2',
        3 => '3',
        4 => '4',
        5 => '5',
        6 => '6',
        7 => '7',
        8 => '8',
        9 => '9',
        10 => 'A',
        11 => 'B',
        12 => 'C',
        13 => 'D',
        14 => 'E',
        15 => 'F',
        _ => '?',
    }
}

pub open spec fn hex2(b: u8) -> Seq<char> {
    seq![hex_digit_spec(b / 16), hex_digit_spec(b % 16)]
}

pub open spec fn hex4(w: u16) -> Seq<char> {
    hex2((w / 256) as u8) + hex2((w % 256) as u8)
}

/// The operand as printed: `b0` and `b1` are the operand bytes and `next`
/// the address just past the instruction.
pub open spec fn operand_text(mode: AddrMode, b0: u8, b1: u8, next: u16) -> Seq<char> {
    match mode {
        AddrMode::Implied => seq![],
        AddrMode::Accumulator => seq![' ', 'A'],
        AddrMode::Immediate => seq![' ', '#', '$'] + hex2(b0),
        AddrMode::ZeroPage => seq![' ', '$'] + hex2(b0),
        AddrMode::ZeroPageX => seq![' ', '$'] + hex2(b0) + seq![',', 'X'],
        AddrMode::ZeroPageY => seq![' ', '$'] + hex2(b0) + seq![',', 'Y'],
        AddrMode::Absolute => seq![' ', '$'] + hex4(word(b0, b1)),
        AddrMode::AbsoluteX => seq![' ', '$'] + hex4(word(b0, b1)) + seq![',', 'X'],
        AddrMode::AbsoluteY => seq![' ', '$'] + hex4(word(b0, b1)) + seq![',', 'Y'],
        AddrMode::Indirect => seq![' ', '(', '$'] + hex4(word(b0, b1)) + seq![')'],
        AddrMode::IndexedIndirect => seq![' ', '(', '$'] + hex2(b0) + seq![',', 'X', ')'],
        AddrMode::IndirectIndexed => seq![' ', '(', '$'] + hex2(b0) + seq![')', ',', 'Y'],
        AddrMode::Relative => seq![' ', '$'] + hex4(branch_target(next, b0)),
    }
}

pub open spec fn byte_or_zero(bytes: Seq<u8>, i: int) -> u8 {
    if 0 <= i < bytes.len() { bytes[i] } else { 0 }
}

/// The printed line of the instruction that starts at `pos`.
pub open spec fn line_text(bytes: Seq<u8>, pos: int) -> Seq<char> {
    let ins = catalog(bytes[pos]);
    let m = mnemonic_spec(ins.op);
    let next = wrap16(ORIGIN + pos + 1 + operand_len(ins.mode));
    seq![m.0, m.1, m.2] + operand_text(ins.mode, byte_or_zero(bytes, pos + 1), byte_or_zero(bytes, pos + 2), next)
}

/// Whether a whole instruction starts at `pos`.
pub open spec fn fits(bytes: Seq<u8>, pos: int) -> bool {
    0 <= pos < bytes.len() && pos + 1 + operand_len(catalog(bytes[pos]).mode) <= bytes.len()
}

/// The listing decoded from `pos` on: for each instruction, the address at
/// which it starts (the program counter there, decoding from the origin)
/// and its line. Decoding stops
/// at the end, or before an instruction whose operand is cut off.
pub open spec fn decode_from(bytes: Seq<u8>, pos: int) -> Seq<(u16, Seq<char>)>
    decreases bytes.len() - pos,
{
    if fits(bytes, pos) {
        seq![(wrap16(ORIGIN + pos), line_text(bytes, pos))] + decode_from(bytes, pos + 1 + operand_len(catalog(bytes[pos]).mode))
    } else {
        seq![]
    }
}

pub fn mnemonic(op: Op) -> (r: (char, char, char))
    ensures
        r == mnemonic_spec(op),
{
    match op {
        Op::Load(Reg::A) => ('L', 'D', 'A'),
        Op::Load(Reg::X) => ('L', 'D', 'X'),
        Op::Load(Reg::Y) => ('L', 'D', 'Y'),
        Op::Store(Reg::A) => ('S', 'T', 'A'),
        Op::Store(Reg::X) => ('S', 'T', 'X'),
        Op::Store(Reg::Y) => ('S', 'T', 'Y'),
        Op::Transfer(Reg::A, Reg::X) => ('T', 'A', 'X'),
        Op::Transfer(Reg::A, Reg::Y) => ('T', 'A', 'Y'),
        Op::Transfer(Reg::X, Reg::A) => ('T', 'X', 'A'),
        Op::Transfer(Reg::Y, Reg::A) => ('T', 'Y', 'A'),
        Op::Transfer(Reg::S, Reg::X) => ('T', 'S', 'X'),
        Op::Transfer(Reg::X, Reg::S) => ('T', 'X', 'S'),
        Op::Increment(Reg::X) => ('I', 'N', 'X'),
        Op::Increment(Reg::Y) => ('I', 'N', 'Y'),
        Op::Decrement(Reg::X) => ('D', 'E', 'X'),
        Op::Decrement(Reg::Y) => ('D', 'E', 'Y'),
        Op::IncrementMemory => ('I', 'N', 'C'),
        Op::DecrementMemory => ('D', 'E', 'C'),
        Op::Bitwise(Logic::And) => ('A', 'N', 'D'),
        Op::Bitwise(Logic::Or) => ('O', 'R', 'A'),
        Op::Bitwise(Logic::Xor) => ('E', 'O', 'R'),
        Op::AddWithCarry => ('A', 'D', 'C'),
        Op::SubtractWithCarry => ('S', 'B', 'C'),
        Op::Compare(Reg::A) => ('C', 'M', 'P'),
        Op::Compare(Reg::X) => ('C', 'P', 'X'),
        Op::Compare(Reg::Y) => ('C', 'P', 'Y'),
        Op::Branch(Flag::N, false) => ('B', 'P', 'L'),
        Op::Branch(Flag::N, true) => ('B', 'M', 'I'),
        Op::Branch(Flag::O, false) => ('B', 'V', 'C'),
        Op::Branch(Flag::O, true) => ('B', 'V', 'S'),
        Op::Branch(Flag::C, false) => ('B', 'C', 'C'),
        Op::Branch(Flag::C, true) => ('B', 'C', 'S'),
        Op::Branch(Flag::Z, false) => ('B', 'N', 'E'),
        Op::Branch(Flag::Z, true) => ('B', 'E', 'Q'),
        Op::Jump => ('J', 'M', 'P'),
        Op::SetFlag(Flag::C, false) => ('C', 'L', 'C'),
        Op::SetFlag(Flag::C, true) => ('S', 'E', 'C'),
        Op::SetFlag(Flag::I, false) => ('C', 'L', 'I'),
        Op::SetFlag(Flag::I, true) => ('S', 'E', 'I'),
        Op::SetFlag(Flag::O, false) => ('C', 'L', 'V'),
        Op::SetFlag(Flag::D, false) => ('C', 'L', 'D'),
        Op::SetFlag(Flag::D, true) => ('S', 'E', 'D'),
        Op::NoOperation => ('N', 'O', 'P'),
        _ => ('?', '?', '?'),
    }
}

pub fn hex_digit(n: u8) -> (r: char)
    ensures
        r == hex_digit_spec(n),
{
    match n {
        0 => '0',
        1 => '1',
        2 => '2',
        3 => '3',
        4 => '4',
        5 => '5',
        6 => '6',
        7 => '7',
        8 => '8',
        9 => '9',
        10 => 'A',
        11 => 'B',
        12 => 'C',
        13 => 'D',
        14 => 'E',
        15 => 'F',
        _ => '?',
    }
}

fn push_hex2(text: &mut Vec<char>, b: u8)
    ensures
        final(text)@ == old(text)@ + hex2(b),
{
    text.push(hex_digit(b / 16));
    text.push(hex_digit(b % 16));
    assert(final(text)@ =~= old(text)@ + hex2(b));
}

fn push_hex4(text: &mut Vec<char>, w: u16)
    ensures
        final(text)@ == old(text)@ + hex4(w),
{
    push_hex2(text, (w / 256) as u8);
    push_hex2(text, (w % 256) as u8);
    assert(final(text)@ =~= old(text)@ + hex4(w));
}

fn push_chars(text: &mut Vec<char>, s: &Vec<char>)
    ensures
        final(text)@ == old(text)@ + s@,
{
    let mut i: usize = 0;
    while i < s.len()
        invariant
            i <= s@.len(),
            text@ == old(text)@ + s@.subrange(0, i as int),
        decreases s@.len() - i,
    {
        text.push(s[i]);
        i = i + 1;
        assert(text@ =~= old(text)@ + s@.subrange(0, i as int));
    }
    assert(s@.subrange(0, i as int) =~= s@);
}

/// Appends the printed operand to `text`.
pub fn push_operand(text: &mut Vec<char>, mode: AddrMode, b0: u8, b1: u8, next: u16)
    ensures
        final(text)@ == old(text)@ + operand_text(mode, b0, b1, next),
{
    let ghost start = text@;
    match mode {
        AddrMode::Implied => {},
        AddrMode::Accumulator => push_chars(text, &vec![' ', 'A']),
        AddrMode::Immediate => {
            push_chars(text, &vec![' ', '#', '$']);
            push_hex2(text, b0);
        },
        AddrMode::ZeroPage | AddrMode::ZeroPageX | AddrMode::ZeroPageY => {
            push_chars(text, &vec![' ', '$']);
            push_hex2(text, b0);
            if mode == AddrMode::ZeroPageX {
                push_chars(text, &vec![',', 'X']);
            } else if mode == AddrMode::ZeroPageY {
                push_chars(text, &vec![',', 'Y']);
            }
        },
        AddrMode::Absolute | AddrMode::AbsoluteX | AddrMode::AbsoluteY => {
            push_chars(text, &vec![' ', '$']);
            push_hex4(text, make_word(b0, b1));
            if mode == AddrMode::AbsoluteX {
                push_chars(text, &vec![',', 'X']);
            } else if mode == AddrMode::AbsoluteY {
                push_chars(text, &vec![',', 'Y']);
            }
        },
        AddrMode::Indirect => {
            push_chars(text, &vec![' ', '(', '$']);
            push_hex4(text, make_word(b0, b1));
            push_chars(text, &vec![')']);
        },
        AddrMode::IndexedIndirect => {
            push_chars(text, &vec![' ', '(', '$']);
            push_hex2(text, b0);
            push_chars(text, &vec![',', 'X', ')']);
        },
        AddrMode::IndirectIndexed => {
            push_chars(text, &vec![' ', '(', '$']);
            push_hex2(text, b0);
            push_chars(text, &vec![')', ',', 'Y']);
        },
        AddrMode::Relative => {
            push_chars(text, &vec![' ', '$']);
            push_hex4(text, relative_target(next, b0));
        },
    }
    assert(text@ =~= start + operand_text(mode, b0, b1, next));
}

/// Relies on `String`'s `FromIterator<char>`: the string holds the
/// characters in order.
#[verifier::external_body]
fn collect_string(chars: &Vec<char>) -> (r: String)
    ensures
        r@ == chars@,
{
    chars.iter().collect()
}

pub fn operand_length(mode: AddrMode) -> (r: usize)
    ensures
        r == operand_len(mode),
{
    match mode {
        AddrMode::Implied | AddrMode::Accumulator => 0,
        AddrMode::Absolute | AddrMode::AbsoluteX | AddrMode::AbsoluteY | AddrMode::Indirect => 2,
        _ => 1,
    }
}

/// A static listing: one printed line per decoded instruction, and for each
/// line the program counter at which its instruction starts.
pub struct Disassembler {
    pub program: Vec<String>,
    pub counters: Vec<u16>,
}

impl Disassembler {
    pub open spec fn wf(&self) -> bool {
        self.program@.len() == self.counters@.len()
    }

    /// The listing as pairs of start address and line.
    pub open spec fn listing(&self) -> Seq<(u16, Seq<char>)> {
        Seq::new(self.program@.len(), |i: int| (self.counters@[i], self.program@[i]@))
    }

    /// An empty listing.
    pub fn new() -> (r: Disassembler)
        ensures
            r.wf(),
            r.listing() == Seq::<(u16, Seq<char>)>::empty(),
    {
        let r = Disassembler { program: Vec::new(), counters: Vec::new() };
        assert(r.listing() =~= Seq::<(u16, Seq<char>)>::empty());
        r
    }

    /// Decodes `bytes` as if loaded at the origin, without executing them.
    pub fn disassemble(bytes: &Vec<u8>) -> (r: Disassembler)
        ensures
            r.wf(),
            r.listing() == decode_from(bytes@, 0),
    {
        let mut r = Disassembler::new();
        let len = bytes.len();
        let mut pos: usize = 0;
        while pos < len
            invariant
                len == bytes@.len(),
                pos <= len,
                r.wf(),
                r.listing() + decode_from(bytes@, pos as int) == decode_from(bytes@, 0),
            decreases len - pos,
        {
            let ins = Instruction::lookup(bytes[pos]);
            let n = operand_length(ins.mode);
            if n >= len - pos {
                assert(!fits(bytes@, pos as int));
                assert(r.listing() =~= decode_from(bytes@, 0));
                return r;
            }
            let b0 = if len - pos > 1 { bytes[pos + 1] } else { 0 };
            let b1 = if len - pos > 2 { bytes[pos + 2] } else { 0 };
            let base = (pos % 65536) as u32;
            let start = ((ORIGIN as u32 + base) % 65536) as u16;
            let next = ((ORIGIN as u32 + base + 1 + n as u32) % 65536) as u16;
            proof {
                lemma_add_mod_noop(pos as int, ORIGIN as int, 65536);
                lemma_add_mod_noop(pos as int, ORIGIN + 1 + n, 65536);
                assert(start == wrap16(ORIGIN + pos));
                assert(next == wrap16(ORIGIN + pos + 1 + n));
            }
            let m = mnemonic(ins.op);
            let mut text: Vec<char> = Vec::new();
            text.push(m.0);
            text.push(m.1);
            text.push(m.2);
            push_operand(&mut text, ins.mode, b0, b1, next);
            assert(text@ =~= line_text(bytes@, pos as int));
            let line = collect_string(&text);
            let ghost before = r.listing();
            r.program.push(line);
            r.counters.push(start);
            assert(r.listing() =~= before.push((start, line@)));
            pos = pos + 1 + n;
            assert(r.listing() + decode_from(bytes@, pos as int) =~= before + decode_from(bytes@, (pos - 1 - n) as int));
        }
        assert(r.listing() =~= decode_from(bytes@, 0));
        r
    }

    /// The index of the first line whose instruction starts at `pc`.
    pub fn line_index(&self, pc: u16) -> (r: Option<usize>)
        requires
            self.wf(),
        ensures
            match r {
                Some(i) => i < self.counters@.len() && self.counters@[i as int] == pc
                    && forall|j: int| 0 <= j < i ==> self.counters@[j] != pc,
                None => forall|j: int| 0 <= j < self.counters@.len() ==> self.counters@[j] != pc,
            },
    {
        let mut i: usize = 0;
        while i < self.counters.len()
            invariant
                i <= self.counters@.len(),
                forall|j: int| 0 <= j < i ==> self.counters@[j] != pc,
            decreases self.counters@.len() - i,
        {
            if self.counters[i] == pc {
                return Some(i);
            }
            i = i + 1;
        }
        None
    }

    /// Whether some decoded instruction starts at `pc`.
    pub fn starts_at(&self, pc: u16) -> (r: bool)
        requires
            self.wf(),
        ensures
            r == exists|j: int| 0 <= j < self.counters@.len() && self.counters@[j] == pc,
    {
        match self.line_index(pc) {
            Some(i) => true,
            None => false,
        }
    }

    /// An independent copy.
    pub fn duplicate(&self) -> (r: Disassembler)
        requires
            self.wf(),
        ensures
            r.wf(),
            r.listing() == self.listing(),
            r.counters@ == self.counters@,
    {
        let mut program: Vec<String> = Vec::new();
        let mut i: usize = 0;
        while i < self.program.len()
            invariant
                i <= self.program@.len(),
                program@.len() == i,
                forall|j: int| 0 <= j < i ==> (#[trigger] program@[j])@ == self.program@[j]@,
            decreases self.program@.len() - i,
        {
            program.push(self.program[i].clone());
            i = i + 1;
        }
        let counters = self.counters.clone();
        assert(counters@ =~= self.counters@);
        let r = Disassembler { program, counters };
        assert(r.listing() =~= self.listing());
        r
    }
}

} // verus!

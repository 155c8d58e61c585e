use vstd::prelude::*;
use vstd::std_specs::iter::IteratorSpec;

verus! {

/// The characters with the Unicode White_Space property.
pub open spec fn is_space_spec(c: char) -> bool {
    ('\t' <= c <= '\r') || c == ' ' || c == '\u{85}' || c == '\u{a0}' || c == '\u{1680}'
        || ('\u{2000}' <= c <= '\u{200a}') || c == '\u{2028}' || c == '\u{2029}' || c == '\u{202f}'
        || c == '\u{205f}' || c == '\u{3000}'
}

/// The value of a hexadecimal digit, either case.
pub open spec fn hex_value(c: char) -> int {
    if '0' <= c <= '9' {
        c as int - '0' as int
    } else if 'a' <= c <= 'f' {
        c as int - 'a' as int + 10
    } else {
        c as int - 'A' as int + 10
    }
}

pub open spec fn is_hex(c: char) -> bool {
    ('0' <= c <= '9') || ('a' <= c <= 'f') || ('A' <= c <= 'F')
}

pub open spec fn all_hex(s: Seq<char>) -> bool {
    forall|i: int| 0 <= i < s.len() ==> is_hex(#[trigger] s[i])
}

/// The number written by the hexadecimal digits `s`.
pub open spec fn hex_number(s: Seq<char>) -> int
    decreases s.len(),
{
    if s.len() == 0 {
        0
    } else {
        hex_number(s.drop_last()) * 16 + hex_value(s.last())
    }
}

/// The byte a token stands for: an optional `+`, then one or more
/// hexadecimal digits whose value fits in a byte.
pub open spec fn token_byte(t: Seq<char>) -> Option<u8> {
    let d = if t.len() > 0 && t[0] == '+' { t.drop_first() } else { t };
    if d.len() > 0 && all_hex(d) && hex_number(d) < 256 {
        Some(hex_number(d) as u8)
    } else {
        None
    }
}

/// Where the token that starts at `i` ends.
pub open spec fn token_end(text: Seq<char>, i: int) -> int
    decreases text.len() - i,
{
    if i >= text.len() || is_space_spec(text[i]) {
        i
    } else {
        token_end(text, i + 1)
    }
}

/// The bytes of an image from position `i` on: whitespace-separated tokens,
/// each giving one byte; a token that is not a byte is skipped.
pub open spec fn image_bytes(text: Seq<char>, i: int) -> Seq<u8>
    decreases text.len() - i, 1int,
{
    if i < 0 || i >= text.len() {
        seq![]
    } else if is_space_spec(text[i]) {
        image_bytes(text, i + 1)
    } else {
        let j = token_end(text, i);
        let rest = if i < j <= text.len() { image_bytes(text, j) } else { seq![] };
        match token_byte(text.subrange(i, j)) {
            Some(b) => seq![b] + rest,
            None => rest,
        }
    }
}

proof fn lemma_token_end(text: Seq<char>, i: int)
    requires
        0 <= i < text.len(),
        !is_space_spec(text[i]),
    ensures
        i < token_end(text, i) <= text.len(),
    decreases text.len() - i,
{
    assert(token_end(text, i) == token_end(text, i + 1));
    if i + 1 < text.len() && !is_space_spec(text[i + 1]) {
        lemma_token_end(text, i + 1);
    } else {
        assert(token_end(text, i + 1) == i + 1);
    }
}

/// The characters of `s`, in order.
fn chars_of(s: &str) -> (r: Vec<char>)
    ensures
        r@ == s@,
{
    broadcast use vstd::string::axiom_spec_iter, vstd::string::next_postcondition;

    let mut it = s.chars();
    let mut out: Vec<char> = Vec::new();
    loop
        invariant
            out@ + it.remaining() == s@,
            it.obeys_prophetic_iter_laws(),
            it.decrease() is Some,
        ensures
            out@ == s@,
        decreases it.decrease()->0,
    {
        match it.next() {
            Some(c) => {
                out.push(c);
                assert(out@ + it.remaining() =~= s@);
            },
            None => {
                assert(out@ =~= s@);
                break;
            },
        }
    }
    out
}

pub fn is_space(c: char) -> (r: bool)
    ensures
        r == is_space_spec(c),
{
    ('\t' <= c && c <= '\r') || c == ' ' || c == '\u{85}' || c == '\u{a0}' || c == '\u{1680}'
        || ('\u{2000}' <= c && c <= '\u{200a}') || c == '\u{2028}' || c == '\u{2029}' || c == '\u{202f}'
        || c == '\u{205f}' || c == '\u{3000}'
}

fn digit_value(c: char) -> (r: u32)
    requires
        is_hex(c),
    ensures
        r == hex_value(c),
        r < 16,
{
    if '0' <= c && c <= '9' {
        (c as u32) - ('0' as u32)
    } else if 'a' <= c && c <= 'f' {
        (c as u32) - ('a' as u32) + 10
    } else {
        (c as u32) - ('A' as u32) + 10
    }
}

/// The byte of the token `text[start..end]`, if it is one.
pub fn parse_token(text: &Vec<char>, start: usize, end: usize) -> (r: Option<u8>)
    requires
        start <= end <= text@.len(),
    ensures
        r == token_byte(text@.subrange(start as int, end as int)),
{
    let ghost t = text@.subrange(start as int, end as int);
    let mut i = start;
    if i < end && text[i] == '+' {
        i = i + 1;
    }
    let ghost d = text@.subrange(i as int, end as int);
    assert(d == if t.len() > 0 && t[0] == '+' { t.drop_first() } else { t });
    if i == end {
        return None;
    }
    let first = i;
    // the value so far, held at 256 once it no longer fits a byte
    let mut value: u32 = 0;
    while i < end
        invariant
            start <= first <= i <= end <= text@.len(),
            d == text@.subrange(first as int, end as int),
            t == text@.subrange(start as int, end as int),
            d == if t.len() > 0 && t[0] == '+' { t.drop_first() } else { t },
            all_hex(text@.subrange(first as int, i as int)),
            value == if hex_number(text@.subrange(first as int, i as int)) < 256 {
                hex_number(text@.subrange(first as int, i as int))
            } else {
                256
            },
            0 <= hex_number(text@.subrange(first as int, i as int)),
        decreases end - i,
    {
        let c = text[i];
        let ghost p = text@.subrange(first as int, i as int);
        let ghost q = text@.subrange(first as int, i + 1);
        assert(q.drop_last() =~= p);
        if !(('0' <= c && c <= '9') || ('a' <= c && c <= 'f') || ('A' <= c && c <= 'F')) {
            assert(d[i - first] == c);
            assert(!is_hex(d[i - first]));
            assert(!all_hex(d));
            return None;
        }
        let v = digit_value(c);
        value = if value >= 256 { 256 } else if value * 16 + v >= 256 { 256 } else { value * 16 + v };
        i = i + 1;
        assert(all_hex(q)) by {
            assert forall|k: int| 0 <= k < q.len() implies is_hex(#[trigger] q[k]) by {
                if k < p.len() {
                    assert(q[k] == p[k]);
                }
            }
        }
    }
    assert(text@.subrange(first as int, i as int) =~= d);
    if value < 256 {
        Some(value as u8)
    } else {
        None
    }
}

/// The bytes of a program image: whitespace-separated hexadecimal tokens,
/// malformed ones skipped.
pub fn parse_program(text: &str) -> (r: Vec<u8>)
    ensures
        r@ == image_bytes(text@, 0),
{
    let chars = chars_of(text);
    let n = chars.len();
    let mut out: Vec<u8> = Vec::new();
    let mut i: usize = 0;
    while i < n
        invariant
            n == chars@.len(),
            chars@ == text@,
            i <= n,
            out@ + image_bytes(chars@, i as int) == image_bytes(chars@, 0),
        decreases n - i,
    {
        if is_space(chars[i]) {
            i = i + 1;
        } else {
            let mut j = i;
            while j < n && !is_space(chars[j])
                invariant
                    i <= j <= n,
                    n == chars@.len(),
                    token_end(chars@, i as int) == token_end(chars@, j as int),
                decreases n - j,
            {
                j = j + 1;
            }
            proof {
                lemma_token_end(chars@, i as int);
            }
            let ghost before = out@;
            match parse_token(&chars, i, j) {
                Some(b) => {
                    out.push(b);
                    assert(out@ + image_bytes(chars@, j as int) =~= before + image_bytes(chars@, i as int));
                },
                None => {},
            }
            i = j;
        }
    }
    out
}

} // verus!

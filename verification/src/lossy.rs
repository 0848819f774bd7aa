//! Lossy UTF-8 decoding, as `String::from_utf8_lossy` does it: every
//! well-formed sequence becomes its character, and every maximal prefix of
//! an ill-formed one becomes one U+FFFD REPLACEMENT CHARACTER.
use crate::text::{owned, push_char};
use vstd::prelude::*;

verus! {

pub open spec fn is_cont(b: u8) -> bool {
    0x80 <= b && b <= 0xbf
}

/// The bounds a second byte must keep after the lead byte `a` of a three-
/// or four-byte sequence (no overlong form, no surrogate, nothing past
/// U+10FFFF).
pub open spec fn second_ok(a: u8, b: u8) -> bool {
    if a == 0xe0 {
        0xa0 <= b && b <= 0xbf
    } else if a == 0xed {
        0x80 <= b && b <= 0x9f
    } else if a == 0xf0 {
        0x90 <= b && b <= 0xbf
    } else if a == 0xf4 {
        0x80 <= b && b <= 0x8f
    } else {
        is_cont(b)
    }
}

/// How many bytes the lead byte `a` announces (0 when it leads nothing).
pub open spec fn width(a: u8) -> int {
    if a < 0x80 {
        1
    } else if 0xc2 <= a && a <= 0xdf {
        2
    } else if 0xe0 <= a && a <= 0xef {
        3
    } else if 0xf0 <= a && a <= 0xf4 {
        4
    } else {
        0
    }
}

/// How many bytes at the start of the non-empty `s` form one well-formed
/// character, or one maximal ill-formed prefix.
pub open spec fn step_len(s: Seq<u8>) -> int {
    let w = width(s[0]);
    if w <= 1 {
        1
    } else if s.len() < 2 || !(if w == 2 {
        is_cont(s[1])
    } else {
        second_ok(s[0], s[1])
    }) {
        1
    } else if w == 2 {
        2
    } else if s.len() < 3 || !is_cont(s[2]) {
        2
    } else if w == 3 {
        3
    } else if s.len() < 4 || !is_cont(s[3]) {
        3
    } else {
        4
    }
}

/// Whether the first `step_len(s)` bytes are a well-formed character.
pub open spec fn step_ok(s: Seq<u8>) -> bool {
    step_len(s) == width(s[0])
}

/// The code of the well-formed character that `s` starts with.
pub open spec fn step_code(s: Seq<u8>) -> int {
    let w = width(s[0]);
    if w == 1 {
        s[0] as int
    } else if w == 2 {
        (s[0] - 0xc0) * 64 + (s[1] - 0x80)
    } else if w == 3 {
        (s[0] - 0xe0) * 4096 + (s[1] - 0x80) * 64 + (s[2] - 0x80)
    } else {
        (s[0] - 0xf0) * 262144 + (s[1] - 0x80) * 4096 + (s[2] - 0x80) * 64 + (s[3] - 0x80)
    }
}

/// `String::from_utf8_lossy(b)`, as characters.
pub open spec fn lossy_utf8(b: Seq<u8>) -> Seq<char>
    decreases b.len(),
{
    if b.len() == 0 {
        seq![]
    } else {
        let c = if step_ok(b) {
            step_code(b) as u32 as char
        } else {
            '\u{fffd}'
        };
        seq![c] + lossy_utf8(b.skip(step_len(b)))
    }
}

/// `char::from_u32`: the character whose code is `v`, when `v` is a Unicode
/// scalar value (below U+D800, or from U+E000 to U+10FFFF); else nothing.
#[verifier::external_body]
fn char_from_code(v: u32) -> (r: Option<char>)
    ensures
        r is Some <==> (v < 0xd800 || (0xe000 <= v && v <= 0x10ffff)),
        r matches Some(c) ==> c as u32 == v,
{
    char::from_u32(v)
}

fn is_cont_exec(b: u8) -> (r: bool)
    ensures
        r == is_cont(b),
{
    0x80 <= b && b <= 0xbf
}

fn width_exec(a: u8) -> (w: usize)
    ensures
        w == width(a),
{
    if a < 0x80 {
        1
    } else if 0xc2 <= a && a <= 0xdf {
        2
    } else if 0xe0 <= a && a <= 0xef {
        3
    } else if 0xf0 <= a && a <= 0xf4 {
        4
    } else {
        0
    }
}

fn second_ok_exec(a: u8, b: u8) -> (r: bool)
    ensures
        r == second_ok(a, b),
{
    if a == 0xe0 {
        0xa0 <= b && b <= 0xbf
    } else if a == 0xed {
        0x80 <= b && b <= 0x9f
    } else if a == 0xf0 {
        0x90 <= b && b <= 0xbf
    } else if a == 0xf4 {
        0x80 <= b && b <= 0x8f
    } else {
        is_cont_exec(b)
    }
}

/// One step of the decoding at byte `i`: the character it gives and the
/// bytes it takes.
fn lossy_step(b: &Vec<u8>, i: usize) -> (r: (char, usize))
    requires
        i < b@.len(),
    ensures
        r.1 == step_len(b@.skip(i as int)),
        r.0 == if step_ok(b@.skip(i as int)) {
            step_code(b@.skip(i as int)) as u32 as char
        } else {
            '\u{fffd}'
        },
{
    let ghost s = b@.skip(i as int);
    assert(s[0] == b@[i as int]);
    let n = b.len() - i;
    let a = b[i];
    let w = width_exec(a);
    let len: usize = if w <= 1 {
        1
    } else if n < 2 || !(if w == 2 {
        is_cont_exec(b[i + 1])
    } else {
        second_ok_exec(a, b[i + 1])
    }) {
        1
    } else if w == 2 {
        2
    } else if n < 3 || !is_cont_exec(b[i + 2]) {
        2
    } else if w == 3 {
        3
    } else if n < 4 || !is_cont_exec(b[i + 3]) {
        3
    } else {
        4
    };
    proof {
        if n >= 2 {
            assert(s[1] == b@[i + 1]);
        }
        if n >= 3 {
            assert(s[2] == b@[i + 2]);
        }
        if n >= 4 {
            assert(s[3] == b@[i + 3]);
        }
    }
    if len != w {
        return ('\u{fffd}', len);
    }
    let code: u32 = if w == 1 {
        a as u32
    } else if w == 2 {
        (a as u32 - 0xc0) * 64 + (b[i + 1] as u32 - 0x80)
    } else if w == 3 {
        (a as u32 - 0xe0) * 4096 + (b[i + 1] as u32 - 0x80) * 64 + (b[i + 2] as u32 - 0x80)
    } else {
        (a as u32 - 0xf0) * 262144 + (b[i + 1] as u32 - 0x80) * 4096 + (b[i + 2] as u32 - 0x80)
            * 64 + (b[i + 3] as u32 - 0x80)
    };
    assert(code == step_code(s));
    assert(code < 0xd800 || (0xe000 <= code && code <= 0x10ffff));
    match char_from_code(code) {
        Some(c) => {
            proof {
                vstd::utf8::char_u32_cast(c, code);
            }
            (c, len)
        },
        None => ('\u{fffd}', len),
    }
}

/// `prefix` followed by `String::from_utf8_lossy(b)`.
pub fn lossy_string(prefix: &str, b: &Vec<u8>) -> (s: String)
    ensures
        s@ == prefix@ + lossy_utf8(b@),
{
    let mut s = owned(prefix);
    let mut i: usize = 0;
    assert(b@.skip(0) =~= b@);
    while i < b.len()
        invariant
            i <= b@.len(),
            s@ + lossy_utf8(b@.skip(i as int)) == prefix@ + lossy_utf8(b@),
        decreases b@.len() - i,
    {
        let (c, k) = lossy_step(b, i);
        let ghost t = b@.skip(i as int);
        assert(1 <= k <= t.len());
        assert(t.skip(k as int) =~= b@.skip(i + k));
        assert(lossy_utf8(t) == seq![c] + lossy_utf8(b@.skip(i + k)));
        let ghost before = s@;
        push_char(&mut s, c);
        assert(s@ + lossy_utf8(b@.skip(i + k)) =~= before + lossy_utf8(t));
        i = i + k;
    }
    assert(b@.skip(i as int) =~= Seq::<u8>::empty());
    assert(s@ + Seq::<char>::empty() =~= s@);
    s
}

} // verus!

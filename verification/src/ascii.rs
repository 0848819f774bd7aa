//! Byte-level text: ASCII trimming, decimal integers and their digits.
//!
//! Whitespace here is that of `char::is_whitespace`, matched on its UTF-8
//! encoding, so trimming bytes trims the text they encode as `str::trim`
//! does; integer syntax is that of Rust's `FromStr` for integers.
use vstd::prelude::*;

verus! {

pub open spec fn is_ascii_ws(b: u8) -> bool {
    b == 32 || (9 <= b && b <= 13)
}

/// The three-byte UTF-8 encodings of whitespace: U+1680, U+2000..U+200A,
/// U+2028, U+2029, U+202F, U+205F and U+3000.
pub open spec fn is_ws3(a: u8, b: u8, c: u8) -> bool {
    ||| a == 0xe1 && b == 0x9a && c == 0x80
    ||| a == 0xe2 && b == 0x80 && ((0x80 <= c && c <= 0x8a) || c == 0xa8 || c == 0xa9 || c == 0xaf)
    ||| a == 0xe2 && b == 0x81 && c == 0x9f
    ||| a == 0xe3 && b == 0x80 && c == 0x80
}

/// The length of the UTF-8 encoded whitespace character (in the sense of
/// `char::is_whitespace`) that `s` starts with, or 0.
pub open spec fn ws_prefix_len(s: Seq<u8>) -> int {
    if s.len() >= 1 && is_ascii_ws(s[0]) {
        1
    } else if s.len() >= 2 && s[0] == 0xc2 && (s[1] == 0x85 || s[1] == 0xa0) {
        2
    } else if s.len() >= 3 && is_ws3(s[0], s[1], s[2]) {
        3
    } else {
        0
    }
}

/// The length of the UTF-8 encoded whitespace character that `s` ends
/// with, or 0.
pub open spec fn ws_suffix_len(s: Seq<u8>) -> int {
    let n = s.len() as int;
    if n >= 1 && is_ascii_ws(s[n - 1]) {
        1
    } else if n >= 2 && s[n - 2] == 0xc2 && (s[n - 1] == 0x85 || s[n - 1] == 0xa0) {
        2
    } else if n >= 3 && is_ws3(s[n - 3], s[n - 2], s[n - 1]) {
        3
    } else {
        0
    }
}

pub open spec fn btrim_start(s: Seq<u8>) -> Seq<u8>
    decreases s.len(),
{
    if ws_prefix_len(s) > 0 {
        btrim_start(s.skip(ws_prefix_len(s)))
    } else {
        s
    }
}

pub open spec fn btrim_end(s: Seq<u8>) -> Seq<u8>
    decreases s.len(),
{
    if ws_suffix_len(s) > 0 {
        btrim_end(s.take(s.len() - ws_suffix_len(s)))
    } else {
        s
    }
}

/// `str::trim` on the bytes of a text: whitespace characters, encoded in
/// UTF-8, removed from both ends.
pub open spec fn btrim(s: Seq<u8>) -> Seq<u8> {
    btrim_end(btrim_start(s))
}

/// `s` with every leading `q` removed (`trim_start_matches`).
pub open spec fn strip_start(s: Seq<u8>, q: u8) -> Seq<u8>
    decreases s.len(),
{
    if s.len() > 0 && s[0] == q {
        strip_start(s.drop_first(), q)
    } else {
        s
    }
}

/// `s` with every trailing `q` removed (`trim_end_matches`).
pub open spec fn strip_end(s: Seq<u8>, q: u8) -> Seq<u8>
    decreases s.len(),
{
    if s.len() > 0 && s.last() == q {
        strip_end(s.drop_last(), q)
    } else {
        s
    }
}

pub open spec fn is_digit(b: u8) -> bool {
    48 <= b && b <= 57
}

pub open spec fn all_digits(s: Seq<u8>) -> bool {
    forall|i: int| 0 <= i < s.len() ==> is_digit(#[trigger] s[i])
}

/// The number written by the decimal digits `s`.
pub open spec fn digits_value(s: Seq<u8>) -> nat
    decreases s.len(),
{
    if s.len() == 0 {
        0
    } else {
        digits_value(s.drop_last()) * 10 + (s.last() - 48) as nat
    }
}

/// `<i64 as FromStr>::from_str`: an optional `+` or `-`, then one or more
/// ASCII digits, and a value inside the range of `i64`.
pub open spec fn parse_i64(s: Seq<u8>) -> Option<int> {
    let neg = s.len() > 0 && s[0] == 45;
    let signed = s.len() > 0 && (s[0] == 43 || s[0] == 45);
    let d = if signed {
        s.drop_first()
    } else {
        s
    };
    if d.len() == 0 || !all_digits(d) {
        None
    } else {
        let v: int = if neg {
            -(digits_value(d) as int)
        } else {
            digits_value(d) as int
        };
        if i64::MIN <= v <= i64::MAX {
            Some(v)
        } else {
            None
        }
    }
}

/// `<usize as FromStr>::from_str`: an optional `+`, then one or more ASCII
/// digits, and a value that fits in `usize`.
pub open spec fn parse_usize(s: Seq<u8>) -> Option<int> {
    let d = if s.len() > 0 && s[0] == 43 {
        s.drop_first()
    } else {
        s
    };
    if d.len() == 0 || !all_digits(d) || digits_value(d) > usize::MAX {
        None
    } else {
        Some(digits_value(d) as int)
    }
}

/// The decimal digits of `n`, most significant first, no leading zeros.
pub open spec fn decimal(n: nat) -> Seq<u8>
    decreases n,
{
    if n < 10 {
        seq![(48 + n) as u8]
    } else {
        decimal(n / 10).push((48 + n % 10) as u8)
    }
}

pub proof fn lemma_digits_value_prefix(s: Seq<u8>, k: int)
    requires
        0 <= k <= s.len(),
    ensures
        digits_value(s.take(k)) <= digits_value(s),
    decreases s.len(),
{
    if k < s.len() {
        lemma_digits_value_prefix(s.drop_last(), k);
        assert(s.drop_last().take(k) == s.take(k));
    } else {
        assert(s.take(k) == s);
    }
}

/// `s[lo..hi]`, as a new vector.
pub fn sub_bytes(s: &[u8], lo: usize, hi: usize) -> (r: Vec<u8>)
    requires
        lo <= hi <= s.len(),
    ensures
        r@ == s@.subrange(lo as int, hi as int),
{
    let mut r: Vec<u8> = Vec::new();
    let mut i = lo;
    while i < hi
        invariant
            lo <= i <= hi <= s.len(),
            r@ == s@.subrange(lo as int, i as int),
        decreases hi - i,
    {
        r.push(s[i]);
        assert(s@.subrange(lo as int, i + 1) == s@.subrange(lo as int, i as int).push(s@[i as int]));
        i = i + 1;
    }
    r
}

proof fn lemma_strip_start_skip(s: Seq<u8>, q: u8, i: int)
    requires
        0 <= i <= s.len(),
        forall|j: int| 0 <= j < i ==> #[trigger] s[j] == q,
    ensures
        strip_start(s, q) == strip_start(s.subrange(i, s.len() as int), q),
    decreases i,
{
    if i > 0 {
        lemma_strip_start_skip(s.drop_first(), q, i - 1);
        assert(s.drop_first().subrange(i - 1, s.drop_first().len() as int) == s.subrange(
            i,
            s.len() as int,
        ));
    } else {
        assert(s.subrange(0, s.len() as int) == s);
    }
}

proof fn lemma_strip_end_skip(s: Seq<u8>, q: u8, j: int)
    requires
        0 <= j <= s.len(),
        forall|k: int| j <= k < s.len() ==> #[trigger] s[k] == q,
    ensures
        strip_end(s, q) == strip_end(s.subrange(0, j), q),
    decreases s.len() - j,
{
    if j < s.len() {
        lemma_strip_end_skip(s.drop_last(), q, j);
        assert(s.drop_last().subrange(0, j) == s.subrange(0, j));
    } else {
        assert(s.subrange(0, s.len() as int) == s);
    }
}

/// `ws_prefix_len` of `s[lo..hi]`, computed.
fn ws_len_at(s: &[u8], lo: usize, hi: usize) -> (k: usize)
    requires
        lo <= hi <= s.len(),
    ensures
        k == ws_prefix_len(s@.subrange(lo as int, hi as int)),
{
    let n = hi - lo;
    if n >= 1 && (s[lo] == 32 || (9 <= s[lo] && s[lo] <= 13)) {
        1
    } else if n >= 2 && s[lo] == 0xc2 && (s[lo + 1] == 0x85 || s[lo + 1] == 0xa0) {
        2
    } else if n >= 3 && ws3_exec(s[lo], s[lo + 1], s[lo + 2]) {
        3
    } else {
        0
    }
}

/// `ws_suffix_len` of `s[lo..hi]`, computed.
fn ws_len_before(s: &[u8], lo: usize, hi: usize) -> (k: usize)
    requires
        lo <= hi <= s.len(),
    ensures
        k == ws_suffix_len(s@.subrange(lo as int, hi as int)),
{
    let n = hi - lo;
    if n >= 1 && (s[hi - 1] == 32 || (9 <= s[hi - 1] && s[hi - 1] <= 13)) {
        1
    } else if n >= 2 && s[hi - 2] == 0xc2 && (s[hi - 1] == 0x85 || s[hi - 1] == 0xa0) {
        2
    } else if n >= 3 && ws3_exec(s[hi - 3], s[hi - 2], s[hi - 1]) {
        3
    } else {
        0
    }
}

fn ws3_exec(a: u8, b: u8, c: u8) -> (r: bool)
    ensures
        r == is_ws3(a, b, c),
{
    (a == 0xe1 && b == 0x9a && c == 0x80) || (a == 0xe2 && b == 0x80 && ((0x80 <= c && c <= 0x8a)
        || c == 0xa8 || c == 0xa9 || c == 0xaf)) || (a == 0xe2 && b == 0x81 && c == 0x9f) || (a
        == 0xe3 && b == 0x80 && c == 0x80)
}

/// `str::trim` on the bytes of a text.
pub fn trim_bytes(s: &[u8]) -> (r: Vec<u8>)
    ensures
        r@ == btrim(s@),
{
    let n = s.len();
    let mut lo: usize = 0;
    assert(s@.subrange(0, n as int) =~= s@);
    loop
        invariant
            lo <= n,
            n == s@.len(),
            btrim_start(s@) == btrim_start(s@.subrange(lo as int, n as int)),
        ensures
            lo <= n,
            btrim_start(s@) == s@.subrange(lo as int, n as int),
        decreases n - lo,
    {
        let k = ws_len_at(s, lo, n);
        if k == 0 {
            break;
        }
        assert(s@.subrange(lo as int, n as int).skip(k as int) =~= s@.subrange(lo + k, n as int));
        lo = lo + k;
    }
    let ghost t = s@.subrange(lo as int, n as int);
    let mut hi: usize = n;
    assert(s@.subrange(lo as int, hi as int) =~= t);
    loop
        invariant
            lo <= hi <= n,
            n == s@.len(),
            btrim_end(t) == btrim_end(s@.subrange(lo as int, hi as int)),
        ensures
            lo <= hi <= n,
            btrim_end(t) == s@.subrange(lo as int, hi as int),
        decreases hi - lo,
    {
        let k = ws_len_before(s, lo, hi);
        if k == 0 {
            break;
        }
        assert(s@.subrange(lo as int, hi as int).take(hi - lo - k) =~= s@.subrange(
            lo as int,
            hi - k,
        ));
        hi = hi - k;
    }
    sub_bytes(s, lo, hi)
}

/// `trim_matches(q)`: every leading and trailing `q` removed.
pub fn strip_bytes(s: &[u8], q: u8) -> (r: Vec<u8>)
    ensures
        r@ == strip_end(strip_start(s@, q), q),
{
    let mut lo: usize = 0;
    while lo < s.len() && s[lo] == q
        invariant
            lo <= s.len(),
            forall|j: int| 0 <= j < lo ==> #[trigger] s@[j] == q,
        decreases s.len() - lo,
    {
        lo = lo + 1;
    }
    proof {
        lemma_strip_start_skip(s@, q, lo as int);
    }
    let ghost t = s@.subrange(lo as int, s.len() as int);
    assert(strip_start(t, q) == t);
    let mut hi: usize = s.len();
    while hi > lo && s[hi - 1] == q
        invariant
            lo <= hi <= s.len(),
            t == s@.subrange(lo as int, s.len() as int),
            forall|k: int| hi <= k < s.len() ==> #[trigger] s@[k] == q,
        decreases hi - lo,
    {
        hi = hi - 1;
    }
    proof {
        let hj = hi - lo;
        assert forall|k: int| hj <= k < t.len() implies #[trigger] t[k] == q by {
            assert(t[k] == s@[k + lo]);
        }
        lemma_strip_end_skip(t, q, hj as int);
        assert(t.subrange(0, hj as int) == s@.subrange(lo as int, hi as int));
    }
    sub_bytes(s, lo, hi)
}

/// The value of the decimal digits `s[lo..]` if they are all digits and the
/// value is at most `limit`.
fn digits_upto(s: &[u8], lo: usize, limit: u64) -> (r: Option<u64>)
    requires
        lo <= s.len(),
        limit >= 9,
    ensures
        ({
            let d = s@.subrange(lo as int, s.len() as int);
            match r {
                Some(v) => all_digits(d) && v == digits_value(d) && v <= limit,
                None => !all_digits(d) || digits_value(d) > limit,
            }
        }),
{
    let ghost d = s@.subrange(lo as int, s.len() as int);
    let mut acc: u64 = 0;
    let mut i = lo;
    while i < s.len()
        invariant
            lo <= i <= s.len(),
            d == s@.subrange(lo as int, s.len() as int),
            all_digits(d.take(i - lo)),
            acc == digits_value(d.take(i - lo)),
            acc <= limit,
            limit >= 9,
        decreases s.len() - i,
    {
        let b = s[i];
        assert(d.take(i + 1 - lo).drop_last() == d.take(i - lo));
        assert(d[i - lo] == b);
        if b < 48 || b > 57 {
            assert(!is_digit(d[i - lo]));
            return None;
        }
        let dv = (b - 48) as u64;
        if acc > (limit - dv) / 10 {
            proof {
                assert(digits_value(d.take(i + 1 - lo)) == acc * 10 + dv);
                assert(acc * 10 + dv > limit) by (nonlinear_arith)
                    requires
                        acc > (limit - dv) / 10,
                        dv <= 9,
                        dv <= limit,
                ;
                lemma_digits_value_prefix(d, i + 1 - lo);
            }
            return None;
        }
        proof {
            assert(acc * 10 + dv <= limit) by (nonlinear_arith)
                requires
                    acc <= (limit - dv) / 10,
                    dv <= limit,
            ;
            assert forall|k: int| 0 <= k < d.take(i + 1 - lo).len() implies is_digit(
                #[trigger] d.take(i + 1 - lo)[k],
            ) by {
                if k < i - lo {
                    assert(d.take(i + 1 - lo)[k] == d.take(i - lo)[k]);
                }
            }
        }
        acc = acc * 10 + dv;
        i = i + 1;
    }
    assert(d.take(s.len() - lo) == d);
    Some(acc)
}

/// `str::parse::<i64>`, on bytes.
pub fn parse_i64_bytes(s: &[u8]) -> (r: Option<i64>)
    ensures
        match r {
            Some(v) => parse_i64(s@) == Some(v as int),
            None => parse_i64(s@).is_none(),
        },
{
    let neg = s.len() > 0 && s[0] == 45;
    let lo: usize = if s.len() > 0 && (s[0] == 43 || s[0] == 45) {
        1
    } else {
        0
    };
    let ghost d = s@.subrange(lo as int, s.len() as int);
    assert(lo == 1 ==> d == s@.drop_first());
    assert(lo == 0 ==> d == s@);
    if lo == s.len() {
        return None;
    }
    let limit: u64 = if neg {
        0x8000_0000_0000_0000
    } else {
        0x7fff_ffff_ffff_ffff
    };
    match digits_upto(s, lo, limit) {
        None => None,
        Some(v) => {
            if neg {
                if v == 0x8000_0000_0000_0000 {
                    Some(i64::MIN)
                } else {
                    Some(-(v as i64))
                }
            } else {
                Some(v as i64)
            }
        },
    }
}

/// `str::parse::<usize>`, on bytes.
pub fn parse_usize_bytes(s: &[u8]) -> (r: Option<usize>)
    ensures
        match r {
            Some(v) => parse_usize(s@) == Some(v as int),
            None => parse_usize(s@).is_none(),
        },
{
    let lo: usize = if s.len() > 0 && s[0] == 43 {
        1
    } else {
        0
    };
    let ghost d = s@.subrange(lo as int, s.len() as int);
    assert(lo == 1 ==> d == s@.drop_first());
    assert(lo == 0 ==> d == s@);
    if lo == s.len() {
        return None;
    }
    match digits_upto(s, lo, usize::MAX as u64) {
        None => None,
        Some(v) => Some(v as usize),
    }
}

/// The decimal digits of `n`.
pub fn decimal_bytes(n: u64) -> (r: Vec<u8>)
    ensures
        r@ == decimal(n as nat),
    decreases n,
{
    if n < 10 {
        let mut r: Vec<u8> = Vec::new();
        r.push((48 + n) as u8);
        r
    } else {
        let mut r = decimal_bytes(n / 10);
        r.push((48 + n % 10) as u8);
        r
    }
}

} // verus!

//! Character-level text helpers with exact specifications.
//!
//! Text is modelled by its view, a `Seq<char>`. Whitespace follows Rust's
//! `char::is_whitespace` (the Unicode `White_Space` property), so `trim`
//! here is `str::trim`.
use vstd::prelude::*;

verus! {

/// Unicode `White_Space`, the property behind `char::is_whitespace`.
pub open spec fn is_ws(c: char) -> bool {
    let u = c as u32;
    ||| 9 <= u <= 13
    ||| u == 32
    ||| u == 0x85
    ||| u == 0xa0
    ||| u == 0x1680
    ||| 0x2000 <= u <= 0x200a
    ||| u == 0x2028
    ||| u == 0x2029
    ||| u == 0x202f
    ||| u == 0x205f
    ||| u == 0x3000
}

/// `s` with leading whitespace removed.
pub open spec fn trim_start(s: Seq<char>) -> Seq<char>
    decreases s.len(),
{
    if s.len() > 0 && is_ws(s[0]) {
        trim_start(s.drop_first())
    } else {
        s
    }
}

/// `s` with trailing whitespace removed.
pub open spec fn trim_end(s: Seq<char>) -> Seq<char>
    decreases s.len(),
{
    if s.len() > 0 && is_ws(s.last()) {
        trim_end(s.drop_last())
    } else {
        s
    }
}

/// `str::trim`: both ends stripped of whitespace.
pub open spec fn trim(s: Seq<char>) -> Seq<char> {
    trim_end(trim_start(s))
}

/// The code of `c` after ASCII lower-casing (non-ASCII letters are kept).
pub open spec fn lower_code(c: char) -> u32 {
    if 65 <= (c as u32) <= 90 {
        (c as u32 + 32) as u32
    } else {
        c as u32
    }
}

/// `str::eq_ignore_ascii_case`, stated on characters: same length and
/// pairwise equal after ASCII lower-casing.
pub open spec fn eq_ignore_ascii_case(a: Seq<char>, b: Seq<char>) -> bool {
    &&& a.len() == b.len()
    &&& forall|i: int| 0 <= i < a.len() ==> #[trigger] lower_code(a[i]) == lower_code(b[i])
}

/// `a` occurs in `s` starting at index `i`.
pub open spec fn occurs_at(s: Seq<char>, a: Seq<char>, i: int) -> bool {
    0 <= i && i + a.len() <= s.len() && s.subrange(i, i + a.len()) == a
}

/// `str::contains` for a string pattern.
pub open spec fn contains(s: Seq<char>, a: Seq<char>) -> bool {
    exists|i: int| occurs_at(s, a, i)
}

/// The characters of `s`, in order.
pub fn chars_of(s: &str) -> (v: Vec<char>)
    ensures
        v@ == s@,
{
    let mut v: Vec<char> = Vec::new();
    for c in it: s.chars()
        invariant
            v@ == it.seq().take(it.index() as int),
            it.seq() == s@,
    {
        v.push(c);
    }
    v
}

/// `String::push`: appends one character.
#[verifier::external_body]
pub(crate) fn push_char(s: &mut String, c: char)
    ensures
        final(s)@ == old(s)@.push(c),
{
    s.push(c);
}

/// A `String` holding exactly the characters `v[lo..hi]`.
pub fn string_from(v: &Vec<char>, lo: usize, hi: usize) -> (s: String)
    requires
        lo <= hi <= v.len(),
    ensures
        s@ == v@.subrange(lo as int, hi as int),
{
    let mut s = String::new();
    let mut i = lo;
    while i < hi
        invariant
            lo <= i <= hi <= v.len(),
            s@ == v@.subrange(lo as int, i as int),
        decreases hi - i,
    {
        push_char(&mut s, v[i]);
        assert(v@.subrange(lo as int, i + 1) == v@.subrange(lo as int, i as int).push(v@[i as int]));
        i = i + 1;
    }
    s
}

/// An owned copy of a string slice.
pub fn owned(s: &str) -> (r: String)
    ensures
        r@ == s@,
{
    let v = chars_of(s);
    string_from(&v, 0, v.len())
}

/// Appends every character of `a` to `s`.
pub fn push_all(s: &mut String, a: &str)
    ensures
        final(s)@ == old(s)@ + a@,
{
    let v = chars_of(a);
    let ghost start = s@;
    let mut i: usize = 0;
    while i < v.len()
        invariant
            0 <= i <= v.len(),
            v@ == a@,
            s@ == start + v@.take(i as int),
        decreases v.len() - i,
    {
        push_char(s, v[i]);
        assert(v@.take(i + 1) == v@.take(i as int).push(v@[i as int]));
        i = i + 1;
    }
    assert(v@.take(v.len() as int) == v@);
}

proof fn lemma_trim_start_skip(s: Seq<char>, i: int)
    requires
        0 <= i <= s.len(),
        forall|j: int| 0 <= j < i ==> is_ws(#[trigger] s[j]),
    ensures
        trim_start(s) == trim_start(s.subrange(i, s.len() as int)),
    decreases i,
{
    if i > 0 {
        assert(s.drop_first() == s.subrange(1, s.len() as int));
        lemma_trim_start_skip(s.drop_first(), i - 1);
        assert(s.drop_first().subrange(i - 1, s.drop_first().len() as int) == s.subrange(
            i,
            s.len() as int,
        ));
    } else {
        assert(s.subrange(0, s.len() as int) == s);
    }
}

proof fn lemma_trim_end_skip(s: Seq<char>, j: int)
    requires
        0 <= j <= s.len(),
        forall|k: int| j <= k < s.len() ==> is_ws(#[trigger] s[k]),
    ensures
        trim_end(s) == trim_end(s.subrange(0, j)),
    decreases s.len() - j,
{
    if j < s.len() {
        assert(s.drop_last() == s.subrange(0, s.len() - 1));
        lemma_trim_end_skip(s.drop_last(), j);
        assert(s.drop_last().subrange(0, j) == s.subrange(0, j));
    } else {
        assert(s.subrange(0, s.len() as int) == s);
    }
}

/// Bounds `(lo, hi)` such that `v[lo..hi]` is `trim(v)`.
pub fn trim_bounds(v: &Vec<char>) -> (r: (usize, usize))
    ensures
        r.0 <= r.1 <= v.len(),
        v@.subrange(r.0 as int, r.1 as int) == trim(v@),
{
    let mut lo: usize = 0;
    while lo < v.len() && is_ws_exec(v[lo])
        invariant
            lo <= v.len(),
            forall|j: int| 0 <= j < lo ==> is_ws(#[trigger] v@[j]),
        decreases v.len() - lo,
    {
        lo = lo + 1;
    }
    proof {
        lemma_trim_start_skip(v@, lo as int);
    }
    let ghost t = v@.subrange(lo as int, v.len() as int);
    assert(trim_start(t) == t);
    let mut hi: usize = v.len();
    while hi > lo && is_ws_exec(v[hi - 1])
        invariant
            lo <= hi <= v.len(),
            t == v@.subrange(lo as int, v.len() as int),
            forall|k: int| hi <= k < v.len() ==> is_ws(#[trigger] v@[k]),
        decreases hi - lo,
    {
        hi = hi - 1;
    }
    proof {
        let hj = hi - lo;
        assert forall|k: int| hj <= k < t.len() implies is_ws(#[trigger] t[k]) by {
            assert(t[k] == v@[k + lo]);
        }
        lemma_trim_end_skip(t, hj as int);
        assert(t.subrange(0, hj as int) == v@.subrange(lo as int, hi as int));
        let u = v@.subrange(lo as int, hi as int);
        if u.len() > 0 {
            assert(!is_ws(u.last()));
        }
    }
    (lo, hi)
}

/// `char::is_whitespace`.
pub fn is_ws_exec(c: char) -> (b: bool)
    ensures
        b == is_ws(c),
{
    let u = c as u32;
    (9 <= u && u <= 13) || u == 32 || u == 0x85 || u == 0xa0 || u == 0x1680 || (0x2000 <= u && u
        <= 0x200a) || u == 0x2028 || u == 0x2029 || u == 0x202f || u == 0x205f || u == 0x3000
}

/// `str::trim` as characters.
pub fn trimmed(s: &str) -> (v: Vec<char>)
    ensures
        v@ == trim(s@),
{
    let all = chars_of(s);
    let (lo, hi) = trim_bounds(&all);
    let mut v: Vec<char> = Vec::new();
    let mut i = lo;
    while i < hi
        invariant
            lo <= i <= hi <= all.len(),
            v@ == all@.subrange(lo as int, i as int),
        decreases hi - i,
    {
        v.push(all[i]);
        assert(all@.subrange(lo as int, i + 1) == all@.subrange(lo as int, i as int).push(
            all@[i as int],
        ));
        i = i + 1;
    }
    v
}

/// ASCII-case-insensitive equality of two character sequences.
pub fn eq_ignore_case_chars(a: &Vec<char>, b: &Vec<char>) -> (r: bool)
    ensures
        r == eq_ignore_ascii_case(a@, b@),
{
    if a.len() != b.len() {
        return false;
    }
    let mut i: usize = 0;
    while i < a.len()
        invariant
            a.len() == b.len(),
            i <= a.len(),
            forall|j: int| 0 <= j < i ==> #[trigger] lower_code(a@[j]) == lower_code(b@[j]),
        decreases a.len() - i,
    {
        if lower_code_exec(a[i]) != lower_code_exec(b[i]) {
            return false;
        }
        i = i + 1;
    }
    true
}

/// The code of `c` after ASCII lower-casing.
pub fn lower_code_exec(c: char) -> (r: u32)
    ensures
        r == lower_code(c),
{
    let u = c as u32;
    if 65 <= u && u <= 90 {
        u + 32
    } else {
        u
    }
}

/// Exact equality of two character sequences.
pub fn same_chars(a: &Vec<char>, b: &Vec<char>) -> (r: bool)
    ensures
        r == (a@ == b@),
{
    if a.len() != b.len() {
        return false;
    }
    let mut i: usize = 0;
    while i < a.len()
        invariant
            a.len() == b.len(),
            i <= a.len(),
            forall|j: int| 0 <= j < i ==> a@[j] == b@[j],
        decreases a.len() - i,
    {
        if a[i] != b[i] {
            return false;
        }
        i = i + 1;
    }
    assert(a@ =~= b@);
    true
}

/// `a == b` for string slices.
pub fn str_eq(a: &str, b: &str) -> (r: bool)
    ensures
        r == (a@ == b@),
{
    let x = chars_of(a);
    let y = chars_of(b);
    same_chars(&x, &y)
}

/// `s.contains(a)` for a string pattern.
pub fn str_contains(s: &str, a: &str) -> (r: bool)
    ensures
        r == contains(s@, a@),
{
    let x = chars_of(s);
    let p = chars_of(a);
    if p.len() > x.len() {
        assert forall|i: int| !occurs_at(s@, a@, i) by {}
        return false;
    }
    if p.len() == 0 {
        assert(s@.subrange(0, 0) =~= a@);
        assert(occurs_at(s@, a@, 0));
        return true;
    }
    let last = x.len() - p.len();
    let mut i: usize = 0;
    while i <= last
        invariant
            x@ == s@,
            p@ == a@,
            last == x.len() - p.len(),
            p.len() > 0,
            i <= last + 1,
            forall|k: int| 0 <= k < i ==> !occurs_at(s@, a@, k),
        decreases last + 1 - i,
    {
        if matches_at(&x, &p, i) {
            assert(occurs_at(s@, a@, i as int));
            return true;
        }
        i = i + 1;
    }
    assert forall|k: int| !occurs_at(s@, a@, k) by {
        if 0 <= k && k + a@.len() <= s@.len() {
            assert(k < i);
        }
    }
    false
}

/// `x[i..i + p.len()] == p`.
pub fn matches_at(x: &Vec<char>, p: &Vec<char>, i: usize) -> (r: bool)
    requires
        i + p.len() <= x.len(),
    ensures
        r == occurs_at(x@, p@, i as int),
{
    let mut j: usize = 0;
    while j < p.len()
        invariant
            i + p.len() <= x.len(),
            j <= p.len(),
            forall|k: int| 0 <= k < j ==> x@[i + k] == p@[k],
        decreases p.len() - j,
    {
        if x[i + j] != p[j] {
            assert(x@.subrange(i as int, i + p.len())[j as int] != p@[j as int]);
            return false;
        }
        j = j + 1;
    }
    assert(x@.subrange(i as int, i + p.len()) =~= p@);
    true
}

/// `s` with every leading `q` removed.
pub open spec fn strip_char_start(s: Seq<char>, q: char) -> Seq<char>
    decreases s.len(),
{
    if s.len() > 0 && s[0] == q {
        strip_char_start(s.drop_first(), q)
    } else {
        s
    }
}

/// `s` with every trailing `q` removed.
pub open spec fn strip_char_end(s: Seq<char>, q: char) -> Seq<char>
    decreases s.len(),
{
    if s.len() > 0 && s.last() == q {
        strip_char_end(s.drop_last(), q)
    } else {
        s
    }
}

/// `str::trim_matches(q)`.
pub open spec fn strip_char(s: Seq<char>, q: char) -> Seq<char> {
    strip_char_end(strip_char_start(s, q), q)
}

proof fn lemma_strip_char_start_skip(s: Seq<char>, q: char, i: int)
    requires
        0 <= i <= s.len(),
        forall|j: int| 0 <= j < i ==> #[trigger] s[j] == q,
    ensures
        strip_char_start(s, q) == strip_char_start(s.subrange(i, s.len() as int), q),
    decreases i,
{
    if i > 0 {
        lemma_strip_char_start_skip(s.drop_first(), q, i - 1);
        assert(s.drop_first().subrange(i - 1, s.drop_first().len() as int) == s.subrange(
            i,
            s.len() as int,
        ));
    } else {
        assert(s.subrange(0, s.len() as int) == s);
    }
}

proof fn lemma_strip_char_end_skip(s: Seq<char>, q: char, j: int)
    requires
        0 <= j <= s.len(),
        forall|k: int| j <= k < s.len() ==> #[trigger] s[k] == q,
    ensures
        strip_char_end(s, q) == strip_char_end(s.subrange(0, j), q),
    decreases s.len() - j,
{
    if j < s.len() {
        lemma_strip_char_end_skip(s.drop_last(), q, j);
        assert(s.drop_last().subrange(0, j) == s.subrange(0, j));
    } else {
        assert(s.subrange(0, s.len() as int) == s);
    }
}

/// `trim_matches(q)` of the characters `v`, as a `String`.
pub fn strip_char_string(v: &Vec<char>, q: char) -> (s: String)
    ensures
        s@ == strip_char(v@, q),
{
    let mut lo: usize = 0;
    while lo < v.len() && v[lo] == q
        invariant
            lo <= v.len(),
            forall|j: int| 0 <= j < lo ==> #[trigger] v@[j] == q,
        decreases v.len() - lo,
    {
        lo = lo + 1;
    }
    proof {
        lemma_strip_char_start_skip(v@, q, lo as int);
    }
    let ghost t = v@.subrange(lo as int, v.len() as int);
    assert(strip_char_start(t, q) == t);
    let mut hi: usize = v.len();
    while hi > lo && v[hi - 1] == q
        invariant
            lo <= hi <= v.len(),
            t == v@.subrange(lo as int, v.len() as int),
            forall|k: int| hi <= k < v.len() ==> #[trigger] v@[k] == q,
        decreases hi - lo,
    {
        hi = hi - 1;
    }
    proof {
        let hj = hi - lo;
        assert forall|k: int| hj <= k < t.len() implies #[trigger] t[k] == q by {
            assert(t[k] == v@[k + lo]);
        }
        lemma_strip_char_end_skip(t, q, hj as int);
        assert(t.subrange(0, hj as int) == v@.subrange(lo as int, hi as int));
    }
    string_from(v, lo, hi)
}

/// ASCII-case-insensitive equality of two string slices.
pub fn str_eq_ignore_ascii_case(a: &str, b: &str) -> (r: bool)
    ensures
        r == eq_ignore_ascii_case(a@, b@),
{
    let x = chars_of(a);
    let y = chars_of(b);
    eq_ignore_case_chars(&x, &y)
}

} // verus!

//! Minimal Kepler/K2 long-cadence FITS BINTABLE reader (public MAST files).
//!
//! Not a general FITS library. It reads TIME / PDCSAP_FLUX / PDCSAP_FLUX_ERR /
//! SAP_QUALITY from the first extension after the primary HDU. Header cards
//! are read as bytes: a card's key is its first eight bytes, and keys and
//! values are trimmed as `str::trim` trims the UTF-8 text they encode.
//!
//! Sample values are returned as the IEEE-754 bit patterns stored in the file
//! (big-endian, decoded to integers). Finiteness and sign are decided on those
//! bits: a binary64 value is finite iff its 11 exponent bits are not all ones,
//! and a finite value is `> 0` iff its sign bit is clear and it is not a zero.
//! The same holds, with 8 exponent bits, for binary32; widening binary32 to
//! binary64 keeps both properties.
use crate::ascii::{
    btrim, decimal, decimal_bytes, parse_i64, parse_i64_bytes, parse_usize, parse_usize_bytes,
    strip_end, strip_start, strip_bytes, sub_bytes, trim_bytes,
};
use crate::error::ExoError;
use crate::lossy::{lossy_string, lossy_utf8};
use crate::text::{chars_of, owned};
use vstd::prelude::*;

verus! {

/// The bytes of an ASCII string (each character's low byte).
pub open spec fn abytes(s: Seq<char>) -> Seq<u8> {
    Seq::new(s.len(), |i: int| s[i] as u8)
}

/// `abytes` computed.
pub fn lit_bytes(s: &str) -> (r: Vec<u8>)
    ensures
        r@ == abytes(s@),
{
    let v = chars_of(s);
    let mut r: Vec<u8> = Vec::new();
    let mut i: usize = 0;
    while i < v.len()
        invariant
            v@ == s@,
            i <= v.len(),
            r@ == abytes(v@).take(i as int),
        decreases v.len() - i,
    {
        r.push(v[i] as u8);
        assert(abytes(v@).take(i + 1) == abytes(v@).take(i as int).push(v@[i as int] as u8));
        i = i + 1;
    }
    assert(abytes(v@).take(v.len() as int) == abytes(v@));
    r
}

/// `s` begins with `p`.
pub open spec fn bstarts_with(s: Seq<u8>, p: Seq<u8>) -> bool {
    p.len() <= s.len() && s.take(p.len() as int) == p
}

/// `s` contains `p` somewhere.
pub open spec fn bcontains(s: Seq<u8>, p: Seq<u8>) -> bool {
    exists|i: int| 0 <= i && i + p.len() <= s.len() && #[trigger] s.subrange(i, i + p.len()) == p
}

/// The `k`-th 80-byte card after offset `off`.
pub open spec fn card_at(data: Seq<u8>, off: int, k: int) -> Seq<u8> {
    data.subrange(off + 80 * k, off + 80 * k + 80)
}

pub open spec fn is_end_card(c: Seq<u8>) -> bool {
    bstarts_with(c, abytes("END"@))
}

/// Card `k` after `off` is the first END card, and its 2880-byte block lies
/// inside `data`.
pub open spec fn header_ends_at(data: Seq<u8>, off: int, k: int) -> bool {
    &&& 0 <= k
    &&& off + 2880 * (k / 36 + 1) <= data.len()
    &&& is_end_card(card_at(data, off, k))
    &&& forall|j: int| 0 <= j < k ==> !is_end_card(#[trigger] card_at(data, off, j))
}

/// The views of a list of byte vectors.
pub open spec fn views(v: Seq<Vec<u8>>) -> Seq<Seq<u8>> {
    v.map_values(|c: Vec<u8>| c@)
}

/// A parse error carrying `msg`.
pub open spec fn is_parse_error(e: ExoError, msg: Seq<char>) -> bool {
    e matches ExoError::Parse(m) && m@ == msg
}

/// Header cards from `off`: every card up to and including the first END
/// card, and the offset just past that card's 2880-byte block. Fails when no
/// END card lies inside a complete block.
fn read_header_cards(data: &[u8], off: usize) -> (r: Result<(Vec<Vec<u8>>, usize), ExoError>)
    ensures
        match r {
            Ok((cards, next)) => exists|k: int|
                {
                    &&& #[trigger] header_ends_at(data@, off as int, k)
                    &&& views(cards@) == Seq::new((k + 1) as nat, |j: int| card_at(data@, off as int, j))
                    &&& next == off + 2880 * (k / 36 + 1)
                },
            Err(e) => {
                &&& forall|k: int| !#[trigger] header_ends_at(data@, off as int, k)
                &&& is_parse_error(e, "truncated FITS header"@)
            },
        },
{
    let mut cards: Vec<Vec<u8>> = Vec::new();
    let end = lit_bytes("END");
    let mut blk: usize = off;
    let ghost mut b: int = 0;
    loop
        invariant
            end@ == abytes("END"@),
            b >= 0,
            blk == off + 2880 * b,
            views(cards@) == Seq::new((36 * b) as nat, |j: int| card_at(data@, off as int, j)),
            forall|j: int| 0 <= j < 36 * b ==> !is_end_card(#[trigger] card_at(data@, off as int, j)),
        decreases data.len() - blk,
    {
        if data.len() < 2880 || blk > data.len() - 2880 {
            let m = owned("truncated FITS header");
            proof {
                assert forall|k: int| !#[trigger] header_ends_at(data@, off as int, k) by {
                    if 0 <= k && k >= 36 * b {
                        assert(k / 36 >= b);
                    }
                }
            }
            return Err(ExoError::Parse(m));
        }
        let mut i: usize = 0;
        while i < 36
            invariant
                end@ == abytes("END"@),
                b >= 0,
                blk == off + 2880 * b,
                blk + 2880 <= data.len(),
                i <= 36,
                views(cards@) == Seq::new((36 * b + i) as nat, |j: int| card_at(data@, off as int, j)),
                forall|j: int|
                    0 <= j < 36 * b + i ==> !is_end_card(#[trigger] card_at(data@, off as int, j)),
            decreases 36 - i,
        {
            let s = blk + i * 80;
            let card = sub_bytes(data, s, s + 80);
            let is_end = starts_with_bytes(&card, &end);
            let ghost k = 36 * b + i;
            assert(card@ == card_at(data@, off as int, k));
            let ghost old_cards = cards@;
            assert(views(old_cards).len() == k);
            assert(old_cards.len() == k);
            cards.push(card);
            assert forall|j: int| 0 <= j < k + 1 implies #[trigger] views(cards@)[j] == card_at(
                data@,
                off as int,
                j,
            ) by {
                if j < k {
                    assert(cards@[j] == old_cards[j]);
                    assert(views(old_cards)[j] == card_at(data@, off as int, j));
                }
            }
            assert(views(cards@) =~= Seq::new((k + 1) as nat, |j: int| card_at(data@, off as int, j)));
            if is_end {
                proof {
                    assert(k / 36 == b);
                    assert(header_ends_at(data@, off as int, k));
                }
                return Ok((cards, blk + 2880));
            }
            i = i + 1;
        }
        blk = blk + 2880;
        proof {
            b = b + 1;
        }
    }
}

/// Length of the run of bytes before the first `q` (the whole length if
/// there is none).
pub open spec fn lead_len(s: Seq<u8>, q: u8) -> nat
    decreases s.len(),
{
    if s.len() == 0 || s[0] == q {
        0
    } else {
        1 + lead_len(s.drop_first(), q)
    }
}

proof fn lemma_lead_len(s: Seq<u8>, q: u8, i: int)
    requires
        0 <= i <= s.len(),
        forall|j: int| 0 <= j < i ==> #[trigger] s[j] != q,
    ensures
        lead_len(s, q) == i + lead_len(s.subrange(i, s.len() as int), q),
        lead_len(s, q) <= s.len(),
    decreases i,
{
    lemma_lead_len_bound(s, q);
    if i > 0 {
        lemma_lead_len(s.drop_first(), q, i - 1);
        assert(s.drop_first().subrange(i - 1, s.drop_first().len() as int) == s.subrange(
            i,
            s.len() as int,
        ));
    } else {
        assert(s.subrange(0, s.len() as int) == s);
    }
}

proof fn lemma_lead_len_bound(s: Seq<u8>, q: u8)
    ensures
        lead_len(s, q) <= s.len(),
        lead_len(s, q) < s.len() ==> s[lead_len(s, q) as int] == q,
        forall|j: int| 0 <= j < lead_len(s, q) ==> #[trigger] s[j] != q,
    decreases s.len(),
{
    if s.len() > 0 && s[0] != q {
        lemma_lead_len_bound(s.drop_first(), q);
        assert forall|j: int| 0 <= j < lead_len(s, q) implies #[trigger] s[j] != q by {
            if j > 0 {
                assert(s[j] == s.drop_first()[j - 1]);
            }
        }
    }
}

/// The number of bytes of `s` before the first `q`.
fn find_byte(s: &[u8], q: u8) -> (r: usize)
    ensures
        r == lead_len(s@, q),
        r <= s.len(),
{
    let mut i: usize = 0;
    while i < s.len() && s[i] != q
        invariant
            i <= s.len(),
            forall|j: int| 0 <= j < i ==> #[trigger] s@[j] != q,
        decreases s.len() - i,
    {
        i = i + 1;
    }
    proof {
        lemma_lead_len(s@, q, i as int);
        let t = s@.subrange(i as int, s.len() as int);
        if i < s.len() {
            assert(t[0] == q);
        }
    }
    i
}

/// The keyword/value pair a header card contributes, if any: END, COMMENT
/// and HISTORY cards and blank keywords contribute nothing; otherwise the
/// keyword is the trimmed first 8 bytes, and the value is what follows the
/// first `=` up to the first `/`, trimmed, stripped of quotes, trimmed again.
pub open spec fn card_entry(c: Seq<u8>) -> Option<(Seq<u8>, Seq<u8>)> {
    let key = btrim(c.take(if c.len() < 8 { c.len() as int } else { 8 }));
    let eq = lead_len(c, 61);
    if bstarts_with(c, abytes("END"@)) || bstarts_with(c, abytes("COMMENT"@)) || bstarts_with(
        c,
        abytes("HISTORY"@),
    ) || key.len() == 0 || eq >= c.len() {
        None
    } else {
        let after = c.subrange(eq + 1 as int, c.len() as int);
        let rest = btrim(after.take(lead_len(after, 47) as int));
        Some((key, btrim(strip_end(strip_start(rest, 39), 39))))
    }
}

/// The entries of a header, card by card.
pub open spec fn header_entries(cards: Seq<Seq<u8>>) -> Seq<(Seq<u8>, Seq<u8>)>
    decreases cards.len(),
{
    if cards.len() == 0 {
        seq![]
    } else {
        let e = header_entries(cards.drop_last());
        match card_entry(cards.last()) {
            Some(p) => e.push(p),
            None => e,
        }
    }
}

/// The value of `key`: that of its last entry (a later card overrides).
pub open spec fn lookup(e: Seq<(Seq<u8>, Seq<u8>)>, key: Seq<u8>) -> Option<Seq<u8>>
    decreases e.len(),
{
    if e.len() == 0 {
        None
    } else if e.last().0 == key {
        Some(e.last().1)
    } else {
        lookup(e.drop_last(), key)
    }
}

pub open spec fn entries_view(h: Seq<(Vec<u8>, Vec<u8>)>) -> Seq<(Seq<u8>, Seq<u8>)> {
    h.map_values(|p: (Vec<u8>, Vec<u8>)| (p.0@, p.1@))
}

fn starts_with_bytes(c: &Vec<u8>, p: &Vec<u8>) -> (r: bool)
    ensures
        r == bstarts_with(c@, p@),
{
    if p.len() > c.len() {
        return false;
    }
    let mut i: usize = 0;
    while i < p.len()
        invariant
            p.len() <= c.len(),
            i <= p.len(),
            forall|j: int| 0 <= j < i ==> c@[j] == p@[j],
        decreases p.len() - i,
    {
        if c[i] != p[i] {
            assert(c@.take(p.len() as int)[i as int] != p@[i as int]);
            return false;
        }
        i = i + 1;
    }
    assert(c@.take(p.len() as int) =~= p@);
    true
}

fn same_bytes(a: &Vec<u8>, b: &Vec<u8>) -> (r: bool)
    ensures
        r == (a@ == b@),
{
    if a.len() != b.len() {
        return false;
    }
    let r = starts_with_bytes(a, b);
    assert(a@.take(b.len() as int) =~= a@);
    r
}

/// The entry of one card.
fn card_entry_exec(c: &Vec<u8>) -> (r: Option<(Vec<u8>, Vec<u8>)>)
    ensures
        match r {
            Some(p) => card_entry(c@) == Some((p.0@, p.1@)),
            None => card_entry(c@).is_none(),
        },
{
    let kw_end: usize = if c.len() < 8 {
        c.len()
    } else {
        8
    };
    let head = sub_bytes(c.as_slice(), 0, kw_end);
    let key = trim_bytes(head.as_slice());
    assert(head@ == c@.take(kw_end as int));
    let eq = find_byte(c.as_slice(), 61);
    if starts_with_bytes(c, &lit_bytes("END")) || starts_with_bytes(c, &lit_bytes("COMMENT"))
        || starts_with_bytes(c, &lit_bytes("HISTORY")) || key.len() == 0 || eq >= c.len() {
        return None;
    }
    let after = sub_bytes(c.as_slice(), eq + 1, c.len());
    let slash = find_byte(after.as_slice(), 47);
    let before = sub_bytes(after.as_slice(), 0, slash);
    assert(before@ == after@.take(slash as int));
    let rest = trim_bytes(before.as_slice());
    let unq = strip_bytes(rest.as_slice(), 39);
    let val = trim_bytes(unq.as_slice());
    Some((key, val))
}

/// The keyword/value entries of a header, in card order.
fn header_map(cards: &Vec<Vec<u8>>) -> (h: Vec<(Vec<u8>, Vec<u8>)>)
    ensures
        entries_view(h@) == header_entries(views(cards@)),
{
    let mut h: Vec<(Vec<u8>, Vec<u8>)> = Vec::new();
    let mut i: usize = 0;
    while i < cards.len()
        invariant
            i <= cards.len(),
            entries_view(h@) == header_entries(views(cards@).take(i as int)),
        decreases cards.len() - i,
    {
        let ghost t = views(cards@).take(i + 1);
        assert(t.drop_last() == views(cards@).take(i as int));
        assert(t.last() == cards@[i as int]@);
        match card_entry_exec(&cards[i]) {
            Some(p) => {
                h.push(p);
                assert(entries_view(h@) =~= header_entries(t));
            },
            None => {
                assert(entries_view(h@) =~= header_entries(t));
            },
        }
        i = i + 1;
    }
    assert(views(cards@).take(cards.len() as int) == views(cards@));
    h
}

/// The value of `key` in a header (last entry wins).
fn header_get(h: &Vec<(Vec<u8>, Vec<u8>)>, key: &Vec<u8>) -> (r: Option<Vec<u8>>)
    ensures
        match r {
            Some(v) => lookup(entries_view(h@), key@) == Some(v@),
            None => lookup(entries_view(h@), key@).is_none(),
        },
{
    let mut i: usize = h.len();
    assert(entries_view(h@).take(h.len() as int) =~= entries_view(h@));
    while i > 0
        invariant
            i <= h.len(),
            lookup(entries_view(h@), key@) == lookup(entries_view(h@).take(i as int), key@),
        decreases i,
    {
        let ghost t = entries_view(h@).take(i as int);
        assert(t.drop_last() == entries_view(h@).take(i - 1));
        assert(t.last() == (h@[i - 1].0@, h@[i - 1].1@));
        if same_bytes(&h[i - 1].0, key) {
            return Some(h[i - 1].1.clone());
        }
        i = i - 1;
    }
    None
}

/// `s.trim().parse::<i64>().unwrap_or(0)`.
pub open spec fn parse_i_spec(s: Seq<u8>) -> int {
    match parse_i64(btrim(s)) {
        Some(v) => v,
        None => 0,
    }
}

fn parse_i(s: &Vec<u8>) -> (r: i64)
    ensures
        r == parse_i_spec(s@),
{
    let t = trim_bytes(s.as_slice());
    match parse_i64_bytes(t.as_slice()) {
        Some(v) => v,
        None => 0,
    }
}

/// The integer value of `key`, or `default` when the header lacks it.
pub open spec fn get_i(e: Seq<(Seq<u8>, Seq<u8>)>, key: Seq<u8>, default: int) -> int {
    match lookup(e, key) {
        Some(v) => parse_i_spec(v),
        None => default,
    }
}

fn header_i(h: &Vec<(Vec<u8>, Vec<u8>)>, key: &Vec<u8>, default: i64) -> (r: i64)
    ensures
        r == get_i(entries_view(h@), key@, default as int),
{
    match header_get(h, key) {
        Some(v) => parse_i(&v),
        None => default,
    }
}

/// `NAXISk`.
pub open spec fn naxis_key(k: nat) -> Seq<u8> {
    abytes("NAXIS"@) + decimal(k)
}

pub open spec fn nonneg_usize(x: int) -> int {
    (if x < 0 { 0 } else { x }) as usize as int
}

/// The product of the `NAXIS1..NAXISk` lengths (negative read as 0), or
/// `None` once a partial product leaves `usize`.
pub open spec fn axes_product(e: Seq<(Seq<u8>, Seq<u8>)>, k: int) -> Option<int>
    decreases k,
{
    if k <= 0 {
        Some(1)
    } else {
        match axes_product(e, k - 1) {
            None => None,
            Some(p) => {
                let q = p * nonneg_usize(get_i(e, naxis_key(k as nat), 0));
                if q > usize::MAX {
                    None
                } else {
                    Some(q)
                }
            },
        }
    }
}

/// Data length of an HDU in bytes: `(|BITPIX| / 8) * max(GCOUNT, 1) *
/// (max(PCOUNT, 0) + NAXIS1 * ... * NAXISn)`, 0 when `NAXIS <= 0`, and
/// `None` when an intermediate value leaves `usize`.
pub open spec fn hdu_len(e: Seq<(Seq<u8>, Seq<u8>)>) -> Option<int> {
    let naxis = get_i(e, abytes("NAXIS"@), 0);
    let bp = get_i(e, abytes("BITPIX"@), 8);
    let bitpix = (if bp < 0 { -bp } else { bp }) as usize as int;
    let g = get_i(e, abytes("GCOUNT"@), 1);
    let gcount = (if g < 1 { 1 } else { g }) as usize as int;
    let pcount = nonneg_usize(get_i(e, abytes("PCOUNT"@), 0));
    if naxis <= 0 {
        Some(0)
    } else {
        match axes_product(e, naxis) {
            None => None,
            Some(n) => {
                let a = (bitpix / 8) * gcount;
                let c = pcount + n;
                if a > usize::MAX || c > usize::MAX || a * c > usize::MAX {
                    None
                } else {
                    Some(a * c)
                }
            },
        }
    }
}

fn hdu_data_len(h: &Vec<(Vec<u8>, Vec<u8>)>) -> (r: Option<usize>)
    ensures
        match r {
            Some(n) => hdu_len(entries_view(h@)) == Some(n as int),
            None => hdu_len(entries_view(h@)).is_none(),
        },
{
    let ghost e = entries_view(h@);
    let naxis = header_i(h, &lit_bytes("NAXIS"), 0);
    if naxis <= 0 {
        return Some(0);
    }
    let bp = header_i(h, &lit_bytes("BITPIX"), 8);
    let ab: u64 = if bp < 0 {
        (-(bp + 1)) as u64 + 1
    } else {
        bp as u64
    };
    assert(ab == (if bp < 0 { -(bp as int) } else { bp as int }));
    let bitpix: usize = #[verifier::truncate] (ab as usize);
    let g = header_i(h, &lit_bytes("GCOUNT"), 1);
    let gcount: usize = if g < 1 {
        1
    } else {
        #[verifier::truncate] (g as usize)
    };
    let p = header_i(h, &lit_bytes("PCOUNT"), 0);
    let pcount: usize = if p < 0 {
        0
    } else {
        #[verifier::truncate] (p as usize)
    };
    let mut n: usize = 1;
    let mut i: u64 = 1;
    while i <= naxis as u64
        invariant
            1 <= i <= naxis as u64 + 1,
            naxis > 0,
            e == entries_view(h@),
            naxis == get_i(e, abytes("NAXIS"@), 0),
            axes_product(e, i - 1) == Some(n as int),
        decreases naxis as u64 + 1 - i,
    {
        let mut key = lit_bytes("NAXIS");
        let digits = decimal_bytes(i);
        let ghost k0 = key@;
        key.append(&mut digits.clone());
        assert(key@ == naxis_key(i as nat));
        let x = header_i(h, &key, 0);
        let f: usize = if x < 0 {
            0
        } else {
            #[verifier::truncate] (x as usize)
        };
        assert(f == nonneg_usize(get_i(e, naxis_key(i as nat), 0)));
        match n.checked_mul(f) {
            None => {
                proof {
                    assert(axes_product(e, i - 1) == Some(n as int));
                    assert(n * f > usize::MAX);
                    assert(axes_product(e, i as int).is_none());
                    lemma_axes_product_stays_none(e, i as int, naxis as int);
                    assert(naxis == get_i(e, abytes("NAXIS"@), 0));
                    assert(axes_product(e, naxis as int).is_none());
                }
                return None;
            },
            Some(m) => {
                n = m;
            },
        }
        i = i + 1;
    }
    let a = match (bitpix / 8).checked_mul(gcount) {
        None => {
            return None;
        },
        Some(a) => a,
    };
    let c = match pcount.checked_add(n) {
        None => {
            return None;
        },
        Some(c) => c,
    };
    a.checked_mul(c)
}

proof fn lemma_axes_product_stays_none(e: Seq<(Seq<u8>, Seq<u8>)>, i: int, k: int)
    requires
        0 < i <= k,
        axes_product(e, i).is_none(),
    ensures
        axes_product(e, k).is_none(),
    decreases k - i,
{
    if i < k {
        lemma_axes_product_stays_none(e, i, k - 1);
    }
}

/// Padding that completes `n` bytes to whole 2880-byte blocks.
fn pad2880(n: usize) -> (r: usize)
    ensures
        r == (2880 - n % 2880) % 2880,
        r < 2880,
        (n + r) % 2880 == 0,
{
    (2880 - (n % 2880)) % 2880
}

/// Byte size of one `TFORM` code, or 0 for a code this reader does not know.
pub open spec fn unit_size(fmt: u8) -> int {
    if fmt == 68 || fmt == 75 {
        8  // 'D', 'K'
    } else if fmt == 69 || fmt == 74 {
        4  // 'E', 'J'
    } else if fmt == 73 {
        2  // 'I'
    } else if fmt == 66 || fmt == 76 || fmt == 65 {
        1  // 'B', 'L', 'A'
    } else {
        0
    }
}

/// A `TFORM` value: trimmed, its last byte is the format code and the bytes
/// before it the repeat count (1 when they do not parse as `usize`). Yields
/// (code, repeat, repeat * unit size); `None` for an empty value, an unknown
/// code, or a size that leaves `usize`.
pub open spec fn form_spec(form: Seq<u8>) -> Option<(u8, int, int)> {
    let f = btrim(form);
    if f.len() == 0 {
        None
    } else {
        let fmt = f.last();
        let nrep = match parse_usize(f.drop_last()) {
            Some(v) => v,
            None => 1,
        };
        let unit = unit_size(fmt);
        if unit == 0 || unit * nrep > usize::MAX {
            None
        } else {
            Some((fmt, nrep, unit * nrep))
        }
    }
}

fn form_size(form: &Vec<u8>) -> (r: Option<(u8, usize, usize)>)
    ensures
        match r {
            Some((fmt, nrep, sz)) => form_spec(form@) == Some((fmt, nrep as int, sz as int)),
            None => form_spec(form@).is_none(),
        },
{
    let f = trim_bytes(form.as_slice());
    if f.len() == 0 {
        return None;
    }
    let fmt = f[f.len() - 1];
    let head = sub_bytes(f.as_slice(), 0, f.len() - 1);
    assert(head@ == f@.drop_last());
    let nrep: usize = match parse_usize_bytes(head.as_slice()) {
        Some(v) => v,
        None => 1,
    };
    let unit: usize = if fmt == 68 || fmt == 75 {
        8
    } else if fmt == 69 || fmt == 74 {
        4
    } else if fmt == 73 {
        2
    } else if fmt == 66 || fmt == 76 || fmt == 65 {
        1
    } else {
        return None;
    };
    match unit.checked_mul(nrep) {
        None => None,
        Some(sz) => Some((fmt, nrep, sz)),
    }
}


/// The size of a column is that of the FITS standard: its repeat count times
/// 8 bytes for `D` and `K`, 4 for `E` and `J`, 2 for `I` and 1 for `B`, `L`
/// and `A`; every other code is refused.
pub proof fn form_sizes_follow_fits_standard(form: Seq<u8>)
    ensures
        match form_spec(form) {
            Some((fmt, nrep, sz)) => {
                &&& nrep >= 0
                &&& (fmt == 68u8 ==> sz == 8 * nrep)
                &&& (fmt == 75u8 ==> sz == 8 * nrep)
                &&& (fmt == 69u8 ==> sz == 4 * nrep)
                &&& (fmt == 74u8 ==> sz == 4 * nrep)
                &&& (fmt == 73u8 ==> sz == 2 * nrep)
                &&& (fmt == 66u8 ==> sz == nrep)
                &&& (fmt == 76u8 ==> sz == nrep)
                &&& (fmt == 65u8 ==> sz == nrep)
                &&& (fmt == 68u8 || fmt == 75u8 || fmt == 69u8 || fmt == 74u8 || fmt == 73u8
                    || fmt == 66u8 || fmt == 76u8 || fmt == 65u8)
            },
            None => true,
        },
{
}


/// An IEEE-754 sample as stored in the file: its bit pattern.
#[derive(Debug, Clone, Copy, PartialEq, Eq, Structural)]
pub enum RawReal {
    /// A binary64 (`TFORM` code `D`).
    Binary64(u64),
    /// A binary32 (`TFORM` code `E`).
    Binary32(u32),
}

/// The sample is finite: its exponent bits are not all ones.
pub open spec fn raw_finite(x: RawReal) -> bool {
    match x {
        RawReal::Binary64(b) => (b / 0x10_0000_0000_0000) % 0x800 != 0x7ff,
        RawReal::Binary32(b) => (b / 0x80_0000) % 0x100 != 0xff,
    }
}

/// The sample's sign bit is clear and it is not a zero.
pub open spec fn raw_positive(x: RawReal) -> bool {
    match x {
        RawReal::Binary64(b) => b < 0x8000_0000_0000_0000 && b != 0,
        RawReal::Binary32(b) => b < 0x8000_0000 && b != 0,
    }
}

/// `raw_finite` computed.
pub fn raw_finite_exec(x: RawReal) -> (r: bool)
    ensures
        r == raw_finite(x),
{
    match x {
        RawReal::Binary64(b) => (b / 0x10_0000_0000_0000) % 0x800 != 0x7ff,
        RawReal::Binary32(b) => (b / 0x80_0000) % 0x100 != 0xff,
    }
}

/// `raw_positive` computed.
pub fn raw_positive_exec(x: RawReal) -> (r: bool)
    ensures
        r == raw_positive(x),
{
    match x {
        RawReal::Binary64(b) => b < 0x8000_0000_0000_0000 && b != 0,
        RawReal::Binary32(b) => b < 0x8000_0000 && b != 0,
    }
}

/// One light-curve sample. `flux_err` is `None` where the file has no
/// usable error (no column, a column of another format, or a non-finite
/// value); readers take that as an error of 0.
#[derive(Debug, Clone, Copy, PartialEq, Eq, Structural)]
pub struct LlcRow {
    pub time_bkjd: RawReal,
    pub flux: RawReal,
    pub flux_err: Option<RawReal>,
    pub quality: i32,
}

/// A wanted column: its `TFORM` code and its byte offset within a row.
#[derive(Debug, Clone, Copy, PartialEq, Eq, Structural)]
pub struct Column {
    pub fmt: u8,
    pub offset: usize,
}

/// Where the samples of the BINTABLE lie.
#[derive(Debug, Clone, Copy, PartialEq, Eq, Structural)]
pub struct Layout {
    pub data_offset: usize,
    pub row_len: usize,
    pub n_rows: usize,
    pub time: Column,
    pub flux: Column,
    pub flux_err: Option<Column>,
    pub quality: Option<Column>,
}

/// The unsigned value of big-endian bytes.
pub open spec fn be_value(s: Seq<u8>) -> nat
    decreases s.len(),
{
    if s.len() == 0 {
        0
    } else {
        be_value(s.drop_last()) * 256 + s.last() as nat
    }
}

pub open spec fn pow256(n: nat) -> nat
    decreases n,
{
    if n == 0 {
        1
    } else {
        256 * pow256((n - 1) as nat)
    }
}

proof fn lemma_be_value_bound(s: Seq<u8>)
    ensures
        be_value(s) < pow256(s.len()),
    decreases s.len(),
{
    if s.len() > 0 {
        lemma_be_value_bound(s.drop_last());
    }
}

/// The big-endian value of `data[at..at + n]`, `n <= 8`.
fn read_be(data: &[u8], at: usize, n: usize) -> (r: u64)
    requires
        n <= 8,
        at + n <= data.len(),
    ensures
        r == be_value(data@.subrange(at as int, at + n)),
{
    let mut v: u64 = 0;
    let mut k: usize = 0;
    proof {
        reveal_with_fuel(pow256, 9);
    }
    while k < n
        invariant
            n <= 8,
            at + n <= data.len(),
            k <= n,
            v == be_value(data@.subrange(at as int, at + k)),
            pow256(8) == 0x1_0000_0000_0000_0000,
            pow256(7) == 0x100_0000_0000_0000,
        decreases n - k,
    {
        proof {
            let s = data@.subrange(at as int, at + k);
            lemma_be_value_bound(s);
            lemma_pow256_mono(k as nat, 7);
            assert(data@.subrange(at as int, at + k + 1).drop_last() == s);
        }
        v = v * 256 + data[at + k] as u64;
        k = k + 1;
    }
    v
}

proof fn lemma_pow256_mono(a: nat, b: nat)
    requires
        a <= b,
    ensures
        pow256(a) <= pow256(b),
    decreases b,
{
    if a < b {
        lemma_pow256_mono(a, (b - 1) as nat);
    }
}

/// A sample column of a row (`D` or `E`), `Some(None)` for another format,
/// `None` when the value would lie outside the row.
pub open spec fn read_col(row: Seq<u8>, c: Column) -> Option<Option<RawReal>> {
    if c.fmt == 68 {
        if c.offset + 8 <= row.len() {
            Some(Some(RawReal::Binary64(be_value(row.subrange(c.offset as int, c.offset + 8)) as u64)))
        } else {
            None
        }
    } else if c.fmt == 69 {
        if c.offset + 4 <= row.len() {
            Some(Some(RawReal::Binary32(be_value(row.subrange(c.offset as int, c.offset + 4)) as u32)))
        } else {
            None
        }
    } else {
        Some(None)
    }
}

/// The sample of one row: `Ok(None)` when time or flux is not a `D`/`E`
/// column, or when time is not finite or flux is not finite and positive;
/// `Err` when a value that is read would lie outside the row.
pub open spec fn row_spec(row: Seq<u8>, lay: Layout) -> Result<Option<LlcRow>, ()> {
    match read_col(row, lay.time) {
        None => Err(()),
        Some(None) => Ok(None),
        Some(Some(t)) => match read_col(row, lay.flux) {
            None => Err(()),
            Some(None) => Ok(None),
            Some(Some(f)) => if !(raw_finite(t) && raw_finite(f) && raw_positive(f)) {
                Ok(None)
            } else {
                let e: Option<Option<RawReal>> = match lay.flux_err {
                    None => Some(None),
                    Some(c) => match read_col(row, c) {
                        None => None,
                        Some(None) => Some(None),
                        Some(Some(x)) => Some(
                            if raw_finite(x) {
                                Some(x)
                            } else {
                                None
                            },
                        ),
                    },
                };
                let q: Option<i32> = match lay.quality {
                    None => Some(0i32),
                    Some(c) => if c.fmt == 74 {
                        if c.offset + 4 <= row.len() {
                            Some(be_value(row.subrange(c.offset as int, c.offset + 4)) as i32)
                        } else {
                            None
                        }
                    } else {
                        Some(0i32)
                    },
                };
                match (e, q) {
                    (Some(e), Some(q)) => Ok(
                        Some(LlcRow { time_bkjd: t, flux: f, flux_err: e, quality: q }),
                    ),
                    _ => Err(()),
                }
            },
        },
    }
}

/// Row `r` of the table.
pub open spec fn row_bytes(data: Seq<u8>, lay: Layout, r: int) -> Seq<u8> {
    data.subrange(lay.data_offset + r * lay.row_len, lay.data_offset + r * lay.row_len + lay.row_len)
}

/// The samples of the first `n` rows, in order.
pub open spec fn rows_spec(data: Seq<u8>, lay: Layout, n: int) -> Result<Seq<LlcRow>, ()>
    decreases n,
{
    if n <= 0 {
        Ok(seq![])
    } else {
        match rows_spec(data, lay, n - 1) {
            Err(()) => Err(()),
            Ok(done) => match row_spec(row_bytes(data, lay, n - 1), lay) {
                Err(()) => Err(()),
                Ok(None) => Ok(done),
                Ok(Some(x)) => Ok(done.push(x)),
            },
        }
    }
}

proof fn lemma_rows_spec_err(data: Seq<u8>, lay: Layout, i: int, n: int)
    requires
        0 < i <= n,
        rows_spec(data, lay, i) is Err,
    ensures
        rows_spec(data, lay, n) is Err,
    decreases n - i,
{
    if i < n {
        lemma_rows_spec_err(data, lay, i, n - 1);
    }
}

/// The header reached from `off`, if any: its cards and the offset just
/// past it.
pub open spec fn header_spec(data: Seq<u8>, off: int) -> Option<(Seq<Seq<u8>>, int)> {
    if exists|k: int| header_ends_at(data, off, k) {
        let k = choose|k: int| header_ends_at(data, off, k);
        Some((Seq::new((k + 1) as nat, |j: int| card_at(data, off, j)), off + 2880 * (k / 36 + 1)))
    } else {
        None
    }
}

proof fn lemma_header_ends_unique(data: Seq<u8>, off: int, k1: int, k2: int)
    requires
        header_ends_at(data, off, k1),
        header_ends_at(data, off, k2),
    ensures
        k1 == k2,
{
    if k1 < k2 {
        assert(!is_end_card(card_at(data, off, k1)));
    }
    if k2 < k1 {
        assert(!is_end_card(card_at(data, off, k2)));
    }
}

/// Bytes shown as text, one character per byte.
pub open spec fn ttype_key(i: nat) -> Seq<u8> {
    abytes("TTYPE"@) + decimal(i)
}

pub open spec fn tform_key(i: nat) -> Seq<u8> {
    abytes("TFORM"@) + decimal(i)
}

/// The trimmed `TTYPEi` value (empty when absent).
pub open spec fn field_name(e: Seq<(Seq<u8>, Seq<u8>)>, i: nat) -> Seq<u8> {
    match lookup(e, ttype_key(i)) {
        Some(v) => btrim(v),
        None => seq![],
    }
}

/// The `TFORMi` value (`D` when absent).
pub open spec fn field_form(e: Seq<(Seq<u8>, Seq<u8>)>, i: nat) -> Seq<u8> {
    match lookup(e, tform_key(i)) {
        Some(v) => v,
        None => abytes("D"@),
    }
}

/// Column scan state: row cursor and the TIME, PDCSAP_FLUX, PDCSAP_FLUX_ERR
/// and SAP_QUALITY columns seen so far (a later field of the same name
/// replaces an earlier one).
pub struct Scan {
    pub cursor: usize,
    pub time: Option<Column>,
    pub flux: Option<Column>,
    pub flux_err: Option<Column>,
    pub quality: Option<Column>,
}

pub open spec fn scan_start() -> Scan {
    Scan { cursor: 0, time: None, flux: None, flux_err: None, quality: None }
}

/// Fields `1..=n`: `Err(Some(form))` at the first `TFORM` this reader does
/// not know, `Err(None)` when the row cursor leaves `usize`.
pub open spec fn scan_columns(e: Seq<(Seq<u8>, Seq<u8>)>, n: int) -> Result<Scan, Option<Seq<u8>>>
    decreases n,
{
    if n <= 0 {
        Ok(scan_start())
    } else {
        match scan_columns(e, n - 1) {
            Err(x) => Err(x),
            Ok(c) => match form_spec(field_form(e, n as nat)) {
                None => Err(Some(field_form(e, n as nat))),
                Some((fmt, _nrep, sz)) => {
                    let name = field_name(e, n as nat);
                    let at = Some(Column { fmt, offset: c.cursor });
                    if c.cursor + sz > usize::MAX {
                        Err(None)
                    } else {
                        Ok(
                            Scan {
                                cursor: (c.cursor + sz) as usize,
                                time: if name == abytes("TIME"@) {
                                    at
                                } else {
                                    c.time
                                },
                                flux: if name == abytes("PDCSAP_FLUX"@) {
                                    at
                                } else {
                                    c.flux
                                },
                                flux_err: if name == abytes("PDCSAP_FLUX_ERR"@) {
                                    at
                                } else {
                                    c.flux_err
                                },
                                quality: if name == abytes("SAP_QUALITY"@) {
                                    at
                                } else {
                                    c.quality
                                },
                            },
                        )
                    }
                },
            },
        }
    }
}

proof fn lemma_scan_err(e: Seq<(Seq<u8>, Seq<u8>)>, i: int, n: int)
    requires
        0 < i <= n,
        scan_columns(e, i) is Err,
    ensures
        scan_columns(e, n) == scan_columns(e, i),
    decreases n - i,
{
    if i < n {
        lemma_scan_err(e, i, n - 1);
    }
}

/// Columns lie one after another: field `n` starts where the fields before
/// it end, and the row cursor moves past it by its standard FITS size, so a
/// column's offset is the sum of the sizes of the columns before it.
pub proof fn column_offsets_accumulate(e: Seq<(Seq<u8>, Seq<u8>)>, n: int)
    requires
        n > 0,
        scan_columns(e, n) is Ok,
    ensures
        scan_columns(e, n - 1) is Ok,
        form_spec(field_form(e, n as nat)) is Some,
        ({
            let before = scan_columns(e, n - 1)->Ok_0;
            let after = scan_columns(e, n)->Ok_0;
            let (fmt, nrep, sz) = form_spec(field_form(e, n as nat))->Some_0;
            let at = Some(Column { fmt, offset: before.cursor });
            let name = field_name(e, n as nat);
            &&& (n == 1 ==> before.cursor == 0)
            &&& after.cursor == before.cursor + sz
            &&& (fmt == 68u8 || fmt == 75u8 ==> after.cursor == before.cursor + 8 * nrep)
            &&& (fmt == 69u8 || fmt == 74u8 ==> after.cursor == before.cursor + 4 * nrep)
            &&& (fmt == 73u8 ==> after.cursor == before.cursor + 2 * nrep)
            &&& (fmt == 66u8 || fmt == 76u8 || fmt == 65u8 ==> after.cursor == before.cursor + nrep)
            &&& (name == abytes("TIME"@) ==> after.time == at)
            &&& (name == abytes("PDCSAP_FLUX"@) ==> after.flux == at)
            &&& (name == abytes("PDCSAP_FLUX_ERR"@) ==> after.flux_err == at)
            &&& (name == abytes("SAP_QUALITY"@) ==> after.quality == at)
        }),
{
    form_sizes_follow_fits_standard(field_form(e, n as nat));
}


pub open spec fn overflow_msg() -> Seq<char> {
    "FITS size overflows usize"@
}

/// The layout of the first extension, or the message of the error that
/// stops the reader before any row is read.
pub open spec fn layout_spec(data: Seq<u8>) -> Result<Layout, Seq<char>> {
    match header_spec(data, 0) {
        None => Err("truncated FITS header"@),
        Some((cards0, off0)) => match hdu_len(header_entries(cards0)) {
            None => Err(overflow_msg()),
            Some(d0) => {
                let off1 = off0 + d0 + (2880 - d0 % 2880) % 2880;
                if off1 > usize::MAX {
                    Err(overflow_msg())
                } else {
                    match header_spec(data, off1) {
                        None => Err("truncated FITS header"@),
                        Some((cards, off2)) => {
                            let h = header_entries(cards);
                            let xten = match lookup(h, abytes("XTENSION"@)) {
                                Some(v) => v,
                                None => seq![],
                            };
                            let nfields = get_i(h, abytes("TFIELDS"@), 0) as usize;
                            let rowlen = get_i(h, abytes("NAXIS1"@), 0) as usize;
                            let nrows = get_i(h, abytes("NAXIS2"@), 0) as usize;
                            if !bcontains(xten, abytes("BINTABLE"@)) {
                                Err("expected BINTABLE, got "@ + lossy_utf8(xten))
                            } else if rowlen == 0 || nrows == 0 {
                                Err("empty BINTABLE"@)
                            } else {
                                match scan_columns(h, nfields as int) {
                                    Err(Some(form)) => Err("unsupported TFORM "@ + lossy_utf8(form)),
                                    Err(None) => Err(overflow_msg()),
                                    Ok(c) => if c.time is None {
                                        Err("TIME column missing"@)
                                    } else if c.flux is None {
                                        Err("PDCSAP_FLUX column missing"@)
                                    } else if off2 + rowlen * nrows > data.len() {
                                        Err("truncated BINTABLE data"@)
                                    } else {
                                        Ok(
                                            Layout {
                                                data_offset: off2 as usize,
                                                row_len: rowlen,
                                                n_rows: nrows,
                                                time: c.time->0,
                                                flux: c.flux->0,
                                                flux_err: c.flux_err,
                                                quality: c.quality,
                                            },
                                        )
                                    },
                                }
                            }
                        },
                    }
                }
            },
        },
    }
}

/// What the reader returns for `data`: the finite samples with positive
/// flux, in row order, or the message of its error.
pub open spec fn llc_spec(data: Seq<u8>) -> Result<Seq<LlcRow>, Seq<char>> {
    match layout_spec(data) {
        Err(m) => Err(m),
        Ok(lay) => match rows_spec(data, lay, lay.n_rows as int) {
            Err(()) => Err("column outside its row"@),
            Ok(rows) => if rows.len() == 0 {
                Err("no finite PDCSAP samples"@)
            } else {
                Ok(rows)
            },
        },
    }
}


proof fn lemma_header_spec(data: Seq<u8>, off: int, k: int)
    requires
        header_ends_at(data, off, k),
    ensures
        header_spec(data, off) == Some(
            (
                Seq::new((k + 1) as nat, |j: int| card_at(data, off, j)),
                off + 2880 * (k / 36 + 1),
            ),
        ),
{
    let k2 = choose|k: int| header_ends_at(data, off, k);
    lemma_header_ends_unique(data, off, k, k2);
}

/// Bytes as text, one character per byte.
fn parse_error(msg: &str) -> (e: ExoError)
    ensures
        is_parse_error(e, msg@),
{
    ExoError::Parse(owned(msg))
}

fn contains_bytes(s: &Vec<u8>, p: &Vec<u8>) -> (r: bool)
    ensures
        r == bcontains(s@, p@),
{
    if p.len() > s.len() {
        return false;
    }
    let last = s.len() - p.len();
    let mut i: usize = 0;
    while i <= last
        invariant
            last == s.len() - p.len(),
            i <= last + 1,
            forall|k: int| 0 <= k < i ==> #[trigger] s@.subrange(k, k + p.len()) != p@,
        decreases last + 1 - i,
    {
        let w = sub_bytes(s.as_slice(), i, i + p.len());
        if same_bytes(&w, p) {
            return true;
        }
        if i == last {
            assert forall|k: int|
                0 <= k && k + p.len() <= s.len() implies #[trigger] s@.subrange(k, k + p.len())
                != p@ by {
                assert(k <= i);
            }
            return false;
        }
        i = i + 1;
    }
    false
}

fn keyed(prefix: &str, i: u64) -> (k: Vec<u8>)
    ensures
        k@ == abytes(prefix@) + decimal(i as nat),
{
    let mut key = lit_bytes(prefix);
    let mut digits = decimal_bytes(i);
    key.append(&mut digits);
    key
}

fn column_at(fmt: u8, offset: usize) -> (c: Option<Column>)
    ensures
        c == Some(Column { fmt, offset }),
{
    Some(Column { fmt, offset })
}

/// The column scan over fields `1..=n`.
fn scan_fields(h: &Vec<(Vec<u8>, Vec<u8>)>, n: usize) -> (r: Result<Scan, Option<Vec<u8>>>)
    ensures
        match r {
            Ok(c) => scan_columns(entries_view(h@), n as int) == Ok::<Scan, Option<Seq<u8>>>(c),
            Err(None) => scan_columns(entries_view(h@), n as int) == Err::<Scan, Option<Seq<u8>>>(None),
            Err(Some(f)) => scan_columns(entries_view(h@), n as int) == Err::<Scan, Option<Seq<u8>>>(Some(f@)),
        },
{
    let ghost e = entries_view(h@);
    let k_time = lit_bytes("TIME");
    let k_flux = lit_bytes("PDCSAP_FLUX");
    let k_ferr = lit_bytes("PDCSAP_FLUX_ERR");
    let k_qual = lit_bytes("SAP_QUALITY");
    let mut c = Scan { cursor: 0, time: None, flux: None, flux_err: None, quality: None };
    let mut i: usize = 0;
    while i < n
        invariant
            i <= n,
            e == entries_view(h@),
            k_time@ == abytes("TIME"@),
            k_flux@ == abytes("PDCSAP_FLUX"@),
            k_ferr@ == abytes("PDCSAP_FLUX_ERR"@),
            k_qual@ == abytes("SAP_QUALITY"@),
            scan_columns(e, i as int) == Ok::<Scan, Option<Seq<u8>>>(c),
        decreases n - i,
    {
        let k = i + 1;
        let name = match header_get(h, &keyed("TTYPE", k as u64)) {
            Some(v) => trim_bytes(v.as_slice()),
            None => Vec::new(),
        };
        assert(name@ == field_name(e, k as nat));
        let form = match header_get(h, &keyed("TFORM", k as u64)) {
            Some(v) => v,
            None => lit_bytes("D"),
        };
        assert(form@ == field_form(e, k as nat));
        match form_size(&form) {
            None => {
                proof {
                    lemma_scan_err(e, k as int, n as int);
                }
                return Err(Some(form));
            },
            Some((fmt, _nrep, sz)) => {
                let at = column_at(fmt, c.cursor);
                let cursor = match c.cursor.checked_add(sz) {
                    None => {
                        proof {
                            lemma_scan_err(e, k as int, n as int);
                        }
                        return Err(None);
                    },
                    Some(x) => x,
                };
                let time = if same_bytes(&name, &k_time) {
                    at
                } else {
                    c.time
                };
                let flux = if same_bytes(&name, &k_flux) {
                    at
                } else {
                    c.flux
                };
                let flux_err = if same_bytes(&name, &k_ferr) {
                    at
                } else {
                    c.flux_err
                };
                let quality = if same_bytes(&name, &k_qual) {
                    at
                } else {
                    c.quality
                };
                c = Scan { cursor, time, flux, flux_err, quality };
            },
        }
        i = k;
    }
    Ok(c)
}

/// The layout of the first extension's table.
fn locate_table(data: &[u8]) -> (r: Result<Layout, ExoError>)
    ensures
        match r {
            Ok(lay) => layout_spec(data@) == Ok::<Layout, Seq<char>>(lay),
            Err(e) => layout_spec(data@) matches Err(m) && is_parse_error(e, m),
        },
{
    let (cards0, off0) = match read_header_cards(data, 0) {
        Err(e) => {
            assert(header_spec(data@, 0) is None);
            return Err(e);
        },
        Ok(x) => x,
    };
    proof {
        let k = choose|k: int|
            {
                &&& #[trigger] header_ends_at(data@, 0, k)
                &&& views(cards0@) == Seq::new((k + 1) as nat, |j: int| card_at(data@, 0, j))
                &&& off0 == 0 + 2880 * (k / 36 + 1)
            };
        lemma_header_spec(data@, 0, k);
    }
    let h0 = header_map(&cards0);
    let d0 = match hdu_data_len(&h0) {
        None => {
            return Err(parse_error("FITS size overflows usize"));
        },
        Some(d) => d,
    };
    let off1 = match off0.checked_add(d0) {
        None => {
            return Err(parse_error("FITS size overflows usize"));
        },
        Some(x) => match x.checked_add(pad2880(d0)) {
            None => {
                return Err(parse_error("FITS size overflows usize"));
            },
            Some(y) => y,
        },
    };
    let (cards, off2) = match read_header_cards(data, off1) {
        Err(e) => {
            assert(header_spec(data@, off1 as int) is None);
            return Err(e);
        },
        Ok(x) => x,
    };
    proof {
        let k = choose|k: int|
            {
                &&& #[trigger] header_ends_at(data@, off1 as int, k)
                &&& views(cards@) == Seq::new((k + 1) as nat, |j: int| card_at(data@, off1 as int, j))
                &&& off2 == off1 + 2880 * (k / 36 + 1)
            };
        lemma_header_spec(data@, off1 as int, k);
    }
    let h = header_map(&cards);
    let ghost e = entries_view(h@);
    let xten = match header_get(&h, &lit_bytes("XTENSION")) {
        Some(v) => v,
        None => Vec::new(),
    };
    let nfields: usize = #[verifier::truncate] (header_i(&h, &lit_bytes("TFIELDS"), 0) as usize);
    let rowlen: usize = #[verifier::truncate] (header_i(&h, &lit_bytes("NAXIS1"), 0) as usize);
    let nrows: usize = #[verifier::truncate] (header_i(&h, &lit_bytes("NAXIS2"), 0) as usize);
    if !contains_bytes(&xten, &lit_bytes("BINTABLE")) {
        return Err(ExoError::Parse(lossy_string("expected BINTABLE, got ", &xten)));
    }
    if rowlen == 0 || nrows == 0 {
        return Err(parse_error("empty BINTABLE"));
    }
    let c = match scan_fields(&h, nfields) {
        Err(Some(form)) => {
            return Err(ExoError::Parse(lossy_string("unsupported TFORM ", &form)));
        },
        Err(None) => {
            return Err(parse_error("FITS size overflows usize"));
        },
        Ok(c) => c,
    };
    let time = match c.time {
        None => {
            return Err(parse_error("TIME column missing"));
        },
        Some(t) => t,
    };
    let flux = match c.flux {
        None => {
            return Err(parse_error("PDCSAP_FLUX column missing"));
        },
        Some(f) => f,
    };
    let size = match rowlen.checked_mul(nrows) {
        None => {
            let dl = data.len();
            assert(rowlen * nrows > usize::MAX);
            assert(off2 + rowlen * nrows > dl);
            return Err(parse_error("truncated BINTABLE data"));
        },
        Some(z) => z,
    };
    if size > data.len() || off2 > data.len() - size {
        return Err(parse_error("truncated BINTABLE data"));
    }
    Ok(
        Layout {
            data_offset: off2,
            row_len: rowlen,
            n_rows: nrows,
            time,
            flux,
            flux_err: c.flux_err,
            quality: c.quality,
        },
    )
}


/// `read_col` on the row `data[start..start + row_len]`.
fn read_col_exec(data: &[u8], start: usize, row_len: usize, c: Column) -> (r: Option<Option<RawReal>>)
    requires
        start + row_len <= data.len(),
    ensures
        r == read_col(data@.subrange(start as int, start + row_len), c),
{
    let ghost row = data@.subrange(start as int, start + row_len);
    if c.fmt == 68 {
        if c.offset <= row_len && row_len - c.offset >= 8 {
            let v = read_be(data, start + c.offset, 8);
            assert(row.subrange(c.offset as int, c.offset + 8) == data@.subrange(
                start + c.offset,
                start + c.offset + 8,
            ));
            Some(Some(RawReal::Binary64(v)))
        } else {
            None
        }
    } else if c.fmt == 69 {
        if c.offset <= row_len && row_len - c.offset >= 4 {
            let v = read_be(data, start + c.offset, 4);
            let ghost s = data@.subrange(start + c.offset, start + c.offset + 4);
            assert(row.subrange(c.offset as int, c.offset + 4) == s);
            proof {
                lemma_be_value_bound(s);
                reveal_with_fuel(pow256, 5);
            }
            Some(Some(RawReal::Binary32(v as u32)))
        } else {
            None
        }
    } else {
        Some(None)
    }
}

/// `row_spec` on the row `data[start..start + lay.row_len]`: `None` for its
/// `Err`, `Some` of its `Ok`.
fn read_row(data: &[u8], start: usize, lay: Layout) -> (r: Option<Option<LlcRow>>)
    requires
        start + lay.row_len <= data.len(),
    ensures
        match row_spec(data@.subrange(start as int, start + lay.row_len), lay) {
            Err(()) => r is None,
            Ok(x) => r == Some(x),
        },
{
    let ghost row = data@.subrange(start as int, start + lay.row_len);
    let t = match read_col_exec(data, start, lay.row_len, lay.time) {
        None => {
            return None;
        },
        Some(None) => {
            return Some(None);
        },
        Some(Some(t)) => t,
    };
    let f = match read_col_exec(data, start, lay.row_len, lay.flux) {
        None => {
            return None;
        },
        Some(None) => {
            return Some(None);
        },
        Some(Some(f)) => f,
    };
    if !(raw_finite_exec(t) && raw_finite_exec(f) && raw_positive_exec(f)) {
        return Some(None);
    }
    let e: Option<Option<RawReal>> = match lay.flux_err {
        None => Some(None),
        Some(c) => match read_col_exec(data, start, lay.row_len, c) {
            None => None,
            Some(None) => Some(None),
            Some(Some(x)) => Some(
                if raw_finite_exec(x) {
                    Some(x)
                } else {
                    None
                },
            ),
        },
    };
    let q: Option<i32> = match lay.quality {
        None => Some(0i32),
        Some(c) => if c.fmt == 74 {
            if c.offset <= lay.row_len && lay.row_len - c.offset >= 4 {
                let v = read_be(data, start + c.offset, 4);
                let ghost s = data@.subrange(start + c.offset, start + c.offset + 4);
                assert(row.subrange(c.offset as int, c.offset + 4) == s);
                proof {
                    lemma_be_value_bound(s);
                    reveal_with_fuel(pow256, 5);
                }
                let w: u32 = v as u32;
                Some(#[verifier::truncate] (w as i32))
            } else {
                None
            }
        } else {
            Some(0i32)
        },
    };
    match (e, q) {
        (Some(e), Some(q)) => Some(Some(LlcRow { time_bkjd: t, flux: f, flux_err: e, quality: q })),
        _ => None,
    }
}

/// The samples of every row of the table, or `None` when a value that is
/// read lies outside its row.
fn read_rows(data: &[u8], lay: Layout) -> (r: Option<Vec<LlcRow>>)
    requires
        lay.data_offset + lay.row_len * lay.n_rows <= data.len(),
    ensures
        match rows_spec(data@, lay, lay.n_rows as int) {
            Err(()) => r is None,
            Ok(rows) => r matches Some(v) && v@ == rows,
        },
{
    let mut out: Vec<LlcRow> = Vec::new();
    let mut r: usize = 0;
    let mut start: usize = lay.data_offset;
    while r < lay.n_rows
        invariant
            r <= lay.n_rows,
            lay.data_offset + lay.row_len * lay.n_rows <= data.len(),
            start == lay.data_offset + r * lay.row_len,
            rows_spec(data@, lay, r as int) == Ok::<Seq<LlcRow>, ()>(out@),
        decreases lay.n_rows - r,
    {
        proof {
            assert(r * lay.row_len + lay.row_len <= lay.row_len * lay.n_rows) by (nonlinear_arith)
                requires
                    r < lay.n_rows,
            ;
        }
        assert(row_bytes(data@, lay, r as int) == data@.subrange(start as int, start + lay.row_len));
        match read_row(data, start, lay) {
            None => {
                proof {
                    lemma_rows_spec_err(data@, lay, r + 1, lay.n_rows as int);
                }
                return None;
            },
            Some(None) => {},
            Some(Some(x)) => {
                out.push(x);
            },
        }
        start = start + lay.row_len;
        r = r + 1;
        assert(start == lay.data_offset + r * lay.row_len) by (nonlinear_arith)
            requires
                start == lay.data_offset + (r - 1) * lay.row_len + lay.row_len,
        ;
    }
    Some(out)
}

/// Parse a Kepler/K2 LLC FITS buffer into its finite samples with positive
/// PDCSAP flux, in row order.
///
/// Header cards are read as bytes: keys and values are trimmed of
/// whitespace as `str::trim` trims the UTF-8 text they encode, and a value
/// quoted in an error message is decoded as `String::from_utf8_lossy`
/// decodes it. Sizes that overflow `usize`, and a column that
/// runs past its row, are reported as errors.
pub fn parse_llc_fits(data: &[u8]) -> (r: Result<Vec<LlcRow>, ExoError>)
    ensures
        match llc_spec(data@) {
            Ok(rows) => r matches Ok(v) && v@ == rows,
            Err(m) => r matches Err(e) && is_parse_error(e, m),
        },
{
    let lay = locate_table(data)?;
    proof {
        let dl = data.len();
        assert(data@.len() == dl);
        lemma_layout_fits(data@);
    }
    match read_rows(data, lay) {
        None => Err(parse_error("column outside its row")),
        Some(rows) => {
            if rows.len() == 0 {
                Err(parse_error("no finite PDCSAP samples"))
            } else {
                Ok(rows)
            }
        },
    }
}

proof fn lemma_layout_fits(data: Seq<u8>)
    requires
        data.len() <= usize::MAX,
    ensures
        layout_spec(data) matches Ok(lay) ==> lay.data_offset + lay.row_len * lay.n_rows
            <= data.len(),
{
    if let Ok(lay) = layout_spec(data) {
        let (cards0, off0) = header_spec(data, 0)->0;
        let d0 = hdu_len(header_entries(cards0))->0;
        let off1 = off0 + d0 + (2880 - d0 % 2880) % 2880;
        let k1 = choose|k: int| header_ends_at(data, off1, k);
        let off2 = off1 + 2880 * (k1 / 36 + 1);
        let k0 = choose|k: int| header_ends_at(data, 0, k);
        assert(off0 >= 0);
        assert(d0 >= 0) by {
            let e = header_entries(cards0);
            let naxis = get_i(e, abytes("NAXIS"@), 0);
            if naxis > 0 {
                let n = axes_product(e, naxis)->0;
                lemma_axes_product_nonneg(e, naxis);
                let bp = get_i(e, abytes("BITPIX"@), 8);
                let bitpix = (if bp < 0 { -bp } else { bp }) as usize as int;
                let g = get_i(e, abytes("GCOUNT"@), 1);
                let gcount = (if g < 1 { 1 } else { g }) as usize as int;
                let pcount = nonneg_usize(get_i(e, abytes("PCOUNT"@), 0));
                let a = (bitpix / 8) * gcount;
                let c = pcount + n;
                assert(a >= 0 && c >= 0) by (nonlinear_arith)
                    requires
                        bitpix >= 0,
                        gcount >= 0,
                        pcount >= 0,
                        n >= 0,
                        a == (bitpix / 8) * gcount,
                        c == pcount + n,
                ;
                assert(a * c >= 0) by (nonlinear_arith)
                    requires
                        a >= 0,
                        c >= 0,
                ;
            }
        }
        assert(off2 >= 0);
        assert(lay.row_len * lay.n_rows >= 0) by (nonlinear_arith);
        assert(lay.data_offset == off2);
    }
}

proof fn lemma_axes_product_nonneg(e: Seq<(Seq<u8>, Seq<u8>)>, k: int)
    ensures
        axes_product(e, k) matches Some(p) ==> p >= 0,
    decreases k,
{
    if k > 0 {
        lemma_axes_product_nonneg(e, k - 1);
        if let Some(p) = axes_product(e, k - 1) {
            let f = nonneg_usize(get_i(e, naxis_key(k as nat), 0));
            assert(p * f >= 0) by (nonlinear_arith)
                requires
                    p >= 0,
                    f >= 0,
            ;
        }
    }
}

/// Every sample the reader returns has a finite time and a finite, positive
/// flux, and a reader that succeeds returns at least one sample.
pub proof fn parsed_samples_are_finite_and_positive(data: Seq<u8>)
    ensures
        llc_spec(data) matches Ok(rows) ==> {
            &&& rows.len() > 0
            &&& forall|i: int|
                0 <= i < rows.len() ==> raw_finite(#[trigger] rows[i].time_bkjd) && raw_finite(
                    rows[i].flux,
                ) && raw_positive(rows[i].flux)
        },
{
    if let Ok(lay) = layout_spec(data) {
        lemma_rows_finite(data, lay, lay.n_rows as int);
    }
}

proof fn lemma_rows_finite(data: Seq<u8>, lay: Layout, n: int)
    ensures
        rows_spec(data, lay, n) matches Ok(rows) ==> forall|i: int|
            0 <= i < rows.len() ==> raw_finite(#[trigger] rows[i].time_bkjd) && raw_finite(
                rows[i].flux,
            ) && raw_positive(rows[i].flux) && (rows[i].flux_err matches Some(x) ==> raw_finite(x)),
    decreases n,
{
    if n > 0 {
        lemma_rows_finite(data, lay, n - 1);
    }
}

} // verus!

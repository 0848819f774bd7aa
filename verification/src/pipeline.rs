//! Splitting the synthetic training rows, kind by kind, into the rows the
//! model is fitted on and the rows held back to evaluate it. Holdout rows
//! take part in neither.
use crate::ascii::sub_bytes;
use crate::labels::ExampleKind;
use crate::order::{
    bytes_less, bytes_lt, lemma_bytes_lt_asymmetric, lemma_bytes_lt_irreflexive,
    lemma_bytes_lt_total, lemma_bytes_lt_transitive,
};
use rand::seq::SliceRandom;
use rand::SeedableRng;
use rand_chacha::ChaCha8Rng;
use vstd::prelude::*;
use vstd::seq_lib::{
    to_multiset_build, to_multiset_contains, to_multiset_insert, to_multiset_len, to_multiset_remove,
};
use vstd::utf8::encode_utf8;

verus! {

/// Reproducible seed (the number is the KOI of Kepler-1625, not a claim).
pub const RNG_SEED: u64 = 5_084;

/// The seed of the fit / evaluation split.
pub const SPLIT_SEED: u64 = RNG_SEED + 7;

/// What `rand` 0.8's `SliceRandom::shuffle` makes of `a` and then of `b`,
/// both drawing from one `rand_chacha::ChaCha8Rng` seeded by
/// `SeedableRng::seed_from_u64(seed)`.
pub uninterp spec fn chacha8_shuffle_pair(seed: u64, a: Seq<usize>, b: Seq<usize>) -> (
    Seq<usize>,
    Seq<usize>,
);

/// `ChaCha8Rng::seed_from_u64(seed)`, then `SliceRandom::shuffle` on `a` and
/// on `b` with that generator. The outcome depends on the seed and the two
/// lists alone and is named `chacha8_shuffle_pair`; the shuffle swaps
/// elements in place, so each list keeps its elements.
#[verifier::external_body]
fn seeded_shuffle_pair(seed: u64, a: &mut Vec<usize>, b: &mut Vec<usize>)
    ensures
        (final(a)@, final(b)@) == chacha8_shuffle_pair(seed, old(a)@, old(b)@),
        final(a)@.to_multiset() == old(a)@.to_multiset(),
        final(b)@.to_multiset() == old(b)@.to_multiset(),
{
    let mut rng = ChaCha8Rng::seed_from_u64(seed);
    a.shuffle(&mut rng);
    b.shuffle(&mut rng);
}

/// The indices, in increasing order, of the rows of `kind` among the first
/// `n` rows.
pub open spec fn kind_prefix(kinds: Seq<ExampleKind>, kind: ExampleKind, n: int) -> Seq<usize>
    decreases n,
{
    if n <= 0 {
        seq![]
    } else if kinds[n - 1] == kind {
        kind_prefix(kinds, kind, n - 1).push((n - 1) as usize)
    } else {
        kind_prefix(kinds, kind, n - 1)
    }
}

/// The indices of the rows of `kind`, in increasing order.
pub open spec fn kind_indices(kinds: Seq<ExampleKind>, kind: ExampleKind) -> Seq<usize> {
    kind_prefix(kinds, kind, kinds.len() as int)
}

pub open spec fn kinds_of(rows: Seq<(ExampleKind, String)>) -> Seq<ExampleKind> {
    rows.map_values(|r: (ExampleKind, String)| r.0)
}

/// How many of `n` rows the fraction `num / den` holds back: `n · num / den`
/// rounded half away from zero, and never more than `n`.
pub open spec fn held_count(n: int, num: int, den: int) -> int {
    let k = (2 * n * num + den) / (2 * den);
    if k < n {
        k
    } else {
        n
    }
}

proof fn lemma_kind_prefix(kinds: Seq<ExampleKind>, kind: ExampleKind, n: int)
    requires
        0 <= n <= kinds.len(),
        n <= usize::MAX + 1,
    ensures
        kind_prefix(kinds, kind, n).len() <= n,
        forall|i: int|
            0 <= i < kind_prefix(kinds, kind, n).len() ==> {
                let x = #[trigger] kind_prefix(kinds, kind, n)[i];
                x < n && kinds[x as int] == kind
            },
    decreases n,
{
    if n > 0 {
        lemma_kind_prefix(kinds, kind, n - 1);
    }
}

/// Row `a` sorts before row `b`: by the bytes of their ids, and equal ids by
/// position.
pub open spec fn id_before(ids: Seq<Seq<u8>>, a: usize, b: usize) -> bool {
    bytes_lt(ids[a as int], ids[b as int]) || (ids[a as int] == ids[b as int] && a < b)
}

pub open spec fn sorted_by_id(ids: Seq<Seq<u8>>, l: Seq<usize>) -> bool {
    forall|i: int, j: int|
        #![trigger l[i], l[j]]
        0 <= i < j < l.len() ==> id_before(ids, l[i], l[j])
}

proof fn lemma_id_before_transitive(ids: Seq<Seq<u8>>, a: usize, b: usize, c: usize)
    requires
        id_before(ids, a, b),
        id_before(ids, b, c),
    ensures
        id_before(ids, a, c),
{
    let (x, y, z) = (ids[a as int], ids[b as int], ids[c as int]);
    if bytes_lt(x, y) && bytes_lt(y, z) {
        lemma_bytes_lt_transitive(x, y, z);
    }
    if x == y && y == z {
    } else if x == z {
        if bytes_lt(x, y) && bytes_lt(y, z) {
            lemma_bytes_lt_irreflexive(x);
        }
        if x == y {
            lemma_bytes_lt_irreflexive(y);
        }
        if y == z {
            lemma_bytes_lt_irreflexive(y);
        }
    }
}

/// Insert row `x`, which comes after every row of `list`, at its place by id.
fn insert_by_id(list: &mut Vec<usize>, x: usize, ids: &Vec<Vec<u8>>)
    requires
        x < ids@.len(),
        sorted_by_id(ids@.map_values(|v: Vec<u8>| v@), old(list)@),
        forall|i: int| 0 <= i < old(list)@.len() ==> old(list)@[i] < x,
    ensures
        sorted_by_id(ids@.map_values(|v: Vec<u8>| v@), final(list)@),
        final(list)@.to_multiset() == old(list)@.to_multiset().insert(x),
        final(list)@.len() == old(list)@.len() + 1,
        forall|i: int| 0 <= i < final(list)@.len() ==> final(list)@[i] <= x,
{
    let ghost iv = ids@.map_values(|v: Vec<u8>| v@);
    let mut j: usize = list.len();
    while j > 0 && bytes_less(ids[x].as_slice(), ids[list[j - 1]].as_slice())
        invariant
            x < ids@.len(),
            iv == ids@.map_values(|v: Vec<u8>| v@),
            forall|i: int| 0 <= i < list@.len() ==> list@[i] < x,
            j <= list@.len(),
            forall|t: int| j <= t < list@.len() ==> bytes_lt(iv[x as int], iv[#[trigger] list@[t] as int]),
        decreases j,
    {
        j = j - 1;
    }
    let ghost l = list@;
    proof {
        if j > 0 {
            let y = l[j - 1];
            if iv[y as int] != iv[x as int] {
                lemma_bytes_lt_total(iv[y as int], iv[x as int]);
            }
            assert(id_before(iv, y, x));
        }
        assert forall|a: int, b: int| 0 <= a < b < l.len() + 1 implies #[trigger] id_before(
            iv,
            l.insert(j as int, x)[a],
            l.insert(j as int, x)[b],
        ) by {
            let q = l.insert(j as int, x);
            if b == j {
                if a < j - 1 {
                    lemma_id_before_transitive(iv, l[a], l[j - 1], x);
                }
            } else if a == j {
                assert(bytes_lt(iv[x as int], iv[l[b - 1] as int]));
            } else if b < j {
                assert(q[a] == l[a] && q[b] == l[b]);
            } else if a < j {
                assert(q[a] == l[a] && q[b] == l[b - 1]);
            } else {
                assert(q[a] == l[a - 1] && q[b] == l[b - 1]);
            }
        }
        to_multiset_insert(l, j as int, x);
    }
    list.insert(j, x);
}

/// The ids of the rows, as bytes.
fn id_bytes(rows: &Vec<(ExampleKind, String)>) -> (r: Vec<Vec<u8>>)
    ensures
        r@.len() == rows@.len(),
        r@.map_values(|v: Vec<u8>| v@) == rows@.map_values(
            |row: (ExampleKind, String)| encode_utf8(row.1@),
        ),
{
    let mut r: Vec<Vec<u8>> = Vec::new();
    let mut i: usize = 0;
    while i < rows.len()
        invariant
            i <= rows@.len(),
            r@.len() == i,
            r@.map_values(|v: Vec<u8>| v@) == rows@.map_values(
                |row: (ExampleKind, String)| encode_utf8(row.1@),
            ).take(i as int),
        decreases rows@.len() - i,
    {
        let b = rows[i].1.as_str().as_bytes();
        let v = sub_bytes(b, 0, b.len());
        assert(v@ =~= encode_utf8(rows@[i as int].1@));
        let ghost before = r@;
        r.push(v);
        assert(r@.map_values(|v: Vec<u8>| v@) =~= before.map_values(|v: Vec<u8>| v@).push(v@));
        assert(r@.map_values(|v: Vec<u8>| v@) =~= rows@.map_values(
            |row: (ExampleKind, String)| encode_utf8(row.1@),
        ).take(i + 1));
        i = i + 1;
    }
    assert(rows@.map_values(|row: (ExampleKind, String)| encode_utf8(row.1@)).take(i as int)
        =~= rows@.map_values(|row: (ExampleKind, String)| encode_utf8(row.1@)));
    r
}

/// The ids of the rows, as bytes.
pub open spec fn row_ids(rows: Seq<(ExampleKind, String)>) -> Seq<Seq<u8>> {
    rows.map_values(|row: (ExampleKind, String)| encode_utf8(row.1@))
}

/// The indices of the rows of `kind`, ordered by id (equal ids by position):
/// the one ordering of `kind_indices` that `sorted_by_id` admits.
pub open spec fn id_sorted_kind(rows: Seq<(ExampleKind, String)>, kind: ExampleKind) -> Seq<usize> {
    choose|l: Seq<usize>|
        l.to_multiset() == kind_indices(kinds_of(rows), kind).to_multiset() && sorted_by_id(
            row_ids(rows),
            l,
        )
}

/// Two lists sorted by id with the same elements are the same list.
proof fn lemma_sorted_by_id_unique(ids: Seq<Seq<u8>>, l1: Seq<usize>, l2: Seq<usize>)
    requires
        sorted_by_id(ids, l1),
        sorted_by_id(ids, l2),
        l1.to_multiset() == l2.to_multiset(),
    ensures
        l1 == l2,
    decreases l1.len(),
{
    to_multiset_len(l1);
    to_multiset_len(l2);
    if l1.len() == 0 {
        assert(l1 =~= l2);
    } else {
        let x = l1[0];
        let y = l2[0];
        to_multiset_contains(l1, x);
        to_multiset_contains(l2, x);
        to_multiset_contains(l1, y);
        to_multiset_contains(l2, y);
        let k = choose|k: int| 0 <= k < l2.len() && l2[k] == x;
        let m = choose|m: int| 0 <= m < l1.len() && l1[m] == y;
        if k > 0 {
            assert(id_before(ids, y, x));
            if m > 0 {
                assert(id_before(ids, x, y));
                lemma_id_before_transitive(ids, x, y, x);
            }
            lemma_bytes_lt_irreflexive(ids[x as int]);
            assert(!id_before(ids, x, x));
        }
        assert(x == y);
        to_multiset_remove(l1, 0);
        to_multiset_remove(l2, 0);
        assert(l1.remove(0) =~= l1.drop_first());
        assert(l2.remove(0) =~= l2.drop_first());
        assert(l1.drop_first().to_multiset() =~= l2.drop_first().to_multiset());
        assert(sorted_by_id(ids, l1.drop_first())) by {
            assert forall|i: int, j: int| 0 <= i < j < l1.drop_first().len() implies id_before(
                ids,
                l1.drop_first()[i],
                l1.drop_first()[j],
            ) by {
                assert(l1.drop_first()[i] == l1[i + 1] && l1.drop_first()[j] == l1[j + 1]);
            }
        }
        assert(sorted_by_id(ids, l2.drop_first())) by {
            assert forall|i: int, j: int| 0 <= i < j < l2.drop_first().len() implies id_before(
                ids,
                l2.drop_first()[i],
                l2.drop_first()[j],
            ) by {
                assert(l2.drop_first()[i] == l2[i + 1] && l2.drop_first()[j] == l2[j + 1]);
            }
        }
        lemma_sorted_by_id_unique(ids, l1.drop_first(), l2.drop_first());
        assert(l1 =~= seq![x] + l1.drop_first());
        assert(l2 =~= seq![y] + l2.drop_first());
    }
}

/// The indices of the rows of `kind`, sorted by id.
fn kind_sorted(rows: &Vec<(ExampleKind, String)>, ids: &Vec<Vec<u8>>, kind: ExampleKind) -> (r: Vec<
    usize,
>)
    requires
        ids@.len() == rows@.len(),
    ensures
        r@.to_multiset() == kind_indices(kinds_of(rows@), kind).to_multiset(),
        sorted_by_id(ids@.map_values(|v: Vec<u8>| v@), r@),
{
    let ghost kinds = kinds_of(rows@);
    let mut r: Vec<usize> = Vec::new();
    let mut i: usize = 0;
    while i < rows.len()
        invariant
            i <= rows@.len(),
            ids@.len() == rows@.len(),
            kinds == kinds_of(rows@),
            r@.to_multiset() == kind_prefix(kinds, kind, i as int).to_multiset(),
            sorted_by_id(ids@.map_values(|v: Vec<u8>| v@), r@),
            forall|t: int| 0 <= t < r@.len() ==> r@[t] < i,
        decreases rows@.len() - i,
    {
        if rows[i].0 == kind {
            proof {
                to_multiset_build(kind_prefix(kinds, kind, i as int), i);
            }
            insert_by_id(&mut r, i, ids);
        }
        i = i + 1;
    }
    r
}

/// Split the planet-only and injected rows into `(fit, eval)`: of each kind
/// (injected first, then planet-only), the rows are sorted by id, shuffled
/// by a generator seeded with `seed`, and the first `held_count` of them
/// are held back for evaluation. Holdout rows are in neither list.
pub fn stratified_holdout(rows: &Vec<(ExampleKind, String)>, frac_num: u32, frac_den: u32, seed: u64) -> (r: (
    Vec<usize>,
    Vec<usize>,
))
    requires
        frac_den > 0,
    ensures
        ({
            let inj = kind_indices(kinds_of(rows@), ExampleKind::Injected);
            let po = kind_indices(kinds_of(rows@), ExampleKind::PlanetOnly);
            let ni = held_count(inj.len() as int, frac_num as int, frac_den as int);
            let np = held_count(po.len() as int, frac_num as int, frac_den as int);
            &&& r.1@.len() == ni + np
            &&& r.0@.len() == (inj.len() - ni) + (po.len() - np)
            &&& (r.1@.take(ni) + r.0@.take(inj.len() - ni)).to_multiset() == inj.to_multiset()
            &&& (r.1@.skip(ni) + r.0@.skip(inj.len() - ni)).to_multiset() == po.to_multiset()
        }),
        ({
            let (si, sp) = chacha8_shuffle_pair(
                seed,
                id_sorted_kind(rows@, ExampleKind::Injected),
                id_sorted_kind(rows@, ExampleKind::PlanetOnly),
            );
            let ni = held_count(si.len() as int, frac_num as int, frac_den as int);
            let np = held_count(sp.len() as int, frac_num as int, frac_den as int);
            &&& r.1@ == si.take(ni) + sp.take(np)
            &&& r.0@ == si.skip(ni) + sp.skip(np)
        }),
        forall|i: int|
            0 <= i < r.0@.len() ==> #[trigger] r.0@[i] < rows@.len() && rows@[r.0@[i] as int].0
                != ExampleKind::Holdout,
        forall|i: int|
            0 <= i < r.1@.len() ==> #[trigger] r.1@[i] < rows@.len() && rows@[r.1@[i] as int].0
                != ExampleKind::Holdout,
{
    let ids = id_bytes(rows);
    let n_rows = rows.len();
    let ghost kinds = kinds_of(rows@);
    let ghost inj_s = kind_indices(kinds, ExampleKind::Injected);
    let ghost po_s = kind_indices(kinds, ExampleKind::PlanetOnly);
    let mut inj = kind_sorted(rows, &ids, ExampleKind::Injected);
    let mut po = kind_sorted(rows, &ids, ExampleKind::PlanetOnly);
    proof {
        lemma_sorted_by_id_unique(row_ids(rows@), inj@, id_sorted_kind(rows@, ExampleKind::Injected));
        lemma_sorted_by_id_unique(row_ids(rows@), po@, id_sorted_kind(rows@, ExampleKind::PlanetOnly));
    }
    seeded_shuffle_pair(seed, &mut inj, &mut po);
    proof {
        to_multiset_len(inj@);
        to_multiset_len(inj_s);
        to_multiset_len(po@);
        to_multiset_len(po_s);
    }
    let (fit, eval) = split_shuffled(&inj, &po, frac_num, frac_den);
    proof {
        let ni = held_count(inj@.len() as int, frac_num as int, frac_den as int);
        let np = held_count(po@.len() as int, frac_num as int, frac_den as int);
        assert(0 <= ni <= inj@.len() && 0 <= np <= po@.len()) by {
            assert(2 * inj@.len() * frac_num + frac_den >= 0) by (nonlinear_arith)
                requires
                    frac_den > 0,
            ;
            assert(2 * po@.len() * frac_num + frac_den >= 0) by (nonlinear_arith)
                requires
                    frac_den > 0,
            ;
        }
        assert(eval@.take(ni) =~= inj@.take(ni));
        assert(fit@.take(inj@.len() - ni) =~= inj@.skip(ni));
        assert(eval@.skip(ni) =~= po@.take(np));
        assert(fit@.skip(inj@.len() - ni) =~= po@.skip(np));
        assert(inj@.take(ni) + inj@.skip(ni) =~= inj@);
        assert(po@.take(np) + po@.skip(np) =~= po@);
        assert(kinds.len() == n_rows);
        lemma_kind_prefix(kinds, ExampleKind::Injected, kinds.len() as int);
        lemma_kind_prefix(kinds, ExampleKind::PlanetOnly, kinds.len() as int);
        assert forall|x: usize| #[trigger] inj@.contains(x) implies x < rows@.len() && kinds[x as int]
            == ExampleKind::Injected by {
            to_multiset_contains(inj@, x);
            to_multiset_contains(inj_s, x);
            let i = choose|i: int| 0 <= i < inj_s.len() && inj_s[i] == x;
            assert(inj_s[i] == x);
        }
        assert forall|x: usize| #[trigger] po@.contains(x) implies x < rows@.len() && kinds[x as int]
            == ExampleKind::PlanetOnly by {
            to_multiset_contains(po@, x);
            to_multiset_contains(po_s, x);
            let i = choose|i: int| 0 <= i < po_s.len() && po_s[i] == x;
            assert(po_s[i] == x);
        }
        assert forall|i: int| 0 <= i < fit@.len() implies #[trigger] fit@[i] < rows@.len()
            && rows@[fit@[i] as int].0 != ExampleKind::Holdout by {
            if i < inj@.len() - ni {
                assert(inj@.contains(inj@[ni + i]));
                assert(fit@[i] == inj@[ni + i]);
            } else {
                let k = np + (i - (inj@.len() - ni));
                assert(po@.contains(po@[k]));
                assert(fit@[i] == po@[k]);
            }
            assert(kinds[fit@[i] as int] == rows@[fit@[i] as int].0);
        }
        assert forall|i: int| 0 <= i < eval@.len() implies #[trigger] eval@[i] < rows@.len()
            && rows@[eval@[i] as int].0 != ExampleKind::Holdout by {
            if i < ni {
                assert(inj@.contains(inj@[i]));
                assert(eval@[i] == inj@[i]);
            } else {
                assert(po@.contains(po@[i - ni]));
                assert(eval@[i] == po@[i - ni]);
            }
            assert(kinds[eval@[i] as int] == rows@[eval@[i] as int].0);
        }
    }
    (fit, eval)
}

/// The split of two shuffled lists: the first `held_count` of each are held
/// back for evaluation (injected first, then planet-only), the rest are
/// fitted on, in the same order.
pub fn split_shuffled(inj: &Vec<usize>, po: &Vec<usize>, frac_num: u32, frac_den: u32) -> (r: (
    Vec<usize>,
    Vec<usize>,
))
    requires
        frac_den > 0,
    ensures
        ({
            let ni = held_count(inj@.len() as int, frac_num as int, frac_den as int);
            let np = held_count(po@.len() as int, frac_num as int, frac_den as int);
            &&& r.1@ == inj@.take(ni) + po@.take(np)
            &&& r.0@ == inj@.skip(ni) + po@.skip(np)
        }),
{
    let n_inj = held_share(inj.len(), frac_num, frac_den);
    let n_po = held_share(po.len(), frac_num, frac_den);
    let mut eval: Vec<usize> = Vec::new();
    let mut fit: Vec<usize> = Vec::new();
    append_range(&mut eval, inj, 0, n_inj);
    append_range(&mut fit, inj, n_inj, inj.len());
    append_range(&mut eval, po, 0, n_po);
    append_range(&mut fit, po, n_po, po.len());
    assert(eval@ =~= inj@.take(n_inj as int) + po@.take(n_po as int));
    assert(fit@ =~= inj@.skip(n_inj as int) + po@.skip(n_po as int));
    (fit, eval)
}

/// `held_count` computed.
fn held_share(n: usize, num: u32, den: u32) -> (k: usize)
    requires
        den > 0,
    ensures
        k == held_count(n as int, num as int, den as int),
{
    let n2: u128 = 2 * (n as u128);
    assert(n2 * (num as u128) <= 0x2_0000_0000_0000_0000u128 * 0x1_0000_0000u128) by (nonlinear_arith)
        requires
            n2 <= 0x2_0000_0000_0000_0000u128,
            num <= 0xffff_ffffu32,
    ;
    let k: u128 = (n2 * (num as u128) + (den as u128)) / (2 * (den as u128));
    if k < n as u128 {
        k as usize
    } else {
        n
    }
}

/// Append `src[lo..hi]` to `dst`.
fn append_range(dst: &mut Vec<usize>, src: &Vec<usize>, lo: usize, hi: usize)
    requires
        lo <= hi <= src@.len(),
    ensures
        final(dst)@ == old(dst)@ + src@.subrange(lo as int, hi as int),
{
    let mut i = lo;
    while i < hi
        invariant
            lo <= i <= hi,
            hi <= src@.len(),
            dst@ == old(dst)@ + src@.subrange(lo as int, i as int),
        decreases hi - i,
    {
        dst.push(src[i]);
        assert(src@.subrange(lo as int, i + 1) =~= src@.subrange(lo as int, i as int).push(src@[i as int]));
        i = i + 1;
    }
}

} // verus!

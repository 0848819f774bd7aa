//! The orders this crate sorts by: strings compare byte by byte, as
//! `str::cmp` compares them, and keys are pairs of a number and a string.
//! Sorting returns the permutation, so rows of any type can follow it.
use vstd::pervasive::VecAdditionalExecFns;
use vstd::prelude::*;

verus! {

/// `a` sorts strictly before `b` when their bytes are compared
/// lexicographically; a proper prefix sorts first.
pub open spec fn bytes_lt(a: Seq<u8>, b: Seq<u8>) -> bool
    decreases a.len(),
{
    if a.len() == 0 {
        b.len() > 0
    } else if b.len() == 0 {
        false
    } else if a[0] != b[0] {
        a[0] < b[0]
    } else {
        bytes_lt(a.drop_first(), b.drop_first())
    }
}

pub proof fn lemma_bytes_lt_irreflexive(a: Seq<u8>)
    ensures
        !bytes_lt(a, a),
    decreases a.len(),
{
    if a.len() > 0 {
        lemma_bytes_lt_irreflexive(a.drop_first());
    }
}

pub proof fn lemma_bytes_lt_asymmetric(a: Seq<u8>, b: Seq<u8>)
    ensures
        bytes_lt(a, b) ==> !bytes_lt(b, a),
    decreases a.len(),
{
    if a.len() > 0 && b.len() > 0 && a[0] == b[0] {
        lemma_bytes_lt_asymmetric(a.drop_first(), b.drop_first());
    }
}

pub proof fn lemma_bytes_lt_transitive(a: Seq<u8>, b: Seq<u8>, c: Seq<u8>)
    requires
        bytes_lt(a, b),
        bytes_lt(b, c),
    ensures
        bytes_lt(a, c),
    decreases a.len(),
{
    if a.len() > 0 && a[0] == b[0] && b[0] == c[0] {
        lemma_bytes_lt_transitive(a.drop_first(), b.drop_first(), c.drop_first());
    }
}

pub proof fn lemma_bytes_lt_total(a: Seq<u8>, b: Seq<u8>)
    requires
        a != b,
    ensures
        bytes_lt(a, b) || bytes_lt(b, a),
    decreases a.len(),
{
    if a.len() == 0 {
        if b.len() == 0 {
            assert(a =~= b);
        }
    } else if b.len() > 0 && a[0] == b[0] {
        if a.drop_first() == b.drop_first() {
            assert(a.drop_first().len() == b.drop_first().len());
            assert(a.len() == b.len());
            assert forall|i: int| 0 <= i < a.len() implies a[i] == b[i] by {
                if i > 0 {
                    assert(a[i] == a.drop_first()[i - 1]);
                    assert(b[i] == b.drop_first()[i - 1]);
                }
            }
            assert(a =~= b);
        }
        lemma_bytes_lt_total(a.drop_first(), b.drop_first());
    }
}

/// A sort key: a number first, then a string's bytes.
pub open spec fn key_lt(a: (u64, Seq<u8>), b: (u64, Seq<u8>)) -> bool {
    a.0 < b.0 || (a.0 == b.0 && bytes_lt(a.1, b.1))
}

pub proof fn lemma_key_lt_strict(a: (u64, Seq<u8>), b: (u64, Seq<u8>))
    ensures
        !key_lt(a, a),
        key_lt(a, b) ==> !key_lt(b, a),
{
    lemma_bytes_lt_irreflexive(a.1);
    lemma_bytes_lt_asymmetric(a.1, b.1);
}

/// Neither key sorting after the next one carries along a chain.
pub proof fn lemma_key_le_transitive(x: (u64, Seq<u8>), y: (u64, Seq<u8>), z: (u64, Seq<u8>))
    requires
        !key_lt(y, x),
        !key_lt(z, y),
    ensures
        !key_lt(z, x),
{
    if x.1 != y.1 {
        lemma_bytes_lt_total(x.1, y.1);
    }
    if y.1 != z.1 {
        lemma_bytes_lt_total(y.1, z.1);
    }
    if x.0 == y.0 && y.0 == z.0 {
        if x.1 != y.1 && y.1 != z.1 {
            lemma_bytes_lt_transitive(x.1, y.1, z.1);
            lemma_bytes_lt_asymmetric(x.1, z.1);
        } else if x.1 != y.1 {
            lemma_bytes_lt_asymmetric(x.1, y.1);
        } else if y.1 != z.1 {
            lemma_bytes_lt_asymmetric(y.1, z.1);
        } else {
            lemma_bytes_lt_irreflexive(x.1);
        }
    }
}

/// `bytes_lt` computed.
pub fn bytes_less(a: &[u8], b: &[u8]) -> (r: bool)
    ensures
        r == bytes_lt(a@, b@),
{
    let mut i: usize = 0;
    assert(a@.skip(0) =~= a@);
    assert(b@.skip(0) =~= b@);
    while i < a.len() && i < b.len()
        invariant
            i <= a.len(),
            i <= b.len(),
            bytes_lt(a@, b@) == bytes_lt(a@.skip(i as int), b@.skip(i as int)),
        decreases a.len() - i,
    {
        if a[i] != b[i] {
            return a[i] < b[i];
        }
        assert(a@.skip(i as int).drop_first() =~= a@.skip(i + 1));
        assert(b@.skip(i as int).drop_first() =~= b@.skip(i + 1));
        i = i + 1;
    }
    i == a.len() && i < b.len()
}

pub open spec fn key_view(k: (u64, Vec<u8>)) -> (u64, Seq<u8>) {
    (k.0, k.1@)
}

pub open spec fn keys_view(keys: Seq<(u64, Vec<u8>)>) -> Seq<(u64, Seq<u8>)> {
    keys.map_values(|k: (u64, Vec<u8>)| key_view(k))
}

/// `key_lt` computed.
pub fn key_less(a: &(u64, Vec<u8>), b: &(u64, Vec<u8>)) -> (r: bool)
    ensures
        r == key_lt(key_view(*a), key_view(*b)),
{
    a.0 < b.0 || (a.0 == b.0 && bytes_less(a.1.as_slice(), b.1.as_slice()))
}

/// `p` lists distinct indices below `n`, `n` of them: an ordering of `0..n`.
pub open spec fn is_permutation(p: Seq<usize>, n: int) -> bool {
    &&& p.len() == n
    &&& forall|i: int| 0 <= i < n ==> p[i] < n
    &&& forall|i: int, j: int| 0 <= i < j < n ==> p[i] != p[j]
}

/// Along `p` the keys never decrease, and rows with equal keys keep their
/// order.
pub open spec fn sorts_stably(k: Seq<(u64, Seq<u8>)>, p: Seq<usize>) -> bool {
    &&& is_permutation(p, k.len() as int)
    &&& forall|i: int, j: int|
        #![trigger p[i], p[j]]
        0 <= i < j < p.len() ==> !key_lt(k[p[j] as int], k[p[i] as int])
    &&& forall|i: int, j: int|
        #![trigger p[i], p[j]]
        0 <= i < j < p.len() && k[p[i] as int] == k[p[j] as int] ==> p[i] < p[j]
}

/// The prefix invariant of the insertion: `p` orders `0..m` by `k`.
spec fn sorted_prefix(k: Seq<(u64, Seq<u8>)>, p: Seq<usize>, m: int) -> bool {
    &&& p.len() == m
    &&& forall|i: int| 0 <= i < m ==> p[i] < m
    &&& forall|i: int, j: int| 0 <= i < j < m ==> p[i] != p[j]
    &&& forall|i: int, j: int|
        #![trigger p[i], p[j]]
        0 <= i < j < m ==> !key_lt(k[p[j] as int], k[p[i] as int])
    &&& forall|i: int, j: int|
        #![trigger p[i], p[j]]
        0 <= i < j < m && k[p[i] as int] == k[p[j] as int] ==> p[i] < p[j]
}

proof fn lemma_insert_sorted(k: Seq<(u64, Seq<u8>)>, p: Seq<usize>, m: int, j: int)
    requires
        0 <= m < k.len(),
        m < usize::MAX,
        sorted_prefix(k, p, m),
        0 <= j <= m,
        j > 0 ==> !key_lt(k[m], k[p[j - 1] as int]),
        forall|t: int| j <= t < m ==> key_lt(k[m], #[trigger] k[p[t] as int]),
    ensures
        sorted_prefix(k, p.insert(j, m as usize), m + 1),
{
    let q = p.insert(j, m as usize);
    assert forall|i: int, l: int| 0 <= i < l < m + 1 implies !key_lt(k[q[l] as int], k[q[i] as int])
        && (k[q[i] as int] == k[q[l] as int] ==> q[i] < q[l]) by {
        if l == j {
            assert(q[l] == m);
            assert(q[i] == p[i]);
            if i < j - 1 {
                assert(!key_lt(k[p[j - 1] as int], k[p[i] as int]));
                lemma_key_le_transitive(k[p[i] as int], k[p[j - 1] as int], k[m]);
            }
        } else if i == j {
            assert(q[i] == m);
            assert(q[l] == p[l - 1]);
            assert(key_lt(k[m], k[p[l - 1] as int]));
            lemma_key_lt_strict(k[m], k[p[l - 1] as int]);
        } else if l < j {
            assert(q[i] == p[i] && q[l] == p[l]);
        } else if i < j {
            assert(q[i] == p[i] && q[l] == p[l - 1]);
            assert(key_lt(k[m], k[p[l - 1] as int]));
            if j > 0 && i < j - 1 {
                assert(!key_lt(k[p[j - 1] as int], k[p[i] as int]));
                lemma_key_le_transitive(k[p[i] as int], k[p[j - 1] as int], k[m]);
            }
            lemma_key_lt_strict(k[m], k[p[l - 1] as int]);
            if key_lt(k[p[l - 1] as int], k[p[i] as int]) {
                lemma_key_le_transitive(k[p[l - 1] as int], k[p[i] as int], k[m]);
            }
        } else {
            assert(q[i] == p[i - 1] && q[l] == p[l - 1]);
        }
    }
}

/// The stable sorting permutation of `keys`: `r[0]` is the index of the
/// smallest key, and so on.
pub fn sorted_order(keys: &Vec<(u64, Vec<u8>)>) -> (r: Vec<usize>)
    ensures
        sorts_stably(keys_view(keys@), r@),
{
    let ghost k = keys_view(keys@);
    let mut p: Vec<usize> = Vec::new();
    let mut m: usize = 0;
    while m < keys.len()
        invariant
            m <= keys.len(),
            k == keys_view(keys@),
            sorted_prefix(k, p@, m as int),
        decreases keys.len() - m,
    {
        let mut j: usize = p.len();
        while j > 0 && key_less(&keys[m], &keys[p[j - 1]])
            invariant
                m < keys.len(),
                k == keys_view(keys@),
                sorted_prefix(k, p@, m as int),
                j <= p.len(),
                forall|t: int| j <= t < m ==> key_lt(k[m as int], #[trigger] k[p@[t] as int]),
            decreases j,
        {
            j = j - 1;
        }
        proof {
            lemma_insert_sorted(k, p@, m as int, j as int);
        }
        p.insert(j, m);
        m = m + 1;
    }
    p
}

/// `items` rearranged along `p`: item `p[i]` comes `i`-th.
pub fn apply_order<T>(items: Vec<T>, p: &Vec<usize>) -> (r: Vec<T>)
    requires
        is_permutation(p@, items@.len() as int),
    ensures
        r@.len() == p@.len(),
        forall|i: int| 0 <= i < p@.len() ==> r@[i] == items@[p@[i] as int],
{
    let n = items.len();
    let ghost orig = items@;
    let mut rest = items;
    let mut slots: Vec<Option<T>> = Vec::new();
    while rest.len() > 0
        invariant
            slots@.len() + rest@.len() == n,
            orig.len() == n,
            rest@ == orig.take(rest@.len() as int),
            forall|s: int| 0 <= s < slots@.len() ==> slots@[s] == Some(orig[n - 1 - s]),
        decreases rest@.len(),
    {
        let x = rest.pop().unwrap();
        assert(rest@ =~= orig.take(rest@.len() as int));
        slots.push(Some(x));
    }
    let mut out: Vec<T> = Vec::new();
    let mut t: usize = 0;
    while t < n
        invariant
            t <= n,
            n == p@.len(),
            orig.len() == n,
            slots@.len() == n,
            is_permutation(p@, n as int),
            out@.len() == t,
            forall|i: int| 0 <= i < t ==> out@[i] == orig[p@[i] as int],
            forall|s: int|
                0 <= s < n && (forall|u: int| 0 <= u < t ==> s != n - 1 - p@[u]) ==> slots@[s]
                    == Some(orig[n - 1 - s]),
        decreases n - t,
    {
        let s = n - 1 - p[t];
        assert forall|u: int| 0 <= u < t implies s != n - 1 - p@[u] by {
            assert(p@[u] != p@[t as int]);
        }
        let mut tmp: Option<T> = None;
        slots.set_and_swap(s, &mut tmp);
        match tmp {
            Some(x) => {
                out.push(x);
            },
            None => {
                assert(false);
            },
        }
        t = t + 1;
    }
    out
}

} // verus!

//! Canonical light ordering: color-capable lights first, then name
//! ascending, ties kept in inventory order. The light cursor is only
//! meaningful relative to this order, so resolution and any consumer that
//! lists lights must compute it identically; everything here pins the order
//! down to a single possible result.

use vstd::assert_by_contradiction;
use vstd::prelude::*;

use crate::snapshot::Light;

verus! {

/// The bytes a light's name is compared by (its UTF-8 encoding, the order
/// in which names are stored and displayed).
pub open spec fn name_bytes(l: Light) -> Seq<u8> {
    vstd::utf8::encode_utf8(l.name@)
}

/// Strict lexicographic order on byte strings.
pub open spec fn lex_lt(a: Seq<u8>, b: Seq<u8>) -> bool
    decreases a.len(),
{
    if b.len() == 0 {
        false
    } else if a.len() == 0 {
        true
    } else if a[0] < b[0] {
        true
    } else if a[0] > b[0] {
        false
    } else {
        lex_lt(a.drop_first(), b.drop_first())
    }
}

pub proof fn lemma_lex_lt_irrefl(a: Seq<u8>)
    ensures
        !lex_lt(a, a),
    decreases a.len(),
{
    if a.len() > 0 {
        lemma_lex_lt_irrefl(a.drop_first());
    }
}

pub proof fn lemma_lex_lt_asym(a: Seq<u8>, b: Seq<u8>)
    ensures
        !(lex_lt(a, b) && lex_lt(b, a)),
    decreases a.len(),
{
    if a.len() > 0 && b.len() > 0 && a[0] == b[0] {
        lemma_lex_lt_asym(a.drop_first(), b.drop_first());
    }
}

pub proof fn lemma_lex_lt_total(a: Seq<u8>, b: Seq<u8>)
    ensures
        lex_lt(a, b) || lex_lt(b, a) || a == b,
    decreases a.len(),
{
    if a.len() == 0 && b.len() == 0 {
        assert(a =~= b);
    } else if a.len() > 0 && b.len() > 0 && a[0] == b[0] {
        lemma_lex_lt_total(a.drop_first(), b.drop_first());
        if a.drop_first() == b.drop_first() {
            assert(a.drop_first().len() == a.len() - 1);
            assert(b.drop_first().len() == b.len() - 1);
            assert(a.len() == b.len());
            assert forall|i: int| 0 <= i < a.len() implies a[i] == b[i] by {
                if i > 0 {
                    assert(a[i] == a.drop_first()[i - 1]);
                    assert(b[i] == b.drop_first()[i - 1]);
                }
            }
            assert(a =~= b);
        }
    }
}

pub proof fn lemma_lex_lt_trans(a: Seq<u8>, b: Seq<u8>, c: Seq<u8>)
    requires
        lex_lt(a, b),
        lex_lt(b, c),
    ensures
        lex_lt(a, c),
    decreases a.len(),
{
    if a.len() > 0 {
        if a[0] == b[0] && b[0] == c[0] {
            lemma_lex_lt_trans(a.drop_first(), b.drop_first(), c.drop_first());
        }
    }
}

/// `a` strictly precedes `b` by key: color capability first, then name.
pub open spec fn light_key_lt(a: Light, b: Light) -> bool {
    ||| (a.color_capable && !b.color_capable)
    ||| (a.color_capable == b.color_capable && lex_lt(name_bytes(a), name_bytes(b)))
}

/// `a` and `b` share a key: same capability, same name bytes.
pub open spec fn light_key_eq(a: Light, b: Light) -> bool {
    a.color_capable == b.color_capable && name_bytes(a) == name_bytes(b)
}

pub proof fn lemma_light_key_trichotomy(a: Light, b: Light)
    ensures
        light_key_lt(a, b) || light_key_lt(b, a) || light_key_eq(a, b),
        !(light_key_lt(a, b) && light_key_lt(b, a)),
        light_key_eq(a, b) ==> !light_key_lt(a, b) && !light_key_lt(b, a),
{
    lemma_lex_lt_total(name_bytes(a), name_bytes(b));
    lemma_lex_lt_asym(name_bytes(a), name_bytes(b));
    lemma_lex_lt_irrefl(name_bytes(a));
    lemma_lex_lt_irrefl(name_bytes(b));
}

pub proof fn lemma_light_key_lt_trans(a: Light, b: Light, c: Light)
    requires
        light_key_lt(a, b),
        light_key_lt(b, c),
    ensures
        light_key_lt(a, c),
{
    if a.color_capable == b.color_capable && b.color_capable == c.color_capable {
        lemma_lex_lt_trans(name_bytes(a), name_bytes(b), name_bytes(c));
    }
}

/// The light at index `i` comes before the light at index `j` in canonical
/// order: a strictly smaller key, or an equal key and a smaller index (the
/// sort is stable).
pub open spec fn precedes_at(lights: Seq<Light>, i: int, j: int) -> bool {
    ||| light_key_lt(lights[i], lights[j])
    ||| (light_key_eq(lights[i], lights[j]) && i < j)
}

/// Canonical precedence is a strict total order on distinct indices.
pub proof fn lemma_precedes_strict(lights: Seq<Light>, i: int, j: int)
    requires
        0 <= i < lights.len(),
        0 <= j < lights.len(),
        i != j,
    ensures
        precedes_at(lights, i, j) <==> !precedes_at(lights, j, i),
{
    lemma_light_key_trichotomy(lights[i], lights[j]);
}

pub proof fn lemma_precedes_irrefl(lights: Seq<Light>, i: int)
    ensures
        !precedes_at(lights, i, i),
{
    lemma_lex_lt_irrefl(name_bytes(lights[i]));
}

pub proof fn lemma_precedes_trans(lights: Seq<Light>, i: int, j: int, k: int)
    requires
        precedes_at(lights, i, j),
        precedes_at(lights, j, k),
    ensures
        precedes_at(lights, i, k),
{
    if light_key_lt(lights[i], lights[j]) && light_key_lt(lights[j], lights[k]) {
        lemma_light_key_lt_trans(lights[i], lights[j], lights[k]);
    }
}

/// Every pair of positions in `ord` respects canonical precedence.
pub open spec fn canonically_sorted(lights: Seq<Light>, ord: Seq<usize>) -> bool {
    forall|p: int, q: int|
        0 <= p < q < ord.len() ==> precedes_at(lights, #[trigger] ord[p] as int, #[trigger] ord[q] as int)
}

/// Every element of `ord` is below `n`.
pub open spec fn all_below(ord: Seq<usize>, n: int) -> bool {
    forall|j: int| 0 <= j < ord.len() ==> (#[trigger] ord[j]) < n
}

/// `ord` is the canonical order of `lights`: each index exactly once, every
/// pair in canonical precedence. These conditions determine `ord` uniquely
/// (see `lemma_canonical_order_unique`).
pub open spec fn is_canonical_order(lights: Seq<Light>, ord: Seq<usize>) -> bool {
    &&& ord.len() == lights.len()
    &&& (forall|x: usize| ord.contains(x) <==> (x as int) < lights.len())
    &&& canonically_sorted(lights, ord)
}

/// Stable insertion of index `v` into an already ordered index list.
pub open spec fn insert_canonical(lights: Seq<Light>, ord: Seq<usize>, v: usize) -> Seq<usize>
    decreases ord.len(),
{
    if ord.len() == 0 {
        seq![v]
    } else if precedes_at(lights, v as int, ord[0] as int) {
        seq![v] + ord
    } else {
        seq![ord[0]] + insert_canonical(lights, ord.drop_first(), v)
    }
}

/// Canonical order of the first `k` lights, built by stable insertion in
/// inventory order.
pub open spec fn canonical_of_prefix(lights: Seq<Light>, k: nat) -> Seq<usize>
    decreases k,
{
    if k == 0 {
        Seq::empty()
    } else {
        insert_canonical(lights, canonical_of_prefix(lights, (k - 1) as nat), (k - 1) as usize)
    }
}

/// The canonical order of a light list, as a sequence of indices into it.
pub open spec fn canonical_of(lights: Seq<Light>) -> Seq<usize> {
    canonical_of_prefix(lights, lights.len())
}

pub proof fn lemma_insert_canonical_ok(lights: Seq<Light>, ord: Seq<usize>, v: usize)
    requires
        canonically_sorted(lights, ord),
        all_below(ord, lights.len() as int),
        (v as int) < lights.len(),
        !ord.contains(v),
    ensures
        insert_canonical(lights, ord, v).len() == ord.len() + 1,
        forall|x: usize|
            #[trigger] insert_canonical(lights, ord, v).contains(x) <==> (ord.contains(x) || x
                == v),
        canonically_sorted(lights, insert_canonical(lights, ord, v)),
        all_below(insert_canonical(lights, ord, v), lights.len() as int),
    decreases ord.len(),
{
    let r = insert_canonical(lights, ord, v);
    if ord.len() == 0 {
        assert forall|x: usize| r.contains(x) implies (ord.contains(x) || x == v) by {
            let i = choose|i: int| 0 <= i < r.len() && r[i] == x;
        }
        assert(r.contains(v)) by {
            assert(r[0] == v);
        }
    } else if precedes_at(lights, v as int, ord[0] as int) {
        assert(r =~= seq![v] + ord);
        assert forall|p: int, q: int| 0 <= p < q < r.len() implies precedes_at(
            lights,
            r[p] as int,
            r[q] as int,
        ) by {
            if p == 0 {
                assert(r[q] == ord[q - 1]);
                if q > 1 {
                    assert(precedes_at(lights, ord[0] as int, ord[q - 1] as int));
                    lemma_precedes_trans(lights, v as int, ord[0] as int, ord[q - 1] as int);
                }
            } else {
                assert(r[p] == ord[p - 1]);
                assert(r[q] == ord[q - 1]);
            }
        }
        assert forall|x: usize| r.contains(x) implies (ord.contains(x) || x == v) by {
            let i = choose|i: int| 0 <= i < r.len() && r[i] == x;
            if i > 0 {
                assert(ord[i - 1] == x);
                assert(ord.contains(x));
            }
        }
        assert forall|x: usize| (ord.contains(x) || x == v) implies r.contains(x) by {
            if ord.contains(x) {
                let i = choose|i: int| 0 <= i < ord.len() && ord[i] == x;
                assert(r[i + 1] == x);
            } else {
                assert(r[0] == x);
            }
        }
        assert forall|j: int| 0 <= j < r.len() implies (r[j]) < lights.len() by {
            if j > 0 {
                assert(r[j] == ord[j - 1]);
            }
        }
    } else {
        let ordd = ord.drop_first();
        // the head cannot equal v, so by totality the head precedes v
        assert(ord[0] != v) by {
            assert_by_contradiction!(ord[0] != v, {
                assert(ord.contains(v)) by { assert(ord[0] == v); }
            });
        }
        lemma_precedes_strict(lights, v as int, ord[0] as int);
        assert(precedes_at(lights, ord[0] as int, v as int));
        assert forall|p: int, q: int| 0 <= p < q < ordd.len() implies precedes_at(
            lights,
            ordd[p] as int,
            ordd[q] as int,
        ) by {
            assert(ordd[p] == ord[p + 1]);
            assert(ordd[q] == ord[q + 1]);
            assert(precedes_at(lights, ord[p + 1] as int, ord[q + 1] as int));
        }
        assert forall|j: int| 0 <= j < ordd.len() implies (ordd[j]) < lights.len() by {
            assert(ordd[j] == ord[j + 1]);
        }
        assert(!ordd.contains(v)) by {
            assert_by_contradiction!(!ordd.contains(v), {
                let m = choose|m: int| 0 <= m < ordd.len() && ordd[m] == v;
                assert(ord.contains(v)) by { assert(ord[m + 1] == v); }
            });
        }
        lemma_insert_canonical_ok(lights, ordd, v);
        let rr = insert_canonical(lights, ordd, v);
        assert(r =~= seq![ord[0]] + rr);
        assert forall|p: int, q: int| 0 <= p < q < r.len() implies precedes_at(
            lights,
            r[p] as int,
            r[q] as int,
        ) by {
            if p == 0 {
                let x = r[q];
                assert(rr[q - 1] == x);
                assert(rr.contains(x));
                if x == v {
                    assert(precedes_at(lights, ord[0] as int, v as int));
                } else {
                    assert(ordd.contains(x));
                    let m = choose|m: int| 0 <= m < ordd.len() && ordd[m] == x;
                    assert(ord[m + 1] == x);
                    assert(precedes_at(lights, ord[0] as int, ord[m + 1] as int));
                }
            } else {
                assert(r[p] == rr[p - 1]);
                assert(r[q] == rr[q - 1]);
                assert(precedes_at(lights, rr[p - 1] as int, rr[q - 1] as int));
            }
        }
        assert forall|x: usize| r.contains(x) implies (ord.contains(x) || x == v) by {
            let i = choose|i: int| 0 <= i < r.len() && r[i] == x;
            if i == 0 {
                assert(ord.contains(x)) by { assert(ord[0] == x); }
            } else {
                assert(rr[i - 1] == x);
                assert(rr.contains(x));
                if x != v {
                    assert(ordd.contains(x));
                    let m = choose|m: int| 0 <= m < ordd.len() && ordd[m] == x;
                    assert(ord.contains(x)) by { assert(ord[m + 1] == x); }
                }
            }
        }
        assert forall|x: usize| (ord.contains(x) || x == v) implies r.contains(x) by {
            if x == v {
                assert(rr.contains(x));
                let m = choose|m: int| 0 <= m < rr.len() && rr[m] == x;
                assert(r[m + 1] == x);
            } else {
                let i = choose|i: int| 0 <= i < ord.len() && ord[i] == x;
                if i == 0 {
                    assert(r[0] == x);
                } else {
                    assert(ordd.contains(x)) by { assert(ordd[i - 1] == x); }
                    assert(rr.contains(x));
                    let m = choose|m: int| 0 <= m < rr.len() && rr[m] == x;
                    assert(r[m + 1] == x);
                }
            }
        }
        assert forall|j: int| 0 <= j < r.len() implies (r[j]) < lights.len() by {
            if j > 0 {
                assert(r[j] == rr[j - 1]);
            }
        }
    }
}

pub proof fn lemma_canonical_prefix_ok(lights: Seq<Light>, k: nat)
    requires
        k <= lights.len(),
        lights.len() <= usize::MAX,
    ensures
        canonical_of_prefix(lights, k).len() == k,
        forall|x: usize| #[trigger] canonical_of_prefix(lights, k).contains(x) <==> (x as int) < k,
        canonically_sorted(lights, canonical_of_prefix(lights, k)),
        all_below(canonical_of_prefix(lights, k), lights.len() as int),
    decreases k,
{
    if k > 0 {
        lemma_canonical_prefix_ok(lights, (k - 1) as nat);
        let prev = canonical_of_prefix(lights, (k - 1) as nat);
        let v = (k - 1) as usize;
        lemma_insert_canonical_ok(lights, prev, v);
    }
}

/// The canonical order of any light list is a canonical order: each index
/// exactly once, every pair in canonical precedence.
pub proof fn lemma_canonical_of_ok(lights: Seq<Light>)
    requires
        lights.len() <= usize::MAX,
    ensures
        is_canonical_order(lights, canonical_of(lights)),
{
    lemma_canonical_prefix_ok(lights, lights.len());
}

proof fn lemma_canonical_order_unique_at(lights: Seq<Light>, o1: Seq<usize>, o2: Seq<usize>, k: int)
    requires
        is_canonical_order(lights, o1),
        is_canonical_order(lights, o2),
        0 <= k < lights.len(),
        forall|j: int| 0 <= j < k ==> o1[j] == o2[j],
    ensures
        o1[k] == o2[k],
{
    assert_by_contradiction!(o1[k] == o2[k], {
        let a = o1[k];
        let b = o2[k];
        assert(o1.contains(a)) by { assert(o1[k] == a); }
        assert(o2.contains(b)) by { assert(o2[k] == b); }
        assert((a as int) < lights.len());
        assert((b as int) < lights.len());
        assert(o2.contains(a));
        assert(o1.contains(b));
        let p = choose|p: int| 0 <= p < o2.len() && o2[p] == a;
        let q = choose|q: int| 0 <= q < o1.len() && o1[q] == b;
        lemma_precedes_irrefl(lights, a as int);
        lemma_precedes_irrefl(lights, b as int);
        if p < k {
            // a would already have appeared in the shared prefix of o1
            assert(o1[p] == o2[p]);
            assert(precedes_at(lights, o1[p] as int, o1[k] as int));
        } else if p > k {
            // b precedes a in o2
            assert(precedes_at(lights, o2[k] as int, o2[p] as int));
            if q < k {
                // b would already have appeared in the shared prefix of o2
                assert(o1[q] == o2[q]);
                assert(precedes_at(lights, o2[q] as int, o2[k] as int));
            } else if q > k {
                // and a precedes b in o1: contradiction with strictness
                assert(precedes_at(lights, o1[k] as int, o1[q] as int));
                lemma_precedes_strict(lights, a as int, b as int);
            }
        }
        assert(false);
    });
}

proof fn lemma_canonical_order_unique_prefix(
    lights: Seq<Light>,
    o1: Seq<usize>,
    o2: Seq<usize>,
    k: int,
)
    requires
        is_canonical_order(lights, o1),
        is_canonical_order(lights, o2),
        0 <= k <= lights.len(),
    ensures
        forall|j: int| 0 <= j < k ==> o1[j] == o2[j],
    decreases k,
{
    if k > 0 {
        lemma_canonical_order_unique_prefix(lights, o1, o2, k - 1);
        lemma_canonical_order_unique_at(lights, o1, o2, k - 1);
        assert forall|j: int| 0 <= j < k implies o1[j] == o2[j] by {}
    }
}

/// Inserting at the first position whose element `v` precedes is exactly
/// the stable insertion.
proof fn lemma_insert_canonical_shape(lights: Seq<Light>, ord: Seq<usize>, v: usize, pos: int)
    requires
        0 <= pos <= ord.len(),
        forall|j: int| 0 <= j < pos ==> !precedes_at(lights, v as int, #[trigger] ord[j] as int),
        pos < ord.len() ==> precedes_at(lights, v as int, ord[pos] as int),
    ensures
        insert_canonical(lights, ord, v) == ord.insert(pos, v),
    decreases ord.len(),
{
    ord.insert_ensures(pos, v);
    if ord.len() == 0 {
        assert(insert_canonical(lights, ord, v) =~= ord.insert(pos, v));
    } else if pos == 0 {
        assert(insert_canonical(lights, ord, v) == seq![v] + ord);
        assert(seq![v] + ord =~= ord.insert(0, v));
    } else {
        let ordd = ord.drop_first();
        assert(!precedes_at(lights, v as int, ord[0] as int));
        assert forall|j: int| 0 <= j < pos - 1 implies !precedes_at(
            lights,
            v as int,
            #[trigger] ordd[j] as int,
        ) by {
            assert(ordd[j] == ord[j + 1]);
        }
        if pos - 1 < ordd.len() {
            assert(ordd[pos - 1] == ord[pos]);
        }
        lemma_insert_canonical_shape(lights, ordd, v, pos - 1);
        ordd.insert_ensures(pos - 1, v);
        assert(insert_canonical(lights, ord, v) == seq![ord[0]] + ordd.insert(pos - 1, v));
        assert forall|m: int| 0 <= m < ord.len() + 1 implies (seq![ord[0]] + ordd.insert(
            pos - 1,
            v,
        ))[m] == ord.insert(pos, v)[m] by {
            if m > 0 {
                assert((seq![ord[0]] + ordd.insert(pos - 1, v))[m] == ordd.insert(pos - 1, v)[m
                    - 1]);
                if m - 1 < pos - 1 {
                    assert(ordd[m - 1] == ord[m]);
                } else if m - 1 > pos - 1 {
                    assert(ordd.insert(pos - 1, v)[m - 1] == ordd[m - 2]);
                    assert(ordd[m - 2] == ord[m - 1]);
                }
            }
        }
        assert(seq![ord[0]] + ordd.insert(pos - 1, v) =~= ord.insert(pos, v));
    }
}

/// The canonical order is a total order and is stable under repeated
/// computation: any two orderings of the same lights that satisfy
/// `is_canonical_order` are one and the same sequence.
pub proof fn lemma_canonical_order_unique(lights: Seq<Light>, o1: Seq<usize>, o2: Seq<usize>)
    requires
        is_canonical_order(lights, o1),
        is_canonical_order(lights, o2),
    ensures
        o1 == o2,
{
    lemma_canonical_order_unique_prefix(lights, o1, o2, lights.len() as int);
    assert(o1 =~= o2);
}

/// Lexicographic comparison of two byte strings.
fn bytes_lex_lt(a: &[u8], b: &[u8]) -> (r: bool)
    ensures
        r == lex_lt(a@, b@),
{
    let mut i: usize = 0;
    proof {
        assert(a@.skip(0) =~= a@);
        assert(b@.skip(0) =~= b@);
    }
    while i < a.len() && i < b.len()
        invariant
            i <= a@.len(),
            i <= b@.len(),
            lex_lt(a@, b@) == lex_lt(a@.skip(i as int), b@.skip(i as int)),
        decreases a@.len() - i,
    {
        let x = a[i];
        let y = b[i];
        proof {
            assert(a@.skip(i as int).len() == a@.len() - i);
            assert(b@.skip(i as int).len() == b@.len() - i);
            assert(a@.skip(i as int)[0] == a@[i as int]);
            assert(b@.skip(i as int)[0] == b@[i as int]);
        }
        if x < y {
            proof {
                assert(lex_lt(a@.skip(i as int), b@.skip(i as int)));
            }
            return true;
        }
        if y < x {
            proof {
                assert(!lex_lt(a@.skip(i as int), b@.skip(i as int)));
            }
            return false;
        }
        proof {
            assert(a@.skip(i as int).drop_first() =~= a@.skip(i as int + 1));
            assert(b@.skip(i as int).drop_first() =~= b@.skip(i as int + 1));
            assert(lex_lt(a@.skip(i as int), b@.skip(i as int)) == lex_lt(
                a@.skip(i as int + 1),
                b@.skip(i as int + 1),
            ));
        }
        i = i + 1;
    }
    proof {
        assert(a@.skip(i as int).len() == a@.len() - i);
        assert(b@.skip(i as int).len() == b@.len() - i);
        if a@.len() < b@.len() {
            assert(i == a@.len());
            assert(lex_lt(a@.skip(i as int), b@.skip(i as int)));
        } else {
            assert(i == b@.len() || i == a@.len());
            assert(b@.skip(i as int).len() == 0);
            assert(!lex_lt(a@.skip(i as int), b@.skip(i as int)));
        }
    }
    a.len() < b.len()
}

/// Whether the light at index `a` comes before the one at index `b` in
/// canonical order.
fn light_precedes(lights: &Vec<Light>, a: usize, b: usize) -> (r: bool)
    requires
        a < lights@.len(),
        b < lights@.len(),
        a != b,
    ensures
        r == precedes_at(lights@, a as int, b as int),
{
    let la = &lights[a];
    let lb = &lights[b];
    if la.color_capable != lb.color_capable {
        return la.color_capable;
    }
    let na = la.name.as_str().as_bytes();
    let nb = lb.name.as_str().as_bytes();
    proof {
        assert(na@ == name_bytes(lights@[a as int]));
        assert(nb@ == name_bytes(lights@[b as int]));
    }
    if bytes_lex_lt(na, nb) {
        true
    } else if bytes_lex_lt(nb, na) {
        false
    } else {
        proof {
            lemma_lex_lt_total(na@, nb@);
            assert(light_key_eq(lights@[a as int], lights@[b as int]));
        }
        a < b
    }
}

/// Compute the canonical order of a light list: a vector of indices into
/// it, color-capable lights first, then name ascending, ties in inventory
/// order. The result is the one and only sequence satisfying
/// `is_canonical_order`.
pub fn canonical_order(lights: &Vec<Light>) -> (ord: Vec<usize>)
    ensures
        ord@ == canonical_of(lights@),
        is_canonical_order(lights@, ord@),
{
    let n = lights.len();
    let mut ord: Vec<usize> = Vec::new();
    let mut k: usize = 0;
    while k < n
        invariant
            k <= n,
            n == lights@.len(),
            ord@ == canonical_of_prefix(lights@, k as nat),
        decreases n - k,
    {
        proof {
            lemma_canonical_prefix_ok(lights@, k as nat);
        }
        let mut pos: usize = 0;
        loop
            invariant
                pos <= ord@.len(),
                k < n,
                n == lights@.len(),
                ord@ == canonical_of_prefix(lights@, k as nat),
                forall|j: int|
                    0 <= j < pos ==> !precedes_at(lights@, k as int, #[trigger] ord@[j] as int),
            ensures
                pos <= ord@.len(),
                forall|j: int|
                    0 <= j < pos ==> !precedes_at(lights@, k as int, #[trigger] ord@[j] as int),
                pos < ord@.len() ==> precedes_at(lights@, k as int, ord@[pos as int] as int),
            decreases ord@.len() - pos,
        {
            if pos >= ord.len() {
                break;
            }
            let o = ord[pos];
            proof {
                lemma_canonical_prefix_ok(lights@, k as nat);
                assert(ord@.contains(ord@[pos as int]));
            }
            if light_precedes(lights, k, o) {
                break;
            }
            pos = pos + 1;
        }
        proof {
            lemma_canonical_prefix_ok(lights@, k as nat);
            lemma_insert_canonical_shape(lights@, ord@, k, pos as int);
        }
        ord.insert(pos, k);
        k = k + 1;
        proof {
            assert(ord@ == canonical_of_prefix(lights@, k as nat));
        }
    }
    proof {
        lemma_canonical_of_ok(lights@);
    }
    ord
}

} // verus!

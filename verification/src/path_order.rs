//! The order of paths given as their components' bytes: component by
//! component, each compared byte by byte, a proper prefix first. This is how
//! std orders paths whose components are all plain names after a common
//! start, which is the case of the files found under one directory.

use vstd::prelude::*;
use crate::prune::components;

verus! {

broadcast use vstd::seq_lib::to_multiset_insert, vstd::seq_lib::to_multiset_build;

/// Whether byte string `a` comes strictly before `b`.
pub open spec fn bytes_before(a: Seq<u8>, b: Seq<u8>) -> bool
    decreases a.len(),
{
    if a.len() == 0 {
        b.len() > 0
    } else if b.len() == 0 {
        false
    } else if a[0] != b[0] {
        a[0] < b[0]
    } else {
        bytes_before(a.drop_first(), b.drop_first())
    }
}

/// Whether path `a` comes strictly before path `b`.
pub open spec fn path_before(a: Seq<Seq<u8>>, b: Seq<Seq<u8>>) -> bool
    decreases a.len(),
{
    if a.len() == 0 {
        b.len() > 0
    } else if b.len() == 0 {
        false
    } else if a[0] != b[0] {
        bytes_before(a[0], b[0])
    } else {
        path_before(a.drop_first(), b.drop_first())
    }
}

/// No byte string comes before itself, nor both before and after another.
pub proof fn lemma_bytes_asymmetric(a: Seq<u8>, b: Seq<u8>)
    ensures
        bytes_before(a, b) ==> !bytes_before(b, a),
    decreases a.len(),
{
    if a.len() > 0 && b.len() > 0 && a[0] == b[0] {
        lemma_bytes_asymmetric(a.drop_first(), b.drop_first());
    }
}

/// The order of byte strings is transitive.
pub proof fn lemma_bytes_transitive(a: Seq<u8>, b: Seq<u8>, c: Seq<u8>)
    requires
        bytes_before(a, b),
        bytes_before(b, c),
    ensures
        bytes_before(a, c),
    decreases a.len(),
{
    if a.len() > 0 && b.len() > 0 && c.len() > 0 && a[0] == b[0] && b[0] == c[0] {
        lemma_bytes_transitive(a.drop_first(), b.drop_first(), c.drop_first());
    }
}

/// Two different byte strings are ordered one way or the other.
pub proof fn lemma_bytes_total(a: Seq<u8>, b: Seq<u8>)
    requires
        a != b,
    ensures
        bytes_before(a, b) || bytes_before(b, a),
    decreases a.len(),
{
    if a.len() == 0 && b.len() == 0 {
        assert(a =~= b);
    } else if a.len() > 0 && b.len() > 0 && a[0] == b[0] {
        if a.drop_first() =~= b.drop_first() {
            assert(a =~= b) by {
                assert forall|i: int| 0 <= i < a.len() implies a[i] == b[i] by {
                    if i > 0 {
                        assert(a[i] == a.drop_first()[i - 1]);
                        assert(b[i] == b.drop_first()[i - 1]);
                    }
                }
            }
        } else {
            lemma_bytes_total(a.drop_first(), b.drop_first());
        }
    }
}

/// No path comes before itself, nor both before and after another.
pub proof fn lemma_path_asymmetric(a: Seq<Seq<u8>>, b: Seq<Seq<u8>>)
    ensures
        path_before(a, b) ==> !path_before(b, a),
    decreases a.len(),
{
    if a.len() > 0 && b.len() > 0 {
        if a[0] == b[0] {
            lemma_path_asymmetric(a.drop_first(), b.drop_first());
        } else {
            lemma_bytes_asymmetric(a[0], b[0]);
        }
    }
}

/// The order of paths is transitive.
pub proof fn lemma_path_transitive(a: Seq<Seq<u8>>, b: Seq<Seq<u8>>, c: Seq<Seq<u8>>)
    requires
        path_before(a, b),
        path_before(b, c),
    ensures
        path_before(a, c),
    decreases a.len(),
{
    if a.len() > 0 && b.len() > 0 && c.len() > 0 {
        if a[0] == b[0] && b[0] == c[0] {
            lemma_path_transitive(a.drop_first(), b.drop_first(), c.drop_first());
        } else if a[0] == b[0] {
            assert(bytes_before(b[0], c[0]));
        } else if b[0] == c[0] {
            assert(bytes_before(a[0], b[0]));
        } else {
            lemma_bytes_transitive(a[0], b[0], c[0]);
            if a[0] == c[0] {
                lemma_bytes_asymmetric(a[0], b[0]);
            }
        }
    }
}

/// Two different paths are ordered one way or the other.
pub proof fn lemma_path_total(a: Seq<Seq<u8>>, b: Seq<Seq<u8>>)
    requires
        a != b,
    ensures
        path_before(a, b) || path_before(b, a),
    decreases a.len(),
{
    if a.len() == 0 && b.len() == 0 {
        assert(a =~= b);
    } else if a.len() > 0 && b.len() > 0 {
        if a[0] == b[0] {
            if a.drop_first() =~= b.drop_first() {
                assert(a =~= b) by {
                    assert forall|i: int| 0 <= i < a.len() implies a[i] == b[i] by {
                        if i > 0 {
                            assert(a[i] == a.drop_first()[i - 1]);
                            assert(b[i] == b.drop_first()[i - 1]);
                        }
                    }
                }
            } else {
                lemma_path_total(a.drop_first(), b.drop_first());
            }
        } else {
            lemma_bytes_total(a[0], b[0]);
        }
    }
}

proof fn lemma_bytes_skip(a: Seq<u8>, b: Seq<u8>, i: int)
    requires
        0 <= i < a.len(),
        i < b.len(),
        a[i] == b[i],
    ensures
        bytes_before(a.skip(i), b.skip(i)) == bytes_before(a.skip(i + 1), b.skip(i + 1)),
{
    assert(a.skip(i).drop_first() =~= a.skip(i + 1));
    assert(b.skip(i).drop_first() =~= b.skip(i + 1));
}

proof fn lemma_path_skip(a: Seq<Seq<u8>>, b: Seq<Seq<u8>>, i: int)
    requires
        0 <= i < a.len(),
        i < b.len(),
        a[i] == b[i],
    ensures
        path_before(a.skip(i), b.skip(i)) == path_before(a.skip(i + 1), b.skip(i + 1)),
{
    assert(a.skip(i).drop_first() =~= a.skip(i + 1));
    assert(b.skip(i).drop_first() =~= b.skip(i + 1));
}

/// Whether byte string `a` comes strictly before `b`.
pub fn bytes_come_before(a: &Vec<u8>, b: &Vec<u8>) -> (r: bool)
    ensures
        r == bytes_before(a@, b@),
{
    let mut i: usize = 0;
    assert(a@.skip(0) =~= a@);
    assert(b@.skip(0) =~= b@);
    while i < a.len() && i < b.len() && a[i] == b[i]
        invariant
            i <= a@.len(),
            i <= b@.len(),
            bytes_before(a@, b@) == bytes_before(a@.skip(i as int), b@.skip(i as int)),
        decreases a@.len() - i,
    {
        proof {
            lemma_bytes_skip(a@, b@, i as int);
        }
        i = i + 1;
    }
    if i == a.len() {
        i < b.len()
    } else if i == b.len() {
        false
    } else {
        assert(a@.skip(i as int)[0] == a@[i as int]);
        assert(b@.skip(i as int)[0] == b@[i as int]);
        a[i] < b[i]
    }
}

/// Whether path `a` comes strictly before path `b`.
pub fn path_comes_before(a: &Vec<Vec<u8>>, b: &Vec<Vec<u8>>) -> (r: bool)
    ensures
        r == path_before(components(a@), components(b@)),
{
    let ghost ca = components(a@);
    let ghost cb = components(b@);
    let mut i: usize = 0;
    assert(ca.skip(0) =~= ca);
    assert(cb.skip(0) =~= cb);
    while i < a.len() && i < b.len() && crate::prune::same_bytes(&a[i], &b[i])
        invariant
            ca == components(a@),
            cb == components(b@),
            i <= a@.len(),
            i <= b@.len(),
            path_before(ca, cb) == path_before(ca.skip(i as int), cb.skip(i as int)),
        decreases a@.len() - i,
    {
        proof {
            lemma_path_skip(ca, cb, i as int);
        }
        i = i + 1;
    }
    if i == a.len() {
        i < b.len()
    } else if i == b.len() {
        false
    } else {
        assert(ca.skip(i as int)[0] == a@[i as int]@);
        assert(cb.skip(i as int)[0] == b@[i as int]@);
        bytes_come_before(&a[i], &b[i])
    }
}

/// The path key of an item.
pub open spec fn key_of<P>(item: (Vec<Vec<u8>>, P)) -> Seq<Seq<u8>> {
    components(item.0@)
}

/// Whether the items are in path order: no item's key comes before that of
/// an item ahead of it.
pub open spec fn in_path_order<P>(s: Seq<(Vec<Vec<u8>>, P)>) -> bool {
    forall|i: int, j: int|
        0 <= i < j < s.len() ==> !path_before(key_of(#[trigger] s[j]), key_of(#[trigger] s[i]))
}

/// Sorts items by their path keys: the result holds the same items, in path
/// order.
pub fn sort_by_path<P>(items: Vec<(Vec<Vec<u8>>, P)>) -> (r: Vec<(Vec<Vec<u8>>, P)>)
    ensures
        r@.to_multiset() == items@.to_multiset(),
        in_path_order(r@),
{
    let ghost all = items@;
    let mut out: Vec<(Vec<Vec<u8>>, P)> = Vec::new();
    assert(out@ =~= all.take(0));
    for item in it: items.into_iter()
        invariant
            it.seq() == all,
            out@.to_multiset() == all.take(it.index() as int).to_multiset(),
            in_path_order(out@),
    {
        let ghost taken = all.take(it.index() as int);
        assert(all.take(it.index() + 1) =~= taken.push(item));
        let mut j: usize = 0;
        while j < out.len() && !path_comes_before(&item.0, &out[j].0)
            invariant
                j <= out@.len(),
                forall|k: int| 0 <= k < j ==> !path_before(key_of(item), key_of(#[trigger] out@[k])),
            decreases out@.len() - j,
        {
            j = j + 1;
        }
        let ghost before = out@;
        out.insert(j, item);
        proof {
            assert(out@ == before.insert(j as int, item));
            assert forall|p: int, q: int| 0 <= p < q < out@.len() implies !path_before(
                key_of(#[trigger] out@[q]),
                key_of(#[trigger] out@[p]),
            ) by {
                if q < j {
                    assert(out@[p] == before[p] && out@[q] == before[q]);
                } else if q == j {
                    assert(out@[p] == before[p]);
                } else if p > j {
                    assert(out@[p] == before[p - 1] && out@[q] == before[q - 1]);
                } else if p == j {
                    assert(out@[q] == before[q - 1]);
                    assert(path_before(key_of(item), key_of(before[j as int])));
                    if path_before(key_of(before[q - 1]), key_of(item)) {
                        lemma_path_transitive(
                            key_of(before[q - 1]),
                            key_of(item),
                            key_of(before[j as int]),
                        );
                        if q - 1 > j {
                            assert(!path_before(key_of(before[q - 1]), key_of(before[j as int])));
                        } else {
                            lemma_path_asymmetric(key_of(before[j as int]), key_of(before[j as int]));
                        }
                    }
                } else {
                    assert(out@[p] == before[p] && out@[q] == before[q - 1]);
                }
            }
        }
    }
    assert(all.take(all.len() as int) =~= all);
    out
}

} // verus!

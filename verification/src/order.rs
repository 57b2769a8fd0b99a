//! Ascending listings of ordered sets.
//!
//! A `BTreeSet` hands out its elements in ascending order.  This module says
//! what that order is, and proves that it depends on the set's elements alone.

use std::cmp::Ordering;
use std::collections::BTreeSet;
use vstd::prelude::*;
use vstd::std_specs::btree::*;
use vstd::std_specs::cmp::OrdSpec;
use vstd::std_specs::cmp::PartialEqSpec;
use vstd::std_specs::cmp::PartialOrdSpec;
use vstd::std_specs::iter::IteratorSpec;

verus! {

/// `T`'s comparison is a total order that agrees with its equality.
pub open spec fn lawful_order<T: Ord>() -> bool {
    vstd::laws_cmp::obeys_cmp::<T>()
}

/// `T`'s `==` holds of two values exactly when they are the same value.
pub open spec fn lawful_equality<T: PartialEq>() -> bool {
    vstd::laws_eq::obeys_concrete_eq::<T>()
}

/// Each element of `q` is less than every later one.
pub open spec fn ascending<T: Ord>(q: Seq<T>) -> bool {
    forall|i: int, j: int| 0 <= i < j < q.len() ==> #[trigger] q[i].cmp_spec(&q[j]) is Less
}

/// `q` lists the elements of `s` in ascending order.
pub open spec fn ascending_listing<T: Ord>(q: Seq<T>, s: Set<T>) -> bool {
    &&& q.to_set() == s
    &&& ascending(q)
}

/// The elements of `s` in ascending order, if `s` has such a listing.
pub open spec fn sorted<T: Ord>(s: Set<T>) -> Seq<T> {
    choose|q: Seq<T>| ascending_listing(q, s)
}

proof fn lemma_lawful_order_ref<T: Ord>()
    requires
        lawful_order::<T>(),
    ensures
        vstd::laws_cmp::obeys_cmp::<&T>(),
{
    reveal(vstd::laws_eq::obeys_eq_spec_properties);
    reveal(vstd::laws_cmp::obeys_partial_cmp_spec_properties);
    reveal(vstd::laws_cmp::obeys_cmp_partial_ord);
    reveal(vstd::laws_cmp::obeys_cmp_ord);
}

/// Under a lawful order, a `BTreeSet` of `T` behaves as vstd specifies.
pub proof fn lemma_lawful_order_btree<T: Ord>()
    requires
        lawful_order::<T>(),
    ensures
        key_obeys_cmp_spec::<T>(),
{
    broadcast use axiom_key_obeys_cmp_spec_meaning;

}

/// Under a lawful equality, `==` in executable code decides whether two
/// values are the same.
pub proof fn lemma_lawful_equality<T: PartialEq>()
    requires
        lawful_equality::<T>(),
    ensures
        T::obeys_eq_spec(),
        forall|x: T, y: T| #[trigger] x.eq_spec(&y) <==> x == y,
{
    reveal(vstd::laws_eq::obeys_concrete_eq);
}

proof fn lemma_less_irreflexive<T: Ord>(x: T)
    requires
        lawful_order::<T>(),
    ensures
        !(x.cmp_spec(&x) is Less),
{
    reveal(vstd::laws_cmp::obeys_partial_cmp_spec_properties);
    reveal(vstd::laws_cmp::obeys_cmp_ord);
    assert(x.partial_cmp_spec(&x) == Some(x.cmp_spec(&x)));
}

proof fn lemma_less_transitive<T: Ord>(x: T, y: T, z: T)
    requires
        lawful_order::<T>(),
        x.cmp_spec(&y) is Less,
        y.cmp_spec(&z) is Less,
    ensures
        x.cmp_spec(&z) is Less,
{
    reveal(vstd::laws_cmp::obeys_partial_cmp_spec_properties);
    reveal(vstd::laws_cmp::obeys_cmp_ord);
    assert(x.partial_cmp_spec(&y) == Some(x.cmp_spec(&y)));
    assert(y.partial_cmp_spec(&z) == Some(y.cmp_spec(&z)));
    assert(x.partial_cmp_spec(&z) == Some(x.cmp_spec(&z)));
}

/// Two ascending sequences with the same elements are the same sequence.
pub proof fn lemma_listing_unique<T: Ord>(p: Seq<T>, q: Seq<T>)
    requires
        lawful_order::<T>(),
        ascending(p),
        ascending(q),
        p.to_set() == q.to_set(),
    ensures
        p == q,
    decreases p.len(),
{
    if p.len() == 0 {
        if q.len() > 0 {
            assert(q.contains(q[0]));
            assert(q.to_set().contains(q[0]));
            assert(p.contains(q[0]));
        }
        assert(p =~= q);
    } else if q.len() == 0 {
        assert(p.contains(p[0]));
        assert(p.to_set().contains(p[0]));
        assert(q.contains(p[0]));
    } else {
        let a = p[0];
        let b = q[0];
        assert(q.contains(b));
        assert(q.to_set().contains(b));
        assert(p.contains(b));
        let j = choose|j: int| 0 <= j < p.len() && p[j] == b;
        assert(p.contains(a));
        assert(p.to_set().contains(a));
        assert(q.contains(a));
        let k = choose|k: int| 0 <= k < q.len() && q[k] == a;
        if j > 0 && k > 0 {
            assert(p[0].cmp_spec(&p[j]) is Less);
            assert(q[0].cmp_spec(&q[k]) is Less);
            lemma_less_transitive(a, b, a);
            lemma_less_irreflexive(a);
        }
        assert(a == b);
        let pt = p.drop_first();
        let qt = q.drop_first();
        assert(ascending(pt)) by {
            assert forall|i: int, j: int| 0 <= i < j < pt.len() implies #[trigger] pt[i].cmp_spec(
                &pt[j],
            ) is Less by {
                assert(p[i + 1].cmp_spec(&p[j + 1]) is Less);
            }
        }
        assert(ascending(qt)) by {
            assert forall|i: int, j: int| 0 <= i < j < qt.len() implies #[trigger] qt[i].cmp_spec(
                &qt[j],
            ) is Less by {
                assert(q[i + 1].cmp_spec(&q[j + 1]) is Less);
            }
        }
        assert(pt.to_set() =~= qt.to_set()) by {
            assert forall|x: T| pt.to_set().contains(x) implies qt.to_set().contains(x) by {
                lemma_tail_member(p, q, x);
            }
            assert forall|x: T| qt.to_set().contains(x) implies pt.to_set().contains(x) by {
                lemma_tail_member(q, p, x);
            }
        }
        lemma_listing_unique(pt, qt);
        assert(p =~= q) by {
            assert forall|i: int| 0 <= i < p.len() implies p[i] == q[i] by {
                if i > 0 {
                    assert(p[i] == pt[i - 1]);
                    assert(q[i] == qt[i - 1]);
                }
            }
        }
    }
}

proof fn lemma_tail_member<T: Ord>(p: Seq<T>, q: Seq<T>, x: T)
    requires
        lawful_order::<T>(),
        ascending(p),
        p.len() > 0,
        q.len() > 0,
        p[0] == q[0],
        p.to_set() == q.to_set(),
        p.drop_first().to_set().contains(x),
    ensures
        q.drop_first().to_set().contains(x),
{
    let pt = p.drop_first();
    assert(pt.contains(x));
    let i = choose|i: int| 0 <= i < pt.len() && pt[i] == x;
    assert(p[i + 1] == x);
    assert(p.contains(x));
    assert(p.to_set().contains(x));
    assert(q.contains(x));
    let m = choose|m: int| 0 <= m < q.len() && q[m] == x;
    if m == 0 {
        assert(p[0].cmp_spec(&p[i + 1]) is Less);
        lemma_less_irreflexive(x);
    }
    assert(q.drop_first()[m - 1] == x);
    assert(q.drop_first().contains(x));
}

/// Walking a `BTreeSet` from its start lists its elements in ascending order:
/// `walk` is what the set's iterator has left to yield when it is made.
pub proof fn lemma_walk_is_sorted<T: Ord>(set: &BTreeSet<T>, walk: Seq<T>)
    requires
        lawful_order::<T>(),
        walk == spec_btree_keys_iter(set).remaining().unref(),
    ensures
        walk == sorted(set@),
        ascending_listing(walk, set@),
        walk.len() == set@.len(),
{
    axiom_spec_btree_keys_iter(set);
    let r = spec_btree_keys_iter(set).remaining();
    lemma_lawful_order_ref::<T>();
    axiom_increasing_seq_meaning::<&T>(r);
    assert(ascending(walk)) by {
        assert forall|i: int, j: int| 0 <= i < j < walk.len() implies #[trigger] walk[i].cmp_spec(
            &walk[j],
        ) is Less by {
            assert(OrdSpec::cmp_spec(&r[i], &r[j]) is Less);
        }
    }
    assert(ascending_listing(walk, set@));
    lemma_listing_unique(walk, sorted(set@));
}

/// The elements of a `BTreeSet` have exactly one ascending listing.
pub proof fn lemma_sorted_lists_set<T: Ord>(set: &BTreeSet<T>)
    requires
        lawful_order::<T>(),
    ensures
        ascending_listing(sorted(set@), set@),
        sorted(set@).len() == set@.len(),
{
    lemma_walk_is_sorted(set, spec_btree_keys_iter(set).remaining().unref());
}

} // verus!

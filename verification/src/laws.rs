//! The laws of the greeting service, each proved over the same views and
//! spec functions that the service's own contracts speak of: the greetings
//! map [`greetings_of`] names, and the listing shape [`greetings_listing`]
//! pins down.

use vstd::prelude::*;

use crate::store::{bytes_lt, greetings_listing};

verus! {

/// A sequence of writes, each a (caller identity, greeting) pair, applied to
/// the greetings map in order, as each write's own contract states it.
pub open spec fn apply_writes(
    m: Map<Seq<char>, Seq<char>>,
    writes: Seq<(Seq<char>, Seq<char>)>,
) -> Map<Seq<char>, Seq<char>>
    decreases writes.len(),
{
    if writes.len() == 0 {
        m
    } else {
        apply_writes(m.insert(writes[0].0, writes[0].1), writes.subrange(1, writes.len() as int))
    }
}

/// Whether the writes come from pairwise distinct caller identities.
pub open spec fn distinct_callers(writes: Seq<(Seq<char>, Seq<char>)>) -> bool {
    forall|i: int, j: int| 0 <= i < j < writes.len() ==> writes[i].0 != writes[j].0
}

/// Law: no key comes before itself in the store's key order.
pub proof fn lemma_key_order_irreflexive(a: Seq<u8>)
    ensures
        !bytes_lt(a, a),
    decreases a.len(),
{
    if a.len() > 0 {
        lemma_key_order_irreflexive(a.subrange(1, a.len() as int));
    }
}

/// Law: the store's key order is transitive.
pub proof fn lemma_key_order_transitive(a: Seq<u8>, b: Seq<u8>, c: Seq<u8>)
    requires
        bytes_lt(a, b),
        bytes_lt(b, c),
    ensures
        bytes_lt(a, c),
    decreases a.len(),
{
    if a.len() > 0 && b.len() > 0 && c.len() > 0 && a[0] == b[0] && b[0] == c[0] {
        lemma_key_order_transitive(
            a.subrange(1, a.len() as int),
            b.subrange(1, b.len() as int),
            c.subrange(1, c.len() as int),
        );
    }
}

/// Law: any two keys are ordered one way or the other, or are the same key:
/// with irreflexivity and transitivity, the store's key order is a strict
/// total order, so "ascending" ranks every pair of distinct keys.
pub proof fn lemma_key_order_total(a: Seq<u8>, b: Seq<u8>)
    ensures
        a == b || bytes_lt(a, b) || bytes_lt(b, a),
    decreases a.len(),
{
    if a.len() == 0 && b.len() == 0 {
        assert(a =~= b);
    } else if a.len() > 0 && b.len() > 0 && a[0] == b[0] {
        let ta = a.subrange(1, a.len() as int);
        let tb = b.subrange(1, b.len() as int);
        lemma_key_order_total(ta, tb);
        if ta == tb {
            assert(a =~= b) by {
                assert(forall|i: int|
                    1 <= i < a.len() ==> a[i] == ta[i - 1] && b[i] == tb[i - 1]);
            }
        }
    }
}

/// Law: overwriting is idempotent. Writing `g1` and then `g2` under the same
/// identity `c` leaves exactly what writing `g2` alone would have left: one
/// entry for `c`, holding `g2`.
pub proof fn lemma_idempotent_overwrite(
    m: Map<Seq<char>, Seq<char>>,
    c: Seq<char>,
    g1: Seq<char>,
    g2: Seq<char>,
)
    ensures
        m.insert(c, g1).insert(c, g2) == m.insert(c, g2),
        m.insert(c, g1).insert(c, g2)[c] == g2,
        m.insert(c, g1).insert(c, g2).dom() == m.dom().insert(c),
{
    broadcast use vstd::map::group_map_axioms;
    broadcast use vstd::set::group_set_axioms;

    assert(m.insert(c, g1).insert(c, g2) =~= m.insert(c, g2));
    assert(m.insert(c, g1).insert(c, g2).dom() =~= m.dom().insert(c));
}

/// Law: writes under distinct identities commute, so the store's contents --
/// and with them the listing, which depends on the contents alone -- do not
/// depend on the order of such writes.
pub proof fn lemma_write_order_irrelevant(
    m: Map<Seq<char>, Seq<char>>,
    c1: Seq<char>,
    g1: Seq<char>,
    c2: Seq<char>,
    g2: Seq<char>,
)
    requires
        c1 != c2,
    ensures
        m.insert(c1, g1).insert(c2, g2) == m.insert(c2, g2).insert(c1, g1),
{
    broadcast use vstd::map::group_map_axioms;

    assert(m.insert(c1, g1).insert(c2, g2) =~= m.insert(c2, g2).insert(c1, g1));
}

/// Law: a listing is strictly ascending in byte-wise key order, whatever the
/// store holds and in whatever order it was filled.
pub proof fn lemma_listing_ascending(
    m: Map<Seq<char>, Seq<char>>,
    entries: Seq<(Seq<u8>, Seq<char>)>,
)
    ensures
        greetings_listing(m, entries) ==> (forall|i: int, j: int|
            0 <= i < j < entries.len() ==> bytes_lt(
                #[trigger] entries[i].0,
                #[trigger] entries[j].0,
            )),
{
}

/// Law: a listing of the empty store has no entries.
pub proof fn lemma_empty_listing(entries: Seq<(Seq<u8>, Seq<char>)>)
    ensures
        greetings_listing(Map::<Seq<char>, Seq<char>>::empty(), entries) ==> entries.len() == 0,
{
    broadcast use vstd::map::group_map_axioms;
    broadcast use vstd::set::group_set_axioms;

    assert(Map::<Seq<char>, Seq<char>>::empty().dom() =~= Set::<Seq<char>>::empty());
}

/// Law: a listing has exactly one entry per stored identity.
pub proof fn lemma_listing_count(
    m: Map<Seq<char>, Seq<char>>,
    entries: Seq<(Seq<u8>, Seq<char>)>,
)
    ensures
        greetings_listing(m, entries) ==> entries.len() == m.dom().len(),
{
}

/// Law: writes from identities that are pairwise distinct and all new to the
/// store each add one entry, so `n` such writes grow the store by `n`.
pub proof fn lemma_write_count(m: Map<Seq<char>, Seq<char>>, writes: Seq<(Seq<char>, Seq<char>)>)
    requires
        m.dom().finite(),
        distinct_callers(writes),
        forall|i: int| 0 <= i < writes.len() ==> !m.dom().contains(#[trigger] writes[i].0),
    ensures
        apply_writes(m, writes).dom().finite(),
        apply_writes(m, writes).dom().len() == m.dom().len() + writes.len(),
    decreases writes.len(),
{
    broadcast use vstd::map::group_map_axioms;
    broadcast use vstd::set::group_set_axioms;

    if writes.len() > 0 {
        let m1 = m.insert(writes[0].0, writes[0].1);
        let rest = writes.subrange(1, writes.len() as int);
        assert(m1.dom() =~= m.dom().insert(writes[0].0));
        assert(forall|i: int| 0 <= i < rest.len() ==> rest[i] == writes[i + 1]);
        assert(forall|i: int|
            0 <= i < rest.len() ==> !m1.dom().contains(#[trigger] rest[i].0));
        lemma_write_count(m1, rest);
    }
}

/// Law: after `n` writes from `n` distinct identities to the store that
/// started empty, the store holds exactly `n` entries, and so a listing of
/// it has exactly `n` entries.
pub proof fn lemma_count_from_empty(writes: Seq<(Seq<char>, Seq<char>)>)
    requires
        distinct_callers(writes),
    ensures
        apply_writes(Map::<Seq<char>, Seq<char>>::empty(), writes).dom().finite(),
        apply_writes(Map::<Seq<char>, Seq<char>>::empty(), writes).dom().len() == writes.len(),
{
    broadcast use vstd::map::group_map_axioms;
    broadcast use vstd::set::group_set_axioms;

    assert(Map::<Seq<char>, Seq<char>>::empty().dom() =~= Set::<Seq<char>>::empty());
    lemma_write_count(Map::<Seq<char>, Seq<char>>::empty(), writes);
}

/// Law: a greeting written for an identity is read back exactly, through the
/// store's point read under that same identity.
pub proof fn lemma_round_trip(m: Map<Seq<char>, Seq<char>>, c: Seq<char>, g: Seq<char>)
    ensures
        m.insert(c, g).dom().contains(c),
        m.insert(c, g)[c] == g,
{
    broadcast use vstd::map::group_map_axioms;
}

} // verus!

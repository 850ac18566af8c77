//! Arrival orders: what the relay can deliver when several producers send
//! at the same time. Each producer's records arrive in that producer's
//! order; between producers any order is possible.

use vstd::multiset::Multiset;
use vstd::prelude::*;
use vstd::seq_lib::{lemma_multiset_commutative, to_multiset_build};

verus! {

/// Whether `arrival` is an interleaving of `parts`: the items of every part
/// arrive in the order of that part, each exactly once, and nothing else
/// arrives.
pub open spec fn is_interleaving<T>(arrival: Seq<T>, parts: Seq<Seq<T>>) -> bool
    decreases arrival.len(),
{
    if arrival.len() == 0 {
        forall|j: int| 0 <= j < parts.len() ==> (#[trigger] parts[j]).len() == 0
    } else {
        exists|j: int|
            0 <= j < parts.len() && (#[trigger] parts[j]).len() > 0 && parts[j].last()
                == arrival.last() && is_interleaving(
                arrival.drop_last(),
                parts.update(j, parts[j].drop_last()),
            )
    }
}

/// The items of all parts together, as a multiset.
pub open spec fn parts_multiset<T>(parts: Seq<Seq<T>>) -> Multiset<T>
    decreases parts.len(),
{
    if parts.len() == 0 {
        Multiset::empty()
    } else {
        parts_multiset(parts.drop_last()).add(parts.last().to_multiset())
    }
}

/// The parts read one after the other hold the items of all parts.
pub proof fn lemma_flatten_multiset<T>(parts: Seq<Seq<T>>)
    ensures
        parts.flatten().to_multiset() == parts_multiset(parts),
    decreases parts.len(),
{
    broadcast use vstd::multiset::group_multiset_axioms;

    if parts.len() == 0 {
        assert(parts.flatten() =~= Seq::<T>::empty());
        Seq::<T>::empty().to_multiset_ensures();
        assert(parts.flatten().to_multiset() =~= Multiset::<T>::empty());
    } else {
        let init = parts.drop_last();
        assert(parts =~= init.push(parts.last()));
        init.lemma_flatten_push(parts.last());
        lemma_multiset_commutative(init.flatten(), parts.last());
        lemma_flatten_multiset(init);
        assert(parts.flatten() =~= init.flatten() + parts.last());
        assert(parts.flatten().to_multiset() =~= parts_multiset(parts));
    }
}

/// Parts that are all empty hold no item.
proof fn lemma_empty_parts<T>(parts: Seq<Seq<T>>)
    requires
        forall|j: int| 0 <= j < parts.len() ==> (#[trigger] parts[j]).len() == 0,
    ensures
        parts_multiset(parts) == Multiset::<T>::empty(),
    decreases parts.len(),
{
    broadcast use vstd::multiset::group_multiset_axioms;

    if parts.len() > 0 {
        lemma_empty_parts(parts.drop_last());
        parts.last().to_multiset_ensures();
        assert(parts.last().to_multiset().len() == 0);
        assert(parts_multiset(parts) =~= Multiset::<T>::empty());
    }
}

/// Taking the last item off one part takes that one item off the items of
/// all parts.
proof fn lemma_take_last<T>(parts: Seq<Seq<T>>, j: int)
    requires
        0 <= j < parts.len(),
        parts[j].len() > 0,
    ensures
        parts_multiset(parts) == parts_multiset(parts.update(j, parts[j].drop_last())).insert(
            parts[j].last(),
        ),
    decreases parts.len(),
{
    broadcast use vstd::multiset::group_multiset_axioms;

    let shorter = parts.update(j, parts[j].drop_last());
    if j == parts.len() - 1 {
        assert(shorter.drop_last() =~= parts.drop_last());
        assert(parts[j] =~= parts[j].drop_last().push(parts[j].last()));
        to_multiset_build(parts[j].drop_last(), parts[j].last());
        assert(parts_multiset(parts) =~= parts_multiset(shorter).insert(parts[j].last()));
    } else {
        assert(shorter.drop_last() =~= parts.drop_last().update(j, parts[j].drop_last()));
        assert(shorter.last() == parts.last());
        lemma_take_last(parts.drop_last(), j);
        assert(parts_multiset(parts) =~= parts_multiset(shorter).insert(parts[j].last()));
    }
}

/// An interleaving holds exactly the items of its parts: it is a
/// rearrangement of the parts read one after the other.
pub proof fn lemma_interleaving_keeps_items<T>(arrival: Seq<T>, parts: Seq<Seq<T>>)
    requires
        is_interleaving(arrival, parts),
    ensures
        arrival.to_multiset() == parts.flatten().to_multiset(),
        arrival.len() == parts.flatten().len(),
    decreases arrival.len(),
{
    broadcast use vstd::multiset::group_multiset_axioms;

    lemma_flatten_multiset(parts);
    arrival.to_multiset_ensures();
    parts.flatten().to_multiset_ensures();
    if arrival.len() == 0 {
        lemma_empty_parts(parts);
        assert(arrival.to_multiset() =~= Multiset::<T>::empty());
    } else {
        let j = choose|j: int|
            0 <= j < parts.len() && (#[trigger] parts[j]).len() > 0 && parts[j].last()
                == arrival.last() && is_interleaving(
                arrival.drop_last(),
                parts.update(j, parts[j].drop_last()),
            );
        let shorter = parts.update(j, parts[j].drop_last());
        lemma_interleaving_keeps_items(arrival.drop_last(), shorter);
        lemma_flatten_multiset(shorter);
        lemma_take_last(parts, j);
        assert(arrival =~= arrival.drop_last().push(arrival.last()));
        to_multiset_build(arrival.drop_last(), arrival.last());
    }
}

/// An interleaving stays one when an empty part is added.
proof fn lemma_interleaving_with_empty_part<T>(arrival: Seq<T>, parts: Seq<Seq<T>>)
    requires
        is_interleaving(arrival, parts),
    ensures
        is_interleaving(arrival, parts.push(Seq::empty())),
    decreases arrival.len(),
{
    let more = parts.push(Seq::<T>::empty());
    if arrival.len() > 0 {
        let j = choose|j: int|
            0 <= j < parts.len() && (#[trigger] parts[j]).len() > 0 && parts[j].last()
                == arrival.last() && is_interleaving(
                arrival.drop_last(),
                parts.update(j, parts[j].drop_last()),
            );
        let shorter = parts.update(j, parts[j].drop_last());
        lemma_interleaving_with_empty_part(arrival.drop_last(), shorter);
        assert(more.update(j, more[j].drop_last()) =~= shorter.push(Seq::<T>::empty()));
        assert(more[j].len() > 0);
    }
}

/// The parts read one after the other are one of their interleavings: the
/// arrival order when a single producer handles every part in turn.
pub proof fn lemma_in_order_is_interleaving<T>(parts: Seq<Seq<T>>)
    ensures
        is_interleaving(parts.flatten(), parts),
    decreases parts.len(), (if parts.len() > 0 { parts.last().len() } else { 0 }),
{
    if parts.len() == 0 {
        assert(parts.flatten() =~= Seq::<T>::empty());
    } else {
        let init = parts.drop_last();
        let last = parts.last();
        assert(parts =~= init.push(last));
        init.lemma_flatten_push(last);
        assert(parts.flatten() =~= init.flatten() + last);
        if last.len() == 0 {
            lemma_in_order_is_interleaving(init);
            lemma_interleaving_with_empty_part(init.flatten(), init);
            assert(last =~= Seq::<T>::empty());
            assert(parts.flatten() =~= init.flatten());
        } else {
            let j = parts.len() - 1;
            let shorter = parts.update(j, last.drop_last());
            assert(shorter =~= init.push(last.drop_last()));
            init.lemma_flatten_push(last.drop_last());
            lemma_in_order_is_interleaving(shorter);
            assert(parts.flatten().drop_last() =~= shorter.flatten());
            assert(parts.flatten().last() == last.last());
            assert(parts[j].len() > 0);
        }
    }
}

} // verus!

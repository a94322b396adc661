//! Liveness-tagged values and their compaction.

use vstd::prelude::*;

verus! {

/// A value together with the decision whether it survives the current pass.
pub struct MaybeAlive<T> {
    pub alive: bool,
    pub value: T,
}

impl<T> MaybeAlive<T> {
    /// The value if it is alive, nothing otherwise.
    pub open spec fn spec_as_option(self) -> Option<T> {
        if self.alive {
            Some(self.value)
        } else {
            None
        }
    }

    /// Unwraps the value, dropping it when it has been marked dead.
    pub fn as_option(self) -> (out: Option<T>)
        ensures
            out == self.spec_as_option(),
    {
        if self.alive {
            Some(self.value)
        } else {
            None
        }
    }
}

/// The values of `items` that are alive, in the order they stand in.
pub open spec fn alive_values<T>(items: Seq<MaybeAlive<T>>) -> Seq<T>
    decreases items.len(),
{
    if items.len() == 0 {
        Seq::empty()
    } else {
        let head = alive_values(items.drop_last());
        if items.last().alive {
            head.push(items.last().value)
        } else {
            head
        }
    }
}

/// Second phase of a mark-then-remove pass: keeps the values still marked
/// alive, in order, and drops the rest.
pub fn retain_alive<T>(items: Vec<MaybeAlive<T>>) -> (out: Vec<T>)
    ensures
        out@ == alive_values(items@),
{
    let mut out: Vec<T> = Vec::new();
    for item in it: items
        invariant
            it.seq() == items@,
            out@ == alive_values(items@.take(it.index() as int)),
    {
        proof {
            assert(items@.take(it.index() + 1).drop_last() == items@.take(it.index() as int));
        }
        match item.as_option() {
            Some(value) => out.push(value),
            None => {},
        }
    }
    proof {
        assert(items@.take(items@.len() as int) == items@);
    }
    out
}

/// Compaction never invents a value: it keeps at most as many as it was
/// given, exactly the given values when every item is alive, and none when
/// every item is dead.
pub proof fn lemma_alive_values_bounds<T>(items: Seq<MaybeAlive<T>>)
    ensures
        alive_values(items).len() <= items.len(),
        (forall|i: int| 0 <= i < items.len() ==> items[i].alive) ==> alive_values(items)
            == items.map_values(|item: MaybeAlive<T>| item.value),
        (forall|i: int| 0 <= i < items.len() ==> !items[i].alive) ==> alive_values(items)
            == Seq::<T>::empty(),
    decreases items.len(),
{
    if items.len() > 0 {
        lemma_alive_values_bounds(items.drop_last());
        if forall|i: int| 0 <= i < items.len() ==> items[i].alive {
            assert(alive_values(items) =~= items.map_values(|item: MaybeAlive<T>| item.value));
        }
    } else {
        assert(alive_values(items) =~= items.map_values(|item: MaybeAlive<T>| item.value));
    }
}

/// Tagging the same items twice with opposite decisions splits them: the two
/// compactions together hold exactly as many values as there were items.
pub proof fn lemma_alive_values_split<T>(kept: Seq<MaybeAlive<T>>, dropped: Seq<MaybeAlive<T>>)
    requires
        kept.len() == dropped.len(),
        forall|i: int| 0 <= i < kept.len() ==> kept[i].alive != dropped[i].alive,
    ensures
        alive_values(kept).len() + alive_values(dropped).len() == kept.len(),
    decreases kept.len(),
{
    if kept.len() > 0 {
        lemma_alive_values_split(kept.drop_last(), dropped.drop_last());
    }
}

} // verus!

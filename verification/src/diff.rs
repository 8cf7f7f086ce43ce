//! The ordered-list diff algebra: one atomically-applied structural change
//! to a live ordered collection, and its application to a mirror kept as a
//! plain vector. Out-of-range positional changes are ignored, as the live
//! query ignores them.

use vstd::prelude::*;

verus! {

/// One structural change to an ordered list.
#[derive(Clone, Debug)]
pub enum ListDiff<T> {
    Append { values: Vec<T> },
    Clear,
    PushFront { value: T },
    PushBack { value: T },
    PopFront,
    PopBack,
    Insert { index: usize, value: T },
    SetIndex { index: usize, value: T },
    Remove { index: usize },
    Truncate { length: usize },
    Reset { values: Vec<T> },
}

/// What applying one diff yields: the new list, and whether anything
/// changed. Popping the front of an empty list changes nothing; popping
/// the back of one is still counted as a change, as the live query counts
/// it; an out-of-range insert, set or removal changes nothing.
pub open spec fn spec_apply<T>(s: Seq<T>, d: ListDiff<T>) -> (Seq<T>, bool) {
    match d {
        ListDiff::Append { values } => (s + values@, true),
        ListDiff::Clear => (Seq::empty(), true),
        ListDiff::PushFront { value } => (s.insert(0, value), true),
        ListDiff::PushBack { value } => (s.push(value), true),
        ListDiff::PopFront => {
            if s.len() > 0 {
                (s.remove(0), true)
            } else {
                (s, false)
            }
        },
        ListDiff::PopBack => {
            (
                if s.len() > 0 {
                    s.drop_last()
                } else {
                    s
                },
                true,
            )
        },
        ListDiff::Insert { index, value } => {
            if index <= s.len() {
                (s.insert(index as int, value), true)
            } else {
                (s, false)
            }
        },
        ListDiff::SetIndex { index, value } => {
            if index < s.len() {
                (s.update(index as int, value), true)
            } else {
                (s, false)
            }
        },
        ListDiff::Remove { index } => {
            if index < s.len() {
                (s.remove(index as int), true)
            } else {
                (s, false)
            }
        },
        ListDiff::Truncate { length } => {
            (
                if length <= s.len() {
                    s.take(length as int)
                } else {
                    s
                },
                true,
            )
        },
        ListDiff::Reset { values } => (values@, true),
    }
}

/// What applying a whole batch yields: the diffs applied in order, and
/// whether any of them changed the list.
pub open spec fn spec_apply_batch<T>(s: Seq<T>, ds: Seq<ListDiff<T>>) -> (Seq<T>, bool)
    decreases ds.len(),
{
    if ds.len() == 0 {
        (s, false)
    } else {
        let first = spec_apply(s, ds[0]);
        let rest = spec_apply_batch(first.0, ds.skip(1));
        (rest.0, first.1 || rest.1)
    }
}

/// Applies one diff to the mirror, reporting whether anything changed.
pub fn apply_diff<T>(items: &mut Vec<T>, d: ListDiff<T>) -> (changed: bool)
    ensures
        final(items)@ == spec_apply(old(items)@, d).0,
        changed == spec_apply(old(items)@, d).1,
{
    match d {
        ListDiff::Append { mut values } => {
            items.append(&mut values);
            true
        },
        ListDiff::Clear => {
            items.clear();
            true
        },
        ListDiff::PushFront { value } => {
            items.insert(0, value);
            true
        },
        ListDiff::PushBack { value } => {
            items.push(value);
            true
        },
        ListDiff::PopFront => {
            if items.len() > 0 {
                let _ = items.remove(0);
                true
            } else {
                false
            }
        },
        ListDiff::PopBack => {
            if items.len() > 0 {
                let _ = items.pop();
                proof {
                    assert(items@ =~= old(items)@.drop_last());
                }
            }
            true
        },
        ListDiff::Insert { index, value } => {
            if index <= items.len() {
                items.insert(index, value);
                true
            } else {
                false
            }
        },
        ListDiff::SetIndex { index, value } => {
            if index < items.len() {
                items.set(index, value);
                true
            } else {
                false
            }
        },
        ListDiff::Remove { index } => {
            if index < items.len() {
                let _ = items.remove(index);
                true
            } else {
                false
            }
        },
        ListDiff::Truncate { length } => {
            items.truncate(length);
            true
        },
        ListDiff::Reset { values } => {
            let mut values = values;
            std::mem::swap(items, &mut values);
            true
        },
    }
}

/// Applies a whole batch to the mirror, in order, reporting whether any
/// diff changed it.
pub fn apply_batch<T>(items: &mut Vec<T>, diffs: Vec<ListDiff<T>>) -> (changed: bool)
    ensures
        final(items)@ == spec_apply_batch(old(items)@, diffs@).0,
        changed == spec_apply_batch(old(items)@, diffs@).1,
{
    let ghost orig_items = old(items)@;
    let ghost orig_diffs = diffs@;
    let mut ds = diffs;
    let mut changed = false;
    while ds.len() > 0
        invariant
            spec_apply_batch(orig_items, orig_diffs).0 == spec_apply_batch(items@, ds@).0,
            spec_apply_batch(orig_items, orig_diffs).1 == (changed || spec_apply_batch(
                items@,
                ds@,
            ).1),
        decreases ds.len(),
    {
        let ghost pre_items = items@;
        let ghost pre_ds = ds@;
        let d = ds.remove(0);
        let c = apply_diff(items, d);
        changed = changed || c;
        proof {
            assert(ds@ =~= pre_ds.skip(1));
        }
    }
    changed
}

/// Replaying batches one after another, from the back: the reference
/// in-memory list after a sequence of batches.
pub open spec fn spec_replay<T>(s: Seq<T>, batches: Seq<Seq<ListDiff<T>>>) -> Seq<T>
    decreases batches.len(),
{
    if batches.len() == 0 {
        s
    } else {
        spec_apply_batch(spec_replay(s, batches.drop_last()), batches.last()).0
    }
}

/// Law: replaying an arbitrary sequence of diff batches against the
/// reference list and against a mirror maintained batch by batch yields
/// the same list at every point: after any prefix of batches, the mirror
/// state equals the reference replay of that prefix.
pub proof fn lemma_replay_matches_reference<T>(
    states: Seq<Seq<T>>,
    batches: Seq<Seq<ListDiff<T>>>,
    changes: Seq<bool>,
    k: int,
)
    requires
        states.len() == batches.len() + 1,
        changes.len() == batches.len(),
        forall|i: int|
            0 <= i < batches.len() ==> (#[trigger] states[i + 1], changes[i]) == spec_apply_batch(
                states[i],
                batches[i],
            ),
        0 <= k <= batches.len(),
    ensures
        states[k] == spec_replay(states[0], batches.take(k)),
    decreases k,
{
    if k == 0 {
        assert(batches.take(0) =~= Seq::<Seq<ListDiff<T>>>::empty());
    } else {
        lemma_replay_matches_reference(states, batches, changes, k - 1);
        let taken = batches.take(k);
        assert(taken.drop_last() =~= batches.take(k - 1));
        assert(taken.last() == batches[k - 1]);
        let i = k - 1;
        assert((states[i + 1], changes[i]) == spec_apply_batch(states[i], batches[i]));
        assert(states[k] == states[i + 1]);
    }
}

} // verus!

//! Editing ordered lists: moving an entry by one place, and deleting one.

use vstd::prelude::*;

verus! {

/// The list with the entries at `i` and at `i + 1` in each other's place.
pub open spec fn swapped_with_next<T>(list: Seq<T>, i: int) -> Seq<T> {
    list.update(i, list[i + 1]).update(i + 1, list[i])
}

/// The list after the entry at `idx` moved one place up, toward the
/// front, or one place down. An entry that has no place to move to stays,
/// and so does everything where there is no entry at `idx`.
pub open spec fn moved<T>(list: Seq<T>, idx: int, up: bool) -> Seq<T> {
    if up && 0 < idx < list.len() {
        swapped_with_next(list, idx - 1)
    } else if !up && 0 <= idx && idx + 1 < list.len() {
        swapped_with_next(list, idx)
    } else {
        list
    }
}

/// The list after the entry at `idx` is deleted; the list itself where
/// there is no such entry.
pub open spec fn deleted<T>(list: Seq<T>, idx: int) -> Seq<T> {
    if 0 <= idx < list.len() {
        list.remove(idx)
    } else {
        list
    }
}

fn swap_with_next<T>(list: &mut Vec<T>, i: usize)
    requires
        i + 1 < old(list).len(),
    ensures
        final(list)@ == swapped_with_next(old(list)@, i as int),
{
    let entry = list.remove(i);
    list.insert(i + 1, entry);
    assert(list@ =~= swapped_with_next(old(list)@, i as int));
}

/// Moves the entry at `idx` one place up or down.
pub fn move_entry<T>(list: &mut Vec<T>, idx: usize, up: bool)
    ensures
        final(list)@ == moved(old(list)@, idx as int, up),
{
    if up {
        if 0 < idx && idx < list.len() {
            swap_with_next(list, idx - 1);
        }
    } else {
        if idx < list.len() && idx + 1 < list.len() {
            swap_with_next(list, idx);
        }
    }
}

/// Deletes the entry at `idx`.
pub fn delete_entry<T>(list: &mut Vec<T>, idx: usize)
    ensures
        final(list)@ == deleted(old(list)@, idx as int),
{
    if idx < list.len() {
        let entry = list.remove(idx);
    }
}

} // verus!

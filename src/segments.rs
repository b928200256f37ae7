//! Editing of the ordered segment list.
//!
//! The editor inserts a new segment at a chosen position, deletes one, or
//! moves one a place up or down. Positions out of range leave the list as it
//! is, so a stale index from the editor never corrupts the track.
use vstd::prelude::*;

verus! {

/// The list with its elements at `a` and `b` exchanged.
pub open spec fn swapped<T>(s: Seq<T>, a: int, b: int) -> Seq<T> {
    s.update(a, s[b]).update(b, s[a])
}

/// Position at which a new segment is inserted when `index` is asked for:
/// `index`, or the end of the list when `index` lies past it.
pub open spec fn insert_position(len: int, index: int) -> int {
    if index <= len {
        index
    } else {
        len
    }
}

/// Inserts `segment` at `index`, or at the end when `index` lies past it;
/// returns the position it took.
pub fn insert_segment<T>(list: &mut Vec<T>, index: usize, segment: T) -> (at: usize)
    ensures
        at == insert_position(old(list)@.len() as int, index as int),
        final(list)@ == old(list)@.insert(at as int, segment),
{
    let at = if index <= list.len() {
        index
    } else {
        list.len()
    };
    list.insert(at, segment);
    at
}

/// Index the editor offers for the next insertion into a list of `len`
/// segments: just before the last segment, or 0 for an empty list.
pub fn default_insert_index(len: usize) -> (r: usize)
    ensures
        r == (if len == 0 {
            0
        } else {
            len - 1
        }),
{
    if len == 0 {
        0
    } else {
        len - 1
    }
}

/// Removes the segment at `index`; returns whether there was one.
pub fn delete_segment<T>(list: &mut Vec<T>, index: usize) -> (done: bool)
    ensures
        done == (index < old(list)@.len()),
        done ==> final(list)@ == old(list)@.remove(index as int),
        !done ==> final(list)@ == old(list)@,
{
    if index < list.len() {
        list.remove(index);
        true
    } else {
        false
    }
}

/// Exchanges the neighbouring segments at `a` and `a + 1`.
fn swap_with_next<T>(list: &mut Vec<T>, a: usize)
    requires
        a + 1 < old(list)@.len(),
    ensures
        final(list)@ == swapped(old(list)@, a as int, a + 1),
{
    let ghost s = list@;
    let n = list.len();
    assert(a + 1 < n);
    let item = list.remove(a + 1);
    list.insert(a, item);
    assert(list@ =~= swapped(s, a as int, a + 1));
}

/// Moves the segment at `index` one place toward the front; returns whether
/// it moved (it does unless it is first or `index` is out of range).
pub fn move_segment_up<T>(list: &mut Vec<T>, index: usize) -> (done: bool)
    ensures
        done == (0 < index < old(list)@.len()),
        done ==> final(list)@ == swapped(old(list)@, index - 1, index as int),
        !done ==> final(list)@ == old(list)@,
{
    if 0 < index && index < list.len() {
        swap_with_next(list, index - 1);
        true
    } else {
        false
    }
}

/// Moves the segment at `index` one place toward the back; returns whether
/// it moved (it does unless it is last or `index` is out of range).
pub fn move_segment_down<T>(list: &mut Vec<T>, index: usize) -> (done: bool)
    ensures
        done == (index + 1 < old(list)@.len()),
        done ==> final(list)@ == swapped(old(list)@, index as int, index + 1),
        !done ==> final(list)@ == old(list)@,
{
    if index < list.len() && index + 1 < list.len() {
        swap_with_next(list, index);
        true
    } else {
        false
    }
}

} // verus!

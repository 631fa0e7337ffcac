//! Lists read from the host: pairing associative entries and taking
//! ownership of the values read.
use vstd::prelude::*;
use crate::refcount::{ownership_spec, RcByondValue, RefAction, copy_action_spec};
use crate::sync::ThreadSyncDepth;
use crate::value::ByondValue;

verus! {

/// The entries of an associative list, from the host's flat answer of keys
/// and values in turn.
pub fn pair_entries(flat: Vec<ByondValue>) -> (r: Vec<[ByondValue; 2]>)
    requires
        flat@.len() % 2 == 0,
    ensures
        r@.len() == flat@.len() / 2,
        forall|i: int|
            0 <= i < r@.len() ==> (#[trigger] r@[i])[0] == flat@[2 * i] && r@[i][1] == flat@[2 * i
                + 1],
{
    let mut r: Vec<[ByondValue; 2]> = Vec::new();
    let mut i: usize = 0;
    while i + 1 < flat.len()
        invariant
            flat@.len() % 2 == 0,
            i % 2 == 0,
            i <= flat@.len(),
            r@.len() == i / 2,
            forall|j: int|
                0 <= j < r@.len() ==> (#[trigger] r@[j])[0] == flat@[2 * j] && r@[j][1] == flat@[2
                    * j + 1],
        decreases flat@.len() - i,
    {
        r.push([flat[i], flat[i + 1]]);
        i = i + 2;
    }
    r
}

/// Takes ownership of each value read from a list in the given context, with
/// the call that each asks for: the same as taking each one by itself.
pub fn adopt_values(values: &Vec<ByondValue>, on_main_thread: bool, sync: &ThreadSyncDepth) -> (r:
    Vec<(RcByondValue, RefAction)>)
    ensures
        r@.len() == values@.len(),
        forall|i: int|
            0 <= i < r@.len() ==> (#[trigger] r@[i]).0@.0 == values@[i] && r@[i].0@.1
                == ownership_spec(values@[i].type_, on_main_thread, sync.depth) && r@[i].1
                == copy_action_spec(r@[i].0@.1),
{
    let mut r: Vec<(RcByondValue, RefAction)> = Vec::new();
    let mut i: usize = 0;
    while i < values.len()
        invariant
            i <= values@.len(),
            r@.len() == i,
            forall|j: int|
                0 <= j < i ==> (#[trigger] r@[j]).0@.0 == values@[j] && r@[j].0@.1
                    == ownership_spec(values@[j].type_, on_main_thread, sync.depth) && r@[j].1
                    == copy_action_spec(r@[j].0@.1),
        decreases values@.len() - i,
    {
        r.push(RcByondValue::new(values[i], on_main_thread, sync));
        i = i + 1;
    }
    r
}

/// A walk over the 1-based indices of a list of `len` items, as the host
/// numbers them; `done` indices have been handed out.
#[derive(Clone, Copy, Debug, PartialEq, Eq, Structural)]
pub struct ListCursor {
    pub len: usize,
    pub done: usize,
}

impl ListCursor {
    /// A walk from the first index of a list of `len` items.
    pub fn new(len: usize) -> (r: ListCursor)
        ensures
            r.len == len && r.done == 0,
    {
        ListCursor { len, done: 0 }
    }

    /// The next index to read, or `None` once every index was handed out.
    pub fn next_index(&mut self) -> (r: Option<usize>)
        ensures
            old(self).done < old(self).len ==> r == Some((old(self).done + 1) as usize)
                && final(self).done == old(self).done + 1 && final(self).len == old(self).len,
            old(self).done >= old(self).len ==> r is None && *final(self) == *old(self),
    {
        if self.done < self.len {
            self.done = self.done + 1;
            Some(self.done)
        } else {
            None
        }
    }
}

/// How to pop the last item of a list of `len` items: the 1-based index to
/// read and the length to set after, or `None` for an empty list.
pub fn pop_plan(len: usize) -> (r: Option<(usize, usize)>)
    ensures
        len == 0 ==> r is None,
        len > 0 ==> r == Some((len, (len - 1) as usize)),
{
    if len == 0 {
        None
    } else {
        Some((len, len - 1))
    }
}

} // verus!

//! The ownership discipline of reference-counted host values.
//!
//! Each value that this library holds is in one of three modes. Copies and
//! drops of a value answer with the host call to make, if any; those answers
//! are the only places that increments and decrements come from.
use vstd::prelude::*;
use crate::sync::ThreadSyncDepth;
use crate::value::ByondValue;
use crate::value_type::should_ref_count_tag;

verus! {

/// How a value's reference is owned.
#[derive(Clone, Copy, Debug, PartialEq, Eq, Structural)]
pub enum Ownership {
    /// The type is not counted: nothing is ever done.
    Unmanaged,
    /// The host's temporary reference, which ends with the current tick.
    Temporary,
    /// An increment of this library's own, to be matched by a decrement.
    Persistent,
}

/// A host call that the discipline asks for.
#[derive(Clone, Copy, Debug, PartialEq, Eq, Structural)]
pub enum RefAction {
    Nothing,
    IncRef,
    DecRef,
}

/// Whether code may rely on temporary references: only on the main thread,
/// outside any synchronization callback.
pub open spec fn may_use_temporary(on_main_thread: bool, sync_depth: usize) -> bool {
    on_main_thread && sync_depth == 0
}

/// The mode of a value of tag `t` received in the given context.
pub open spec fn ownership_spec(t: u8, on_main_thread: bool, sync_depth: usize) -> Ownership {
    if !should_ref_count_tag(t) {
        Ownership::Unmanaged
    } else if may_use_temporary(on_main_thread, sync_depth) {
        Ownership::Temporary
    } else {
        Ownership::Persistent
    }
}

/// What a copy (`duplicate`) of a value in mode `o` asks for.
pub open spec fn copy_action_spec(o: Ownership) -> RefAction {
    if o == Ownership::Persistent {
        RefAction::IncRef
    } else {
        RefAction::Nothing
    }
}

/// What the end (`release`) of a copy of a value in mode `o` asks for.
pub open spec fn drop_action_spec(o: Ownership) -> RefAction {
    if o == Ownership::Persistent {
        RefAction::DecRef
    } else {
        RefAction::Nothing
    }
}

/// Whether the current context may rely on temporary references.
pub fn can_use_temporary(on_main_thread: bool, sync: &ThreadSyncDepth) -> (r: bool)
    ensures
        r == may_use_temporary(on_main_thread, sync.depth),
{
    on_main_thread && !sync.is_in_thread_sync()
}

/// The mode of `value`, received in the given context.
pub fn ownership_for(value: &ByondValue, on_main_thread: bool, sync: &ThreadSyncDepth) -> (r:
    Ownership)
    ensures
        r == ownership_spec(value.type_, on_main_thread, sync.depth),
{
    if !value.get_type().should_ref_count() {
        Ownership::Unmanaged
    } else if can_use_temporary(on_main_thread, sync) {
        Ownership::Temporary
    } else {
        Ownership::Persistent
    }
}

/// One owned copy of a host value, together with the mode of its reference.
/// It is neither `Copy` nor `Clone`: a further copy comes only from
/// `duplicate` and a copy ends only through `release`, and each hands back
/// the host call that the discipline asks for.
#[derive(Debug)]
pub struct RcByondValue {
    value: ByondValue,
    ownership: Ownership,
}

impl View for RcByondValue {
    type V = (ByondValue, Ownership);

    closed spec fn view(&self) -> (ByondValue, Ownership) {
        (self.value, self.ownership)
    }
}

impl RcByondValue {
    /// The value held.
    pub fn value(&self) -> (r: ByondValue)
        ensures
            r == self@.0,
    {
        self.value
    }

    /// The mode of the value's reference.
    pub fn ownership(&self) -> (r: Ownership)
        ensures
            r == self@.1,
    {
        self.ownership
    }

    /// Takes ownership of a value received in the given context, and the
    /// call that takes it: a value that may not rely on a temporary
    /// reference is promoted at once, by an increment.
    pub fn new(value: ByondValue, on_main_thread: bool, sync: &ThreadSyncDepth) -> (r: (
        RcByondValue,
        RefAction,
    ))
        ensures
            r.0@.0 == value,
            r.0@.1 == ownership_spec(value.type_, on_main_thread, sync.depth),
            r.1 == copy_action_spec(r.0@.1),
    {
        let ownership = ownership_for(&value, on_main_thread, sync);
        let action = if ownership == Ownership::Persistent {
            RefAction::IncRef
        } else {
            RefAction::Nothing
        };
        (RcByondValue { value, ownership }, action)
    }

    /// Takes a value whose reference the host has already counted once for
    /// the caller, as the result of a blocking synchronization call is.
    pub fn new_from_persistent(value: ByondValue) -> (r: RcByondValue)
        ensures
            r@.0 == value,
            r@.1 == (if should_ref_count_tag(value.type_) {
                Ownership::Persistent
            } else {
                Ownership::Unmanaged
            }),
    {
        let ownership = if value.get_type().should_ref_count() {
            Ownership::Persistent
        } else {
            Ownership::Unmanaged
        };
        RcByondValue { value, ownership }
    }

    /// A second copy of this value, and the call that it asks for: a
    /// persistent value is incremented once more, so that each living copy
    /// stands for one increment. The copy has the same value and mode.
    pub fn duplicate(&self) -> (r: (RcByondValue, RefAction))
        ensures
            r.0@ == self@,
            r.1 == copy_action_spec(self@.1),
    {
        let action = if self.ownership == Ownership::Persistent {
            RefAction::IncRef
        } else {
            RefAction::Nothing
        };
        (RcByondValue { value: self.value, ownership: self.ownership }, action)
    }

    /// Gives up this copy, and returns the call that its end asks for: a
    /// persistent value is decremented once; a temporary or unmanaged one
    /// asks for nothing.
    pub fn release(self) -> (r: RefAction)
        ensures
            r == drop_action_spec(self@.1),
    {
        if self.ownership == Ownership::Persistent {
            RefAction::DecRef
        } else {
            RefAction::Nothing
        }
    }
}

/// The live copies of a value, and the increments and decrements issued for
/// it so far.
pub struct RefTally {
    pub live: nat,
    pub increments: nat,
    pub decrements: nat,
}

/// The tally after one copy (`true`, by `duplicate`) or drop (`false`, by
/// `release`) of a value in mode `o`.
pub open spec fn tally_step(o: Ownership, t: RefTally, copy: bool) -> RefTally {
    let action = if copy {
        copy_action_spec(o)
    } else {
        drop_action_spec(o)
    };
    RefTally {
        live: if copy {
            t.live + 1
        } else {
            (t.live - 1) as nat
        },
        increments: t.increments + if action == RefAction::IncRef {
            1nat
        } else {
            0nat
        },
        decrements: t.decrements + if action == RefAction::DecRef {
            1nat
        } else {
            0nat
        },
    }
}

/// The tally after the copies and drops in `ops`, in order.
pub open spec fn tally_after(o: Ownership, t: RefTally, ops: Seq<bool>) -> RefTally
    decreases ops.len(),
{
    if ops.len() == 0 {
        t
    } else {
        tally_after(o, tally_step(o, t, ops[0]), ops.drop_first())
    }
}

/// Every drop in `ops` drops a copy that is alive, from `live` copies.
pub open spec fn drops_live_copies(live: nat, ops: Seq<bool>) -> bool
    decreases ops.len(),
{
    ops.len() == 0 || ((ops[0] || live > 0) && drops_live_copies(
        if ops[0] {
            live + 1
        } else {
            (live - 1) as nat
        },
        ops.drop_first(),
    ))
}

proof fn tally_keeps_balance(t: RefTally, ops: Seq<bool>)
    requires
        t.increments == t.decrements + t.live,
        drops_live_copies(t.live, ops),
    ensures
        tally_after(Ownership::Persistent, t, ops).increments == tally_after(
            Ownership::Persistent,
            t,
            ops,
        ).decrements + tally_after(Ownership::Persistent, t, ops).live,
    decreases ops.len(),
{
    if ops.len() > 0 {
        tally_keeps_balance(tally_step(Ownership::Persistent, t, ops[0]), ops.drop_first());
    }
}

/// For a persistent value, taken with its one increment, any run of copies
/// (`duplicate`) and drops (`release`) that never drops a dead copy and
/// leaves no live copy has issued as many decrements as increments. Since
/// `RcByondValue` can be neither copied nor cloned otherwise, these are all
/// the copies and drops there are.
pub proof fn refcount_balance(ops: Seq<bool>)
    requires
        drops_live_copies(1, ops),
        tally_after(Ownership::Persistent, RefTally { live: 1, increments: 1, decrements: 0 }, ops).live
            == 0,
    ensures
        tally_after(Ownership::Persistent, RefTally { live: 1, increments: 1, decrements: 0 }, ops).increments
            == tally_after(
            Ownership::Persistent,
            RefTally { live: 1, increments: 1, decrements: 0 },
            ops,
        ).decrements,
{
    tally_keeps_balance(RefTally { live: 1, increments: 1, decrements: 0 }, ops);
}

} // verus!

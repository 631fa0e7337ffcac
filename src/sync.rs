//! The thread-synchronization depth and the main thread's identity.
//!
//! While a callback scheduled on the host's thread runs, the depth counts how
//! many such callbacks enclose the current code; values made there may not
//! rely on the host's temporary references.
use vstd::prelude::*;
use crate::value::ByondValue;

verus! {

/// How many synchronization callbacks the current thread is running.
#[derive(Clone, Copy, Debug, PartialEq, Eq, Structural)]
pub struct ThreadSyncDepth {
    pub depth: usize,
}

impl ThreadSyncDepth {
    /// Outside any callback.
    pub fn new() -> (r: ThreadSyncDepth)
        ensures
            r.depth == 0,
    {
        ThreadSyncDepth { depth: 0 }
    }

    /// Checks to see if we're in a synchronization callback or not.
    pub fn is_in_thread_sync(&self) -> (r: bool)
        ensures
            r == (self.depth > 0),
    {
        self.depth > 0
    }

    /// A callback starts.
    pub fn enter(&mut self)
        requires
            old(self).depth < usize::MAX,
        ensures
            final(self).depth == old(self).depth + 1,
    {
        self.depth = self.depth + 1;
    }

    /// A callback ends, where one is running: `false`, with the depth left
    /// at zero, where none is, which the caller must treat as a fatal fault.
    /// The depth never wraps below zero.
    pub fn checked_exit(&mut self) -> (r: bool)
        ensures
            r == (old(self).depth > 0),
            r ==> final(self).depth == old(self).depth - 1,
            !r ==> final(self).depth == 0,
    {
        if self.depth > 0 {
            self.depth = self.depth - 1;
            true
        } else {
            false
        }
    }

    /// A callback ends. There must be one running: a callback that ends
    /// more often than it started is a fault of the caller.
    pub fn exit(&mut self)
        requires
            old(self).depth > 0,
        ensures
            final(self).depth == old(self).depth - 1,
    {
        self.depth = self.depth - 1;
    }
}

/// Runs a synchronization callback on the host's thread, once, counting it
/// in the depth while it runs: the callback sees the depth one above the
/// caller's, so code inside it knows it is in a callback, and the depth is
/// the caller's again afterwards. The result is the callback's.
pub fn run_sync_callback<F: FnOnce(&ThreadSyncDepth) -> ByondValue>(
    sync: &mut ThreadSyncDepth,
    callback: F,
) -> (r: ByondValue)
    requires
        old(sync).depth < usize::MAX,
        callback.requires((&ThreadSyncDepth { depth: (old(sync).depth + 1) as usize },)),
    ensures
        final(sync).depth == old(sync).depth,
        callback.ensures((&ThreadSyncDepth { depth: (old(sync).depth + 1) as usize },), r),
{
    sync.enter();
    let inside: ThreadSyncDepth = *sync;
    let r = callback(&inside);
    sync.exit();
    r
}

/// The depth after one event: `true` for a callback that starts, `false` for
/// one that ends.
pub open spec fn step(d: int, enter: bool) -> int {
    if enter {
        d + 1
    } else {
        d - 1
    }
}

/// The depth after the events, from `d`.
pub open spec fn depth_after(d: int, events: Seq<bool>) -> int
    decreases events.len(),
{
    if events.len() == 0 {
        d
    } else {
        depth_after(step(d, events[0]), events.drop_first())
    }
}

/// From `d`, the depth never falls below `floor` while the events run.
pub open spec fn stays_at_least(d: int, floor: int, events: Seq<bool>) -> bool
    decreases events.len(),
{
    events.len() == 0 || (step(d, events[0]) >= floor && stays_at_least(
        step(d, events[0]),
        floor,
        events.drop_first(),
    ))
}

/// How callbacks run on one thread: none, or a first callback, with the
/// callbacks nested inside it, and then whatever runs after it.
pub enum CallbackRun {
    Idle,
    Callback { nested: Box<CallbackRun>, then: Box<CallbackRun> },
}

/// The starts and ends of callbacks that a run gives, in order.
pub open spec fn events_of(run: CallbackRun) -> Seq<bool>
    decreases run,
{
    match run {
        CallbackRun::Idle => Seq::empty(),
        CallbackRun::Callback { nested, then } => seq![true] + events_of(*nested) + seq![false]
            + events_of(*then),
    }
}

proof fn depth_after_concat(d: int, a: Seq<bool>, b: Seq<bool>)
    ensures
        depth_after(d, a + b) == depth_after(depth_after(d, a), b),
    decreases a.len(),
{
    if a.len() > 0 {
        assert((a + b).drop_first() =~= a.drop_first() + b);
        depth_after_concat(step(d, a[0]), a.drop_first(), b);
    } else {
        assert(a + b =~= b);
    }
}

proof fn stays_concat(d: int, floor: int, a: Seq<bool>, b: Seq<bool>)
    requires
        stays_at_least(d, floor, a),
        stays_at_least(depth_after(d, a), floor, b),
    ensures
        stays_at_least(d, floor, a + b),
    decreases a.len(),
{
    if a.len() > 0 {
        assert((a + b).drop_first() =~= a.drop_first() + b);
        stays_concat(step(d, a[0]), floor, a.drop_first(), b);
    } else {
        assert(a + b =~= b);
    }
}

proof fn stays_lower(d: int, floor: int, lower: int, events: Seq<bool>)
    requires
        stays_at_least(d, floor, events),
        lower <= floor,
    ensures
        stays_at_least(d, lower, events),
    decreases events.len(),
{
    if events.len() > 0 {
        stays_lower(step(d, events[0]), floor, lower, events.drop_first());
    }
}

proof fn run_balanced(d: int, run: CallbackRun)
    ensures
        depth_after(d, events_of(run)) == d,
        stays_at_least(d, d, events_of(run)),
    decreases run,
{
    match run {
        CallbackRun::Idle => {},
        CallbackRun::Callback { nested, then } => {
            let inner = events_of(*nested);
            let rest = events_of(*then);
            run_balanced(d + 1, *nested);
            run_balanced(d, *then);
            let one = seq![true];
            let close = seq![false];
            assert(one.drop_first() =~= Seq::<bool>::empty());
            assert(close.drop_first() =~= Seq::<bool>::empty());
            assert(one[0]);
            assert(!close[0]);
            assert(depth_after(d + 1, Seq::<bool>::empty()) == d + 1);
            assert(stays_at_least(d + 1, d, Seq::<bool>::empty()));
            assert(depth_after(d, one) == d + 1);
            assert(stays_at_least(d, d, one));
            depth_after_concat(d, one, inner);
            stays_lower(d + 1, d + 1, d, inner);
            stays_concat(d, d, one, inner);
            depth_after_concat(d, one + inner, close);
            assert(depth_after(d, Seq::<bool>::empty()) == d);
            assert(stays_at_least(d, d, Seq::<bool>::empty()));
            assert(depth_after(d + 1, close) == d);
            assert(stays_at_least(d + 1, d, close));
            stays_concat(d, d, one + inner, close);
            depth_after_concat(d, one + inner + close, rest);
            stays_concat(d, d, one + inner + close, rest);
            assert(events_of(run) == one + inner + close + rest);
        },
    }
}

/// Nested or sequential callbacks bring the depth back to exactly where it
/// was, from any depth `d`, and it never falls below `d` while they run: in
/// particular, from zero it never underflows and ends at zero.
pub proof fn sync_depth_balanced(d: int, run: CallbackRun)
    requires
        d >= 0,
    ensures
        depth_after(d, events_of(run)) == d,
        stays_at_least(d, d, events_of(run)),
{
    run_balanced(d, run);
}

/// The id of the host's main thread, fixed by the first thread that asks.
#[derive(Clone, Copy, Debug, PartialEq, Eq, Structural)]
pub struct MainThread {
    pub id: Option<u64>,
}

impl MainThread {
    /// No thread has asked yet.
    pub fn new() -> (r: MainThread)
        ensures
            r.id is None,
    {
        MainThread { id: None }
    }

    /// Whether the thread `current` is the main thread. The first thread to
    /// ask becomes it.
    pub fn is_main_thread(&mut self, current: u64) -> (r: bool)
        ensures
            old(self).id is None ==> r && final(self).id == Some(current),
            old(self).id is Some ==> *final(self) == *old(self) && r == (old(self).id == Some(
                current,
            )),
    {
        match self.id {
            Some(id) => id == current,
            None => {
                self.id = Some(current);
                true
            },
        }
    }
}

} // verus!

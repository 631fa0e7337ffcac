//! The two-phase protocol of host calls that fill a caller's buffer.
//!
//! The caller offers a buffer of some capacity. The host either fills it and
//! reports the length written, or reports the length it needs. In the second
//! case the caller grows the buffer to that length and calls once more; a
//! second shortfall is an error of the host's, not one of capacity.
use vstd::prelude::*;

verus! {

/// What the caller does after an answer of the host.
#[derive(Clone, Copy, Debug, PartialEq, Eq, Structural)]
pub enum BufferStep {
    /// The buffer holds the result: its first `len` items, `len` being at
    /// most the buffer's capacity.
    Done { len: usize },
    /// Grow the buffer to `capacity` and call again.
    Retry { capacity: usize },
    /// The second call failed too, or the host claimed more than the buffer
    /// holds: report the host's error.
    Failed,
}

/// The state of one buffer-filling exchange with the host.
#[derive(Clone, Copy, Debug, PartialEq, Eq, Structural)]
pub struct BufferRequest {
    /// The capacity of the buffer offered in the next call.
    pub capacity: usize,
    /// Whether the buffer has already been grown once.
    pub retried: bool,
}

/// The state and step after the host answers `request` with `written` and
/// `needed`.
pub open spec fn answer_spec(request: BufferRequest, written: bool, needed: usize) -> (
    BufferRequest,
    BufferStep,
) {
    if written && needed <= request.capacity {
        (request, BufferStep::Done { len: needed })
    } else if written {
        (request, BufferStep::Failed)
    } else if !request.retried {
        (BufferRequest { capacity: needed, retried: true }, BufferStep::Retry { capacity: needed })
    } else {
        (request, BufferStep::Failed)
    }
}

/// A request whose first buffer has the given capacity, or none.
pub open spec fn start_spec(initial_capacity: Option<usize>) -> BufferRequest {
    BufferRequest {
        capacity: match initial_capacity {
            Some(c) => c,
            None => 0,
        },
        retried: false,
    }
}

/// The answer of a host that holds `len` items to hand out: it writes them
/// when they fit, and reports `len` either way.
pub open spec fn host_writes(capacity: usize, len: usize) -> bool {
    len <= capacity
}

impl BufferRequest {
    /// Starts an exchange, with a first buffer of the given capacity (none
    /// means an empty buffer).
    pub fn new(initial_capacity: Option<usize>) -> (r: BufferRequest)
        ensures
            r == start_spec(initial_capacity),
    {
        let capacity = match initial_capacity {
            Some(c) => c,
            None => 0,
        };
        BufferRequest { capacity, retried: false }
    }

    /// Takes the host's answer to the last call: whether it wrote the
    /// buffer, and the length it wrote or needs. A claim to have written
    /// more than the buffer holds is a fault of the host's, and fails.
    pub fn answer(&mut self, written: bool, needed: usize) -> (r: BufferStep)
        ensures
            (*final(self), r) == answer_spec(*old(self), written, needed),
    {
        if written && needed <= self.capacity {
            BufferStep::Done { len: needed }
        } else if written {
            BufferStep::Failed
        } else if !self.retried {
            self.capacity = needed;
            self.retried = true;
            BufferStep::Retry { capacity: needed }
        } else {
            BufferStep::Failed
        }
    }
}

/// Against a host that holds `len` items, the exchange ends with all `len`
/// items after at most one retry, whatever the first capacity: a payload
/// longer than the first buffer is fetched in full by the second call.
pub proof fn retry_fetches_full_payload(initial_capacity: Option<usize>, len: usize)
    ensures
        ({
            let first = start_spec(initial_capacity);
            let (second, step1) = answer_spec(first, host_writes(first.capacity, len), len);
            let (_, step2) = answer_spec(second, host_writes(second.capacity, len), len);
            &&& host_writes(first.capacity, len) ==> step1 == BufferStep::Done { len }
            &&& !host_writes(first.capacity, len) ==> step1 == BufferStep::Retry { capacity: len }
                && step2 == BufferStep::Done { len }
        }),
{
}

/// The items that the host wrote: the first `len` of the buffer.
pub fn take_written<T: Copy>(buffer: &Vec<T>, len: usize) -> (r: Vec<T>)
    requires
        len <= buffer@.len(),
    ensures
        r@ == buffer@.take(len as int),
{
    let mut r: Vec<T> = Vec::with_capacity(len);
    let mut i: usize = 0;
    while i < len
        invariant
            i <= len,
            len <= buffer@.len(),
            r@ == buffer@.take(i as int),
        decreases len - i,
    {
        r.push(buffer[i]);
        i = i + 1;
        assert(r@ =~= buffer@.take(i as int));
    }
    r
}

} // verus!

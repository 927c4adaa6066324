use vstd::prelude::*;

verus! {

/// The sending end of a queue.
pub trait Send<T> {
    /// Queues `msg`; `false` when the queue is closed.
    fn send(&self, msg: T) -> bool;
}

/// The receiving end of a queue.
pub trait Recv<T> {
    /// The next message; none when the queue is closed and empty.
    fn recv(&self) -> Option<T>;
}

} // verus!

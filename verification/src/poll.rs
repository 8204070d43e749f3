use vstd::prelude::*;

verus! {

/// The outcome of polling an operation that may not be able to make progress yet.
#[derive(Debug, PartialEq, Eq)]
pub enum Poll<T> {
    /// The operation finished with this value.
    Ready(T),
    /// The operation cannot make progress now; the task is woken once it can.
    Pending,
}

/// How a non-blocking I/O attempt can fail.
#[derive(Debug, PartialEq, Eq)]
pub enum IoFailure<E> {
    /// The operation would have blocked (`EWOULDBLOCK` / `EAGAIN`).
    WouldBlock,
    /// Any other error, kept as it was reported.
    Failed(E),
}

impl<T> Poll<T> {
    /// Whether the poll finished.
    pub fn is_ready(&self) -> (r: bool)
        ensures
            r == (self is Ready),
    {
        match self {
            Poll::Ready(_) => true,
            Poll::Pending => false,
        }
    }
}

} // verus!

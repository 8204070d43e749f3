use vstd::prelude::*;
use crate::poll::IoFailure;

verus! {

/// What accepting a connection on a non-blocking listener reports, once a
/// would-block failure is told apart from the others: no connection yet is
/// `Ok(None)`, a connection is `Ok(Some(..))`, and any other failure is an error.
pub open spec fn classify_accept_spec<C, E>(accepted: Result<C, IoFailure<E>>) -> Result<Option<C>, E> {
    match accepted {
        Ok(c) => Ok(Some(c)),
        Err(IoFailure::WouldBlock) => Ok(None),
        Err(IoFailure::Failed(e)) => Err(e),
    }
}

/// Reports the outcome of an `accept` call on a non-blocking listener: a call
/// that would have blocked means that no connection is waiting (`Ok(None)`);
/// an accepted connection and any other error are handed back as they came.
pub fn classify_accept<C, E>(accepted: Result<C, IoFailure<E>>) -> (r: Result<Option<C>, E>)
    ensures
        r == classify_accept_spec(accepted),
{
    match accepted {
        Ok(c) => Ok(Some(c)),
        Err(IoFailure::WouldBlock) => Ok(None),
        Err(IoFailure::Failed(e)) => Err(e),
    }
}

/// The attempt that a classified accept outcome stands for, when the accept is
/// guarded by the listener's read readiness: no connection waiting, like an
/// error that reports a would-block, means the attempt would have blocked.
pub open spec fn accept_attempt_spec<C, E>(reported: Result<Option<C>, IoFailure<E>>) -> Result<C, IoFailure<E>> {
    match reported {
        Ok(Some(c)) => Ok(c),
        Ok(None) => Err(IoFailure::WouldBlock),
        Err(f) => Err(f),
    }
}

/// Turns the reported outcome of an accept into the attempt of a
/// readiness-guarded operation (see `readiness::next_action`).
pub fn accept_attempt<C, E>(reported: Result<Option<C>, IoFailure<E>>) -> (r: Result<C, IoFailure<E>>)
    ensures
        r == accept_attempt_spec(reported),
{
    match reported {
        Ok(Some(c)) => Ok(c),
        Ok(None) => Err(IoFailure::WouldBlock),
        Err(f) => Err(f),
    }
}

/// An error of a classified accept, seen again as a failure that is not a would-block.
pub open spec fn as_failure<C, E>(reported: Result<Option<C>, E>) -> Result<Option<C>, IoFailure<E>> {
    match reported {
        Ok(o) => Ok(o),
        Err(e) => Err(IoFailure::Failed(e)),
    }
}

/// Classifying an accept outcome loses nothing: the guarded accept attempts
/// exactly what the `accept` call gave back, and it reports "no connection"
/// exactly when that call would have blocked.
pub proof fn lemma_accept_round_trip<C, E>(accepted: Result<C, IoFailure<E>>)
    ensures
        accept_attempt_spec(as_failure(classify_accept_spec(accepted))) == accepted,
        classify_accept_spec(accepted) == Ok::<Option<C>, E>(None) <==> accepted
            matches Err(IoFailure::WouldBlock),
{
}

} // verus!

use vstd::prelude::*;
use crate::poll::Poll;

verus! {

/// What polling a stream of incoming connections for one connection gives,
/// from what polling the listener for an accept gave: the peer's address is
/// dropped, anything else is kept.
pub open spec fn accepted_stream_spec<S, A, E>(accepted: Poll<Result<(S, A), E>>) -> Poll<Result<S, E>> {
    match accepted {
        Poll::Pending => Poll::Pending,
        Poll::Ready(Ok((s, _a))) => Poll::Ready(Ok(s)),
        Poll::Ready(Err(e)) => Poll::Ready(Err(e)),
    }
}

/// The connection that polling the incoming connections yields, from what
/// polling the listener for an accept gave: pending stays pending, an error
/// stays the same error, and an accepted connection yields its stream.
pub fn accepted_stream<S, A, E>(accepted: Poll<Result<(S, A), E>>) -> (r: Poll<Result<S, E>>)
    ensures
        r == accepted_stream_spec(accepted),
{
    match accepted {
        Poll::Pending => Poll::Pending,
        Poll::Ready(Ok((s, _a))) => Poll::Ready(Ok(s)),
        Poll::Ready(Err(e)) => Poll::Ready(Err(e)),
    }
}

/// The next item of the stream of incoming connections.
pub open spec fn next_stream_spec<S, A, E>(accepted: Poll<Result<(S, A), E>>) -> Poll<Option<Result<S, E>>> {
    match accepted_stream_spec(accepted) {
        Poll::Pending => Poll::Pending,
        Poll::Ready(r) => Poll::Ready(Some(r)),
    }
}

/// The next item of the stream of incoming connections, from what polling the
/// listener for an accept gave: every accept outcome, error or connection, is
/// an item, so the stream never ends.
pub fn next_stream<S, A, E>(accepted: Poll<Result<(S, A), E>>) -> (r: Poll<Option<Result<S, E>>>)
    ensures
        r == next_stream_spec(accepted),
{
    match accepted {
        Poll::Pending => Poll::Pending,
        Poll::Ready(Ok((s, _a))) => Poll::Ready(Some(Ok(s))),
        Poll::Ready(Err(e)) => Poll::Ready(Some(Err(e))),
    }
}

/// The stream of incoming connections never ends, and each of its items is
/// what polling it for one connection gives.
pub proof fn lemma_incoming_never_ends<S, A, E>(accepted: Poll<Result<(S, A), E>>)
    ensures
        !(next_stream_spec(accepted) matches Poll::Ready(None)),
        accepted_stream_spec(accepted) is Pending <==> next_stream_spec(accepted) is Pending,
        accepted_stream_spec(accepted) matches Poll::Ready(r) ==> next_stream_spec(accepted)
            == Poll::Ready(Some(r)),
{
}

/// Polling the incoming connections is pending exactly when the listener is,
/// and an accepted connection always yields its stream.
pub proof fn lemma_accepted_stream_keeps_outcome<S, A, E>(accepted: Poll<Result<(S, A), E>>)
    ensures
        accepted_stream_spec(accepted) is Pending <==> accepted is Pending,
        accepted matches Poll::Ready(Ok((s, a))) ==> accepted_stream_spec(accepted) == Poll::<
            Result<S, E>,
        >::Ready(Ok(s)),
        accepted matches Poll::Ready(Err(e)) ==> accepted_stream_spec(accepted) == Poll::<
            Result<S, E>,
        >::Ready(Err(e)),
{
}

} // verus!

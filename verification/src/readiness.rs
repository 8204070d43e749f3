use vstd::prelude::*;
use crate::poll::{IoFailure, Poll};

verus! {

/// What the caller observed at one point of a readiness-guarded operation.
///
/// A guarded operation (a read, a write or an accept on a non-blocking socket
/// registered with a reactor) goes through at most three outside calls: it
/// polls the readiness of the socket, then attempts the operation, then, when
/// the attempt would have blocked, clears the cached readiness so that the
/// reactor wakes the task at the next event.
#[derive(Debug, PartialEq, Eq)]
pub enum IoEvent<T, E> {
    /// What polling the readiness gave back.
    Readiness(Poll<Result<(), E>>),
    /// What the attempt gave back.
    Attempted(Result<T, IoFailure<E>>),
    /// What clearing the readiness gave back.
    Cleared(Result<(), E>),
}

/// What the caller has to do next.
#[derive(Debug, PartialEq, Eq)]
pub enum IoAction<T, E> {
    /// Attempt the operation on the socket.
    Attempt,
    /// Clear the cached readiness, which registers the task for the next event.
    ClearReadiness,
    /// Stop and hand this to the one who polled.
    Complete(Poll<Result<T, E>>),
}

/// The transition of the guarded operation on one observation.
pub open spec fn next_action_spec<T, E>(event: IoEvent<T, E>) -> IoAction<T, E> {
    match event {
        IoEvent::Readiness(Poll::Pending) => IoAction::Complete(Poll::Pending),
        IoEvent::Readiness(Poll::Ready(Err(e))) => IoAction::Complete(Poll::Ready(Err(e))),
        IoEvent::Readiness(Poll::Ready(Ok(()))) => IoAction::Attempt,
        IoEvent::Attempted(Ok(v)) => IoAction::Complete(Poll::Ready(Ok(v))),
        IoEvent::Attempted(Err(IoFailure::Failed(e))) => IoAction::Complete(Poll::Ready(Err(e))),
        IoEvent::Attempted(Err(IoFailure::WouldBlock)) => IoAction::ClearReadiness,
        IoEvent::Cleared(Ok(())) => IoAction::Complete(Poll::Pending),
        IoEvent::Cleared(Err(e)) => IoAction::Complete(Poll::Ready(Err(e))),
    }
}

/// Decides the next step of a readiness-guarded operation from what the last
/// outside call gave back.
pub fn next_action<T, E>(event: IoEvent<T, E>) -> (action: IoAction<T, E>)
    ensures
        action == next_action_spec(event),
{
    match event {
        IoEvent::Readiness(Poll::Pending) => IoAction::Complete(Poll::Pending),
        IoEvent::Readiness(Poll::Ready(Err(e))) => IoAction::Complete(Poll::Ready(Err(e))),
        IoEvent::Readiness(Poll::Ready(Ok(()))) => IoAction::Attempt,
        IoEvent::Attempted(Ok(v)) => IoAction::Complete(Poll::Ready(Ok(v))),
        IoEvent::Attempted(Err(IoFailure::Failed(e))) => IoAction::Complete(Poll::Ready(Err(e))),
        IoEvent::Attempted(Err(IoFailure::WouldBlock)) => IoAction::ClearReadiness,
        IoEvent::Cleared(Ok(())) => IoAction::Complete(Poll::Pending),
        IoEvent::Cleared(Err(e)) => IoAction::Complete(Poll::Ready(Err(e))),
    }
}

/// What one poll of a guarded operation returns, given what the readiness
/// poll, the attempt and the clearing of readiness give back (the last two
/// are only consulted when they are made).
pub open spec fn guarded_poll<T, E>(
    readiness: Poll<Result<(), E>>,
    attempt: Result<T, IoFailure<E>>,
    cleared: Result<(), E>,
) -> Poll<Result<T, E>> {
    match readiness {
        Poll::Pending => Poll::Pending,
        Poll::Ready(Err(e)) => Poll::Ready(Err(e)),
        Poll::Ready(Ok(())) => match attempt {
            Ok(v) => Poll::Ready(Ok(v)),
            Err(IoFailure::Failed(e)) => Poll::Ready(Err(e)),
            Err(IoFailure::WouldBlock) => match cleared {
                Ok(()) => Poll::Pending,
                Err(e) => Poll::Ready(Err(e)),
            },
        },
    }
}

/// Whether a readiness poll found the socket ready.
pub open spec fn found_ready<E>(readiness: Poll<Result<(), E>>) -> bool {
    readiness matches Poll::Ready(Ok(_))
}

/// Whether an attempt would have blocked.
pub open spec fn would_block<T, E>(attempt: Result<T, IoFailure<E>>) -> bool {
    attempt matches Err(IoFailure::WouldBlock)
}

/// Driving `next_action` with the outcomes of the calls it asks for, in the
/// order it asks for them, ends with `guarded_poll` of those outcomes: the
/// operation is attempted exactly when the socket was found ready, and the
/// readiness is cleared exactly when that attempt would have blocked.
pub proof fn lemma_guarded_run<T, E>(
    readiness: Poll<Result<(), E>>,
    attempt: Result<T, IoFailure<E>>,
    cleared: Result<(), E>,
)
    ensures
        next_action_spec::<T, E>(IoEvent::Readiness(readiness)) == if found_ready(readiness) {
            IoAction::<T, E>::Attempt
        } else {
            IoAction::Complete(guarded_poll(readiness, attempt, cleared))
        },
        found_ready(readiness) ==> next_action_spec(IoEvent::<T, E>::Attempted(attempt)) == if would_block(attempt) {
            IoAction::<T, E>::ClearReadiness
        } else {
            IoAction::Complete(guarded_poll(readiness, attempt, cleared))
        },
        found_ready(readiness) && would_block(attempt) ==> next_action_spec(
            IoEvent::<T, E>::Cleared(cleared),
        ) == IoAction::Complete(guarded_poll(readiness, attempt, cleared)),
{
}

/// A guarded operation returns `Pending` only when the task has been
/// registered for a wake-up: either the readiness poll itself was pending, or
/// the attempt would have blocked and the readiness was cleared.
pub proof fn lemma_pending_only_when_registered<T, E>(
    readiness: Poll<Result<(), E>>,
    attempt: Result<T, IoFailure<E>>,
    cleared: Result<(), E>,
)
    ensures
        guarded_poll(readiness, attempt, cleared) is Pending <==> (readiness is Pending || (
        found_ready(readiness) && would_block(attempt) && cleared is Ok)),
{
}

/// Once the socket is ready, every outcome of the attempt other than "would
/// block" reaches the caller unchanged, and a would-block outcome never does:
/// it turns into `Pending`, or into the error of clearing the readiness.
pub proof fn lemma_attempt_passes_through<T, E>(
    readiness: Poll<Result<(), E>>,
    attempt: Result<T, IoFailure<E>>,
    cleared: Result<(), E>,
)
    requires
        found_ready(readiness),
    ensures
        attempt matches Ok(v) ==> guarded_poll(readiness, attempt, cleared) == Poll::Ready(
            Ok::<T, E>(v),
        ),
        attempt matches Err(IoFailure::Failed(e)) ==> guarded_poll(readiness, attempt, cleared)
            == Poll::Ready(Err::<T, E>(e)),
        would_block(attempt) ==> match cleared {
            Ok(_) => guarded_poll(readiness, attempt, cleared) is Pending,
            Err(e) => guarded_poll(readiness, attempt, cleared) == Poll::Ready(Err::<T, E>(e)),
        },
{
}

/// An error reported while polling or clearing readiness is handed back as
/// it was; nothing is attempted after a failed readiness poll.
pub proof fn lemma_readiness_errors_reported<T, E>(
    e: E,
    attempt: Result<T, IoFailure<E>>,
    cleared: Result<(), E>,
)
    ensures
        guarded_poll(Poll::Ready(Err(e)), attempt, cleared) == Poll::Ready(Err::<T, E>(e)),
        next_action_spec(IoEvent::<T, E>::Readiness(Poll::Ready(Err(e)))) == IoAction::Complete(
            Poll::Ready(Err::<T, E>(e)),
        ),
        next_action_spec(IoEvent::<T, E>::Cleared(Err(e))) == IoAction::Complete(
            Poll::Ready(Err::<T, E>(e)),
        ),
{
}

} // verus!

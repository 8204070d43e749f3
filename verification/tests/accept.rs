use tokio_vsock::accept::{accept_attempt, classify_accept};
use tokio_vsock::incoming::{accepted_stream, next_stream};
use tokio_vsock::poll::{IoFailure, Poll};

#[test]
fn accept_connection_is_some() {
    assert_eq!(classify_accept::<(u32, u32), &str>(Ok((4, 9))), Ok(Some((4, 9))));
}

#[test]
fn accept_would_block_is_none() {
    assert_eq!(classify_accept::<(u32, u32), &str>(Err(IoFailure::WouldBlock)), Ok(None));
}

#[test]
fn accept_other_error_is_kept() {
    assert_eq!(classify_accept::<(u32, u32), &str>(Err(IoFailure::Failed("bad fd"))), Err("bad fd"));
}

#[test]
fn accept_attempt_none_would_block() {
    assert_eq!(accept_attempt::<u8, &str>(Ok(None)), Err(IoFailure::WouldBlock));
    assert_eq!(accept_attempt::<u8, &str>(Ok(Some(6))), Ok(6));
    assert_eq!(accept_attempt::<u8, &str>(Err(IoFailure::Failed("x"))), Err(IoFailure::Failed("x")));
    assert_eq!(accept_attempt::<u8, &str>(Err(IoFailure::WouldBlock)), Err(IoFailure::WouldBlock));
}

#[test]
fn accept_round_trip_on_values() {
    let cases: Vec<fn() -> Result<u8, IoFailure<&'static str>>> =
        vec![|| Ok(1), || Err(IoFailure::WouldBlock), || Err(IoFailure::Failed("e"))];
    for make in cases {
        let reported = match classify_accept(make()) {
            Ok(o) => Ok(o),
            Err(e) => Err(IoFailure::Failed(e)),
        };
        assert_eq!(accept_attempt(reported), make());
    }
}

#[test]
fn incoming_drops_the_address() {
    assert_eq!(accepted_stream::<u8, u32, &str>(Poll::Ready(Ok((1, 77)))), Poll::Ready(Ok(1)));
    assert_eq!(accepted_stream::<u8, u32, &str>(Poll::Ready(Err("e"))), Poll::Ready(Err("e")));
    assert_eq!(accepted_stream::<u8, u32, &str>(Poll::Pending), Poll::Pending);
}

#[test]
fn incoming_never_ends() {
    assert_eq!(next_stream::<u8, u32, &str>(Poll::Ready(Ok((1, 77)))), Poll::Ready(Some(Ok(1))));
    assert_eq!(next_stream::<u8, u32, &str>(Poll::Ready(Err("e"))), Poll::Ready(Some(Err("e"))));
    assert_eq!(next_stream::<u8, u32, &str>(Poll::Pending), Poll::Pending);
}

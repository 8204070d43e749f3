//! Verified decision logic of an asynchronous Virtio socket (vsock) library.
//!
//! The socket system calls, the reactor registration and the awaiting stay
//! with the caller; this crate decides, from what each of those calls gave
//! back, what to do next and what to hand to the user.

pub mod poll;
pub mod readiness;
pub mod addr;
pub mod bind;
pub mod accept;
pub mod incoming;

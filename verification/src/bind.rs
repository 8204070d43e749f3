use vstd::prelude::*;
use crate::addr::{SockAddr, VsockAddr};

verus! {

/// How many pending connections a listening socket queues.
pub const LISTEN_BACKLOG: i32 = 1024;

/// The values of the target's system interface that the set-up hands to the
/// system calls; the caller takes them from the target's C library.
#[derive(Debug, Clone, Copy, PartialEq, Eq)]
pub struct SysConsts {
    /// Address family of Virtio sockets (`AF_VSOCK`).
    pub af_vsock: i32,
    /// Connection-oriented socket type (`SOCK_STREAM`).
    pub sock_stream: i32,
    /// The `fcntl` command that sets the file status flags (`F_SETFL`).
    pub f_setfl: i32,
    /// The non-blocking file status flag (`O_NONBLOCK`).
    pub o_nonblock: i32,
    /// The size in bytes of a Virtio socket address structure (`sockaddr_vm`).
    pub sockaddr_vm_len: u32,
}

/// Where the setting-up of a listening socket stands.
#[derive(Debug, Clone, Copy, PartialEq, Eq)]
pub enum BindState {
    /// The socket is being created; it will be bound to `addr`.
    Opening { addr: VsockAddr, sys: SysConsts },
    /// The socket `fd` exists and is being made non-blocking.
    SettingNonBlocking { fd: i32, addr: VsockAddr, sys: SysConsts },
    /// The socket `fd` is being bound to its address.
    Binding { fd: i32 },
    /// The socket `fd` is being made to listen.
    Listening { fd: i32 },
    /// Nothing is left to do.
    Done,
}

/// The next thing the caller has to do to set up a listening socket.
#[derive(Debug, Clone, Copy, PartialEq, Eq)]
pub enum BindAction {
    /// Call `socket(domain, socket_type, protocol)` and report its return value.
    OpenSocket { domain: i32, socket_type: i32, protocol: i32 },
    /// Call `fcntl(fd, command, flags)` and report its return value.
    SetFlags { fd: i32, command: i32, flags: i32 },
    /// Call `bind(fd, &addr, addr_len)` and report its return value.
    BindAddress { fd: i32, addr: VsockAddr, addr_len: u32 },
    /// Call `listen(fd, backlog)` and report its return value.
    Listen { fd: i32, backlog: i32 },
    /// Close `fd`, then fail with the last operating-system error.
    CloseAndFail { fd: i32 },
    /// Fail with the last operating-system error.
    Fail,
    /// Fail: the address is not a Virtio socket address.
    RejectAddress,
    /// The listening socket is `fd`.
    Complete { fd: i32 },
}

/// Whether an action ends the set-up (it asks for no return value).
pub open spec fn is_final(action: BindAction) -> bool {
    match action {
        BindAction::CloseAndFail { .. } | BindAction::Fail | BindAction::RejectAddress
        | BindAction::Complete { .. } => true,
        _ => false,
    }
}

pub open spec fn open_socket(sys: SysConsts) -> BindAction {
    BindAction::OpenSocket { domain: sys.af_vsock, socket_type: sys.sock_stream, protocol: 0 }
}

pub open spec fn set_non_blocking(fd: i32, sys: SysConsts) -> BindAction {
    BindAction::SetFlags { fd, command: sys.f_setfl, flags: sys.o_nonblock }
}

pub open spec fn bind_address(fd: i32, addr: VsockAddr, sys: SysConsts) -> BindAction {
    BindAction::BindAddress { fd, addr, addr_len: sys.sockaddr_vm_len }
}

pub open spec fn listen(fd: i32) -> BindAction {
    BindAction::Listen { fd, backlog: LISTEN_BACKLOG }
}

/// The first state and action of setting up a socket listening on `addr`,
/// with the target's values `sys`.
pub open spec fn bind_start_spec(addr: SockAddr, sys: SysConsts) -> (BindState, BindAction) {
    match addr {
        SockAddr::Vsock(a) => (BindState::Opening { addr: a, sys }, open_socket(sys)),
        SockAddr::Other { .. } => (BindState::Done, BindAction::RejectAddress),
    }
}

/// The next state and action once the call asked for in `state` returned `ret`
/// (a negative value reports a failure).
pub open spec fn bind_step_spec(state: BindState, ret: i32) -> (BindState, BindAction) {
    match state {
        BindState::Opening { addr, sys } => if ret < 0 {
            (BindState::Done, BindAction::Fail)
        } else {
            (BindState::SettingNonBlocking { fd: ret, addr, sys }, set_non_blocking(ret, sys))
        },
        BindState::SettingNonBlocking { fd, addr, sys } => if ret < 0 {
            (BindState::Done, BindAction::CloseAndFail { fd })
        } else {
            (BindState::Binding { fd }, bind_address(fd, addr, sys))
        },
        BindState::Binding { fd } => if ret < 0 {
            (BindState::Done, BindAction::CloseAndFail { fd })
        } else {
            (BindState::Listening { fd }, listen(fd))
        },
        BindState::Listening { fd } => if ret < 0 {
            (BindState::Done, BindAction::CloseAndFail { fd })
        } else {
            (BindState::Done, BindAction::Complete { fd })
        },
        BindState::Done => (BindState::Done, BindAction::Fail),
    }
}

impl BindState {
    /// Whether the set-up is over.
    pub fn is_done(&self) -> (r: bool)
        ensures
            r == (*self is Done),
    {
        match self {
            BindState::Done => true,
            _ => false,
        }
    }
}

impl BindAction {
    /// Whether this action ends the set-up.
    pub fn is_final(&self) -> (r: bool)
        ensures
            r == is_final(*self),
    {
        match self {
            BindAction::CloseAndFail { .. } | BindAction::Fail | BindAction::RejectAddress
            | BindAction::Complete { .. } => true,
            _ => false,
        }
    }
}

/// Starts setting up a non-blocking socket listening on `addr`, with the
/// target's values `sys`: a Virtio socket address leads to creating a stream
/// socket, any other address is rejected before any system call.
pub fn bind_start(addr: &SockAddr, sys: SysConsts) -> (r: (BindState, BindAction))
    ensures
        r == bind_start_spec(*addr, sys),
{
    match addr {
        SockAddr::Vsock(a) => (
            BindState::Opening { addr: *a, sys },
            BindAction::OpenSocket { domain: sys.af_vsock, socket_type: sys.sock_stream, protocol: 0 },
        ),
        SockAddr::Other { .. } => (BindState::Done, BindAction::RejectAddress),
    }
}

/// Takes the set-up one call further: `ret` is what the call asked for by the
/// last action returned. The socket is made non-blocking, bound, then made to
/// listen; the first failing call ends the set-up, and closes the socket when
/// it had been created.
pub fn bind_step(state: BindState, ret: i32) -> (r: (BindState, BindAction))
    requires
        !(state is Done),
    ensures
        r == bind_step_spec(state, ret),
{
    match state {
        BindState::Opening { addr, sys } => if ret < 0 {
            (BindState::Done, BindAction::Fail)
        } else {
            (
                BindState::SettingNonBlocking { fd: ret, addr, sys },
                BindAction::SetFlags { fd: ret, command: sys.f_setfl, flags: sys.o_nonblock },
            )
        },
        BindState::SettingNonBlocking { fd, addr, sys } => if ret < 0 {
            (BindState::Done, BindAction::CloseAndFail { fd })
        } else {
            (
                BindState::Binding { fd },
                BindAction::BindAddress { fd, addr, addr_len: sys.sockaddr_vm_len },
            )
        },
        BindState::Binding { fd } => if ret < 0 {
            (BindState::Done, BindAction::CloseAndFail { fd })
        } else {
            (BindState::Listening { fd }, BindAction::Listen { fd, backlog: LISTEN_BACKLOG })
        },
        BindState::Listening { fd } => if ret < 0 {
            (BindState::Done, BindAction::CloseAndFail { fd })
        } else {
            (BindState::Done, BindAction::Complete { fd })
        },
        BindState::Done => (BindState::Done, BindAction::Fail),
    }
}

/// The actions asked for from `action` on, when the calls they ask for return
/// `rets` in turn.
pub open spec fn trace_from(state: BindState, action: BindAction, rets: Seq<i32>) -> Seq<BindAction>
    decreases rets.len(),
{
    if is_final(action) || rets.len() == 0 {
        seq![action]
    } else {
        let (next_state, next_action) = bind_step_spec(state, rets[0]);
        seq![action] + trace_from(next_state, next_action, rets.drop_first())
    }
}

/// The actions asked for while setting up a socket listening on `addr`, when
/// the system calls return `rets` in turn, with the target's values `sys`.
pub open spec fn bind_trace(addr: SockAddr, sys: SysConsts, rets: Seq<i32>) -> Seq<BindAction> {
    trace_from(bind_start_spec(addr, sys).0, bind_start_spec(addr, sys).1, rets)
}

/// An address of another family is rejected before any system call is made.
pub proof fn lemma_bind_rejects_other_families(family: i32, sys: SysConsts, rets: Seq<i32>)
    ensures
        bind_trace(SockAddr::Other { family }, sys, rets) == seq![BindAction::RejectAddress],
{
    reveal_with_fuel(trace_from, 2);
}

/// The system calls made to set up a socket listening on a Virtio address:
/// `socket`, then `fcntl` to make it non-blocking, then `bind`, then `listen`,
/// each only after the previous one succeeded. A failing `socket` ends the
/// set-up with its error; a later failing call ends it by closing the socket;
/// when all succeed the socket is the result.
pub proof fn lemma_bind_trace(addr: VsockAddr, sys: SysConsts, rets: Seq<i32>)
    requires
        rets.len() >= 4,
    ensures
        ({
            let fd = rets[0];
            let t = bind_trace(SockAddr::Vsock(addr), sys, rets);
            &&& rets[0] < 0 ==> t == seq![open_socket(sys), BindAction::Fail]
            &&& rets[0] >= 0 && rets[1] < 0 ==> t == seq![
                open_socket(sys),
                set_non_blocking(fd, sys),
                BindAction::CloseAndFail { fd },
            ]
            &&& rets[0] >= 0 && rets[1] >= 0 && rets[2] < 0 ==> t == seq![
                open_socket(sys),
                set_non_blocking(fd, sys),
                bind_address(fd, addr, sys),
                BindAction::CloseAndFail { fd },
            ]
            &&& rets[0] >= 0 && rets[1] >= 0 && rets[2] >= 0 && rets[3] < 0 ==> t == seq![
                open_socket(sys),
                set_non_blocking(fd, sys),
                bind_address(fd, addr, sys),
                listen(fd),
                BindAction::CloseAndFail { fd },
            ]
            &&& rets[0] >= 0 && rets[1] >= 0 && rets[2] >= 0 && rets[3] >= 0 ==> t == seq![
                open_socket(sys),
                set_non_blocking(fd, sys),
                bind_address(fd, addr, sys),
                listen(fd),
                BindAction::Complete { fd },
            ]
        }),
{
    let fd = rets[0];
    let r1 = rets.drop_first();
    let r2 = r1.drop_first();
    let r3 = r2.drop_first();
    let r4 = r3.drop_first();
    let s1 = bind_step_spec(BindState::Opening { addr, sys }, rets[0]);
    assert(trace_from(BindState::Opening { addr, sys }, open_socket(sys), rets) == seq![open_socket(sys)]
        + trace_from(s1.0, s1.1, r1));
    if rets[0] >= 0 {
        let s2 = bind_step_spec(s1.0, r1[0]);
        assert(trace_from(s1.0, s1.1, r1) == seq![s1.1] + trace_from(s2.0, s2.1, r2));
        if rets[1] >= 0 {
            let s3 = bind_step_spec(s2.0, r2[0]);
            assert(trace_from(s2.0, s2.1, r2) == seq![s2.1] + trace_from(s3.0, s3.1, r3));
            if rets[2] >= 0 {
                let s4 = bind_step_spec(s3.0, r3[0]);
                assert(trace_from(s3.0, s3.1, r3) == seq![s3.1] + trace_from(s4.0, s4.1, r4));
                assert(trace_from(s4.0, s4.1, r4) == seq![s4.1]);
            } else {
                assert(trace_from(s3.0, s3.1, r3) == seq![s3.1]);
            }
        } else {
            assert(trace_from(s2.0, s2.1, r2) == seq![s2.1]);
        }
    } else {
        assert(trace_from(s1.0, s1.1, r1) == seq![s1.1]);
    }
}

/// Whether every one of the four set-up calls succeeds.
pub open spec fn all_succeed(rets: Seq<i32>) -> bool {
    rets[0] >= 0 && rets[1] >= 0 && rets[2] >= 0 && rets[3] >= 0
}

/// How a set-up on a Virtio address ends: with the socket exactly when all four
/// calls succeed; by closing that same socket exactly when it was created and
/// a later call failed; and no call is asked for after the first failure.
pub proof fn lemma_bind_outcome(addr: VsockAddr, sys: SysConsts, rets: Seq<i32>)
    requires
        rets.len() >= 4,
    ensures
        ({
            let t = bind_trace(SockAddr::Vsock(addr), sys, rets);
            &&& (t.last() == BindAction::Complete { fd: rets[0] }) <==> all_succeed(rets)
            &&& (t.last() is CloseAndFail) <==> (rets[0] >= 0 && !all_succeed(rets))
            &&& t.last() is CloseAndFail ==> t.last() == BindAction::CloseAndFail { fd: rets[0] }
            &&& (t.last() is Fail) <==> rets[0] < 0
            &&& forall|i: int| 0 <= i < t.len() - 1 ==> !is_final(#[trigger] t[i])
            &&& forall|i: int| 0 <= i < t.len() - 1 ==> rets[i] >= 0 || i == t.len() - 2
        }),
{
    lemma_bind_trace(addr, sys, rets);
}

/// The set-up is over exactly when it asks for no more system call: a final
/// action always comes with the `Done` state, any other action never does, so
/// the caller can always report the return value of the call it was asked for.
pub proof fn lemma_done_exactly_when_final(addr: SockAddr, sys: SysConsts, state: BindState, ret: i32)
    ensures
        (bind_start_spec(addr, sys).0 is Done) <==> is_final(bind_start_spec(addr, sys).1),
        !(state is Done) ==> ((bind_step_spec(state, ret).0 is Done) <==> is_final(
            bind_step_spec(state, ret).1,
        )),
{
}

} // verus!

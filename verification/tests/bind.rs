use tokio_vsock::addr::{SockAddr, VsockAddr};
use tokio_vsock::bind::{bind_start, bind_step, BindAction, BindState, SysConsts, LISTEN_BACKLOG};

/// The values of the host the tests run on.
fn host() -> SysConsts {
    SysConsts {
        af_vsock: libc::AF_VSOCK,
        sock_stream: libc::SOCK_STREAM,
        f_setfl: libc::F_SETFL,
        o_nonblock: libc::O_NONBLOCK,
        sockaddr_vm_len: std::mem::size_of::<libc::sockaddr_vm>() as u32,
    }
}

/// Runs the set-up with the given system call results and collects the actions.
fn run(addr: SockAddr, rets: &[i32]) -> Vec<BindAction> {
    run_with(addr, host(), rets)
}

fn run_with(addr: SockAddr, sys: SysConsts, rets: &[i32]) -> Vec<BindAction> {
    let (mut state, mut action) = bind_start(&addr, sys);
    let mut actions = vec![action];
    let mut next = rets.iter();
    while !action.is_final() {
        assert!(!state.is_done());
        let ret = *next.next().expect("the set-up asked for more calls than given");
        let (s, a) = bind_step(state, ret);
        state = s;
        action = a;
        actions.push(action);
    }
    actions
}

fn vsock(cid: u32, port: u32) -> SockAddr {
    SockAddr::Vsock(VsockAddr::new(libc::AF_VSOCK as u16, cid, port))
}

#[test]
fn bind_backlog_is_1024() {
    assert_eq!(LISTEN_BACKLOG, 1024);
}

#[test]
fn bind_uses_the_values_it_is_given() {
    // Values of a target where stream sockets and the non-blocking flag differ.
    let sys = SysConsts { af_vsock: 40, sock_stream: 2, f_setfl: 4, o_nonblock: 128, sockaddr_vm_len: 16 };
    let addr = VsockAddr::new(40, 3, 5000);
    let actions = run_with(SockAddr::Vsock(addr), sys, &[4, 0, 0, 0]);
    assert_eq!(
        actions,
        vec![
            BindAction::OpenSocket { domain: 40, socket_type: 2, protocol: 0 },
            BindAction::SetFlags { fd: 4, command: 4, flags: 128 },
            BindAction::BindAddress { fd: 4, addr, addr_len: 16 },
            BindAction::Listen { fd: 4, backlog: 1024 },
            BindAction::Complete { fd: 4 },
        ]
    );
}

#[test]
fn bind_rejects_an_address_of_another_family() {
    let actions = run(SockAddr::Other { family: libc::AF_INET }, &[]);
    assert_eq!(actions, vec![BindAction::RejectAddress]);
}

#[test]
fn bind_success_makes_the_four_calls_in_order() {
    let addr = VsockAddr::new(libc::AF_VSOCK as u16, libc::VMADDR_CID_ANY, 8000);
    let actions = run(SockAddr::Vsock(addr), &[7, 0, 0, 0]);
    assert_eq!(
        actions,
        vec![
            BindAction::OpenSocket { domain: libc::AF_VSOCK, socket_type: libc::SOCK_STREAM, protocol: 0 },
            BindAction::SetFlags { fd: 7, command: libc::F_SETFL, flags: libc::O_NONBLOCK },
            BindAction::BindAddress { fd: 7, addr, addr_len: 16 },
            BindAction::Listen { fd: 7, backlog: 1024 },
            BindAction::Complete { fd: 7 },
        ]
    );
}

#[test]
fn bind_socket_failure_closes_nothing() {
    let actions = run(vsock(3, 1), &[-1]);
    assert_eq!(actions.len(), 2);
    assert_eq!(actions[1], BindAction::Fail);
}

#[test]
fn bind_fcntl_failure_closes_the_socket() {
    let actions = run(vsock(3, 1), &[5, -1]);
    assert_eq!(actions.len(), 3);
    assert_eq!(actions[2], BindAction::CloseAndFail { fd: 5 });
}

#[test]
fn bind_bind_failure_closes_the_socket() {
    let actions = run(vsock(3, 1), &[5, 0, -1]);
    assert_eq!(actions.len(), 4);
    assert_eq!(actions[3], BindAction::CloseAndFail { fd: 5 });
}

#[test]
fn bind_listen_failure_closes_the_socket() {
    let actions = run(vsock(3, 1), &[9, 0, 0, -1]);
    assert_eq!(actions.len(), 5);
    assert_eq!(actions[3], BindAction::Listen { fd: 9, backlog: 1024 });
    assert_eq!(actions[4], BindAction::CloseAndFail { fd: 9 });
}

#[test]
fn bind_fd_zero_is_a_valid_socket() {
    let actions = run(vsock(2, 2), &[0, 0, 0, 0]);
    assert_eq!(actions[4], BindAction::Complete { fd: 0 });
}

#[test]
fn bind_state_tracks_the_socket() {
    let (state, _) = bind_start(&vsock(3, 4), host());
    assert_eq!(state, BindState::Opening { addr: VsockAddr::new(libc::AF_VSOCK as u16, 3, 4), sys: host() });
    let (state, _) = bind_step(state, 11);
    assert_eq!(state, BindState::SettingNonBlocking { fd: 11, addr: VsockAddr::new(libc::AF_VSOCK as u16, 3, 4), sys: host() });
    let (state, _) = bind_step(state, 0);
    assert_eq!(state, BindState::Binding { fd: 11 });
    let (state, _) = bind_step(state, 0);
    assert_eq!(state, BindState::Listening { fd: 11 });
    let (state, _) = bind_step(state, 0);
    assert!(state.is_done());
}

#[test]
fn bind_passes_the_whole_address_on() {
    // A hand-made address with a foreign family and trailing bytes set is handed
    // to `bind` as it is, for the kernel to judge.
    let addr = VsockAddr { family: 2, reserved1: 7, port: 9, cid: 3, zero: [1, 0, 0, 5] };
    let actions = run(SockAddr::Vsock(addr), &[6, 0, -1]);
    assert_eq!(actions[2], BindAction::BindAddress { fd: 6, addr, addr_len: 16 });
    assert_eq!(actions[3], BindAction::CloseAndFail { fd: 6 });
}

#[test]
fn vsock_addr_new_zeroes_the_rest() {
    let addr = VsockAddr::new(40, 3, 1234);
    assert_eq!(addr, VsockAddr { family: 40, reserved1: 0, port: 1234, cid: 3, zero: [0; 4] });
}

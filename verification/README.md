# tokio_vsock

Asynchronous Virtio sockets (vsock) for tokio, with the decision logic verified
by Verus.

- `src/` is the verified library: how a non-blocking listening socket is set
  up (`bind`), how one poll of a readiness-guarded read, write or accept turns
  out (`readiness`, `accept`), and what the stream of incoming connections
  yields (`incoming`). It makes no system call itself: each function takes
  what the last outside call returned and says what to do next.
- `app/` holds the socket types users work with (`VsockListener`,
  `VsockStream`, `Incoming`), makes the system calls and reactor calls that
  the library asks for, and converts between std, nix, tokio and library values.
- `tests/` exercises the library on concrete values.

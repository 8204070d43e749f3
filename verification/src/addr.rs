use vstd::prelude::*;

verus! {

/// The address of a Virtio socket, field for field as the system's
/// `sockaddr_vm` holds it: the address family, the reserved bytes, the port,
/// the context identifier and the trailing bytes (flags and padding).
#[derive(Debug, Clone, Copy, PartialEq, Eq)]
pub struct VsockAddr {
    pub family: u16,
    pub reserved1: u16,
    pub port: u32,
    pub cid: u32,
    pub zero: [u8; 4],
}

/// A socket address as far as this library reads it: either a Virtio socket
/// address, or an address of another family, known by its family number.
#[derive(Debug, Clone, Copy, PartialEq, Eq)]
pub enum SockAddr {
    Vsock(VsockAddr),
    Other { family: i32 },
}

impl VsockAddr {
    /// The address of the given family with the given context identifier and
    /// port, its reserved and trailing bytes all zero.
    pub fn new(family: u16, cid: u32, port: u32) -> (addr: VsockAddr)
        ensures
            addr.family == family,
            addr.reserved1 == 0,
            addr.cid == cid,
            addr.port == port,
            addr.zero@ == seq![0u8, 0u8, 0u8, 0u8],
    {
        VsockAddr { family, reserved1: 0, port, cid, zero: [0u8, 0u8, 0u8, 0u8] }
    }
}

} // verus!

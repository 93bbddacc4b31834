use crate::error::VsockError;
use nix::sys::socket::{Backlog, VsockAddr};
use vstd::prelude::*;

verus! {

#[verifier::external_type_specification]
#[verifier::external_body]
pub struct ExVsockAddr(VsockAddr);

#[verifier::external_type_specification]
#[verifier::external_body]
pub struct ExBacklog(Backlog);

/// CID to bind to for accepting connections from any CID (a vsock convention).
pub const ANY_CID_ADDR: u32 = 0xffff_ffffu32;

/// CID of the parent instance of an AWS Nitro Enclave (a Nitro Enclaves convention, not
/// meant for vsock communication outside of Nitro Enclaves).
pub const PARENT_NE_CID_ADDR: u32 = 3u32;

/// Number of connection attempts that `connect` makes before it gives up.
pub const CONNECT_ATTEMPTS: usize = 5usize;

/// Length of the queue of pending connections of a listening socket.
pub const MAX_QUEUE_LEN: i32 = 128i32;

/// A vsock address: a context identifier (CID) and a port.
#[derive(Debug, Clone, Copy, PartialEq, Eq, Structural)]
pub struct VsockAddress {
    pub cid: u32,
    pub port: u32,
}

/// The `AF_VSOCK` socket address that `nix::sys::socket::VsockAddr::new` builds for CID
/// `cid` and port `port`.
pub uninterp spec fn vsock_sockaddr(cid: u32, port: u32) -> VsockAddr;

/// The answer of `nix::sys::socket::Backlog::new` to the listen queue length `len`: the
/// queue of that length, or the errno the length is refused with.
pub uninterp spec fn backlog_answer(len: i32) -> Result<Backlog, i32>;

/// Calls `nix::sys::socket::VsockAddr::new`, which builds the `AF_VSOCK` socket address of
/// CID `cid` and port `port` from these two values alone; the result is named
/// `vsock_sockaddr(cid, port)`. The address is opaque here: that its `cid()` and `port()`
/// give back the two arguments, as the source shows, is not stated.
#[verifier::external_body]
fn nix_vsock_addr(cid: u32, port: u32) -> (a: VsockAddr)
    ensures
        a == vsock_sockaddr(cid, port),
{
    VsockAddr::new(cid, port)
}

/// Calls `nix::sys::socket::Backlog::new`, which accepts a listen queue length of at least
/// `-1` (`0` outside Linux and FreeBSD) and below `SOMAXCONN`, and refuses any other with
/// `EINVAL`, handed back here as its errno value. `SOMAXCONN` is a constant of the system the
/// crate is built for (on Linux, 4096 with glibc and 128 with musl), and the queue it hands
/// back is `Backlog(len)`, so the answer depends on the length alone and is named
/// `backlog_answer(len)`; which lengths are accepted is stated only as far as it holds on
/// every system. The queue is opaque here: that it holds `len` is said only by the name.
#[verifier::external_body]
fn nix_backlog(len: i32) -> (r: Result<Backlog, i32>)
    ensures
        r == backlog_answer(len),
        r is Ok ==> -1 <= len,
        len < -1 ==> r is Err,
{
    match Backlog::new(len) {
        Ok(backlog) => Ok(backlog),
        Err(errno) => Err(errno as i32),
    }
}

impl VsockAddress {
    /// The address of port `port` at CID `cid`.
    pub fn new(cid: u32, port: u32) -> (a: VsockAddress)
        ensures
            a == (VsockAddress { cid, port }),
    {
        VsockAddress { cid, port }
    }

    /// The address that a listening socket on `port` binds to: `port` at any CID.
    pub fn bind_any(port: u32) -> (a: VsockAddress)
        ensures
            a == (VsockAddress { cid: ANY_CID_ADDR, port }),
    {
        VsockAddress { cid: ANY_CID_ADDR, port }
    }

    /// The socket address that the system calls take, for this address.
    pub fn to_sockaddr(&self) -> (a: VsockAddr)
        ensures
            a == vsock_sockaddr(self.cid, self.port),
    {
        nix_vsock_addr(self.cid, self.port)
    }
}

/// What the library makes of the system's answer to a listen queue length: the queue, or
/// the refusal as an `Os` error with its errno.
pub fn backlog_from(answer: Result<Backlog, i32>) -> (r: Result<Backlog, VsockError>)
    ensures
        r == (match answer {
            Ok(backlog) => Ok::<Backlog, VsockError>(backlog),
            Err(code) => Err(VsockError::Os(code)),
        }),
{
    match answer {
        Ok(backlog) => Ok(backlog),
        Err(code) => Err(VsockError::Os(code)),
    }
}

/// The listen queue of a listening socket: the queue of `MAX_QUEUE_LEN` pending connections
/// when the system accepts that length, and otherwise its refusal as an `Os` error with the
/// errno.
pub fn listen_backlog() -> (r: Result<Backlog, VsockError>)
    ensures
        r == (match backlog_answer(MAX_QUEUE_LEN) {
            Ok(backlog) => Ok::<Backlog, VsockError>(backlog),
            Err(code) => Err(VsockError::Os(code)),
        }),
{
    backlog_from(nix_backlog(MAX_QUEUE_LEN))
}

} // verus!

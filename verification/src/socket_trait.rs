//! Common capabilities of non-listener Unix-domain sockets: half-close,
//! nonblocking mode, and peer credential retrieval. These behave the same
//! whichever connection type carries them.

use vstd::prelude::*;
use crate::error::{os_answer, shutdown_answer, Error};

verus! {

/// The `O_NONBLOCK` status flag bit of Linux-family systems.
pub const O_NONBLOCK_BIT: i32 = 2048;

/// Which direction (or directions) of a stream to shut down.
#[derive(Clone, Copy, Debug, PartialEq, Eq, Structural)]
pub enum ShutdownHow {
    /// The receiving half.
    Read,
    /// The sending half.
    Write,
    /// Both halves.
    Both,
}

/// The status flag word with its O_NONBLOCK bit set or cleared as asked,
/// every other bit kept: what `set_nonblocking` hands back to the OS.
pub fn apply_nonblocking_bit(flags: i32, nonblocking: bool) -> (r: i32)
    ensures
        ((r & O_NONBLOCK_BIT) != 0) == nonblocking,
        (r & !O_NONBLOCK_BIT) == (flags & !O_NONBLOCK_BIT),
{
    if nonblocking {
        let r = flags | O_NONBLOCK_BIT;
        proof {
            assert(((flags | 2048i32) & 2048i32) != 0) by (bit_vector);
            assert(((flags | 2048i32) & !2048i32) == (flags & !2048i32)) by (bit_vector);
        }
        r
    } else {
        let r = flags & !O_NONBLOCK_BIT;
        proof {
            assert(((flags & !2048i32) & 2048i32) == 0) by (bit_vector);
            assert(((flags & !2048i32) & !2048i32) == (flags & !2048i32)) by (bit_vector);
        }
        r
    }
}

/// Whether a status flag word read from the OS has its O_NONBLOCK bit set:
/// the decode behind `is_nonblocking`.
pub fn read_nonblocking_bit(flags: i32) -> (b: bool)
    ensures
        b == ((flags & O_NONBLOCK_BIT) != 0),
{
    (flags & O_NONBLOCK_BIT) != 0
}

/// A snapshot of the remote endpoint's identity: the process, user and group
/// identifiers of the peer.
#[derive(Clone, Copy, Debug, PartialEq, Eq, Structural)]
pub struct PeerCredentials {
    /// Process identifier of the peer.
    pub pid: i32,
    /// User identifier of the peer.
    pub uid: u32,
    /// Group identifier of the peer.
    pub gid: u32,
}

/// Common methods for non-listener Unix-domain sockets.
pub trait UdSocket: Sized {
    /// Whether this socket holds a live descriptor.
    spec fn socket_wf(&self) -> bool;

    /// Shuts down the read, write, or both halves of the stream.
    ///
    /// Calling this with the same direction twice may succeed idempotently or
    /// fail the second time, depending on the platform; callers must accept
    /// either outcome. Either way the call returns, it never panics.
    fn shutdown(&self, how: ShutdownHow) -> (r: Result<(), Error>)
        requires
            self.socket_wf(),
        ensures
            r matches Err(e) ==> shutdown_answer(e),
    ;

    /// Enables or disables nonblocking mode. Disabled by default: with it
    /// enabled, receive and send calls that would wait return
    /// [`Error::WouldBlock`] instead.
    fn set_nonblocking(&self, nonblocking: bool) -> (r: Result<(), Error>)
        requires
            self.socket_wf(),
        ensures
            r matches Err(e) ==> os_answer(e),
    ;

    /// Whether the stream is currently in nonblocking mode.
    fn is_nonblocking(&self) -> (r: Result<bool, Error>)
        requires
            self.socket_wf(),
        ensures
            r matches Err(e) ==> os_answer(e),
    ;

    /// Fetches the credentials of the other end without using ancillary
    /// data. Where the query cannot be served, the one error is
    /// [`Error::CredentialsUnavailable`].
    fn get_peer_credentials(&self) -> (r: Result<PeerCredentials, Error>)
        requires
            self.socket_wf(),
        ensures
            r matches Err(e) ==> e == Error::CredentialsUnavailable,
    ;

    /// Enables or disables continuous reception of credentials via ancillary
    /// data. Has no effect on any explicit sending of credentials the caller
    /// performs independently.
    fn set_continuous_ancillary_credentials(&self, val: bool) -> (r: Result<(), Error>)
        requires
            self.socket_wf(),
        ensures
            r matches Err(e) ==> os_answer(e),
    ;
}

} // verus!

//! Trusted wrappers around the native Unix-domain-socket calls. Each wrapper
//! holds exactly the outside call and the conversion of its arguments and
//! result; a failed call comes back as the OS error code, for
//! [`crate::error::errno_to_error`] to translate in verified code.

use vstd::prelude::*;
use crate::socket_trait::{PeerCredentials, ShutdownHow};

verus! {

/// Relies on nix::sys::socket::socket: opens a Unix-domain stream socket and
/// returns its descriptor, which the OS hands out nonnegative.
#[verifier::external_body]
pub(crate) fn sys_socket_stream() -> (r: Result<i32, i32>)
    ensures
        r matches Ok(fd) ==> fd >= 0,
{
    nix::sys::socket::socket(
        nix::sys::socket::AddressFamily::Unix,
        nix::sys::socket::SockType::Stream,
        nix::sys::socket::SockFlag::empty(),
        None::<nix::sys::socket::SockProtocol>,
    ).map_err(|e| e as i32)
}

/// Relies on nix::sys::socket::bind with a filesystem socket address built by
/// nix::sys::socket::UnixAddr::new from the path bytes.
#[verifier::external_body]
pub(crate) fn sys_bind_fs(fd: i32, path: &Vec<u8>) -> (r: Result<(), i32>)
{
    let addr = match nix::sys::socket::UnixAddr::new(path.as_slice()) {
        Ok(a) => a,
        Err(e) => return Err(e as i32),
    };
    nix::sys::socket::bind(fd, &addr).map_err(|e| e as i32)
}

/// Relies on nix::sys::socket::bind with an abstract-namespace socket address
/// built by nix::sys::socket::UnixAddr::new_abstract from the name bytes.
#[verifier::external_body]
pub(crate) fn sys_bind_abstract(fd: i32, name: &Vec<u8>) -> (r: Result<(), i32>)
{
    let addr = match nix::sys::socket::UnixAddr::new_abstract(name.as_slice()) {
        Ok(a) => a,
        Err(e) => return Err(e as i32),
    };
    nix::sys::socket::bind(fd, &addr).map_err(|e| e as i32)
}

/// Relies on nix::sys::socket::listen: marks the bound socket as accepting
/// connections, with the given backlog.
#[verifier::external_body]
pub(crate) fn sys_listen(fd: i32, backlog: usize) -> (r: Result<(), i32>)
{
    nix::sys::socket::listen(fd, backlog).map_err(|e| e as i32)
}

/// Relies on nix::sys::socket::accept: takes one inbound connection off the
/// listening socket and returns its descriptor, nonnegative from the OS.
#[verifier::external_body]
pub(crate) fn sys_accept(fd: i32) -> (r: Result<i32, i32>)
    ensures
        r matches Ok(cfd) ==> cfd >= 0,
{
    nix::sys::socket::accept(fd).map_err(|e| e as i32)
}

/// Relies on nix::sys::socket::connect with a filesystem socket address built
/// by nix::sys::socket::UnixAddr::new from the path bytes.
#[verifier::external_body]
pub(crate) fn sys_connect_fs(fd: i32, path: &Vec<u8>) -> (r: Result<(), i32>)
{
    let addr = match nix::sys::socket::UnixAddr::new(path.as_slice()) {
        Ok(a) => a,
        Err(e) => return Err(e as i32),
    };
    nix::sys::socket::connect(fd, &addr).map_err(|e| e as i32)
}

/// Relies on nix::sys::socket::connect with an abstract-namespace socket
/// address built by nix::sys::socket::UnixAddr::new_abstract.
#[verifier::external_body]
pub(crate) fn sys_connect_abstract(fd: i32, name: &Vec<u8>) -> (r: Result<(), i32>)
{
    let addr = match nix::sys::socket::UnixAddr::new_abstract(name.as_slice()) {
        Ok(a) => a,
        Err(e) => return Err(e as i32),
    };
    nix::sys::socket::connect(fd, &addr).map_err(|e| e as i32)
}

/// Relies on nix::unistd::close: releases the descriptor. Returns rather than
/// panics on every outcome, so drop glue may call it.
#[verifier::external_body]
pub(crate) fn sys_close(fd: i32) -> (r: Result<(), i32>)
    opens_invariants none
    no_unwind
{
    nix::unistd::close(fd).map_err(|e| e as i32)
}

/// Relies on nix::unistd::unlink: removes the filesystem entry at the path
/// bytes. Returns rather than panics on every outcome, so drop glue may call
/// it.
#[verifier::external_body]
pub(crate) fn sys_unlink(path: &Vec<u8>) -> (r: Result<(), i32>)
    opens_invariants none
    no_unwind
{
    nix::unistd::unlink(path.as_slice()).map_err(|e| e as i32)
}

/// Relies on nix::sys::socket::shutdown: closes the read half, the write
/// half, or both halves of the connection.
#[verifier::external_body]
pub(crate) fn sys_shutdown(fd: i32, how: ShutdownHow) -> (r: Result<(), i32>)
{
    let h = match how {
        ShutdownHow::Read => nix::sys::socket::Shutdown::Read,
        ShutdownHow::Write => nix::sys::socket::Shutdown::Write,
        ShutdownHow::Both => nix::sys::socket::Shutdown::Both,
    };
    nix::sys::socket::shutdown(fd, h).map_err(|e| e as i32)
}

/// Relies on nix::fcntl::fcntl with F_GETFL: reads the descriptor's status
/// flag bits.
#[verifier::external_body]
pub(crate) fn sys_fcntl_getfl(fd: i32) -> (r: Result<i32, i32>)
{
    nix::fcntl::fcntl(fd, nix::fcntl::FcntlArg::F_GETFL).map_err(|e| e as i32)
}

/// Relies on nix::fcntl::fcntl with F_SETFL: writes the descriptor's status
/// flag bits. OFlag::from_bits_truncate silently drops any flag bits unknown
/// to nix before the word reaches the OS.
#[verifier::external_body]
pub(crate) fn sys_fcntl_setfl(fd: i32, flags: i32) -> (r: Result<(), i32>)
{
    let of = nix::fcntl::OFlag::from_bits_truncate(flags);
    nix::fcntl::fcntl(fd, nix::fcntl::FcntlArg::F_SETFL(of))
        .map(|_| ())
        .map_err(|e| e as i32)
}

/// Relies on nix::sys::stat::lstat: reads which filesystem entry (device
/// and inode) stands at the path right now, without following a final
/// symlink. Returns rather than panics on every outcome, so drop glue may
/// call it.
#[verifier::external_body]
pub(crate) fn sys_entry_identity(path: &Vec<u8>) -> (r: Result<(u64, u64), i32>)
    opens_invariants none
    no_unwind
{
    match nix::sys::stat::lstat(path.as_slice()) {
        Ok(st) => Ok((st.st_dev, st.st_ino)),
        Err(e) => Err(e as i32),
    }
}

/// Relies on nix::sys::socket::send with MSG_NOSIGNAL: writes bytes to the
/// connection without raising a signal on a closed peer, and reports how many
/// were taken, never more than were offered.
#[verifier::external_body]
pub(crate) fn sys_send(fd: i32, buf: &Vec<u8>) -> (r: Result<usize, i32>)
    ensures
        r matches Ok(n) ==> n <= buf@.len(),
{
    nix::sys::socket::send(fd, buf.as_slice(), nix::sys::socket::MsgFlags::MSG_NOSIGNAL)
        .map_err(|e| e as i32)
}

/// Relies on nix::sys::socket::recv: reads bytes from the connection into the
/// buffer, filling at most its length and leaving that length unchanged.
#[verifier::external_body]
pub(crate) fn sys_recv(fd: i32, buf: &mut Vec<u8>) -> (r: Result<usize, i32>)
    ensures
        final(buf)@.len() == old(buf)@.len(),
        r matches Ok(n) ==> n <= old(buf)@.len(),
{
    nix::sys::socket::recv(fd, buf.as_mut_slice(), nix::sys::socket::MsgFlags::empty())
        .map_err(|e| e as i32)
}

/// Relies on nix::sys::socket::getsockopt with PeerCredentials: fetches the
/// peer process's identifiers from the kernel.
#[verifier::external_body]
pub(crate) fn sys_peer_credentials(fd: i32) -> (r: Result<PeerCredentials, i32>)
{
    match nix::sys::socket::getsockopt(fd, nix::sys::socket::sockopt::PeerCredentials) {
        Ok(c) => Ok(PeerCredentials { pid: c.pid(), uid: c.uid(), gid: c.gid() }),
        Err(e) => Err(e as i32),
    }
}

/// Relies on nix::sys::socket::setsockopt with PassCred: turns continuous
/// reception of credentials via ancillary data on or off.
#[verifier::external_body]
pub(crate) fn sys_set_passcred(fd: i32, val: bool) -> (r: Result<(), i32>)
{
    nix::sys::socket::setsockopt(fd, nix::sys::socket::sockopt::PassCred, &val)
        .map_err(|e| e as i32)
}

} // verus!

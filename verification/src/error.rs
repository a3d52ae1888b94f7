//! Errors of the local socket layer, and the translation of OS error codes
//! into them.

use vstd::prelude::*;

verus! {

/// `EPERM` on Linux-family systems.
pub const ERRNO_EPERM: i32 = 1;
/// `EAGAIN`/`EWOULDBLOCK` on Linux-family systems.
pub const ERRNO_EAGAIN: i32 = 11;
/// `EACCES` on Linux-family systems.
pub const ERRNO_EACCES: i32 = 13;
/// `EADDRINUSE` on Linux-family systems.
pub const ERRNO_EADDRINUSE: i32 = 98;
/// `ENOTCONN` on Linux-family systems.
pub const ERRNO_ENOTCONN: i32 = 107;

/// What an operation of this layer can fail with. Errors are returned, never
/// used as control flow: a would-block result in nonblocking mode is a normal
/// outcome, not a fault.
#[derive(Clone, Copy, Debug, PartialEq, Eq, Structural)]
pub enum Error {
    /// The marker cannot produce a usable name on this platform, or the active
    /// backend cannot interpret a name of this kind.
    UnsupportedNameType,
    /// Encoding or length violates a platform constraint: over the namespace
    /// byte ceiling, or an embedded forbidden byte.
    MalformedInput,
    /// The bind target is already bound; surfaced verbatim from the OS, never
    /// retried by this layer.
    NameInUse,
    /// The OS refused access to the name or resource.
    PermissionDenied,
    /// The operation would have to wait, and the socket is in nonblocking mode.
    WouldBlock,
    /// Peer credentials are unsupported here or were not supplied.
    CredentialsUnavailable,
    /// A shutdown call found its direction already shut down. Some platforms
    /// answer the second call this way, others succeed idempotently; callers
    /// must accept either outcome, not treat it as a fault of this layer.
    PartialShutdownAmbiguity,
    /// Any other OS error, carried by its code.
    Os(i32),
}

/// What each OS error code means to this layer. No code maps to
/// `MalformedInput` or `UnsupportedNameType`: those two are decided by this
/// layer itself, before any OS call.
pub open spec fn error_of_errno(e: i32) -> Error {
    if e == ERRNO_EADDRINUSE {
        Error::NameInUse
    } else if e == ERRNO_EACCES || e == ERRNO_EPERM {
        Error::PermissionDenied
    } else if e == ERRNO_EAGAIN {
        Error::WouldBlock
    } else {
        Error::Os(e)
    }
}

/// What an OS error code from a failed shutdown call means: a no-longer-
/// connected answer is the platform saying the direction was already down.
pub open spec fn shutdown_error_of_errno(e: i32) -> Error {
    if e == ERRNO_ENOTCONN {
        Error::PartialShutdownAmbiguity
    } else {
        error_of_errno(e)
    }
}

/// Translates an OS error code from a failed call into this layer's error.
pub fn errno_to_error(e: i32) -> (r: Error)
    ensures
        r == error_of_errno(e),
{
    if e == ERRNO_EADDRINUSE {
        Error::NameInUse
    } else if e == ERRNO_EACCES || e == ERRNO_EPERM {
        Error::PermissionDenied
    } else if e == ERRNO_EAGAIN {
        Error::WouldBlock
    } else {
        Error::Os(e)
    }
}

/// Translates an OS error code from a failed shutdown call.
pub fn shutdown_errno_to_error(e: i32) -> (r: Error)
    ensures
        r == shutdown_error_of_errno(e),
{
    if e == ERRNO_ENOTCONN {
        Error::PartialShutdownAmbiguity
    } else {
        errno_to_error(e)
    }
}

/// Whether `e` is the translation of some OS error code: the only errors a
/// call that reached the OS comes back with. In particular such an error is
/// never `MalformedInput` or `UnsupportedNameType`, which this layer decides
/// itself before any OS call.
pub open spec fn os_answer(e: Error) -> bool {
    exists|c: i32| e == error_of_errno(c)
}

/// Whether `e` is the translation of some OS error code of a shutdown call,
/// where a no-longer-connected answer surfaces as
/// `PartialShutdownAmbiguity`.
pub open spec fn shutdown_answer(e: Error) -> bool {
    exists|c: i32| e == shutdown_error_of_errno(c)
}

/// The translation of any OS error code is an OS answer.
pub proof fn lemma_os_answer(c: i32)
    ensures
        os_answer(error_of_errno(c)),
{
    assert(error_of_errno(c) == error_of_errno(c));
}

/// The shutdown translation of any OS error code is a shutdown answer.
pub proof fn lemma_shutdown_answer(c: i32)
    ensures
        shutdown_answer(shutdown_error_of_errno(c)),
{
    assert(shutdown_error_of_errno(c) == shutdown_error_of_errno(c));
}

} // verus!

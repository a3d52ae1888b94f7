//! The Unix-domain-socket backend: bind, accept, connect, half-close and the
//! listener's name-reclamation lifecycle, over the trusted syscall wrappers.

use vstd::prelude::*;
use crate::error::{errno_to_error, error_of_errno, lemma_os_answer, lemma_shutdown_answer,
    os_answer, shutdown_errno_to_error, Error};
use crate::mapping::{ns_map_ok, ns_map_view, SOCKET_PATH_CEILING};
use crate::name::{Name, NameKind, NameView};
use crate::platform::Platform;
use crate::socket_trait::{apply_nonblocking_bit, read_nonblocking_bit, PeerCredentials,
    ShutdownHow, UdSocket};
use crate::sys::{sys_accept, sys_bind_abstract, sys_bind_fs, sys_close, sys_connect_abstract,
    sys_connect_fs, sys_entry_identity, sys_fcntl_getfl, sys_fcntl_setfl, sys_listen,
    sys_peer_credentials, sys_recv, sys_send, sys_set_passcred, sys_shutdown, sys_socket_stream,
    sys_unlink};

verus! {

/// How many pending inbound connections the OS is asked to queue for a
/// listener.
pub const ACCEPT_BACKLOG: usize = 128;

/// Whether a name fits a Unix-domain socket address: the path field (or the
/// abstract namespace) carries at most 107 bytes.
pub open spec fn addr_fits(v: NameView) -> bool {
    v.raw.len() <= SOCKET_PATH_CEILING as int
}

/// Law: a name the generic namespaced mapping produces on a Unix-domain
/// family always fits a socket address, so `bind` and `connect` never reject
/// it as malformed — mapping success alone carries the name through to the
/// backend, and only the OS's own answer remains.
pub proof fn lemma_mapped_namespaced_names_fit_the_backend(p: Platform, input: Seq<u8>)
    requires
        p != Platform::Windows,
        ns_map_ok(p, input),
    ensures
        addr_fits(ns_map_view(p, input)),
{
}

proof fn lemma_errno_is_os_side(e: i32)
    ensures
        error_of_errno(e) != Error::MalformedInput,
        error_of_errno(e) != Error::UnsupportedNameType,
{
}

/// A bound Unix-domain listener. Owns the descriptor; tracks whether the name
/// entry it created is reclaimed when it is dropped.
#[derive(Debug)]
pub struct UdsListener {
    fd: i32,
    reclaim: bool,
    name: Name,
    entry_known: bool,
    entry_dev: u64,
    entry_ino: u64,
}

impl UdsListener {
    /// A live listener: a descriptor the OS handed out, for a well-formed
    /// name.
    pub closed spec fn wf(self) -> bool {
        self.fd >= 0 && self.name.wf()
    }

    /// Whether dropping this listener attempts removal of the name entry it
    /// created.
    pub closed spec fn reclaim_flag(self) -> bool {
        self.reclaim
    }

    /// The name this listener was bound at.
    pub closed spec fn name_view(self) -> NameView {
        self.name@
    }

    /// Whether dropping this listener attempts removal of the name entry it
    /// created.
    pub fn reclaims_name_on_drop(&self) -> (r: bool)
        ensures
            r == self.reclaim_flag(),
    {
        self.reclaim
    }

    fn bind_inner(name: &Name, reclaim: bool) -> (r: Result<UdsListener, Error>)
        requires
            name.wf(),
        ensures
            r matches Ok(l) ==> l.wf() && l.name_view() == name@ && l.reclaim_flag() == reclaim,
            (r matches Err(e) && e == Error::MalformedInput) <==> !addr_fits(name@),
            r matches Err(e) ==> e == Error::MalformedInput || os_answer(e),
            r matches Err(e) ==> e != Error::UnsupportedNameType,
    {
        let raw = name.raw_bytes();
        if raw.len() > SOCKET_PATH_CEILING {
            return Err(Error::MalformedInput);
        }
        let fd = match sys_socket_stream() {
            Ok(fd) => fd,
            Err(e) => {
                proof {
                    lemma_errno_is_os_side(e);
                    lemma_os_answer(e);
                }
                return Err(errno_to_error(e));
            },
        };
        let bound = match name.kind() {
            NameKind::Path => sys_bind_fs(fd, raw),
            NameKind::Namespaced => sys_bind_abstract(fd, raw),
        };
        match bound {
            Ok(()) => {},
            Err(e) => {
                let _ = sys_close(fd);
                proof {
                    lemma_errno_is_os_side(e);
                    lemma_os_answer(e);
                }
                return Err(errno_to_error(e));
            },
        }
        // The bind call created the name entry; note which filesystem entry
        // that is, so reclamation later removes only this one.
        let (entry_known, entry_dev, entry_ino) = match name.kind() {
            NameKind::Path => match sys_entry_identity(raw) {
                Ok(id) => (true, id.0, id.1),
                Err(_) => (false, 0u64, 0u64),
            },
            NameKind::Namespaced => (false, 0u64, 0u64),
        };
        match sys_listen(fd, ACCEPT_BACKLOG) {
            Ok(()) => {},
            Err(e) => {
                // A bound listener was never handed out: leave no resource
                // behind, the entry this call just created included.
                if matches!(name.kind(), NameKind::Path) {
                    let _ = sys_unlink(raw);
                }
                let _ = sys_close(fd);
                proof {
                    lemma_errno_is_os_side(e);
                    lemma_os_answer(e);
                }
                return Err(errno_to_error(e));
            },
        }
        Ok(UdsListener { fd, reclaim, name: name.duplicate(), entry_known, entry_dev, entry_ino })
    }

    /// Creates a listener bound at `name`. The name is reclaimed on drop by
    /// default where the backend requires it: filesystem-resident names leave
    /// an orphaned entry behind, abstract-namespace names are kernel-managed
    /// and need no cleanup, so the flag is set exactly for path names.
    ///
    /// A name over the socket address budget is rejected as `MalformedInput`
    /// before any OS call; every other failure is the OS's one answer for
    /// this single bind, surfaced verbatim and never retried.
    pub fn bind(name: &Name) -> (r: Result<UdsListener, Error>)
        requires
            name.wf(),
        ensures
            r matches Ok(l) ==> l.wf() && l.name_view() == name@
                && l.reclaim_flag() == (name@.kind == NameKind::Path),
            (r matches Err(e) && e == Error::MalformedInput) <==> !addr_fits(name@),
            r matches Err(e) ==> e == Error::MalformedInput || os_answer(e),
            r matches Err(e) ==> e != Error::UnsupportedNameType,
    {
        let reclaim = match name.kind() {
            NameKind::Path => true,
            NameKind::Namespaced => false,
        };
        Self::bind_inner(name, reclaim)
    }

    /// Creates a listener bound at `name` that never attempts to remove the
    /// name entry when dropped.
    pub fn bind_without_name_reclamation(name: &Name) -> (r: Result<UdsListener, Error>)
        requires
            name.wf(),
        ensures
            r matches Ok(l) ==> l.wf() && l.name_view() == name@ && !l.reclaim_flag(),
            (r matches Err(e) && e == Error::MalformedInput) <==> !addr_fits(name@),
            r matches Err(e) ==> e == Error::MalformedInput || os_answer(e),
            r matches Err(e) ==> e != Error::UnsupportedNameType,
    {
        Self::bind_inner(name, false)
    }

    /// Yields one inbound connection. An error is scoped to this single
    /// accept call: the layer does not retry, and the caller's accept loop is
    /// expected to go on.
    pub fn accept(&self) -> (r: Result<UdsStream, Error>)
        requires
            self.wf(),
        ensures
            r matches Ok(s) ==> s.wf(),
            r matches Err(e) ==> os_answer(e),
    {
        match sys_accept(self.fd) {
            Ok(cfd) => Ok(UdsStream { fd: cfd }),
            Err(e) => {
                proof { lemma_os_answer(e); }
                Err(errno_to_error(e))
            },
        }
    }

    /// Flips the reclaim flag off, so the name entry outlives this listener.
    /// Idempotent: the flag only ever goes from set to clear.
    pub fn do_not_reclaim_name_on_drop(&mut self)
        requires
            old(self).wf(),
        ensures
            final(self).wf(),
            !final(self).reclaim_flag(),
            final(self).name_view() == old(self).name_view(),
    {
        self.reclaim = false;
    }
}

impl Drop for UdsListener {
    /// Releases the descriptor; where the reclaim flag is set and the name is
    /// a filesystem entry, also removes that entry — but only while it is
    /// still the very entry this listener's own bind created (same device
    /// and inode), never a name another process has since replaced. Removal
    /// failures are swallowed: the resource this listener tracked is gone
    /// either way.
    fn drop(&mut self)
        opens_invariants none
        no_unwind
    {
        if self.reclaim && self.entry_known && matches!(self.name.kind(), NameKind::Path) {
            let raw = self.name.raw_bytes();
            match sys_entry_identity(raw) {
                Ok(id) => {
                    if id.0 == self.entry_dev && id.1 == self.entry_ino {
                        let _ = sys_unlink(raw);
                    }
                },
                Err(_) => {},
            }
        }
        let _ = sys_close(self.fd);
    }
}

/// One end of an open Unix-domain stream connection. Owns the descriptor and
/// closes it on drop.
#[derive(Debug)]
pub struct UdsStream {
    fd: i32,
}

impl UdsStream {
    /// A live connection endpoint.
    pub closed spec fn wf(self) -> bool {
        self.fd >= 0
    }

    /// Opens an outbound connection to the listener at `name`.
    ///
    /// A name over the socket address budget is rejected as `MalformedInput`
    /// before any OS call; every other failure is the OS's answer for this
    /// single connect, surfaced verbatim and never retried.
    pub fn connect(name: &Name) -> (r: Result<UdsStream, Error>)
        requires
            name.wf(),
        ensures
            r matches Ok(s) ==> s.wf(),
            (r matches Err(e) && e == Error::MalformedInput) <==> !addr_fits(name@),
            r matches Err(e) ==> e == Error::MalformedInput || os_answer(e),
            r matches Err(e) ==> e != Error::UnsupportedNameType,
    {
        let raw = name.raw_bytes();
        if raw.len() > SOCKET_PATH_CEILING {
            return Err(Error::MalformedInput);
        }
        let fd = match sys_socket_stream() {
            Ok(fd) => fd,
            Err(e) => {
                proof {
                    lemma_errno_is_os_side(e);
                    lemma_os_answer(e);
                }
                return Err(errno_to_error(e));
            },
        };
        let connected = match name.kind() {
            NameKind::Path => sys_connect_fs(fd, raw),
            NameKind::Namespaced => sys_connect_abstract(fd, raw),
        };
        match connected {
            Ok(()) => Ok(UdsStream { fd }),
            Err(e) => {
                let _ = sys_close(fd);
                proof {
                    lemma_errno_is_os_side(e);
                    lemma_os_answer(e);
                }
                Err(errno_to_error(e))
            },
        }
    }

    /// Sends bytes on the connection, reporting how many the OS took, never
    /// more than were offered. On a direction already shut down the OS
    /// answers with an error, not a signal.
    pub fn send_bytes(&self, buf: &Vec<u8>) -> (r: Result<usize, Error>)
        requires
            self.wf(),
        ensures
            r matches Ok(n) ==> n <= buf@.len(),
            r matches Err(e) ==> os_answer(e),
    {
        match sys_send(self.fd, buf) {
            Ok(n) => Ok(n),
            Err(e) => {
                proof { lemma_os_answer(e); }
                Err(errno_to_error(e))
            },
        }
    }

    /// Receives bytes into `buf`, reporting how many arrived, never more than
    /// the buffer's length, which it leaves unchanged. Zero means the peer's
    /// sending direction is closed.
    pub fn recv_bytes(&self, buf: &mut Vec<u8>) -> (r: Result<usize, Error>)
        requires
            self.wf(),
        ensures
            final(buf)@.len() == old(buf)@.len(),
            r matches Ok(n) ==> n <= old(buf)@.len(),
            r matches Err(e) ==> os_answer(e),
    {
        match sys_recv(self.fd, buf) {
            Ok(n) => Ok(n),
            Err(e) => {
                proof { lemma_os_answer(e); }
                Err(errno_to_error(e))
            },
        }
    }
}

impl Drop for UdsStream {
    /// Releases the descriptor. The OS closes the channel endpoint whatever
    /// state an in-flight operation left it in.
    fn drop(&mut self)
        opens_invariants none
        no_unwind
    {
        let _ = sys_close(self.fd);
    }
}

impl UdSocket for UdsStream {
    open spec fn socket_wf(&self) -> bool {
        self.wf()
    }

    fn shutdown(&self, how: ShutdownHow) -> (r: Result<(), Error>) {
        match sys_shutdown(self.fd, how) {
            Ok(()) => Ok(()),
            Err(e) => {
                proof { lemma_shutdown_answer(e); }
                Err(shutdown_errno_to_error(e))
            },
        }
    }

    fn set_nonblocking(&self, nonblocking: bool) -> (r: Result<(), Error>) {
        let flags = match sys_fcntl_getfl(self.fd) {
            Ok(f) => f,
            Err(e) => {
                proof { lemma_os_answer(e); }
                return Err(errno_to_error(e));
            },
        };
        let newflags = apply_nonblocking_bit(flags, nonblocking);
        match sys_fcntl_setfl(self.fd, newflags) {
            Ok(()) => Ok(()),
            Err(e) => {
                proof { lemma_os_answer(e); }
                Err(errno_to_error(e))
            },
        }
    }

    fn is_nonblocking(&self) -> (r: Result<bool, Error>) {
        match sys_fcntl_getfl(self.fd) {
            Ok(flags) => Ok(read_nonblocking_bit(flags)),
            Err(e) => {
                proof { lemma_os_answer(e); }
                Err(errno_to_error(e))
            },
        }
    }

    fn get_peer_credentials(&self) -> (r: Result<PeerCredentials, Error>) {
        match sys_peer_credentials(self.fd) {
            Ok(c) => Ok(c),
            Err(e) => Err(Error::CredentialsUnavailable),
        }
    }

    fn set_continuous_ancillary_credentials(&self, val: bool) -> (r: Result<(), Error>) {
        match sys_set_passcred(self.fd, val) {
            Ok(()) => Ok(()),
            Err(e) => {
                proof { lemma_os_answer(e); }
                Err(errno_to_error(e))
            },
        }
    }
}

} // verus!

//! The platform dispatch layer: a discriminated union per trait surface,
//! with exactly as many variants as there are backends compiled into this
//! build. Dispatch is closed — every method matches exhaustively over the
//! variants, and no backend is registered at runtime. This build compiles
//! the Unix-domain-socket backend and no other.

use vstd::prelude::*;
use crate::error::{os_answer, Error};
use crate::name::{Name, NameKind, NameView};
use crate::socket_trait::{PeerCredentials, ShutdownHow, UdSocket};
use crate::uds::{addr_fits, UdsListener, UdsStream};

verus! {

/// Local socket server, listening for connections. Name reclamation is
/// performed by default on backends that necessitate it.
#[derive(Debug)]
pub enum Listener {
    /// The Unix-domain-socket backend.
    UnixDomain(UdsListener),
}

/// A local socket connection endpoint.
#[derive(Debug)]
pub enum Stream {
    /// The Unix-domain-socket backend.
    UnixDomain(UdsStream),
}

impl Listener {
    /// A live listener, whichever backend carries it.
    pub open spec fn wf(self) -> bool {
        match self {
            Listener::UnixDomain(l) => l.wf(),
        }
    }

    /// Whether dropping this listener attempts removal of the name entry it
    /// created.
    pub open spec fn reclaim_flag(self) -> bool {
        match self {
            Listener::UnixDomain(l) => l.reclaim_flag(),
        }
    }

    /// The name this listener was bound at.
    pub open spec fn name_view(self) -> NameView {
        match self {
            Listener::UnixDomain(l) => l.name_view(),
        }
    }

    /// Creates a listener bound at `name`, reclaiming the name on drop by
    /// default on backends that necessitate it: exactly the names that are
    /// filesystem entries.
    pub fn bind(name: &Name) -> (r: Result<Listener, Error>)
        requires
            name.wf(),
        ensures
            r matches Ok(l) ==> l.wf() && l.name_view() == name@
                && l.reclaim_flag() == (name@.kind == NameKind::Path),
            (r matches Err(e) && e == Error::MalformedInput) <==> !addr_fits(name@),
            r matches Err(e) ==> e == Error::MalformedInput || os_answer(e),
            r matches Err(e) ==> e != Error::UnsupportedNameType,
    {
        match UdsListener::bind(name) {
            Ok(l) => Ok(Listener::UnixDomain(l)),
            Err(e) => Err(e),
        }
    }

    /// Creates a listener bound at `name` that never attempts cleanup of the
    /// name entry when dropped.
    pub fn bind_without_name_reclamation(name: &Name) -> (r: Result<Listener, Error>)
        requires
            name.wf(),
        ensures
            r matches Ok(l) ==> l.wf() && l.name_view() == name@ && !l.reclaim_flag(),
            (r matches Err(e) && e == Error::MalformedInput) <==> !addr_fits(name@),
            r matches Err(e) ==> e == Error::MalformedInput || os_answer(e),
            r matches Err(e) ==> e != Error::UnsupportedNameType,
    {
        match UdsListener::bind_without_name_reclamation(name) {
            Ok(l) => Ok(Listener::UnixDomain(l)),
            Err(e) => Err(e),
        }
    }

    /// Yields one new inbound connection. On an error the caller is expected
    /// to go on accepting: the error is scoped to this single call, and the
    /// layer itself never retries.
    pub fn accept(&self) -> (r: Result<Stream, Error>)
        requires
            self.wf(),
        ensures
            r matches Ok(s) ==> s.wf(),
            r matches Err(e) ==> os_answer(e),
    {
        match self {
            Listener::UnixDomain(l) => match l.accept() {
                Ok(s) => Ok(Stream::UnixDomain(s)),
                Err(e) => Err(e),
            },
        }
    }

    /// Flips the listener's reclaim flag off; idempotent.
    pub fn do_not_reclaim_name_on_drop(&mut self)
        requires
            old(self).wf(),
        ensures
            final(self).wf(),
            !final(self).reclaim_flag(),
            final(self).name_view() == old(self).name_view(),
    {
        match self {
            Listener::UnixDomain(l) => l.do_not_reclaim_name_on_drop(),
        }
    }

    /// Whether dropping this listener attempts removal of the name entry it
    /// created.
    pub fn reclaims_name_on_drop(&self) -> (r: bool)
        ensures
            r == self.reclaim_flag(),
    {
        match self {
            Listener::UnixDomain(l) => l.reclaims_name_on_drop(),
        }
    }
}

impl Stream {
    /// A live connection endpoint, whichever backend carries it.
    pub open spec fn wf(self) -> bool {
        match self {
            Stream::UnixDomain(s) => s.wf(),
        }
    }

    /// Opens an outbound connection to the listener at `name`. Fails with
    /// `UnsupportedNameType` where the active backend cannot interpret the
    /// name's kind; the Unix-domain backend interprets both kinds, so on this
    /// build that error never comes.
    pub fn connect(name: &Name) -> (r: Result<Stream, Error>)
        requires
            name.wf(),
        ensures
            r matches Ok(s) ==> s.wf(),
            (r matches Err(e) && e == Error::MalformedInput) <==> !addr_fits(name@),
            r matches Err(e) ==> e == Error::MalformedInput || os_answer(e),
            r matches Err(e) ==> e != Error::UnsupportedNameType,
    {
        match UdsStream::connect(name) {
            Ok(s) => Ok(Stream::UnixDomain(s)),
            Err(e) => Err(e),
        }
    }

    /// Sends bytes on the connection; reports how many the OS took, never
    /// more than were offered.
    pub fn send_bytes(&self, buf: &Vec<u8>) -> (r: Result<usize, Error>)
        requires
            self.wf(),
        ensures
            r matches Ok(n) ==> n <= buf@.len(),
            r matches Err(e) ==> os_answer(e),
    {
        match self {
            Stream::UnixDomain(s) => s.send_bytes(buf),
        }
    }

    /// Receives bytes into `buf`; reports how many arrived, never more than
    /// the buffer's length, which it leaves unchanged. Zero means the peer's
    /// sending direction is closed.
    pub fn recv_bytes(&self, buf: &mut Vec<u8>) -> (r: Result<usize, Error>)
        requires
            self.wf(),
        ensures
            final(buf)@.len() == old(buf)@.len(),
            r matches Ok(n) ==> n <= old(buf)@.len(),
            r matches Err(e) ==> os_answer(e),
    {
        match self {
            Stream::UnixDomain(s) => s.recv_bytes(buf),
        }
    }
}

impl UdSocket for Stream {
    open spec fn socket_wf(&self) -> bool {
        self.wf()
    }

    fn shutdown(&self, how: ShutdownHow) -> (r: Result<(), Error>) {
        match self {
            Stream::UnixDomain(s) => s.shutdown(how),
        }
    }

    fn set_nonblocking(&self, nonblocking: bool) -> (r: Result<(), Error>) {
        match self {
            Stream::UnixDomain(s) => s.set_nonblocking(nonblocking),
        }
    }

    fn is_nonblocking(&self) -> (r: Result<bool, Error>) {
        match self {
            Stream::UnixDomain(s) => s.is_nonblocking(),
        }
    }

    fn get_peer_credentials(&self) -> (r: Result<PeerCredentials, Error>) {
        match self {
            Stream::UnixDomain(s) => s.get_peer_credentials(),
        }
    }

    fn set_continuous_ancillary_credentials(&self, val: bool) -> (r: Result<(), Error>) {
        match self {
            Stream::UnixDomain(s) => s.set_continuous_ancillary_credentials(val),
        }
    }
}

} // verus!

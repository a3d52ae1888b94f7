//! The closed set of platform families the name mappings and backends are
//! defined over. Exactly one backend is compiled into any one build; the
//! mapping algorithms are nevertheless stated for every family, because the
//! mapping of each family is frozen: once an input maps to a name on a
//! family, later versions must keep that mapping.

use vstd::prelude::*;

verus! {

/// A platform family, as far as local socket naming is concerned.
#[derive(Clone, Copy, Debug, PartialEq, Eq, Structural)]
pub enum Platform {
    /// Windows-like systems: named pipes, addressed through a fixed
    /// pipe-namespace prefix; pipe names are kernel-managed and leave no
    /// filesystem entry behind.
    Windows,
    /// Linux-like systems: Unix-domain sockets with an abstract
    /// (non-filesystem) namespace of a fixed byte ceiling.
    Linux,
    /// Other Unix-like systems: Unix-domain sockets with filesystem names
    /// only; namespaced names fall back to a fixed temporary directory.
    OtherUnix,
}

impl Platform {
    /// Whether this family offers a non-filesystem namespace for the generic
    /// namespaced mapping to land in.
    pub open spec fn has_nonfs_namespace(self) -> bool {
        self != Platform::OtherUnix
    }

    /// Whether a filesystem-path name bound on this family leaves an orphaned
    /// entry after the socket is closed, so that a listener must reclaim it.
    pub open spec fn fs_names_need_reclamation(self) -> bool {
        self != Platform::Windows
    }
}

/// The platform family of this build. Exactly one backend is compiled per
/// target; this build carries the Unix-domain-socket backend with an abstract
/// namespace, so the Linux-like family is the active one.
pub fn build_platform() -> (p: Platform)
    ensures
        p == Platform::Linux,
{
    Platform::Linux
}

} // verus!

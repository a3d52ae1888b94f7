//! Cross-platform local socket (inter-process communication) naming, dispatch
//! and lifecycle layer: turns user-supplied strings into OS-level socket or
//! pipe identifiers under a frozen per-platform mapping, binds and connects
//! local sockets through one closed set of backends, and reclaims
//! filesystem-resident names when a listener goes away.

pub mod error;
pub mod platform;
pub mod name;
pub mod mapping;
pub mod name_type;
pub mod sys;
pub mod uds;
pub mod socket_trait;
pub mod local_socket;
pub mod security;

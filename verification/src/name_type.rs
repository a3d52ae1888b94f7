//! Construction of local socket names, facilitating local socket
//! implementation dispatch.
//!
//! The types implementing these traits are zero-sized type-level markers:
//! each selects, at compile time, one frozen mapping algorithm from inputs to
//! [names](crate::name::Name). It is a breaking change for a mapping to
//! meaningfully change: if a name produced from some input results in a valid
//! listener or successfully locates one, the marker will continue to map that
//! input to the same name, for the OS's definition of "same".

use vstd::prelude::*;
use crate::error::Error;
use crate::mapping::{map_namespaced_bytes, map_path_bytes, map_result_matches, ns_map_spec,
    path_map_spec};
use crate::name::{Name, NameView};
use crate::platform::{build_platform, Platform};

verus! {

/// Mappings from string types to local socket names.
pub trait NameType: Sized {
    /// Whether this name type is supported on platform family `p`.
    spec fn supported_spec(p: Platform) -> bool;

    /// Whether the name type is supported within the runtime circumstances of
    /// the program, on the platform family of this build. Never fails: a
    /// support query that errors out reports `false`.
    fn is_supported() -> (r: bool)
        ensures
            r == Self::supported_spec(Platform::Linux),
    ;
}

/// [Mappings](NameType) from filesystem paths to local socket names.
pub trait PathNameType: NameType {
    /// The frozen mapping this marker applies to a path on platform family
    /// `p`.
    spec fn map_spec(p: Platform, input: Seq<u8>) -> Result<NameView, Error>;

    /// Maps the given path, as its OS-level bytes, to a local socket name on
    /// platform family `p`, failing with `MalformedInput` if the path cannot
    /// be represented under that family's constraints.
    fn map_on(p: Platform, path: &Vec<u8>) -> (r: Result<Name, Error>)
        ensures
            map_result_matches(r, Self::map_spec(p, path@)),
    ;

    /// Maps the given path to a local socket name on the platform family of
    /// this build.
    fn map(path: &Vec<u8>) -> (r: Result<Name, Error>)
        ensures
            map_result_matches(r, Self::map_spec(Platform::Linux, path@)),
    ;
}

/// [Mappings](NameType) from arbitrary OS strings to local socket names.
pub trait NamespacedNameType: NameType {
    /// The frozen mapping this marker applies to a string on platform family
    /// `p`.
    spec fn map_spec(p: Platform, input: Seq<u8>) -> Result<NameView, Error>;

    /// Maps the given string, as its OS-level bytes, to a local socket name
    /// on platform family `p`, failing with `MalformedInput` if the string
    /// cannot be represented under that family's constraints.
    fn map_on(p: Platform, name: &Vec<u8>) -> (r: Result<Name, Error>)
        requires
            name@.len() + crate::mapping::pipe_prefix().len() <= usize::MAX,
        ensures
            map_result_matches(r, Self::map_spec(p, name@)),
    ;

    /// Maps the given string to a local socket name on the platform family of
    /// this build.
    fn map(name: &Vec<u8>) -> (r: Result<Name, Error>)
        requires
            name@.len() + crate::mapping::pipe_prefix().len() <= usize::MAX,
        ensures
            map_result_matches(r, Self::map_spec(Platform::Linux, name@)),
    ;
}

/// Consistent platform-specific mapping from filesystem paths to local socket
/// names: no transformation beyond native path handling, on every platform
/// family. Designed to be supported everywhere.
#[derive(Clone, Copy, Debug, PartialEq, Eq, Structural)]
pub struct GenericFilePath;

impl NameType for GenericFilePath {
    open spec fn supported_spec(p: Platform) -> bool {
        true
    }

    fn is_supported() -> (r: bool) {
        true
    }
}

impl PathNameType for GenericFilePath {
    open spec fn map_spec(p: Platform, input: Seq<u8>) -> Result<NameView, Error> {
        path_map_spec(input)
    }

    fn map_on(p: Platform, path: &Vec<u8>) -> (r: Result<Name, Error>) {
        map_path_bytes(path)
    }

    fn map(path: &Vec<u8>) -> (r: Result<Name, Error>) {
        map_path_bytes(path)
    }
}

/// Consistent platform-specific mapping from arbitrary OS strings to local
/// socket names: the fixed pipe-namespace prefix plus the input on
/// Windows-like systems; the input unmodified, into the abstract namespace
/// and under its 107-byte ceiling, on Linux-like systems; the fixed temporary
/// directory prefix plus the input elsewhere. Designed to be supported
/// everywhere.
#[derive(Clone, Copy, Debug, PartialEq, Eq, Structural)]
pub struct GenericNamespaced;

impl NameType for GenericNamespaced {
    open spec fn supported_spec(p: Platform) -> bool {
        true
    }

    fn is_supported() -> (r: bool) {
        true
    }
}

impl NamespacedNameType for GenericNamespaced {
    open spec fn map_spec(p: Platform, input: Seq<u8>) -> Result<NameView, Error> {
        ns_map_spec(p, input)
    }

    fn map_on(p: Platform, name: &Vec<u8>) -> (r: Result<Name, Error>) {
        map_namespaced_bytes(p, name)
    }

    fn map(name: &Vec<u8>) -> (r: Result<Name, Error>) {
        let p = build_platform();
        map_namespaced_bytes(p, name)
    }
}

} // verus!

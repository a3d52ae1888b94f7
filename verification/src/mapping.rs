//! The name-mapping subsystem: the frozen algorithms that turn user-supplied
//! strings into OS-level socket or pipe identifiers, one behavior per
//! platform family. A mapping may never silently change: producing a
//! different name for an input that already mapped somewhere is a breaking
//! change of this library, not a bug fix.

use vstd::prelude::*;
use crate::error::Error;
use crate::name::{contains_nul, Name, NameKind, NameView};
use crate::platform::Platform;

verus! {

/// Byte ceiling of the abstract socket namespace on the one platform family
/// that has it.
pub const ABSTRACT_NAME_CEILING: usize = 107;

/// Longest path a Unix-domain socket address can carry (the address's path
/// field less its terminator).
pub const SOCKET_PATH_CEILING: usize = 107;

/// The fixed pipe-namespace prefix of Windows-like systems, `\\.\pipe\`.
pub open spec fn pipe_prefix() -> Seq<u8> {
    seq![92u8, 92u8, 46u8, 92u8, 112u8, 105u8, 112u8, 101u8, 92u8]
}

/// The fixed temporary-directory prefix, `/tmp/`, that namespaced names fall
/// back to on Unix-like systems without a non-filesystem namespace.
pub open spec fn tmp_prefix() -> Seq<u8> {
    seq![47u8, 116u8, 109u8, 112u8, 47u8]
}

/// Whether the generic namespaced mapping accepts `input` on `p`: nonempty
/// everywhere; free of NUL bytes where the result addresses a pipe name or a
/// filesystem path; within the byte ceiling where the abstract namespace or
/// the socket address imposes one.
pub open spec fn ns_map_ok(p: Platform, input: Seq<u8>) -> bool {
    match p {
        Platform::Windows => input.len() > 0 && !contains_nul(input),
        Platform::Linux => 0 < input.len() <= ABSTRACT_NAME_CEILING as int,
        Platform::OtherUnix => input.len() > 0 && !contains_nul(input)
            && tmp_prefix().len() + input.len() <= SOCKET_PATH_CEILING as int,
    }
}

/// The name the generic namespaced mapping produces on `p`: the fixed pipe
/// prefix plus the input on Windows-like systems; the input unmodified, into
/// the abstract namespace, on Linux-like systems; the fixed temporary
/// directory plus the input, as a filesystem path, elsewhere.
pub open spec fn ns_map_view(p: Platform, input: Seq<u8>) -> NameView {
    match p {
        Platform::Windows => NameView { kind: NameKind::Namespaced, raw: pipe_prefix() + input },
        Platform::Linux => NameView { kind: NameKind::Namespaced, raw: input },
        Platform::OtherUnix => NameView { kind: NameKind::Path, raw: tmp_prefix() + input },
    }
}

/// The generic namespaced mapping as a whole: the produced name where the
/// input is representable, `MalformedInput` where it is not.
pub open spec fn ns_map_spec(p: Platform, input: Seq<u8>) -> Result<NameView, Error> {
    if ns_map_ok(p, input) {
        Ok(ns_map_view(p, input))
    } else {
        Err(Error::MalformedInput)
    }
}

/// Whether the generic file-path mapping accepts `input`: a nonempty path
/// without NUL bytes, on every platform family.
pub open spec fn path_map_ok(input: Seq<u8>) -> bool {
    input.len() > 0 && !contains_nul(input)
}

/// The generic file-path mapping: no transformation beyond native path
/// handling on any platform, so the name is the input itself, as a path.
pub open spec fn path_map_spec(input: Seq<u8>) -> Result<NameView, Error> {
    if path_map_ok(input) {
        Ok(NameView { kind: NameKind::Path, raw: input })
    } else {
        Err(Error::MalformedInput)
    }
}

/// How an executable mapping result realizes a mapping specification: same
/// success or failure, the same error, and on success a well-formed name with
/// exactly the specified contents.
pub open spec fn map_result_matches(r: Result<Name, Error>, s: Result<NameView, Error>) -> bool {
    match r {
        Ok(n) => s matches Ok(v) && n@ == v && n.wf(),
        Err(e) => s matches Err(e2) && e == e2,
    }
}

/// Whether `s` holds a NUL byte.
fn scan_for_nul(s: &Vec<u8>) -> (r: bool)
    ensures
        r == contains_nul(s@),
{
    let mut i: usize = 0;
    while i < s.len()
        invariant
            i <= s.len(),
            forall|j: int| 0 <= j < i ==> s@[j] != 0u8,
        decreases s.len() - i,
    {
        if s[i] == 0 {
            return true;
        }
        i = i + 1;
    }
    false
}

/// An owned copy of `s`.
pub(crate) fn copy_bytes(s: &Vec<u8>) -> (r: Vec<u8>)
    ensures
        r@ == s@,
{
    let mut r: Vec<u8> = Vec::new();
    let mut i: usize = 0;
    while i < s.len()
        invariant
            i <= s.len(),
            r@ == s@.subrange(0, i as int),
        decreases s.len() - i,
    {
        r.push(s[i]);
        proof {
            assert(r@ =~= s@.subrange(0, i + 1 as int));
        }
        i = i + 1;
    }
    proof {
        assert(r@ =~= s@);
    }
    r
}

/// `prefix` followed by `rest`, as one owned byte string.
fn concat_bytes(prefix: &Vec<u8>, rest: &Vec<u8>) -> (r: Vec<u8>)
    requires
        prefix@.len() + rest@.len() <= usize::MAX,
    ensures
        r@ == prefix@ + rest@,
{
    let mut r: Vec<u8> = copy_bytes(prefix);
    let mut i: usize = 0;
    while i < rest.len()
        invariant
            i <= rest.len(),
            r@ == prefix@ + rest@.subrange(0, i as int),
        decreases rest.len() - i,
    {
        r.push(rest[i]);
        proof {
            assert(r@ =~= prefix@ + rest@.subrange(0, i + 1 as int));
        }
        i = i + 1;
    }
    proof {
        assert(r@ =~= prefix@ + rest@);
    }
    r
}

/// The pipe-namespace prefix as owned bytes.
fn pipe_prefix_bytes() -> (r: Vec<u8>)
    ensures
        r@ == pipe_prefix(),
{
    let mut v: Vec<u8> = Vec::new();
    v.push(92);
    v.push(92);
    v.push(46);
    v.push(92);
    v.push(112);
    v.push(105);
    v.push(112);
    v.push(101);
    v.push(92);
    proof {
        assert(v@ =~= pipe_prefix());
    }
    v
}

/// The temporary-directory prefix as owned bytes.
fn tmp_prefix_bytes() -> (r: Vec<u8>)
    ensures
        r@ == tmp_prefix(),
{
    let mut v: Vec<u8> = Vec::new();
    v.push(47);
    v.push(116);
    v.push(109);
    v.push(112);
    v.push(47);
    proof {
        assert(v@ =~= tmp_prefix());
    }
    v
}

/// Maps `input` under the generic namespaced mapping for platform family `p`.
pub fn map_namespaced_bytes(p: Platform, input: &Vec<u8>) -> (r: Result<Name, Error>)
    requires
        input@.len() + pipe_prefix().len() <= usize::MAX,
    ensures
        map_result_matches(r, ns_map_spec(p, input@)),
{
    match p {
        Platform::Windows => {
            if input.len() == 0 || scan_for_nul(input) {
                Err(Error::MalformedInput)
            } else {
                let prefix = pipe_prefix_bytes();
                let raw = concat_bytes(&prefix, input);
                Ok(Name::from_parts(NameKind::Namespaced, raw))
            }
        },
        Platform::Linux => {
            if input.len() == 0 || input.len() > ABSTRACT_NAME_CEILING {
                Err(Error::MalformedInput)
            } else {
                let raw = copy_bytes(input);
                Ok(Name::from_parts(NameKind::Namespaced, raw))
            }
        },
        Platform::OtherUnix => {
            if input.len() == 0 || scan_for_nul(input) || input.len() > SOCKET_PATH_CEILING - 5 {
                Err(Error::MalformedInput)
            } else {
                let prefix = tmp_prefix_bytes();
                let raw = concat_bytes(&prefix, input);
                let name = Name::from_parts(NameKind::Path, raw);
                proof {
                    assert(!contains_nul(tmp_prefix() + input@)) by {
                        assert(forall|j: int| 0 <= j < tmp_prefix().len() ==> tmp_prefix()[j] != 0u8);
                        assert forall|j: int| 0 <= j < (tmp_prefix() + input@).len()
                            implies (tmp_prefix() + input@)[j] != 0u8 by {
                            if j >= tmp_prefix().len() {
                                assert((tmp_prefix() + input@)[j] == input@[j - 5]);
                            }
                        }
                    }
                }
                Ok(name)
            }
        },
    }
}

/// Maps `input` under the generic file-path mapping, the same on every
/// platform family.
pub fn map_path_bytes(input: &Vec<u8>) -> (r: Result<Name, Error>)
    ensures
        map_result_matches(r, path_map_spec(input@)),
{
    if input.len() == 0 || scan_for_nul(input) {
        Err(Error::MalformedInput)
    } else {
        let raw = copy_bytes(input);
        Ok(Name::from_parts(NameKind::Path, raw))
    }
}

/// Law: a mapping is a pure function of the marker's algorithm, the platform
/// family and the input alone — mapping the same input twice, under either
/// generic mapping, yields the same result.
pub proof fn lemma_mapping_deterministic(p: Platform, a: Seq<u8>, b: Seq<u8>)
    requires
        a == b,
    ensures
        ns_map_spec(p, a) == ns_map_spec(p, b),
        path_map_spec(a) == path_map_spec(b),
{
}

/// Law: the generic namespaced mapping fails on any input longer than the
/// abstract namespace's 107-byte ceiling on the family that has that ceiling,
/// and succeeds up to each family's own limit otherwise.
pub proof fn lemma_namespaced_ceiling(p: Platform, input: Seq<u8>)
    ensures
        p == Platform::Linux && input.len() > ABSTRACT_NAME_CEILING ==> ns_map_spec(p, input) is Err,
        p == Platform::Linux && 0 < input.len() <= ABSTRACT_NAME_CEILING ==> ns_map_spec(p, input) is Ok,
        p == Platform::Windows && input.len() > 0 && !contains_nul(input) ==> ns_map_spec(p, input) is Ok,
        p == Platform::OtherUnix && 0 < input.len() && !contains_nul(input)
            && input.len() + tmp_prefix().len() <= SOCKET_PATH_CEILING ==> ns_map_spec(p, input) is Ok,
{
}

} // verus!

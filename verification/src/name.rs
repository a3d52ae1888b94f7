//! The name model: an immutable value holding a resolved OS-level socket or
//! pipe identifier, tagged with whether it is a filesystem path or an
//! identifier in a non-filesystem namespace.

use vstd::prelude::*;

verus! {

/// Which namespace a resolved name lives in.
#[derive(Clone, Copy, Debug, PartialEq, Eq, Structural)]
pub enum NameKind {
    /// A genuine filesystem path, usable for binding a socket file.
    Path,
    /// An identifier in a non-filesystem namespace (an abstract socket
    /// namespace or a pipe namespace).
    Namespaced,
}

/// The mathematical contents of a [`Name`]: its kind and its raw bytes.
pub ghost struct NameView {
    pub kind: NameKind,
    pub raw: Seq<u8>,
}

/// Whether a byte sequence holds a NUL byte, which no filesystem path may.
pub open spec fn contains_nul(s: Seq<u8>) -> bool {
    exists|i: int| 0 <= i < s.len() && s[i] == 0u8
}

/// A resolved local socket name. Immutable after construction; produced only
/// by the mapping subsystem, so every value satisfies [`Name::wf`].
#[derive(Debug)]
pub struct Name {
    kind: NameKind,
    raw: Vec<u8>,
}

impl View for Name {
    type V = NameView;

    closed spec fn view(&self) -> NameView {
        NameView { kind: self.kind, raw: self.raw@ }
    }
}

impl Name {
    /// What the mapping subsystem guarantees of every name it produces: the
    /// identifier is nonempty, and a filesystem path holds no NUL byte.
    pub open spec fn wf(self) -> bool {
        &&& self@.raw.len() > 0
        &&& self@.kind == NameKind::Path ==> !contains_nul(self@.raw)
    }

    /// Builds a name from its parts. Only the mapping subsystem calls this,
    /// after it has established the platform's constraints on the bytes.
    pub(crate) fn from_parts(kind: NameKind, raw: Vec<u8>) -> (n: Name)
        ensures
            n@ == (NameView { kind, raw: raw@ }),
    {
        Name { kind, raw }
    }

    /// Which namespace this name lives in.
    pub fn kind(&self) -> (k: NameKind)
        ensures
            k == self@.kind,
        opens_invariants none
        no_unwind
    {
        self.kind
    }

    /// The raw bytes of the OS-level identifier.
    pub fn raw_bytes(&self) -> (r: &Vec<u8>)
        ensures
            r@ == self@.raw,
        opens_invariants none
        no_unwind
    {
        &self.raw
    }

    /// An owned copy of this name, equal to it.
    pub fn duplicate(&self) -> (n: Name)
        ensures
            n@ == self@,
    {
        let mut raw: Vec<u8> = Vec::new();
        let mut i: usize = 0;
        while i < self.raw.len()
            invariant
                i <= self.raw.len(),
                raw@ == self.raw@.subrange(0, i as int),
            decreases self.raw.len() - i,
        {
            raw.push(self.raw[i]);
            proof {
                assert(raw@ =~= self.raw@.subrange(0, i + 1 as int));
            }
            i = i + 1;
        }
        proof {
            assert(raw@ =~= self.raw@);
        }
        Name { kind: self.kind, raw }
    }

    /// Whether two names are the same name: same namespace, same identifier
    /// bytes.
    pub fn same_as(&self, other: &Name) -> (r: bool)
        ensures
            r <==> self@ == other@,
    {
        if !(self.kind == other.kind) {
            return false;
        }
        if self.raw.len() != other.raw.len() {
            proof {
                assert(self@.raw.len() != other@.raw.len());
            }
            return false;
        }
        let mut i: usize = 0;
        while i < self.raw.len()
            invariant
                i <= self.raw.len(),
                self.raw.len() == other.raw.len(),
                forall|j: int| 0 <= j < i ==> self.raw@[j] == other.raw@[j],
            decreases self.raw.len() - i,
        {
            if self.raw[i] != other.raw[i] {
                return false;
            }
            i = i + 1;
        }
        proof {
            assert(self.raw@ =~= other.raw@);
        }
        true
    }
}

} // verus!

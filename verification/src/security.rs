//! Security descriptors: an owned, opaque access-control buffer that can be
//! cloned, canonically serialized, and compared. The canonical text form
//! places the header tokens (revision, owner, group) before the
//! discretionary-ACL section, so two descriptors that differ only in
//! owner/group rewriting still agree from the first ACL-section byte onward
//! and hold the same count of parenthesized ACL entries.

use vstd::prelude::*;
use crate::mapping::copy_bytes;

verus! {

/// The byte opening the discretionary-ACL section of a canonical descriptor
/// text, `D`.
pub const ACL_SECTION_BYTE: u8 = 68;
/// The byte following each section tag, `:`.
pub const SECTION_COLON_BYTE: u8 = 58;
/// The byte opening one ACL entry in canonical text, `(`.
pub const ACL_ENTRY_OPEN_BYTE: u8 = 40;

/// Whether the discretionary-ACL section tag `D:` stands at position `i` of
/// `s`.
pub open spec fn acl_tag_at(s: Seq<u8>, i: int) -> bool {
    0 <= i && i + 1 < s.len() && s[i] == ACL_SECTION_BYTE && s[i + 1] == SECTION_COLON_BYTE
}

/// The first position at or after `from` where the ACL section tag stands.
pub open spec fn first_acl_start_from(s: Seq<u8>, from: int) -> Option<int>
    decreases s.len() - from when 0 <= from <= s.len()
{
    if from + 1 >= s.len() {
        None
    } else if s[from] == ACL_SECTION_BYTE && s[from + 1] == SECTION_COLON_BYTE {
        Some(from)
    } else {
        first_acl_start_from(s, from + 1)
    }
}

/// Where the ACL section of a canonical descriptor text begins.
pub open spec fn acl_start_spec(s: Seq<u8>) -> Option<int> {
    first_acl_start_from(s, 0)
}

/// The canonical text from the first ACL-section byte onward; empty where
/// the text has no ACL section.
pub open spec fn acl_suffix(s: Seq<u8>) -> Seq<u8> {
    match acl_start_spec(s) {
        Some(i) => s.subrange(i, s.len() as int),
        None => Seq::empty(),
    }
}

/// How many ACL entries a piece of canonical text opens.
pub open spec fn paren_count(s: Seq<u8>) -> nat
    decreases s.len(),
{
    if s.len() == 0 {
        0
    } else {
        paren_count(s.drop_last()) + (if s.last() == ACL_ENTRY_OPEN_BYTE { 1nat } else { 0nat })
    }
}

/// The count of ACL entries in the ACL section of a canonical descriptor
/// text.
pub open spec fn acl_entry_count_spec(s: Seq<u8>) -> nat {
    paren_count(acl_suffix(s))
}

proof fn lemma_first_acl_start_found(s: Seq<u8>, from: int, i: int)
    requires
        0 <= from <= s.len(),
        first_acl_start_from(s, from) == Some(i),
    ensures
        acl_tag_at(s, i),
        from <= i,
    decreases s.len() - from,
{
    if from + 1 >= s.len() {
    } else if s[from] == ACL_SECTION_BYTE && s[from + 1] == SECTION_COLON_BYTE {
    } else {
        lemma_first_acl_start_found(s, from + 1, i);
    }
}

/// Finds where the ACL section of `s` begins, if it has one.
pub fn acl_section_start(s: &Vec<u8>) -> (r: Option<usize>)
    ensures
        match r {
            Some(i) => acl_start_spec(s@) == Some(i as int),
            None => acl_start_spec(s@) is None,
        },
{
    if s.len() == 0 {
        return None;
    }
    let mut i: usize = 0;
    while i < s.len() - 1
        invariant
            s@.len() > 0,
            i <= s.len(),
            first_acl_start_from(s@, 0) == first_acl_start_from(s@, i as int),
        decreases s.len() - i,
    {
        if s[i] == ACL_SECTION_BYTE && s[i + 1] == SECTION_COLON_BYTE {
            return Some(i);
        }
        i = i + 1;
    }
    None
}

/// Counts the parenthesized ACL entries in the ACL section of `s`; zero
/// where `s` has no ACL section.
pub fn count_acl_entries(s: &Vec<u8>) -> (r: usize)
    ensures
        r == acl_entry_count_spec(s@),
{
    let start = match acl_section_start(s) {
        Some(i) => i,
        None => {
            return 0;
        },
    };
    proof {
        lemma_first_acl_start_found(s@, 0, start as int);
    }
    let mut count: usize = 0;
    let mut i: usize = start;
    while i < s.len()
        invariant
            start <= i <= s.len(),
            count <= i - start,
            count == paren_count(s@.subrange(start as int, i as int)),
        decreases s.len() - i,
    {
        proof {
            assert(s@.subrange(start as int, i + 1 as int).drop_last()
                =~= s@.subrange(start as int, i as int));
            assert(s@.subrange(start as int, i + 1 as int).last() == s@[i as int]);
        }
        if s[i] == ACL_ENTRY_OPEN_BYTE {
            count = count + 1;
        }
        i = i + 1;
    }
    proof {
        assert(s@.subrange(start as int, s@.len() as int) =~= acl_suffix(s@));
    }
    count
}

/// Whether the canonical texts `a` and `b` agree from the first ACL-section
/// byte onward (two texts without any ACL section agree vacuously).
pub fn acl_sections_equal(a: &Vec<u8>, b: &Vec<u8>) -> (r: bool)
    ensures
        r <==> acl_suffix(a@) == acl_suffix(b@),
{
    let sa = acl_section_start(a);
    let sb = acl_section_start(b);
    match (sa, sb) {
        (None, None) => {
            proof {
                assert(acl_suffix(a@) =~= acl_suffix(b@));
            }
            true
        },
        (Some(i), None) => {
            proof {
                lemma_first_acl_start_found(a@, 0, i as int);
                assert(acl_suffix(a@).len() > 0);
            }
            false
        },
        (None, Some(j)) => {
            proof {
                lemma_first_acl_start_found(b@, 0, j as int);
                assert(acl_suffix(b@).len() > 0);
            }
            false
        },
        (Some(i), Some(j)) => {
            proof {
                lemma_first_acl_start_found(a@, 0, i as int);
                lemma_first_acl_start_found(b@, 0, j as int);
            }
            if a.len() - i != b.len() - j {
                proof {
                    assert(acl_suffix(a@).len() != acl_suffix(b@).len());
                }
                return false;
            }
            let mut k: usize = 0;
            while k < a.len() - i
                invariant
                    acl_start_spec(a@) == Some(i as int),
                    acl_start_spec(b@) == Some(j as int),
                    i < a.len(),
                    j < b.len(),
                    a@.len() - i == b@.len() - j,
                    k <= a.len() - i,
                    forall|m: int| 0 <= m < k ==> #[trigger] a@[i + m] == b@[j + m],
                decreases a.len() - i - k,
            {
                if a[i + k] != b[j + k] {
                    proof {
                        assert(acl_suffix(a@)[k as int] == a@[i + k]);
                        assert(acl_suffix(b@)[k as int] == b@[j + k]);
                    }
                    return false;
                }
                k = k + 1;
            }
            proof {
                assert forall|m: int| 0 <= m < acl_suffix(a@).len()
                    implies acl_suffix(a@)[m] == acl_suffix(b@)[m] by {
                    assert(a@[i + m] == b@[j + m]);
                }
                assert(acl_suffix(a@) =~= acl_suffix(b@));
            }
            true
        },
    }
}

/// Law: canonical descriptor texts that agree from the first ACL-section
/// byte onward hold the same count of parenthesized ACL entries, whatever
/// their owner and group header tokens say.
pub proof fn lemma_acl_agreement_preserves_entry_count(a: Seq<u8>, b: Seq<u8>)
    requires
        acl_suffix(a) == acl_suffix(b),
    ensures
        acl_entry_count_spec(a) == acl_entry_count_spec(b),
{
}

/// An owned, opaque access-control descriptor: the discretionary ACL, owner
/// and group of a kernel object, held in canonical text form. Cloneable and
/// serializable for comparison; attached to a listener at creation time by
/// the one backend whose kernel objects carry descriptors, so that the
/// object never exists with weaker permissions.
pub struct SecurityDescriptor {
    canonical: Vec<u8>,
}

impl SecurityDescriptor {
    /// The canonical text this descriptor serializes to.
    pub closed spec fn canonical_spec(self) -> Seq<u8> {
        self.canonical@
    }

    /// Builds a descriptor from its canonical text.
    pub fn from_canonical(text: Vec<u8>) -> (sd: SecurityDescriptor)
        ensures
            sd.canonical_spec() == text@,
    {
        SecurityDescriptor { canonical: text }
    }

    /// A deep copy of this descriptor's buffer.
    pub fn duplicate(&self) -> (sd: SecurityDescriptor)
        ensures
            sd.canonical_spec() == self.canonical_spec(),
    {
        SecurityDescriptor { canonical: copy_bytes(&self.canonical) }
    }

    /// The canonical serialization: header tokens first, then the
    /// discretionary-ACL section.
    pub fn serialize_canonical(&self) -> (r: Vec<u8>)
        ensures
            r@ == self.canonical_spec(),
    {
        copy_bytes(&self.canonical)
    }

    /// How many parenthesized ACL entries this descriptor's canonical text
    /// holds.
    pub fn acl_entry_count(&self) -> (r: usize)
        ensures
            r == acl_entry_count_spec(self.canonical_spec()),
    {
        count_acl_entries(&self.canonical)
    }

    /// Whether this descriptor and `other` agree from the first ACL-section
    /// byte of their canonical texts onward — the comparison that ignores
    /// owner/group rewriting.
    pub fn acl_matches(&self, other: &SecurityDescriptor) -> (r: bool)
        ensures
            r <==> acl_suffix(self.canonical_spec()) == acl_suffix(other.canonical_spec()),
    {
        acl_sections_equal(&self.canonical, &other.canonical)
    }
}

} // verus!

//! The version fact: an ordered triple of non-negative integers.

use vstd::prelude::*;

use crate::text::{dec_seq, u64_to_string};

verus! {

/// A semantic version triple `(major, minor, patch)`.
///
/// Versions are compared lexicographically on the three components; equal
/// triples are equal component-wise.  A value is immutable once constructed.
#[derive(Clone, Copy, Debug, PartialEq, Eq, Structural, Hash)]
pub struct NixVersion {
    pub major: u64,
    pub minor: u64,
    pub patch: u64,
}

/// Strict lexicographic order on `(major, minor, patch)`.
pub open spec fn version_lt(a: NixVersion, b: NixVersion) -> bool {
    a.major < b.major || (a.major == b.major && (a.minor < b.minor || (a.minor == b.minor
        && a.patch < b.patch)))
}

/// Inclusive order: strictly below, or equal component-wise.
pub open spec fn version_le(a: NixVersion, b: NixVersion) -> bool {
    version_lt(a, b) || a == b
}

/// The text form `MAJOR.MINOR.PATCH` of a version triple.
pub open spec fn version_seq(v: NixVersion) -> Seq<char> {
    dec_seq(v.major as nat) + "."@ + dec_seq(v.minor as nat) + "."@ + dec_seq(v.patch as nat)
}

impl NixVersion {
    pub fn new(major: u64, minor: u64, patch: u64) -> (v: NixVersion)
        ensures
            v == (NixVersion { major, minor, patch }),
    {
        NixVersion { major, minor, patch }
    }

    /// Structural three-way comparison: major first, then minor, then patch,
    /// short-circuiting on the first difference.
    pub fn lt(&self, other: &NixVersion) -> (r: bool)
        ensures
            r == version_lt(*self, *other),
    {
        if self.major != other.major {
            self.major < other.major
        } else if self.minor != other.minor {
            self.minor < other.minor
        } else {
            self.patch < other.patch
        }
    }

    /// Inclusive comparison by the same structural order.
    pub fn le(&self, other: &NixVersion) -> (r: bool)
        ensures
            r == version_le(*self, *other),
    {
        if self.major != other.major {
            self.major < other.major
        } else if self.minor != other.minor {
            self.minor < other.minor
        } else {
            self.patch <= other.patch
        }
    }

    /// Renders the triple as `MAJOR.MINOR.PATCH`.
    pub fn to_text(&self) -> (s: String)
        ensures
            s@ == version_seq(*self),
    {
        let mut s = u64_to_string(self.major);
        s.append(".");
        let minor = u64_to_string(self.minor);
        s.append(minor.as_str());
        s.append(".");
        let patch = u64_to_string(self.patch);
        s.append(patch.as_str());
        proof {
            assert(s@ =~= version_seq(*self));
        }
        s
    }
}

/// The version order is a strict total order: of `a < b`, `a == b` and
/// `b < a`, exactly one holds for any two triples.
pub proof fn lemma_version_trichotomy(a: NixVersion, b: NixVersion)
    ensures
        version_lt(a, b) || a == b || version_lt(b, a),
        version_lt(a, b) ==> a != b && !version_lt(b, a),
        a == b ==> !version_lt(a, b) && !version_lt(b, a),
        version_lt(b, a) ==> a != b && !version_lt(a, b),
{
}

/// The strict version order is transitive.
pub proof fn lemma_version_lt_transitive(a: NixVersion, b: NixVersion, c: NixVersion)
    requires
        version_lt(a, b),
        version_lt(b, c),
    ensures
        version_lt(a, c),
{
}

} // verus!

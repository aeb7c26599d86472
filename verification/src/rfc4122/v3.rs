//! The name-based algorithm in the legacy-hash slot (version 3): the
//! canonical lowercase rendering of a namespace identifier is concatenated
//! with the name, a 160-bit digest is run over that text, and the first 16
//! digest bytes become the layout, re-tagged with version 3. The digest
//! behind this slot is SHA-1; the convention (digest choice, string rather
//! than raw-byte concatenation) is fixed here for interoperability with
//! identifiers this scheme has already produced.

use vstd::prelude::*;

use crate::layout::{spec_tagged, Layout};
use crate::text::spec_canonical_chars;
use crate::{DecodeError, Variant, Version, UUID};

verus! {

/// The SHA-1 digest of a text: 20 bytes, a function of the characters
/// alone.
pub uninterp spec fn sha1_of(s: Seq<char>) -> Seq<u8>;

/// Relies on sha1's `Sha1::from`, `Sha1::digest` and `Digest::bytes`: the
/// 20-byte SHA-1 digest of the input, a pure function of it.
#[verifier::external_body]
fn sha1_digest(s: &str) -> (r: [u8; 20])
    ensures
        r@ == sha1_of(s@),
{
    sha1::Sha1::from(s).digest().bytes()
}

/// The layout of a version-3 identifier for `data` under the namespace
/// whose 16 bytes are `ns`.
pub open spec fn spec_v3(ns: Seq<u8>, data: Seq<char>) -> Layout {
    spec_tagged(sha1_of(spec_canonical_chars(ns, false) + data).subrange(0, 16), Version::MD5)
}

impl Layout {
    /// Spreads the first 16 bytes of a SHA-1 digest over the sub-fields
    /// and tags them as the name-based legacy-hash version (3) with the
    /// RFC 4122 variant.
    pub fn using_sha1(hash: [u8; 16]) -> (r: Layout)
        ensures
            r == spec_tagged(hash@, Version::MD5),
            r.spec_version() == Ok::<Version, DecodeError>(Version::MD5),
            r.spec_variant() == Ok::<Variant, DecodeError>(Variant::RFC4122),
    {
        Layout::tagged(hash, Version::MD5)
    }
}

impl UUID {
    /// Builds the layout of a name-based identifier in the legacy-hash
    /// slot: SHA-1 over the canonical lowercase rendering of `ns` followed
    /// by `data`, truncated to 16 bytes, tagged with version 3. The result
    /// is a pure function of the two inputs.
    pub fn v3(data: &str, ns: UUID) -> (r: Layout)
        ensures
            r == spec_v3(ns@, data@),
            r.spec_version() == Ok::<Version, DecodeError>(Version::MD5),
            r.spec_variant() == Ok::<Variant, DecodeError>(Variant::RFC4122),
    {
        let ns_str = ns.to_canonical_string(false);
        let s = vstd::string::StringExecFns::concat(ns_str, data);
        let hash = sha1_digest(s.as_str());
        let mut h16: [u8; 16] = [0u8; 16];
        let mut i: usize = 0;
        while i < 16
            invariant
                i <= 16,
                forall|k: int| 0 <= k < i ==> h16@[k] == hash@[k],
            decreases 16 - i,
        {
            h16[i] = hash[i];
            i += 1;
        }
        proof {
            assert(h16@ =~= sha1_of(spec_canonical_chars(ns@, false) + data@).subrange(0, 16));
        }
        Layout::using_sha1(h16)
    }
}

} // verus!

//! The name-based algorithm in the hash slot (version 5): the canonical
//! lowercase rendering of a namespace identifier is concatenated with the
//! name, a 128-bit digest is run over that text, and the digest bytes
//! become the layout, re-tagged with version 5. The digest behind this
//! slot is MD5; the convention (digest choice, string rather than raw-byte
//! concatenation) is fixed here for interoperability with identifiers this
//! scheme has already produced.

use vstd::prelude::*;

use crate::layout::{spec_tagged, Layout};
use crate::text::spec_canonical_chars;
use crate::{DecodeError, Variant, Version, UUID};

verus! {

/// The MD5 digest of a text: 16 bytes, a function of the characters alone.
pub uninterp spec fn md5_of(s: Seq<char>) -> Seq<u8>;

/// Relies on md5's `compute` and the public bytes of its `Digest`: the
/// 16-byte MD5 digest of the input, a pure function of it.
#[verifier::external_body]
fn md5_digest(s: &str) -> (r: [u8; 16])
    ensures
        r@ == md5_of(s@),
{
    md5::compute(s).0
}

/// The layout of a version-5 identifier for `data` under the namespace
/// whose 16 bytes are `ns`.
pub open spec fn spec_v5(ns: Seq<u8>, data: Seq<char>) -> Layout {
    spec_tagged(md5_of(spec_canonical_chars(ns, false) + data), Version::SHA1)
}

impl Layout {
    /// Spreads the 16 bytes of an MD5 digest over the sub-fields and tags
    /// them as the name-based hash version (5) with the RFC 4122 variant.
    pub fn using_md5(hash: [u8; 16]) -> (r: Layout)
        ensures
            r == spec_tagged(hash@, Version::SHA1),
            r.spec_version() == Ok::<Version, DecodeError>(Version::SHA1),
            r.spec_variant() == Ok::<Variant, DecodeError>(Variant::RFC4122),
    {
        Layout::tagged(hash, Version::SHA1)
    }
}

impl UUID {
    /// Builds the layout of a name-based identifier in the hash slot: MD5
    /// over the canonical lowercase rendering of `ns` followed by `data`,
    /// tagged with version 5. The result is a pure function of the two
    /// inputs.
    pub fn v5(data: &str, ns: UUID) -> (r: Layout)
        ensures
            r == spec_v5(ns@, data@),
            r.spec_version() == Ok::<Version, DecodeError>(Version::SHA1),
            r.spec_variant() == Ok::<Variant, DecodeError>(Variant::RFC4122),
    {
        let ns_str = ns.to_canonical_string(false);
        let s = vstd::string::StringExecFns::concat(ns_str, data);
        let hash = md5_digest(s.as_str());
        Layout::using_md5(hash)
    }
}

} // verus!

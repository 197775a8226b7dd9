//! Version strings and the packed version words the explicit backend's
//! driver expects.

use vstd::prelude::*;

verus! {

/// The major, minor and patch numbers a semantic-version string denotes, or
/// nothing when it is not a well-formed version.
pub uninterp spec fn parsed_version(s: Seq<char>) -> Option<(u64, u64, u64)>;

/// Relies on semver's `Version::parse`: the parsed triple is a function of
/// the text alone.
#[verifier::external_body]
pub fn parse_version(s: &str) -> (r: Option<(u64, u64, u64)>)
    ensures
        r == parsed_version(s@),
{
    match semver::Version::parse(s) {
        Ok(v) => Some((v.major, v.minor, v.patch)),
        Err(_) => None,
    }
}

/// The packed version word the driver expects: ten bits of major, ten of
/// minor and twelve of patch.
pub fn make_api_version(major: u32, minor: u32, patch: u32) -> (r: u32)
    requires
        major < 1024,
        minor < 1024,
        patch < 4096,
    ensures
        r == major * 0x400000 + minor * 0x1000 + patch,
{
    proof {
        assert((major << 22) | (minor << 12) | patch == major * 0x400000 + minor * 0x1000 + patch)
            by (bit_vector)
            requires
                major < 1024,
                minor < 1024,
                patch < 4096,
        ;
    }
    (major << 22) | (minor << 12) | patch
}

} // verus!

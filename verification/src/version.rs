//! Semantic versions as plain numeric triples, with their canonical text form.

use vstd::prelude::*;

verus! {

/// A semantic version: a triple of non-negative integers.  The canonical
/// text form is `major.minor.patch`.
#[derive(Clone, Copy, Debug, PartialEq, Eq, Structural)]
pub struct Version {
    pub major: u64,
    pub minor: u64,
    pub patch: u64,
}

/// Strict ordering on versions: lexicographic over (major, minor, patch).
pub open spec fn version_lt(a: Version, b: Version) -> bool {
    ||| a.major < b.major
    ||| (a.major == b.major && a.minor < b.minor)
    ||| (a.major == b.major && a.minor == b.minor && a.patch < b.patch)
}

/// The decimal digits of `n` as ASCII bytes, most significant first,
/// without leading zeros (`0` itself is the single byte `b'0'`).
pub open spec fn spec_decimal(n: nat) -> Seq<u8>
    decreases n,
{
    if n < 10 {
        seq![(n + 48) as u8]
    } else {
        spec_decimal(n / 10).push(((n % 10) + 48) as u8)
    }
}

/// Canonical text of a version, as UTF-8 bytes: the three components in
/// decimal, separated by `.`.
pub open spec fn spec_version_text(v: Version) -> Seq<u8> {
    spec_decimal(v.major as nat) + seq![46u8] + spec_decimal(v.minor as nat) + seq![
        46u8,
    ] + spec_decimal(v.patch as nat)
}

/// What parsing a semantic-version string yields: the numeric triple
/// (major, minor, patch) of a valid string, or nothing for an invalid one.
/// The full grammar lives in the semver crate; only the outcome is named.
pub uninterp spec fn semver_triple_of(s: Seq<char>) -> Option<(u64, u64, u64)>;

/// Relies on `semver::Version::parse`: whether a string is a valid semantic
/// version, and its numeric components, depend on the characters alone.
/// A valid string's prerelease and build fragments are dropped: the triple
/// is what this crate's version model holds.
#[verifier::external_body]
pub(crate) fn parse_version(s: &String) -> (r: Option<Version>)
    ensures
        match r {
            Some(v) => semver_triple_of(s@) == Some((v.major, v.minor, v.patch)),
            None => semver_triple_of(s@) is None,
        },
{
    match semver::Version::parse(s) {
        Ok(v) => Some(Version { major: v.major, minor: v.minor, patch: v.patch }),
        Err(_) => None,
    }
}

/// Appends the decimal digits of `n` to `out`.
fn push_decimal(out: &mut Vec<u8>, n: u64)
    ensures
        final(out)@ == old(out)@ + spec_decimal(n as nat),
    decreases n,
{
    if n < 10 {
        let d: u8 = (n as u8) + 48;
        out.push(d);
        assert(out@ =~= old(out)@ + spec_decimal(n as nat));
    } else {
        push_decimal(out, n / 10);
        let d: u8 = ((n % 10) as u8) + 48;
        out.push(d);
        assert(out@ =~= old(out)@ + spec_decimal(n as nat));
    }
}

/// The canonical `major.minor.patch` text of a version, as UTF-8 bytes.
pub fn version_string(v: &Version) -> (r: Vec<u8>)
    ensures
        r@ == spec_version_text(*v),
{
    let mut out: Vec<u8> = Vec::new();
    push_decimal(&mut out, v.major);
    out.push(46);
    push_decimal(&mut out, v.minor);
    out.push(46);
    push_decimal(&mut out, v.patch);
    assert(out@ =~= spec_version_text(*v));
    out
}

/// The name of the annotated release tag for a version: `v` followed by the
/// canonical version text.
pub fn tag_name(v: &Version) -> (r: Vec<u8>)
    ensures
        r@ == seq![118u8] + spec_version_text(*v),
{
    let mut out: Vec<u8> = Vec::new();
    out.push(118);
    push_decimal(&mut out, v.major);
    out.push(46);
    push_decimal(&mut out, v.minor);
    out.push(46);
    push_decimal(&mut out, v.patch);
    assert(out@ =~= seq![118u8] + spec_version_text(*v));
    out
}

/// The bytes spelling `Bump version to `.
pub open spec fn spec_commit_prefix() -> Seq<u8> {
    seq![
        66u8,
        117u8,
        109u8,
        112u8,
        32u8,
        118u8,
        101u8,
        114u8,
        115u8,
        105u8,
        111u8,
        110u8,
        32u8,
        116u8,
        111u8,
        32u8,
    ]
}

/// The deterministic release-commit message: `Bump version to ` followed by
/// the canonical text of the new version.
pub fn commit_message(v: &Version) -> (r: Vec<u8>)
    ensures
        r@ == spec_commit_prefix() + spec_version_text(*v),
{
    let mut out: Vec<u8> = Vec::new();
    out.push(66);
    out.push(117);
    out.push(109);
    out.push(112);
    out.push(32);
    out.push(118);
    out.push(101);
    out.push(114);
    out.push(115);
    out.push(105);
    out.push(111);
    out.push(110);
    out.push(32);
    out.push(116);
    out.push(111);
    out.push(32);
    assert(out@ =~= spec_commit_prefix());
    push_decimal(&mut out, v.major);
    out.push(46);
    push_decimal(&mut out, v.minor);
    out.push(46);
    push_decimal(&mut out, v.patch);
    assert(out@ =~= spec_commit_prefix() + spec_version_text(*v));
    out
}

} // verus!

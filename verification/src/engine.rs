//! The bump engine: reduces the severities of a commit range to one
//! aggregate decision and applies that decision to a version.

use vstd::prelude::*;
use vstd::seq_lib::group_seq_properties;
use crate::classify::{Severity, severity_rank, severity_le, classify, spec_classify};
use crate::version::{Version, version_lt};

verus! {

/// The greater of two severities under the total order.
pub open spec fn spec_max_severity(a: Severity, b: Severity) -> Severity {
    if severity_rank(a) >= severity_rank(b) {
        a
    } else {
        b
    }
}

/// The aggregate decision for a whole commit range: the maximum severity in
/// the sequence; an empty sequence decides `Unknown`.
pub open spec fn spec_decide(s: Seq<Severity>) -> Severity
    decreases s.len(),
{
    if s.len() == 0 {
        Severity::Unknown
    } else {
        spec_max_severity(spec_decide(s.drop_last()), s.last())
    }
}

/// The version a bump produces: the bumped component incremented, the
/// components right of it reset to zero; an `Unknown` bump produces nothing.
pub open spec fn spec_apply(v: Version, bump: Severity) -> Option<Version> {
    match bump {
        Severity::Unknown => None,
        Severity::Patch => Some(
            Version { major: v.major, minor: v.minor, patch: (v.patch + 1) as u64 },
        ),
        Severity::Minor => Some(Version { major: v.major, minor: (v.minor + 1) as u64, patch: 0 }),
        Severity::Major => Some(Version { major: (v.major + 1) as u64, minor: 0, patch: 0 }),
    }
}

/// Rank of a severity, as a machine integer.
fn severity_value(s: Severity) -> (r: u8)
    ensures
        r as int == severity_rank(s),
{
    match s {
        Severity::Unknown => 0,
        Severity::Patch => 1,
        Severity::Minor => 2,
        Severity::Major => 3,
    }
}

/// The greater of two severities.
pub fn max_severity(a: Severity, b: Severity) -> (r: Severity)
    ensures
        r == spec_max_severity(a, b),
{
    if severity_value(a) >= severity_value(b) {
        a
    } else {
        b
    }
}

/// The aggregate decision for a whole commit range.
pub fn decide(severities: &Vec<Severity>) -> (r: Severity)
    ensures
        r == spec_decide(severities@),
{
    let mut acc = Severity::Unknown;
    let mut i: usize = 0;
    while i < severities.len()
        invariant
            0 <= i <= severities@.len(),
            acc == spec_decide(severities@.take(i as int)),
        decreases severities@.len() - i,
    {
        acc = max_severity(acc, severities[i]);
        proof {
            let t = severities@.take(i + 1);
            assert(t.drop_last() =~= severities@.take(i as int));
            assert(t.last() == severities@[i as int]);
        }
        i += 1;
    }
    proof {
        assert(severities@.take(severities@.len() as int) =~= severities@);
    }
    acc
}

/// The severities a range of commit messages declares, in range order.
pub open spec fn spec_severities(msgs: Seq<Seq<u8>>) -> Seq<Severity> {
    msgs.map_values(|m: Seq<u8>| spec_classify(m))
}

/// Classifies every message of a commit range and reduces the range to its
/// aggregate decision.
pub fn analyze(messages: &Vec<Vec<u8>>) -> (r: Severity)
    ensures
        r == spec_decide(spec_severities(messages.deep_view())),
{
    let mut sevs: Vec<Severity> = Vec::new();
    let mut i: usize = 0;
    while i < messages.len()
        invariant
            0 <= i <= messages@.len(),
            sevs@.len() == i,
            forall|k: int| 0 <= k < i ==> sevs@[k] == spec_classify(messages@[k]@),
        decreases messages@.len() - i,
    {
        let s = classify(&messages[i]);
        sevs.push(s);
        i += 1;
    }
    proof {
        let dv = messages.deep_view();
        assert forall|k: int| 0 <= k < dv.len() implies dv[k] == messages@[k]@ by {
            assert(messages@[k].deep_view() =~= messages@[k]@);
        }
        assert(sevs@ =~= spec_severities(dv));
    }
    decide(&sevs)
}

/// Applies a bump decision to a version.  `Unknown` signals that there is
/// nothing to release; the other decisions produce the next version.
pub fn version_bump(version: &Version, bump: Severity) -> (r: Option<Version>)
    requires
        bump == Severity::Patch ==> version.patch < u64::MAX,
        bump == Severity::Minor ==> version.minor < u64::MAX,
        bump == Severity::Major ==> version.major < u64::MAX,
    ensures
        r == spec_apply(*version, bump),
{
    match bump {
        Severity::Unknown => None,
        Severity::Patch => Some(
            Version { major: version.major, minor: version.minor, patch: version.patch + 1 },
        ),
        Severity::Minor => Some(Version { major: version.major, minor: version.minor + 1, patch: 0 }),
        Severity::Major => Some(Version { major: version.major + 1, minor: 0, patch: 0 }),
    }
}

/// The aggregate decision never falls below any severity in the range.
pub proof fn lemma_decide_upper_bound(s: Seq<Severity>, i: int)
    requires
        0 <= i < s.len(),
    ensures
        severity_le(s[i], spec_decide(s)),
    decreases s.len(),
{
    if i < s.len() - 1 {
        lemma_decide_upper_bound(s.drop_last(), i);
    }
}

/// A nonempty range's aggregate decision is one of its severities.
pub proof fn lemma_decide_membership(s: Seq<Severity>)
    requires
        s.len() > 0,
    ensures
        s.contains(spec_decide(s)),
    decreases s.len(),
{
    if s.len() > 1 && spec_decide(s) != s.last() {
        lemma_decide_membership(s.drop_last());
        let j = choose|j: int| 0 <= j < s.drop_last().len() && s.drop_last()[j] == spec_decide(
            s.drop_last(),
        );
        assert(s[j] == spec_decide(s));
    }
}

/// The decision is associative over concatenation: deciding a range is
/// deciding its parts and taking the greater decision.
pub proof fn lemma_decide_concat(s1: Seq<Severity>, s2: Seq<Severity>)
    ensures
        spec_decide(s1 + s2) == spec_max_severity(spec_decide(s1), spec_decide(s2)),
    decreases s2.len(),
{
    if s2.len() == 0 {
        assert(s1 + s2 =~= s1);
    } else {
        lemma_decide_concat(s1, s2.drop_last());
        assert((s1 + s2).drop_last() =~= s1 + s2.drop_last());
        assert((s1 + s2).last() == s2.last());
    }
}

/// The decision is commutative over the range: any permutation of the same
/// multiset of severities yields the same aggregate.
pub proof fn lemma_decide_permutation(s1: Seq<Severity>, s2: Seq<Severity>)
    requires
        s1.to_multiset() == s2.to_multiset(),
    ensures
        spec_decide(s1) == spec_decide(s2),
{
    broadcast use group_seq_properties;

    s1.to_multiset_ensures();
    s2.to_multiset_ensures();
    if s1.len() == 0 {
        assert(s2.len() == 0);
    } else {
        assert(s2.len() > 0);
        lemma_decide_membership(s1);
        lemma_decide_membership(s2);
        let i1 = choose|i: int| 0 <= i < s1.len() && s1[i] == spec_decide(s1);
        let i2 = choose|i: int| 0 <= i < s2.len() && s2[i] == spec_decide(s2);
        assert(s2.to_multiset().count(spec_decide(s1)) > 0);
        assert(s2.contains(spec_decide(s1)));
        let j2 = choose|j: int| 0 <= j < s2.len() && s2[j] == spec_decide(s1);
        lemma_decide_upper_bound(s2, j2);
        assert(s1.to_multiset().count(spec_decide(s2)) > 0);
        assert(s1.contains(spec_decide(s2)));
        let j1 = choose|j: int| 0 <= j < s1.len() && s1[j] == spec_decide(s2);
        lemma_decide_upper_bound(s1, j1);
        assert(severity_rank(spec_decide(s1)) == severity_rank(spec_decide(s2)));
    }
}

/// Every bump other than `Unknown` yields a strictly greater version, and
/// the components right of the bumped one are exactly zero.
pub proof fn lemma_apply_increases(v: Version, bump: Severity)
    requires
        bump != Severity::Unknown,
        bump == Severity::Patch ==> v.patch < u64::MAX,
        bump == Severity::Minor ==> v.minor < u64::MAX,
        bump == Severity::Major ==> v.major < u64::MAX,
    ensures
        spec_apply(v, bump) is Some,
        version_lt(v, spec_apply(v, bump).unwrap()),
        bump == Severity::Minor ==> spec_apply(v, bump).unwrap().patch == 0,
        bump == Severity::Major ==> spec_apply(v, bump).unwrap().minor == 0 && spec_apply(
            v,
            bump,
        ).unwrap().patch == 0,
{
}

/// An `Unknown` bump yields nothing, whatever the version: there is
/// nothing to release.
pub proof fn lemma_apply_unknown(v: Version)
    ensures
        spec_apply(v, Severity::Unknown) is None,
{
}

} // verus!

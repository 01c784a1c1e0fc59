//! Commit classification: one commit message in, one change severity out.
//!
//! A subject of the shape `<type>(<scope>)!: <description>` (scope and `!`
//! optional) declares its severity through the type keyword; a `!` before the
//! colon, or a line beginning with `BREAKING CHANGE:` anywhere in the
//! message, declares a breaking change.

use vstd::prelude::*;

verus! {

/// The change severity declared by one commit, totally ordered
/// `Unknown < Patch < Minor < Major`.
#[derive(Clone, Copy, Debug, PartialEq, Eq, Structural)]
pub enum Severity {
    Unknown,
    Patch,
    Minor,
    Major,
}

/// Numeric rank of a severity under the total order.
pub open spec fn severity_rank(s: Severity) -> int {
    match s {
        Severity::Unknown => 0,
        Severity::Patch => 1,
        Severity::Minor => 2,
        Severity::Major => 3,
    }
}

/// The total order on severities.
pub open spec fn severity_le(a: Severity, b: Severity) -> bool {
    severity_rank(a) <= severity_rank(b)
}

/// Whether a byte is an ASCII lowercase letter.
pub open spec fn is_lower(c: u8) -> bool {
    97 <= c <= 122
}

/// First index at or after `i` whose byte is not a lowercase letter, or the
/// length of `s` if all remaining bytes are lowercase letters.
pub open spec fn scan_lower(s: Seq<u8>, i: int) -> int
    decreases s.len() - i,
{
    if 0 <= i < s.len() && is_lower(s[i]) {
        scan_lower(s, i + 1)
    } else {
        i
    }
}

/// First index at or after `i` holding byte `b`, or the length of `s` if
/// `b` does not occur there.
pub open spec fn scan_to(s: Seq<u8>, i: int, b: u8) -> int
    decreases s.len() - i,
{
    if 0 <= i < s.len() && s[i] != b {
        scan_to(s, i + 1, b)
    } else {
        i
    }
}

/// The subject of a message: everything before the first line feed.
pub open spec fn spec_subject(s: Seq<u8>) -> Seq<u8> {
    s.take(scan_to(s, 0, 10))
}

/// The keyword `fix` as bytes.
pub open spec fn spec_fix() -> Seq<u8> {
    seq![102u8, 105u8, 120u8]
}

/// The keyword `feat` as bytes.
pub open spec fn spec_feat() -> Seq<u8> {
    seq![102u8, 101u8, 97u8, 116u8]
}

/// The type-keyword table: the base severity each recognized keyword
/// declares.  Unrecognized keywords declare nothing.
pub open spec fn spec_type_severity(ty: Seq<u8>) -> Severity {
    if ty == spec_fix() {
        Severity::Patch
    } else if ty == spec_feat() {
        Severity::Minor
    } else {
        Severity::Unknown
    }
}

/// Second half of the header grammar, after the type keyword and the
/// optional scope: an optional `!`, then the colon.  `j` is the index just
/// past the scope (or past the type when there is none); a `j` beyond the
/// subject marks a malformed scope.
pub open spec fn spec_header_tail(sub: Seq<u8>, ty: Seq<u8>, j: int) -> Option<(Seq<u8>, bool)> {
    if j > sub.len() {
        None
    } else if j < sub.len() && sub[j] == 33 {
        if j + 1 < sub.len() && sub[j + 1] == 58 {
            Some((ty, true))
        } else {
            None
        }
    } else {
        if j < sub.len() && sub[j] == 58 {
            Some((ty, false))
        } else {
            None
        }
    }
}

/// The header grammar `<type>(<scope>)!:` (scope and `!` optional) at the
/// start of a subject: the type keyword is a nonempty run of lowercase
/// letters, the scope runs to the first closing parenthesis.  Yields the
/// type keyword and whether the `!` marker is present, or nothing when the
/// subject does not match — in particular when the scope parenthesis is
/// never closed.
pub open spec fn spec_header(sub: Seq<u8>) -> Option<(Seq<u8>, bool)> {
    let te = scan_lower(sub, 0);
    if te == 0 {
        None
    } else {
        let j = if te < sub.len() && sub[te] == 40 {
            let ce = scan_to(sub, te + 1, 41);
            if ce < sub.len() {
                ce + 1
            } else {
                sub.len() as int + 1
            }
        } else {
            te
        };
        spec_header_tail(sub, sub.take(te), j)
    }
}

/// Whether the line of `s` starting at index `i` begins with the breaking
/// marker: the sixteen bytes spelling `BREAKING CHANGE:`.
pub open spec fn marker_at(s: Seq<u8>, i: int) -> bool {
    &&& 0 <= i
    &&& i + 16 <= s.len()
    &&& (i == 0 || s[i - 1] == 10)
    &&& s[i] == 66
    &&& s[i + 1] == 82
    &&& s[i + 2] == 69
    &&& s[i + 3] == 65
    &&& s[i + 4] == 75
    &&& s[i + 5] == 73
    &&& s[i + 6] == 78
    &&& s[i + 7] == 71
    &&& s[i + 8] == 32
    &&& s[i + 9] == 67
    &&& s[i + 10] == 72
    &&& s[i + 11] == 65
    &&& s[i + 12] == 78
    &&& s[i + 13] == 71
    &&& s[i + 14] == 69
    &&& s[i + 15] == 58
}

/// Whether some line of the message begins with the breaking marker.
pub open spec fn has_breaking_marker(s: Seq<u8>) -> bool {
    exists|i: int| marker_at(s, i)
}

/// The severity one commit message declares: `Major` on a breaking marker
/// or a `!` in a matching header, otherwise whatever the type keyword of a
/// matching header declares, otherwise `Unknown`.
pub open spec fn spec_classify(m: Seq<u8>) -> Severity {
    if has_breaking_marker(m) {
        Severity::Major
    } else {
        match spec_header(spec_subject(m)) {
            Some(h) => if h.1 {
                Severity::Major
            } else {
                spec_type_severity(h.0)
            },
            None => Severity::Unknown,
        }
    }
}

/// First index in `[i, end)` whose byte is not a lowercase letter, or `end`.
fn find_not_lower_in(m: &Vec<u8>, i: usize, end: usize) -> (r: usize)
    requires
        i <= end <= m@.len(),
    ensures
        r == scan_lower(m@.take(end as int), i as int),
        i <= r <= end,
{
    let ghost sub = m@.take(end as int);
    let mut j = i;
    while j < end && 97 <= m[j] && m[j] <= 122
        invariant
            i <= j <= end <= m@.len(),
            sub == m@.take(end as int),
            scan_lower(sub, i as int) == scan_lower(sub, j as int),
        decreases end - j,
    {
        assert(is_lower(sub[j as int]));
        j += 1;
    }
    assert(scan_lower(sub, j as int) == j);
    j
}

/// First index in `[i, end)` holding byte `b`, or `end`.
fn find_byte_in(m: &Vec<u8>, i: usize, end: usize, b: u8) -> (r: usize)
    requires
        i <= end <= m@.len(),
    ensures
        r == scan_to(m@.take(end as int), i as int, b),
        i <= r <= end,
{
    let ghost sub = m@.take(end as int);
    let mut j = i;
    while j < end && m[j] != b
        invariant
            i <= j <= end <= m@.len(),
            sub == m@.take(end as int),
            scan_to(sub, i as int, b) == scan_to(sub, j as int, b),
        decreases end - j,
    {
        assert(sub[j as int] != b);
        j += 1;
    }
    assert(scan_to(sub, j as int, b) == j);
    j
}

/// Whether some line of the message begins with `BREAKING CHANGE:`.
pub fn contains_breaking_marker(m: &Vec<u8>) -> (r: bool)
    ensures
        r == has_breaking_marker(m@),
{
    let n = m.len();
    let mut i: usize = 0;
    while i < n
        invariant
            0 <= i <= n == m@.len(),
            forall|k: int| 0 <= k < i ==> !marker_at(m@, k),
        decreases n - i,
    {
        if (i == 0 || m[i - 1] == 10) && n - i >= 16 {
            if m[i] == 66 && m[i + 1] == 82 && m[i + 2] == 69 && m[i + 3] == 65 && m[i + 4] == 75
                && m[i + 5] == 73 && m[i + 6] == 78 && m[i + 7] == 71 && m[i + 8] == 32
                && m[i + 9] == 67 && m[i + 10] == 72 && m[i + 11] == 65 && m[i + 12] == 78
                && m[i + 13] == 71 && m[i + 14] == 69 && m[i + 15] == 58 {
                assert(marker_at(m@, i as int));
                return true;
            }
        }
        assert(!marker_at(m@, i as int));
        i += 1;
    }
    proof {
        assert forall|k: int| !marker_at(m@, k) by {
            if 0 <= k && k + 16 <= m@.len() {
                assert(k < i);
            }
        }
    }
    false
}

/// The severity one commit message declares.  Total: any message that fits
/// no rule is `Unknown`.
pub fn classify(message: &Vec<u8>) -> (r: Severity)
    ensures
        r == spec_classify(message@),
{
    if contains_breaking_marker(message) {
        return Severity::Major;
    }
    let n = message.len();
    let nl = find_byte_in(message, 0, n, 10);
    proof {
        assert(message@.take(n as int) =~= message@);
    }
    let ghost sub = spec_subject(message@);
    assert(sub == message@.take(nl as int));
    let te = find_not_lower_in(message, 0, nl);
    assert(te == scan_lower(sub, 0));
    if te == 0 {
        return Severity::Unknown;
    }
    let ghost ty = sub.take(te as int);
    let j_opt: Option<usize> = if te < nl && message[te] == 40 {
        let ce = find_byte_in(message, te + 1, nl, 41);
        if ce < nl {
            Some(ce + 1)
        } else {
            None
        }
    } else {
        Some(te)
    };
    match j_opt {
        None => {
            assert(spec_header(sub) is None);
            Severity::Unknown
        },
        Some(j) => {
            assert(spec_header(sub) == spec_header_tail(sub, ty, j as int));
            let bang: bool;
            let k: usize;
            if j < nl && message[j] == 33 {
                bang = true;
                k = j + 1;
            } else {
                bang = false;
                k = j;
            }
            if k < nl && message[k] == 58 {
                assert(spec_header(sub) == Some((ty, bang)));
                if bang {
                    Severity::Major
                } else {
                    proof {
                        assert(sub.take(te as int) =~= message@.take(te as int));
                    }
                    type_severity(message, te)
                }
            } else {
                assert(spec_header(sub) is None);
                Severity::Unknown
            }
        },
    }
}

/// Looks the type keyword `m[0 .. te]` up in the type table.
fn type_severity(m: &Vec<u8>, te: usize) -> (r: Severity)
    requires
        te <= m@.len(),
    ensures
        r == spec_type_severity(m@.take(te as int)),
{
    let ghost ty = m@.take(te as int);
    if te == 3 && m[0] == 102 && m[1] == 105 && m[2] == 120 {
        proof {
            assert(ty =~= spec_fix());
        }
        Severity::Patch
    } else if te == 4 && m[0] == 102 && m[1] == 101 && m[2] == 97 && m[3] == 116 {
        proof {
            assert(ty =~= spec_feat());
        }
        Severity::Minor
    } else {
        proof {
            if ty == spec_fix() {
                assert(ty.len() == 3);
                assert(m@[0] == 102 && m@[1] == 105 && m@[2] == 120);
            }
            if ty == spec_feat() {
                assert(ty.len() == 4);
                assert(m@[0] == 102 && m@[1] == 101 && m@[2] == 97 && m@[3] == 116);
            }
        }
        Severity::Unknown
    }
}

/// The classification rules, clause by clause: a breaking marker or a `!`
/// in a matching header declares `Major`; a matching header without `!`
/// declares what its type keyword declares — `Patch` for `fix`, `Minor`
/// for `feat`, `Unknown` otherwise; a subject matching no rule declares
/// `Unknown`.
pub proof fn lemma_classify_rules(m: Seq<u8>)
    ensures
        has_breaking_marker(m) ==> spec_classify(m) == Severity::Major,
        !has_breaking_marker(m) && spec_header(spec_subject(m)) is Some
            && spec_header(spec_subject(m)).unwrap().1 ==> spec_classify(m) == Severity::Major,
        !has_breaking_marker(m) && spec_header(spec_subject(m)) is Some
            && !spec_header(spec_subject(m)).unwrap().1 ==> spec_classify(m)
            == spec_type_severity(spec_header(spec_subject(m)).unwrap().0),
        !has_breaking_marker(m) && spec_header(spec_subject(m)) is None ==> spec_classify(m)
            == Severity::Unknown,
{
}

} // verus!

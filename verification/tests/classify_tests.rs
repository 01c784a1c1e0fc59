use semantic_release::classify::{classify, contains_breaking_marker, Severity};

fn sev(msg: &str) -> Severity {
    classify(&msg.as_bytes().to_vec())
}

#[test]
fn fix_subject_is_patch() {
    assert_eq!(sev("fix: a"), Severity::Patch);
    assert_eq!(sev("fix: correct the off-by-one"), Severity::Patch);
}

#[test]
fn feat_subject_is_minor() {
    assert_eq!(sev("feat: b"), Severity::Minor);
    assert_eq!(sev("feat: add a flag"), Severity::Minor);
}

#[test]
fn bang_before_colon_is_major() {
    assert_eq!(sev("feat!: break api"), Severity::Major);
    assert_eq!(sev("fix!: drop the old field"), Severity::Major);
    assert_eq!(sev("chore!: toss everything"), Severity::Major);
}

#[test]
fn breaking_change_marker_is_major() {
    assert_eq!(sev("feat: x\n\nBREAKING CHANGE: api reshaped"), Severity::Major);
    assert_eq!(sev("chore: tidy\nBREAKING CHANGE: whatever"), Severity::Major);
    assert_eq!(sev("BREAKING CHANGE: at the very top"), Severity::Major);
}

#[test]
fn marker_must_start_a_line() {
    let m = "docs: note the BREAKING CHANGE: phrase mid-line".as_bytes().to_vec();
    assert!(!contains_breaking_marker(&m));
    assert_eq!(classify(&m), Severity::Unknown);
}

#[test]
fn scoped_subjects_keep_their_type() {
    assert_eq!(sev("fix(parser): a"), Severity::Patch);
    assert_eq!(sev("feat(ui): b"), Severity::Minor);
    assert_eq!(sev("feat(ui)!: b"), Severity::Major);
}

#[test]
fn scopes_may_hold_arbitrary_text() {
    assert_eq!(sev("feat(big ui rework)!: x"), Severity::Major);
    assert_eq!(sev("fix(a-b/c.d): e"), Severity::Patch);
}

#[test]
fn malformed_scope_is_unknown() {
    assert_eq!(sev("feat(: x"), Severity::Unknown);
    assert_eq!(sev("feat(ui: x"), Severity::Unknown);
    assert_eq!(sev("feat)ui(: x"), Severity::Unknown);
}

#[test]
fn unrecognized_types_are_unknown() {
    assert_eq!(sev("chore: tidy"), Severity::Unknown);
    assert_eq!(sev("docs: readme"), Severity::Unknown);
    assert_eq!(sev("refactor: shuffle"), Severity::Unknown);
}

#[test]
fn type_match_is_case_sensitive() {
    assert_eq!(sev("Fix: a"), Severity::Unknown);
    assert_eq!(sev("FEAT: b"), Severity::Unknown);
    assert_eq!(sev("Feat!: c"), Severity::Unknown);
}

#[test]
fn freeform_text_is_unknown() {
    assert_eq!(sev("Update readme"), Severity::Unknown);
    assert_eq!(sev(""), Severity::Unknown);
    assert_eq!(sev("fix the thing without a colon marker"), Severity::Unknown);
}

#[test]
fn only_the_subject_line_carries_the_header() {
    assert_eq!(sev("tidy up\nfix: not the subject"), Severity::Unknown);
    assert_eq!(sev("fix: a\nmore detail below"), Severity::Patch);
}

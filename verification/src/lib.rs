//! Mechanical semantic-version releases driven by commit-message convention.
//!
//! The crate inspects commit messages since the last release, classifies each
//! one by its declared change severity, reduces the range to one aggregate
//! bump, applies it to the current version, and sequences the side-effecting
//! release steps through an explicit state machine.  All decision logic lives
//! here and is verified; the surrounding process (repository access, file
//! writes, external tools) performs the actions this library asks for.

pub mod version;
pub mod classify;
pub mod engine;
pub mod pipeline;

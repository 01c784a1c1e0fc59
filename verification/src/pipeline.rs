//! The release pipeline: an explicit state machine that sequences one
//! release run.
//!
//! The machine owns every decision — which external operation comes next,
//! whether the run is a dry run, when the run stops — and asks its caller
//! to perform the operations by returning an [`Action`] from each call.
//! The caller performs the action and hands the outcome back as an
//! [`Event`].  Any failure moves the machine to `Failed` and halts the run;
//! completed side effects are not rolled back.

use vstd::prelude::*;
use crate::engine::{analyze, spec_severities, spec_decide, spec_apply, version_bump};
use crate::version::{Version, version_string, spec_version_text, parse_version, semver_triple_of};

verus! {

/// The ordered side-effecting steps of write mode.
#[derive(Clone, Copy, Debug, PartialEq, Eq, Structural)]
pub enum StepKind {
    /// Persist the new version into the package manifest.
    Manifest,
    /// Write the rendered changelog to its destination.
    Changelog,
    /// Refresh the dependency lockfile through the external build tool.
    Lockfile,
    /// Produce the distributable package artifact.
    Package,
    /// Stage and commit the mutated files.
    Commit,
    /// Create the annotated release tag.
    Tag,
}

/// The specific cause of a failed run.
#[derive(Clone, Copy, Debug, PartialEq, Eq, Structural)]
pub enum ErrorKind {
    /// The repository could not be opened.
    OpenRepo,
    /// The committer identity could not be resolved.
    Signature,
    /// The manifest's version field could not be read.
    ReadVersion,
    /// The version text is not a usable semantic version.
    ParseVersion,
    /// The commit range could not be resolved.
    FetchCommits,
    /// Changelog rendering failed during a dry run.
    Preview,
    /// A write-mode step failed.
    Step { step: StepKind },
}

/// The states of one release run.  `NoOp`, `Done` and `Failed` are
/// terminal.
#[derive(Clone, Copy, Debug, PartialEq, Eq, Structural)]
pub enum State {
    /// Nothing has happened yet.
    Init,
    /// Waiting for the repository to open.
    OpeningRepo,
    /// Waiting for the committer identity.
    ResolvingSignature,
    /// Waiting for the manifest's version text.
    ReadingVersion,
    /// Waiting for the commit range to classify.
    Analyzing,
    /// Dry run: waiting for the changelog preview.
    Previewing,
    /// Write mode: waiting for the named step to finish.
    Releasing { step: StepKind },
    /// The range declared no release; nothing was touched.
    NoOp,
    /// The run finished.
    Done,
    /// The run failed; later steps were not attempted.
    Failed { cause: ErrorKind },
}

/// The outcome of one external operation, handed back to the machine.
#[derive(Debug)]
pub enum Event {
    RepoOpened { ok: bool },
    SignatureResolved { ok: bool },
    /// The manifest's version field, or nothing when it could not be read.
    VersionRead { text: Option<String> },
    /// The messages of the commit range since the last release, or nothing
    /// when the range could not be resolved.
    CommitsFetched { messages: Option<Vec<Vec<u8>>> },
    ChangelogRendered { ok: bool },
    StepFinished { ok: bool },
}

/// What the machine asks its caller to do next.  The three `Report`
/// actions are terminal: the run is over.
#[derive(Clone, Copy, Debug, PartialEq, Eq, Structural)]
pub enum Action {
    OpenRepo,
    ResolveSignature,
    ReadVersion,
    FetchCommits,
    /// Render and display the changelog without persisting anything.
    RenderPreview,
    RunStep { step: StepKind },
    ReportNoOp,
    ReportDone,
    ReportFailure { cause: ErrorKind },
}

/// The aggregate state threaded through one run: where the repository is,
/// whether the run writes, and the two versions.  `new_version` holds the
/// zero sentinel until the bump is computed.
#[derive(Debug)]
pub struct Config {
    pub repository_path: String,
    pub write_mode: bool,
    pub current_version: Version,
    pub new_version: Version,
}

impl Config {
    /// Canonical text of the current version, as UTF-8 bytes.
    pub fn current_version_string(&self) -> (r: Vec<u8>)
        ensures
            r@ == spec_version_text(self.current_version),
    {
        version_string(&self.current_version)
    }

    /// Canonical text of the new version, as UTF-8 bytes.
    pub fn new_version_string(&self) -> (r: Vec<u8>)
        ensures
            r@ == spec_version_text(self.new_version),
    {
        version_string(&self.new_version)
    }
}

/// Whether a run is a dry run: an explicit write request enables writing
/// only when no continuous-integration signal is present — the signal
/// forces a dry run as a safety rail.
pub open spec fn spec_dry_run(write_requested: bool, ci: bool) -> bool {
    ci || !write_requested
}

/// The write-mode step after `s`, or nothing after the last one.
pub open spec fn spec_next_step(s: StepKind) -> Option<StepKind> {
    match s {
        StepKind::Manifest => Some(StepKind::Changelog),
        StepKind::Changelog => Some(StepKind::Lockfile),
        StepKind::Lockfile => Some(StepKind::Package),
        StepKind::Package => Some(StepKind::Commit),
        StepKind::Commit => Some(StepKind::Tag),
        StepKind::Tag => None,
    }
}

fn next_step(s: StepKind) -> (r: Option<StepKind>)
    ensures
        r == spec_next_step(s),
{
    match s {
        StepKind::Manifest => Some(StepKind::Changelog),
        StepKind::Changelog => Some(StepKind::Lockfile),
        StepKind::Lockfile => Some(StepKind::Package),
        StepKind::Package => Some(StepKind::Commit),
        StepKind::Commit => Some(StepKind::Tag),
        StepKind::Tag => None,
    }
}

/// Which event each waiting state is owed.  No event is due in `Init` or
/// in a terminal state.
pub open spec fn event_matches(s: State, e: Event) -> bool {
    match s {
        State::OpeningRepo => e is RepoOpened,
        State::ResolvingSignature => e is SignatureResolved,
        State::ReadingVersion => e is VersionRead,
        State::Analyzing => e is CommitsFetched,
        State::Previewing => e is ChangelogRendered,
        State::Releasing { .. } => e is StepFinished,
        State::Init | State::NoOp | State::Done | State::Failed { .. } => false,
    }
}

/// Every version component must leave room for one increment; the bound is
/// checked once, when the manifest's version is parsed.
pub open spec fn version_in_range(v: Version) -> bool {
    v.major < u64::MAX && v.minor < u64::MAX && v.patch < u64::MAX
}

/// A failed run: the machine records the cause and reports it.
pub open spec fn spec_fail(c: Config, k: ErrorKind) -> (State, Config, Action) {
    (State::Failed { cause: k }, c, Action::ReportFailure { cause: k })
}

/// The complete transition relation of one run: from the waiting state and
/// the event it was owed, to the next state, the updated context, and the
/// next action.  The wildcard arm covers state/event pairs that
/// `event_matches` refuses; `step` is never called on them.
pub open spec fn spec_transition(dry_run: bool, s: State, c: Config, e: Event) -> (
    State,
    Config,
    Action,
) {
    match (s, e) {
        (State::OpeningRepo, Event::RepoOpened { ok }) => {
            if ok {
                (State::ResolvingSignature, c, Action::ResolveSignature)
            } else {
                spec_fail(c, ErrorKind::OpenRepo)
            }
        },
        (State::ResolvingSignature, Event::SignatureResolved { ok }) => {
            if ok {
                (State::ReadingVersion, c, Action::ReadVersion)
            } else {
                spec_fail(c, ErrorKind::Signature)
            }
        },
        (State::ReadingVersion, Event::VersionRead { text }) => match text {
            None => spec_fail(c, ErrorKind::ReadVersion),
            Some(t) => match semver_triple_of(t@) {
                None => spec_fail(c, ErrorKind::ParseVersion),
                Some(triple) => {
                    let v = Version { major: triple.0, minor: triple.1, patch: triple.2 };
                    if version_in_range(v) {
                        (
                            State::Analyzing,
                            Config { current_version: v, ..c },
                            Action::FetchCommits,
                        )
                    } else {
                        spec_fail(c, ErrorKind::ParseVersion)
                    }
                },
            },
        },
        (State::Analyzing, Event::CommitsFetched { messages }) => match messages {
            None => spec_fail(c, ErrorKind::FetchCommits),
            Some(msgs) => {
                let bump = spec_decide(spec_severities(msgs.deep_view()));
                match spec_apply(c.current_version, bump) {
                    None => (State::NoOp, c, Action::ReportNoOp),
                    Some(nv) => {
                        if dry_run {
                            (
                                State::Previewing,
                                Config { new_version: nv, ..c },
                                Action::RenderPreview,
                            )
                        } else {
                            (
                                State::Releasing { step: StepKind::Manifest },
                                Config { new_version: nv, ..c },
                                Action::RunStep { step: StepKind::Manifest },
                            )
                        }
                    },
                }
            },
        },
        (State::Previewing, Event::ChangelogRendered { ok }) => {
            if ok {
                (State::Done, c, Action::ReportDone)
            } else {
                spec_fail(c, ErrorKind::Preview)
            }
        },
        (State::Releasing { step }, Event::StepFinished { ok }) => {
            if !ok {
                spec_fail(c, ErrorKind::Step { step })
            } else {
                match spec_next_step(step) {
                    Some(n) => (
                        State::Releasing { step: n },
                        c,
                        Action::RunStep { step: n },
                    ),
                    None => (State::Done, c, Action::ReportDone),
                }
            }
        },
        _ => (s, c, Action::ReportFailure { cause: ErrorKind::OpenRepo }),
    }
}

/// One release run.  `dry_run` is resolved once, at construction, from the
/// explicit write request and the continuous-integration signal.
pub struct Pipeline {
    pub dry_run: bool,
    pub state: State,
    pub config: Config,
}

impl Pipeline {
    /// The machine's invariant: once a manifest version is accepted, every
    /// component leaves room for one increment; and a dry run never enters
    /// `Releasing`.
    pub open spec fn wf(self) -> bool {
        &&& self.state is Analyzing ==> version_in_range(self.config.current_version)
        &&& self.dry_run ==> !(self.state is Releasing)
    }

    /// A fresh run at `Init`, with the zero sentinel in both version
    /// fields.
    pub fn new(repository_path: String, write_requested: bool, ci: bool) -> (r: Pipeline)
        ensures
            r.state == State::Init,
            r.dry_run == spec_dry_run(write_requested, ci),
            r.config.write_mode == !spec_dry_run(write_requested, ci),
            r.config.repository_path == repository_path,
            r.config.current_version == (Version { major: 0, minor: 0, patch: 0 }),
            r.config.new_version == (Version { major: 0, minor: 0, patch: 0 }),
            r.wf(),
    {
        let dry_run = ci || !write_requested;
        Pipeline {
            dry_run,
            state: State::Init,
            config: Config {
                repository_path,
                write_mode: !dry_run,
                current_version: Version { major: 0, minor: 0, patch: 0 },
                new_version: Version { major: 0, minor: 0, patch: 0 },
            },
        }
    }

    /// Starts the run: the first thing a run needs is an open repository.
    pub fn start(&mut self) -> (r: Action)
        requires
            old(self).state == State::Init,
        ensures
            final(self).state == State::OpeningRepo,
            final(self).config == old(self).config,
            final(self).dry_run == old(self).dry_run,
            final(self).wf(),
            r == Action::OpenRepo,
    {
        self.state = State::OpeningRepo;
        Action::OpenRepo
    }

    /// Feeds the outcome of the last action back in and decides what
    /// happens next.  The whole behaviour is the transition relation
    /// [`spec_transition`]; on top of it, a dry run is never asked to
    /// perform a write step.
    pub fn step(&mut self, event: Event) -> (r: Action)
        requires
            old(self).wf(),
            event_matches(old(self).state, event),
        ensures
            (final(self).state, final(self).config, r) == spec_transition(
                old(self).dry_run,
                old(self).state,
                old(self).config,
                event,
            ),
            final(self).dry_run == old(self).dry_run,
            final(self).wf(),
            old(self).dry_run ==> !(r is RunStep),
    {
        let st = self.state;
        match (st, event) {
            (State::OpeningRepo, Event::RepoOpened { ok }) => {
                if ok {
                    self.state = State::ResolvingSignature;
                    Action::ResolveSignature
                } else {
                    self.fail(ErrorKind::OpenRepo)
                }
            },
            (State::ResolvingSignature, Event::SignatureResolved { ok }) => {
                if ok {
                    self.state = State::ReadingVersion;
                    Action::ReadVersion
                } else {
                    self.fail(ErrorKind::Signature)
                }
            },
            (State::ReadingVersion, Event::VersionRead { text }) => {
                match text {
                    None => self.fail(ErrorKind::ReadVersion),
                    Some(t) => {
                        match parse_version(&t) {
                            None => self.fail(ErrorKind::ParseVersion),
                            Some(v) => {
                                if v.major < u64::MAX && v.minor < u64::MAX && v.patch
                                    < u64::MAX {
                                    self.config.current_version = v;
                                    self.state = State::Analyzing;
                                    Action::FetchCommits
                                } else {
                                    self.fail(ErrorKind::ParseVersion)
                                }
                            },
                        }
                    },
                }
            },
            (State::Analyzing, Event::CommitsFetched { messages }) => {
                match messages {
                    None => self.fail(ErrorKind::FetchCommits),
                    Some(msgs) => {
                        let bump = analyze(&msgs);
                        match version_bump(&self.config.current_version, bump) {
                            None => {
                                self.state = State::NoOp;
                                Action::ReportNoOp
                            },
                            Some(nv) => {
                                self.config.new_version = nv;
                                if self.dry_run {
                                    self.state = State::Previewing;
                                    Action::RenderPreview
                                } else {
                                    self.state = State::Releasing { step: StepKind::Manifest };
                                    Action::RunStep { step: StepKind::Manifest }
                                }
                            },
                        }
                    },
                }
            },
            (State::Previewing, Event::ChangelogRendered { ok }) => {
                if ok {
                    self.state = State::Done;
                    Action::ReportDone
                } else {
                    self.fail(ErrorKind::Preview)
                }
            },
            (State::Releasing { step }, Event::StepFinished { ok }) => {
                if !ok {
                    self.fail(ErrorKind::Step { step })
                } else {
                    match next_step(step) {
                        Some(n) => {
                            self.state = State::Releasing { step: n };
                            Action::RunStep { step: n }
                        },
                        None => {
                            self.state = State::Done;
                            Action::ReportDone
                        },
                    }
                }
            },
            _ => {
                proof {
                    assert(false);
                }
                Action::ReportNoOp
            },
        }
    }

    /// Records the cause and halts the run.
    fn fail(&mut self, cause: ErrorKind) -> (r: Action)
        ensures
            final(self).state == (State::Failed { cause }),
            final(self).config == old(self).config,
            final(self).dry_run == old(self).dry_run,
            r == (Action::ReportFailure { cause }),
    {
        self.state = State::Failed { cause };
        Action::ReportFailure { cause }
    }
}

} // verus!

//! The acquisition pipeline: installing one (tool, version) through
//! checkpoints that can each fail on their own. The caller performs each
//! action and reports the result as an event; the installer decides what
//! comes next. Nothing reaches the install directory before the staged
//! tree has been verified, and publishing is the last step that can fail.

use vstd::prelude::*;
use crate::extract::{flat_archive, spec_flat_archive, ExtractError};
use crate::fetch::AttemptOutcome;
use crate::platform::Platform;
use crate::sources::{java_download_info, java_urls, DownloadInfo, Downloadable, FileType};
use crate::tool::Tool;

verus! {

/// Where an install stands.
#[derive(Debug, Clone, Copy, PartialEq, Eq, Structural)]
pub enum Phase {
    /// Waiting to learn whether the canonical binary exists.
    Checking,
    /// Waiting for the install lock.
    Locking,
    /// Holding the lock, waiting to learn again whether the binary exists.
    Rechecking,
    /// Waiting for the release query to name the archive.
    Querying,
    Downloading,
    Extracting,
    /// Waiting to learn whether the staged tree holds the canonical binary.
    Verifying,
    Publishing,
    Bootstrapping,
    Finished,
}

/// How an install ended well.
#[derive(Debug, Clone, Copy, PartialEq, Eq, Structural)]
pub struct InstallReport {
    /// The version was installed already; nothing was fetched.
    pub already_installed: bool,
    /// The post-install setup failed; the binary is usable all the same.
    pub bootstrap_warning: bool,
}

/// Why an install failed. A failed install leaves the version not installed.
#[derive(Debug, Clone, Copy, PartialEq, Eq, Structural)]
pub enum AcquisitionError {
    /// The release query named no archive for the version.
    NoRelease,
    /// Every candidate source failed; the last failure seen.
    SourcesExhausted(Option<AttemptOutcome>),
    /// The archive could not be unpacked.
    Archive(ExtractError),
    /// The unpacked tree holds no canonical binary.
    VerificationFailed,
    /// The verified tree could not be moved into place.
    PublishFailed,
}

/// What the caller does next.
#[derive(Debug, Clone, Copy, PartialEq, Eq)]
pub enum InstallAction {
    /// Check whether the canonical binary exists at the install path.
    CheckBinary,
    /// Take the exclusive lock of this (tool, version).
    AcquireLock,
    /// Ask the release service for the archive's name.
    QueryRelease,
    /// Fetch the installer's sources into a scratch file.
    Download,
    /// Unpack the scratch file in this format into the staging directory:
    /// promoting the root directory's children, or, where the flag is set,
    /// every top-level entry.
    Extract(FileType, bool),
    /// Check whether the staged tree holds the canonical binary.
    CheckStagedBinary,
    /// Move the staged tree to the install path.
    Publish,
    /// Run the best-effort post-install setup.
    Bootstrap,
    /// Release the lock, discard the staging directory and report.
    Finish(Result<InstallReport, AcquisitionError>),
}

/// What the caller learned by performing the last action.
#[derive(Debug, PartialEq, Eq)]
pub enum InstallEvent {
    BinaryPresent(bool),
    Locked,
    /// The archive named by the release query, if it named one.
    ArchiveNamed(Option<String>),
    Downloaded,
    DownloadFailed(Option<AttemptOutcome>),
    Extracted(Result<(), ExtractError>),
    StagedBinary(bool),
    Published(bool),
    Bootstrapped(bool),
}

/// The decision state of an install.
#[derive(Debug, Clone, Copy, PartialEq, Eq, Structural)]
pub struct Progress {
    pub phase: Phase,
    /// The candidate sources are not known before the release query.
    pub needs_query: bool,
    pub format: FileType,
    /// The archive has no root directory: every top-level entry is promoted.
    pub flat: bool,
    pub bootstrap: bool,
    /// The staged tree has been moved to the install path.
    pub published: bool,
}

/// Tools with a one-time setup after install: the database servers
/// initialise their data directory and write a default configuration.
pub open spec fn spec_needs_bootstrap(t: Tool) -> bool {
    t == Tool::MySql || t == Tool::MariaDb
}

pub fn needs_bootstrap(t: Tool) -> (r: bool)
    ensures
        r == spec_needs_bootstrap(t),
{
    match t {
        Tool::MySql | Tool::MariaDb => true,
        _ => false,
    }
}

/// The events each phase waits for.
pub open spec fn spec_accepts(p: Progress, e: InstallEvent) -> bool {
    match (p.phase, e) {
        (Phase::Checking, InstallEvent::BinaryPresent(_)) => true,
        (Phase::Locking, InstallEvent::Locked) => true,
        (Phase::Rechecking, InstallEvent::BinaryPresent(_)) => true,
        (Phase::Querying, InstallEvent::ArchiveNamed(_)) => true,
        (Phase::Downloading, InstallEvent::Downloaded) => true,
        (Phase::Downloading, InstallEvent::DownloadFailed(_)) => true,
        (Phase::Extracting, InstallEvent::Extracted(_)) => true,
        (Phase::Verifying, InstallEvent::StagedBinary(_)) => true,
        (Phase::Publishing, InstallEvent::Published(_)) => true,
        (Phase::Bootstrapping, InstallEvent::Bootstrapped(_)) => true,
        _ => false,
    }
}

pub open spec fn finish(p: Progress, r: Result<InstallReport, AcquisitionError>) -> (Progress, InstallAction) {
    (Progress { phase: Phase::Finished, ..p }, InstallAction::Finish(r))
}

pub open spec fn already() -> Result<InstallReport, AcquisitionError> {
    Ok(InstallReport { already_installed: true, bootstrap_warning: false })
}

/// The next decision of an install.
pub open spec fn spec_step(p: Progress, e: InstallEvent) -> (Progress, InstallAction) {
    match (p.phase, e) {
        (Phase::Checking, InstallEvent::BinaryPresent(true)) => finish(p, already()),
        (Phase::Checking, InstallEvent::BinaryPresent(false)) => (
            Progress { phase: Phase::Locking, ..p },
            InstallAction::AcquireLock,
        ),
        (Phase::Locking, InstallEvent::Locked) => (
            Progress { phase: Phase::Rechecking, ..p },
            InstallAction::CheckBinary,
        ),
        (Phase::Rechecking, InstallEvent::BinaryPresent(true)) => finish(p, already()),
        (Phase::Rechecking, InstallEvent::BinaryPresent(false)) => if p.needs_query {
            (Progress { phase: Phase::Querying, ..p }, InstallAction::QueryRelease)
        } else {
            (Progress { phase: Phase::Downloading, ..p }, InstallAction::Download)
        },
        (Phase::Querying, InstallEvent::ArchiveNamed(Some(_))) => (
            Progress { phase: Phase::Downloading, needs_query: false, format: FileType::Zip, ..p },
            InstallAction::Download,
        ),
        (Phase::Querying, InstallEvent::ArchiveNamed(None)) => finish(p, Err(AcquisitionError::NoRelease)),
        (Phase::Downloading, InstallEvent::Downloaded) => (
            Progress { phase: Phase::Extracting, ..p },
            InstallAction::Extract(p.format, p.flat),
        ),
        (Phase::Downloading, InstallEvent::DownloadFailed(last)) => finish(
            p,
            Err(AcquisitionError::SourcesExhausted(last)),
        ),
        (Phase::Extracting, InstallEvent::Extracted(Ok(()))) => (
            Progress { phase: Phase::Verifying, ..p },
            InstallAction::CheckStagedBinary,
        ),
        (Phase::Extracting, InstallEvent::Extracted(Err(x))) => finish(p, Err(AcquisitionError::Archive(x))),
        (Phase::Verifying, InstallEvent::StagedBinary(true)) => (
            Progress { phase: Phase::Publishing, ..p },
            InstallAction::Publish,
        ),
        (Phase::Verifying, InstallEvent::StagedBinary(false)) => finish(p, Err(AcquisitionError::VerificationFailed)),
        (Phase::Publishing, InstallEvent::Published(true)) => if p.bootstrap {
            (Progress { phase: Phase::Bootstrapping, published: true, ..p }, InstallAction::Bootstrap)
        } else {
            finish(
                Progress { published: true, ..p },
                Ok(InstallReport { already_installed: false, bootstrap_warning: false }),
            )
        },
        (Phase::Publishing, InstallEvent::Published(false)) => finish(p, Err(AcquisitionError::PublishFailed)),
        (Phase::Bootstrapping, InstallEvent::Bootstrapped(ok)) => finish(
            p,
            Ok(InstallReport { already_installed: false, bootstrap_warning: !ok }),
        ),
        _ => (p, InstallAction::CheckBinary),
    }
}

/// One install of one version of a tool.
pub struct Installer {
    pub tool: Tool,
    pub version: String,
    pub platform: Platform,
    /// The candidate sources, once known.
    pub sources: Option<DownloadInfo>,
    pub progress: Progress,
}

impl Installer {
    /// Sources are known exactly when no release query is pending, and
    /// their format is the one that will be unpacked.
    pub open spec fn well_formed(&self) -> bool {
        &&& self.progress.needs_query == self.sources is None
        &&& self.sources matches Some(s) ==> s.file_type == self.progress.format
        &&& self.progress.bootstrap == spec_needs_bootstrap(self.tool)
        &&& self.progress.flat == spec_flat_archive(self.tool, self.platform)
    }

    /// Begins installing `version` of `tool`; the first action checks
    /// whether it is installed already.
    pub fn new(tool: Tool, version: &str, platform: &Platform) -> (r: (Installer, InstallAction))
        ensures
            r.0.well_formed(),
            r.0.tool == tool,
            r.0.version@ == version@,
            r.0.platform == *platform,
            r.0.progress.phase == Phase::Checking,
            !r.0.progress.published,
            r.0.progress.needs_query == (tool == Tool::Java),
            r.0.sources matches Some(s) ==> tool.spec_download_info(version@, *platform) == Some((s.urls(), s.file_type)),
            r.0.sources is None ==> tool.spec_download_info(version@, *platform) is None,
            r.1 == InstallAction::CheckBinary,
    {
        let sources = tool.get_download_info(version, platform);
        let (needs_query, format) = match &sources {
            Some(s) => (false, s.file_type),
            None => (true, FileType::Zip),
        };
        let progress = Progress {
            phase: Phase::Checking,
            needs_query,
            format,
            flat: flat_archive(tool, platform),
            bootstrap: needs_bootstrap(tool),
            published: false,
        };
        (
            Installer { tool, version: String::from_str(version), platform: *platform, sources, progress },
            InstallAction::CheckBinary,
        )
    }

    /// Whether the current phase waits for `e`.
    pub fn accepts(&self, e: &InstallEvent) -> (r: bool)
        ensures
            r == spec_accepts(self.progress, *e),
    {
        match (self.progress.phase, e) {
            (Phase::Checking, InstallEvent::BinaryPresent(_)) => true,
            (Phase::Locking, InstallEvent::Locked) => true,
            (Phase::Rechecking, InstallEvent::BinaryPresent(_)) => true,
            (Phase::Querying, InstallEvent::ArchiveNamed(_)) => true,
            (Phase::Downloading, InstallEvent::Downloaded) => true,
            (Phase::Downloading, InstallEvent::DownloadFailed(_)) => true,
            (Phase::Extracting, InstallEvent::Extracted(_)) => true,
            (Phase::Verifying, InstallEvent::StagedBinary(_)) => true,
            (Phase::Publishing, InstallEvent::Published(_)) => true,
            (Phase::Bootstrapping, InstallEvent::Bootstrapped(_)) => true,
            _ => false,
        }
    }

    /// Takes in what the last action showed and says what to do next. An
    /// archive named by the release query becomes the sources.
    pub fn step(&mut self, e: InstallEvent) -> (r: InstallAction)
        requires
            old(self).well_formed(),
            spec_accepts(old(self).progress, e),
        ensures
            final(self).well_formed(),
            (final(self).progress, r) == spec_step(old(self).progress, e),
            final(self).tool == old(self).tool,
            final(self).version == old(self).version,
            final(self).platform == old(self).platform,
            e matches InstallEvent::ArchiveNamed(Some(f)) ==> (final(self).sources matches Some(s)
                && s.urls() == java_urls(old(self).version@, old(self).platform, f@)),
            !(e is ArchiveNamed) ==> final(self).sources == old(self).sources,
    {
        let p = self.progress;
        match e {
            InstallEvent::BinaryPresent(present) => {
                if present {
                    self.progress = Progress { phase: Phase::Finished, ..p };
                    InstallAction::Finish(Ok(InstallReport { already_installed: true, bootstrap_warning: false }))
                } else if matches!(p.phase, Phase::Checking) {
                    self.progress = Progress { phase: Phase::Locking, ..p };
                    InstallAction::AcquireLock
                } else if p.needs_query {
                    self.progress = Progress { phase: Phase::Querying, ..p };
                    InstallAction::QueryRelease
                } else {
                    self.progress = Progress { phase: Phase::Downloading, ..p };
                    InstallAction::Download
                }
            },
            InstallEvent::Locked => {
                self.progress = Progress { phase: Phase::Rechecking, ..p };
                InstallAction::CheckBinary
            },
            InstallEvent::ArchiveNamed(named) => match named {
                Some(file) => {
                    let info = java_download_info(self.version.as_str(), &self.platform, file.as_str());
                    self.sources = Some(info);
                    self.progress = Progress { phase: Phase::Downloading, needs_query: false, format: FileType::Zip, ..p };
                    InstallAction::Download
                },
                None => {
                    self.progress = Progress { phase: Phase::Finished, ..p };
                    InstallAction::Finish(Err(AcquisitionError::NoRelease))
                },
            },
            InstallEvent::Downloaded => {
                self.progress = Progress { phase: Phase::Extracting, ..p };
                InstallAction::Extract(p.format, p.flat)
            },
            InstallEvent::DownloadFailed(last) => {
                self.progress = Progress { phase: Phase::Finished, ..p };
                InstallAction::Finish(Err(AcquisitionError::SourcesExhausted(last)))
            },
            InstallEvent::Extracted(res) => match res {
                Ok(()) => {
                    self.progress = Progress { phase: Phase::Verifying, ..p };
                    InstallAction::CheckStagedBinary
                },
                Err(x) => {
                    self.progress = Progress { phase: Phase::Finished, ..p };
                    InstallAction::Finish(Err(AcquisitionError::Archive(x)))
                },
            },
            InstallEvent::StagedBinary(present) => {
                if present {
                    self.progress = Progress { phase: Phase::Publishing, ..p };
                    InstallAction::Publish
                } else {
                    self.progress = Progress { phase: Phase::Finished, ..p };
                    InstallAction::Finish(Err(AcquisitionError::VerificationFailed))
                }
            },
            InstallEvent::Published(done) => {
                if !done {
                    self.progress = Progress { phase: Phase::Finished, ..p };
                    InstallAction::Finish(Err(AcquisitionError::PublishFailed))
                } else if p.bootstrap {
                    self.progress = Progress { phase: Phase::Bootstrapping, published: true, ..p };
                    InstallAction::Bootstrap
                } else {
                    self.progress = Progress { phase: Phase::Finished, published: true, ..p };
                    InstallAction::Finish(Ok(InstallReport { already_installed: false, bootstrap_warning: false }))
                }
            },
            InstallEvent::Bootstrapped(ok) => {
                self.progress = Progress { phase: Phase::Finished, ..p };
                InstallAction::Finish(Ok(InstallReport { already_installed: false, bootstrap_warning: !ok }))
            },
        }
    }
}


/// The actions of an install fed `events` from `p`, up to the first event
/// that the install does not wait for, and the progress it ends at.
pub open spec fn run(p: Progress, events: Seq<InstallEvent>) -> (Progress, Seq<InstallAction>)
    decreases events.len(),
{
    if events.len() == 0 || !spec_accepts(p, events[0]) {
        (p, seq![])
    } else {
        let (q, a) = spec_step(p, events[0]);
        let (r, rest) = run(q, events.drop_first());
        (r, seq![a] + rest)
    }
}

/// The action ends the install with an error.
pub open spec fn is_failure(a: InstallAction) -> bool {
    a matches InstallAction::Finish(Err(_))
}

pub open spec fn any_failure(actions: Seq<InstallAction>) -> bool {
    exists|i: int| 0 <= i < actions.len() && is_failure(#[trigger] actions[i])
}

/// Only the end of a successful install, or the setup after it, follows
/// publishing.
pub open spec fn publish_is_last(p: Progress) -> bool {
    p.published ==> (p.phase == Phase::Bootstrapping || p.phase == Phase::Finished)
}

proof fn lemma_run_failure(p: Progress, events: Seq<InstallEvent>)
    requires
        publish_is_last(p),
    ensures
        any_failure(run(p, events).1) ==> !run(p, events).0.published,
    decreases events.len(),
{
    if events.len() == 0 || !spec_accepts(p, events[0]) {
        assert(run(p, events).1 =~= seq![]);
    } else {
        let (q, a) = spec_step(p, events[0]);
        let tail = events.drop_first();
        let (r, rest) = run(q, tail);
        assert(publish_is_last(q));
        lemma_run_failure(q, tail);
        assert(run(p, events).1 == seq![a] + rest);
        if is_failure(a) {
            assert(q.phase == Phase::Finished && !q.published);
            assert(tail.len() == 0 || !spec_accepts(q, tail[0]));
            assert(run(q, tail).0 == q);
        } else if any_failure(seq![a] + rest) {
            let i = choose|i: int| 0 <= i < (seq![a] + rest).len() && is_failure(#[trigger] (seq![a] + rest)[i]);
            assert(i > 0);
            assert(rest[i - 1] == (seq![a] + rest)[i]);
            assert(any_failure(rest));
        }
    }
}

/// No partial publish: an install that started with nothing published and
/// ends in an error has published nothing, whichever checkpoint failed.
pub proof fn lemma_failed_install_publishes_nothing(p: Progress, events: Seq<InstallEvent>)
    requires
        !p.published,
    ensures
        any_failure(run(p, events).1) ==> !run(p, events).0.published,
{
    lemma_run_failure(p, events);
}

/// Idempotence: an install that finds the canonical binary in place ends
/// at once as already installed; it takes no lock and fetches nothing,
/// whatever is reported afterwards.
pub proof fn lemma_installed_is_noop(p: Progress, later: Seq<InstallEvent>)
    requires
        p.phase == Phase::Checking,
    ensures
        run(p, seq![InstallEvent::BinaryPresent(true)] + later).1 == seq![InstallAction::Finish(already())],
{
    let events = seq![InstallEvent::BinaryPresent(true)] + later;
    assert(events[0] == InstallEvent::BinaryPresent(true));
    assert(events.drop_first() =~= later);
    let (q, a) = spec_step(p, events[0]);
    assert(q.phase == Phase::Finished);
    assert(later.len() == 0 || !spec_accepts(q, later[0]));
    assert(run(q, later).1 =~= seq![]);
    assert(run(p, events).1 =~= seq![a]);
}

} // verus!

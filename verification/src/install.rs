//! The install pipeline for Paper servers, as a step machine: the installer
//! decides each next filesystem, repository or process action and hands it
//! out; whoever drives the machine performs the action and reports its
//! outcome.  Progress and completion events accumulate in the installer's
//! event handler exactly as the pipeline prescribes.

use crate::event::{EventHandler, EventManagerCmdV};
use crate::ipc::{ServerEvent, ServerEventV};
use crate::repo::{
    spec_jar_name, jar_name, PaperArtifact, PaperArtifactV, PaperRepository, RepositoryError,
    spec_repo_error_text,
};
use crate::config::{ServerConfig, ServerUnitConfig, ServerUnitConfigV, UnitConfig, UnitConfigV};
use crate::config::ServerConfigV;
use crate::unit_file::{render_unit_file, spec_render_unit_file};
use crate::version::Version;
use crate::ServerType;
use vstd::prelude::*;
use vstd::string::*;

verus! {

/// Errors that can happen during installation of a server.  Fallible
/// outside steps report their cause as text, which the variants carry.
#[derive(Debug)]
pub enum InstallError {
    /// The installation directory exists.
    DirExists,
    /// The installer was unable to create the installation directory
    CreateDir(String),
    /// The download of the server artifact or other artifacts failed.
    DownloadFailed(String),
    /// The initial settings could not be written. (e.g. eula, server name, ...)
    WriteInitialSettings(String),
    /// The patching process (Vanilla -> other server) failed.
    ///
    /// The payload contains additional info or error messages.
    PerformPatch(String),
    /// The unit file could not be written.
    ///
    /// This usually indicates wrong file permission for the daemon.
    WriteUnitFile(String),
    /// The used server type is not supported.
    UnsupportedServerType(ServerType),
    /// The unit already exists.
    ///
    /// This error is raised by the daemon before an installer runs, never by
    /// the installer itself.
    UnitAlreadyExists,
    /// No unit file location was supplied, and the installer cannot choose
    /// one itself.
    UnsupportedConfiguration,
}

/// Spec view of an [`InstallError`].
pub enum InstallErrorV {
    DirExists,
    CreateDir(Seq<char>),
    DownloadFailed(Seq<char>),
    WriteInitialSettings(Seq<char>),
    PerformPatch(Seq<char>),
    WriteUnitFile(Seq<char>),
    UnsupportedServerType(ServerType),
    UnitAlreadyExists,
    UnsupportedConfiguration,
}

impl View for InstallError {
    type V = InstallErrorV;

    open spec fn view(&self) -> InstallErrorV {
        match self {
            InstallError::DirExists => InstallErrorV::DirExists,
            InstallError::CreateDir(m) => InstallErrorV::CreateDir(m@),
            InstallError::DownloadFailed(m) => InstallErrorV::DownloadFailed(m@),
            InstallError::WriteInitialSettings(m) => InstallErrorV::WriteInitialSettings(m@),
            InstallError::PerformPatch(m) => InstallErrorV::PerformPatch(m@),
            InstallError::WriteUnitFile(m) => InstallErrorV::WriteUnitFile(m@),
            InstallError::UnsupportedServerType(t) => InstallErrorV::UnsupportedServerType(*t),
            InstallError::UnitAlreadyExists => InstallErrorV::UnitAlreadyExists,
            InstallError::UnsupportedConfiguration => InstallErrorV::UnsupportedConfiguration,
        }
    }
}

/// The one-line text of an install error, as reported in failure events.
pub open spec fn spec_install_error_text(e: InstallErrorV) -> Seq<char> {
    match e {
        InstallErrorV::DirExists => "DirExists"@,
        InstallErrorV::CreateDir(m) => "CreateDir: "@ + m,
        InstallErrorV::DownloadFailed(m) => "DownloadFailed: "@ + m,
        InstallErrorV::WriteInitialSettings(m) => "WriteInitialSettings: "@ + m,
        InstallErrorV::PerformPatch(m) => "PerformPatch: "@ + m,
        InstallErrorV::WriteUnitFile(m) => "WriteUnitFile: "@ + m,
        InstallErrorV::UnsupportedServerType(_) => "UnsupportedServerType"@,
        InstallErrorV::UnitAlreadyExists => "UnitAlreadyExists"@,
        InstallErrorV::UnsupportedConfiguration => "UnsupportedConfiguration"@,
    }
}

impl InstallError {
    /// Renders the error as one line of text.
    pub fn text(&self) -> (r: String)
        ensures
            r@ == spec_install_error_text(self@),
    {
        match self {
            InstallError::DirExists => String::from_str("DirExists"),
            InstallError::CreateDir(m) => {
                let mut s = String::from_str("CreateDir: ");
                s.append(m.as_str());
                s
            },
            InstallError::DownloadFailed(m) => {
                let mut s = String::from_str("DownloadFailed: ");
                s.append(m.as_str());
                s
            },
            InstallError::WriteInitialSettings(m) => {
                let mut s = String::from_str("WriteInitialSettings: ");
                s.append(m.as_str());
                s
            },
            InstallError::PerformPatch(m) => {
                let mut s = String::from_str("PerformPatch: ");
                s.append(m.as_str());
                s
            },
            InstallError::WriteUnitFile(m) => {
                let mut s = String::from_str("WriteUnitFile: ");
                s.append(m.as_str());
                s
            },
            InstallError::UnsupportedServerType(_) => String::from_str("UnsupportedServerType"),
            InstallError::UnitAlreadyExists => String::from_str("UnitAlreadyExists"),
            InstallError::UnsupportedConfiguration => String::from_str("UnsupportedConfiguration"),
        }
    }
}

/// Everything an install worker needs: the command's parameters.
#[derive(Debug)]
pub struct InstallRequest {
    pub unit_id: String,
    pub install_path: String,
    pub unit_file_path: Option<String>,
    pub server_version: Option<Version>,
    pub server_type: ServerType,
    pub accept_eula: bool,
    pub server_name: Option<String>,
}

/// Spec view of an [`InstallRequest`].
pub struct InstallRequestV {
    pub unit_id: Seq<char>,
    pub install_path: Seq<char>,
    pub unit_file_path: Option<Seq<char>>,
    pub server_version: Option<Version>,
    pub server_type: ServerType,
    pub accept_eula: bool,
    pub server_name: Option<Seq<char>>,
}

impl View for InstallRequest {
    type V = InstallRequestV;

    open spec fn view(&self) -> InstallRequestV {
        InstallRequestV {
            unit_id: self.unit_id@,
            install_path: self.install_path@,
            unit_file_path: self.unit_file_path.deep_view(),
            server_version: self.server_version,
            server_type: self.server_type,
            accept_eula: self.accept_eula,
            server_name: self.server_name.deep_view(),
        }
    }
}

/// The outside action an installer asks for next.
#[derive(Debug)]
pub enum InstallStep {
    /// Report whether the path exists.
    CheckPath { path: String },
    /// Create the directory and every missing parent.
    CreateDir { path: String },
    /// Write the file with exactly these contents.
    WriteEula { path: String, contents: String },
    /// Ask the repository for its latest version.
    ResolveVersion,
    /// Ask the repository for the artifact of this version (the latest build
    /// of the version when it has no build identifier).
    FetchArtifact { version: Version },
    /// Download the artifact to `dest`.
    DownloadArtifact { artifact: PaperArtifact, dest: String },
    /// Run the Paperclip patch step (`java -Dpaperclip.patchonly=true -jar
    /// <jar>`) in `dir` and await its exit.
    RunPatch { dir: String, jar: String },
    /// Write the unit file with exactly these contents.
    WriteUnitFile { path: String, contents: String },
}

/// Spec view of an [`InstallStep`].
pub enum InstallStepV {
    CheckPath { path: Seq<char> },
    CreateDir { path: Seq<char> },
    WriteEula { path: Seq<char>, contents: Seq<char> },
    ResolveVersion,
    FetchArtifact { version: Version },
    DownloadArtifact { artifact: PaperArtifactV, dest: Seq<char> },
    RunPatch { dir: Seq<char>, jar: Seq<char> },
    WriteUnitFile { path: Seq<char>, contents: Seq<char> },
}

impl View for InstallStep {
    type V = InstallStepV;

    open spec fn view(&self) -> InstallStepV {
        match self {
            InstallStep::CheckPath { path } => InstallStepV::CheckPath { path: path@ },
            InstallStep::CreateDir { path } => InstallStepV::CreateDir { path: path@ },
            InstallStep::WriteEula { path, contents } => InstallStepV::WriteEula {
                path: path@,
                contents: contents@,
            },
            InstallStep::ResolveVersion => InstallStepV::ResolveVersion,
            InstallStep::FetchArtifact { version } => InstallStepV::FetchArtifact {
                version: *version,
            },
            InstallStep::DownloadArtifact { artifact, dest } => InstallStepV::DownloadArtifact {
                artifact: artifact@,
                dest: dest@,
            },
            InstallStep::RunPatch { dir, jar } => InstallStepV::RunPatch { dir: dir@, jar: jar@ },
            InstallStep::WriteUnitFile { path, contents } => InstallStepV::WriteUnitFile {
                path: path@,
                contents: contents@,
            },
        }
    }
}

/// The report on a performed install step.  Fallible filesystem steps
/// report their error as text; repository steps report the repository's
/// error; the patch step reports the child's success and captured stderr.
#[derive(Debug)]
pub enum InstallOutcome {
    PathChecked { exists: bool },
    DirCreated { error: Option<String> },
    EulaWritten { error: Option<String> },
    VersionResolved { result: Result<Version, RepositoryError> },
    ArtifactFetched { result: Result<PaperArtifact, RepositoryError> },
    ArtifactDownloaded { error: Option<String> },
    PatchFinished { ok: bool, stderr: String },
    UnitFileWritten { error: Option<String> },
}

/// Spec view of an [`InstallOutcome`].
pub enum InstallOutcomeV {
    PathChecked { exists: bool },
    DirCreated { error: Option<Seq<char>> },
    EulaWritten { error: Option<Seq<char>> },
    VersionResolved { result: Result<Version, crate::repo::RepositoryErrorV> },
    ArtifactFetched { result: Result<PaperArtifactV, crate::repo::RepositoryErrorV> },
    ArtifactDownloaded { error: Option<Seq<char>> },
    PatchFinished { ok: bool, stderr: Seq<char> },
    UnitFileWritten { error: Option<Seq<char>> },
}

impl View for InstallOutcome {
    type V = InstallOutcomeV;

    open spec fn view(&self) -> InstallOutcomeV {
        match self {
            InstallOutcome::PathChecked { exists } => InstallOutcomeV::PathChecked {
                exists: *exists,
            },
            InstallOutcome::DirCreated { error } => InstallOutcomeV::DirCreated {
                error: error.deep_view(),
            },
            InstallOutcome::EulaWritten { error } => InstallOutcomeV::EulaWritten {
                error: error.deep_view(),
            },
            InstallOutcome::VersionResolved { result } => InstallOutcomeV::VersionResolved {
                result: match result {
                    Result::Ok(v) => Result::Ok(*v),
                    Result::Err(e) => Result::Err(e@),
                },
            },
            InstallOutcome::ArtifactFetched { result } => InstallOutcomeV::ArtifactFetched {
                result: match result {
                    Result::Ok(a) => Result::Ok(a@),
                    Result::Err(e) => Result::Err(e@),
                },
            },
            InstallOutcome::ArtifactDownloaded { error } => InstallOutcomeV::ArtifactDownloaded {
                error: error.deep_view(),
            },
            InstallOutcome::PatchFinished { ok, stderr } => InstallOutcomeV::PatchFinished {
                ok: *ok,
                stderr: stderr@,
            },
            InstallOutcome::UnitFileWritten { error } => InstallOutcomeV::UnitFileWritten {
                error: error.deep_view(),
            },
        }
    }
}

/// What an advance of the machine yields: the next step to perform, the
/// finished unit definition, or the error the installation failed with.
#[derive(Debug)]
pub enum InstallAdvance {
    Next(InstallStep),
    Done(ServerUnitConfig),
    Failed(InstallError),
}

/// Where an installer stands in the pipeline.
#[derive(Debug, Clone, Copy, PartialEq, Eq, Structural)]
pub enum InstallPhase {
    /// No installation begun.
    Idle,
    /// Awaiting the report on the install-path existence check.
    CheckingPath,
    /// Awaiting the directory creation report.
    CreatingDir,
    /// Awaiting the eula write report.
    WritingEula,
    /// Awaiting the repository's latest version.
    Resolving,
    /// Awaiting the repository's artifact.
    Fetching,
    /// Awaiting the artifact download report.
    Downloading,
    /// Awaiting the patch process report.
    Patching,
    /// Awaiting the unit file write report.
    WritingUnitFile,
    /// Installation concluded, successfully or not.
    Finished,
}

/// Whether an outcome reports on the step the phase awaits.
pub open spec fn outcome_fits(phase: InstallPhase, o: InstallOutcomeV) -> bool {
    match o {
        InstallOutcomeV::PathChecked { .. } => phase == InstallPhase::CheckingPath,
        InstallOutcomeV::DirCreated { .. } => phase == InstallPhase::CreatingDir,
        InstallOutcomeV::EulaWritten { .. } => phase == InstallPhase::WritingEula,
        InstallOutcomeV::VersionResolved { .. } => phase == InstallPhase::Resolving,
        InstallOutcomeV::ArtifactFetched { .. } => phase == InstallPhase::Fetching,
        InstallOutcomeV::ArtifactDownloaded { .. } => phase == InstallPhase::Downloading,
        InstallOutcomeV::PatchFinished { .. } => phase == InstallPhase::Patching,
        InstallOutcomeV::UnitFileWritten { .. } => phase == InstallPhase::WritingUnitFile,
    }
}

/// A progress event as the pipeline raises it: no counts, step number one.
pub open spec fn ev_progress(unit_id: Seq<char>, action: Seq<char>) -> EventManagerCmdV {
    EventManagerCmdV::DispatchEvent {
        server_id: unit_id,
        event: ServerEventV::ActionProgress {
            server_id: unit_id,
            action,
            progress: Option::None,
            maximum: Option::None,
            action_number: 1,
        },
    }
}

/// A failure event carrying an error text.
pub open spec fn ev_install_failed(unit_id: Seq<char>, error: Seq<char>) -> EventManagerCmdV {
    EventManagerCmdV::DispatchEvent {
        server_id: unit_id,
        event: ServerEventV::InstallationFailed { server_id: unit_id, error },
    }
}

/// The completion event.
pub open spec fn ev_install_complete(unit_id: Seq<char>) -> EventManagerCmdV {
    EventManagerCmdV::DispatchEvent {
        server_id: unit_id,
        event: ServerEventV::InstallationComplete { server_id: unit_id },
    }
}

/// The unit definition an installation produces: a server unit under the
/// requested id, named as requested (or by the stock name), living in the
/// install path, running the patched artifact, with the default memory
/// allotment.
pub open spec fn built_config(
    unit_id: Seq<char>,
    install_path: Seq<char>,
    server_name: Option<Seq<char>>,
    artifact_version: Version,
) -> ServerUnitConfigV {
    ServerUnitConfigV {
        unit: UnitConfigV { id: unit_id, unit_type: "server"@ },
        server: ServerConfigV {
            name: match server_name {
                Option::None => "A Minecraft server"@,
                Option::Some(n) => n,
            },
            path: install_path,
            kind: "paper"@,
            jar: spec_jar_name(artifact_version),
            version: artifact_version,
            memory: 10,
        },
    }
}

/// Installer implementation for PaperMC
#[derive(Debug)]
pub struct PaperServerInstaller {
    /// Collects the events the pipeline raises.
    pub event_handler: EventHandler,
    /// The id of the unit to be installed
    pub unit_id: String,
    pub repo: PaperRepository,
    /// Where the installer stands.
    pub phase: InstallPhase,
    pub install_path: String,
    pub unit_file_path: Option<String>,
    pub version_arg: Option<Version>,
    pub eula: bool,
    pub server_name: Option<String>,
    /// The artifact being installed, once fetched.
    pub artifact: Option<PaperArtifact>,
    /// The finished definition, once the patch step succeeded.
    pub result: Option<ServerUnitConfig>,
}

impl PaperServerInstaller {
    /// What holds of the machine between steps: once the repository turn is
    /// passed the fetched artifact is at hand, and once the patch succeeded
    /// the finished definition is too.
    pub open spec fn wf(self) -> bool {
        &&& (self.phase == InstallPhase::Downloading || self.phase == InstallPhase::Patching
            || self.phase == InstallPhase::WritingUnitFile) ==> self.artifact is Some
        &&& self.phase == InstallPhase::WritingUnitFile ==> self.result is Some
    }
}

/// The request parameters stay as the caller set them.
pub open spec fn request_kept(pre: PaperServerInstaller, post: PaperServerInstaller) -> bool {
    &&& post.unit_id@ == pre.unit_id@
    &&& post.install_path@ == pre.install_path@
    &&& post.unit_file_path.deep_view() == pre.unit_file_path.deep_view()
    &&& post.version_arg == pre.version_arg
    &&& post.eula == pre.eula
    &&& post.server_name.deep_view() == pre.server_name.deep_view()
}

/// After the preparatory steps the pipeline turns to the repository: with a
/// requested version it fetches that artifact directly, otherwise it first
/// resolves the latest version.
pub open spec fn download_turn_post(
    pre: PaperServerInstaller,
    post: PaperServerInstaller,
    r: InstallAdvance,
    events_before: Seq<EventManagerCmdV>,
) -> bool {
    &&& post.event_handler@ == events_before.push(
        ev_progress(pre.unit_id@, "downloading jar"@),
    )
    &&& match pre.version_arg {
        Option::None => post.phase == InstallPhase::Resolving && (r matches InstallAdvance::Next(
            s,
        ) && s@ == InstallStepV::ResolveVersion),
        Option::Some(v) => post.phase == InstallPhase::Fetching && (r matches InstallAdvance::Next(
            s,
        ) && s@ == (InstallStepV::FetchArtifact { version: v })),
    }
}

/// Law: a failed installation raises exactly one failure event, carrying
/// the error's text, on top of what was already raised, and the machine is
/// finished: no outcome fits the finished phase, so no further step — in
/// particular no unit-file write — can be asked for afterwards.
pub proof fn lemma_install_failure_single_event(
    pre: PaperServerInstaller,
    post: PaperServerInstaller,
    r: InstallAdvance,
    e: InstallErrorV,
)
    requires
        failed_post(pre, post, r, e),
    ensures
        post.event_handler@.len() == pre.event_handler@.len() + 1,
        post.event_handler@.last() == ev_install_failed(
            pre.unit_id@,
            spec_install_error_text(e),
        ),
        post.event_handler@.subrange(0, pre.event_handler@.len() as int)
            == pre.event_handler@,
        post.phase == InstallPhase::Finished,
        forall|o: InstallOutcomeV| !outcome_fits(post.phase, o),
{
    assert(post.event_handler@.subrange(0, pre.event_handler@.len() as int)
        =~= pre.event_handler@);
}

/// The installation failed: the machine is finished, the error is returned,
/// and one failure event carrying its text is raised.
pub open spec fn failed_post(
    pre: PaperServerInstaller,
    post: PaperServerInstaller,
    r: InstallAdvance,
    e: InstallErrorV,
) -> bool {
    &&& post.phase == InstallPhase::Finished
    &&& (r matches InstallAdvance::Failed(err) && err@ == e)
    &&& post.event_handler@ == pre.event_handler@.push(
        ev_install_failed(pre.unit_id@, spec_install_error_text(e)),
    )
}

impl PaperServerInstaller {
    /// Create a new PaperServerInstaller
    pub fn new(event_handler: EventHandler, unit_id: String) -> (r: PaperServerInstaller)
        ensures
            r.event_handler@ == event_handler@,
            r.unit_id@ == unit_id@,
            r.phase == InstallPhase::Idle,
            r.wf(),
    {
        PaperServerInstaller {
            event_handler,
            unit_id,
            repo: PaperRepository {},
            phase: InstallPhase::Idle,
            install_path: String::new(),
            unit_file_path: Option::None,
            version_arg: Option::None,
            eula: false,
            server_name: Option::None,
            artifact: Option::None,
            result: Option::None,
        }
    }

    /// Begins an installation: records the request and asks first for the
    /// install-path existence check.
    pub fn install_server(
        &mut self,
        install_path: String,
        unit_file_path: Option<String>,
        server_version: Option<Version>,
        eula: bool,
        server_name: Option<String>,
    ) -> (r: InstallStep)
        requires
            old(self).phase == InstallPhase::Idle,
        ensures
            final(self).wf(),
            final(self).phase == InstallPhase::CheckingPath,
            final(self).unit_id@ == old(self).unit_id@,
            final(self).event_handler@ == old(self).event_handler@,
            final(self).install_path@ == install_path@,
            final(self).unit_file_path.deep_view() == unit_file_path.deep_view(),
            final(self).version_arg == server_version,
            final(self).eula == eula,
            final(self).server_name.deep_view() == server_name.deep_view(),
            r@ == (InstallStepV::CheckPath { path: install_path@ }),
    {
        let path_copy = install_path.clone();
        self.install_path = install_path;
        self.unit_file_path = unit_file_path;
        self.version_arg = server_version;
        self.eula = eula;
        self.server_name = server_name;
        self.phase = InstallPhase::CheckingPath;
        InstallStep::CheckPath { path: path_copy }
    }

    /// Consumes the report on the last step and decides the next one.  The
    /// transition per phase is stated in full below: which events are
    /// raised, where the machine moves, and what it asks for next.
    pub fn advance(&mut self, outcome: InstallOutcome) -> (r: InstallAdvance)
        requires
            old(self).wf(),
            outcome_fits(old(self).phase, outcome@),
        ensures
            final(self).wf(),
            request_kept(*old(self), *final(self)),
            match outcome@ {
                InstallOutcomeV::PathChecked { exists } => {
                    if exists {
                        failed_post(*old(self), *final(self), r, InstallErrorV::DirExists)
                    } else {
                        &&& final(self).phase == InstallPhase::CreatingDir
                        &&& final(self).event_handler@ == old(self).event_handler@.push(
                            ev_progress(old(self).unit_id@, "creating server directory"@),
                        )
                        &&& (r matches InstallAdvance::Next(s) && s@ == (InstallStepV::CreateDir {
                            path: old(self).install_path@,
                        }))
                    }
                },
                InstallOutcomeV::DirCreated { error } => match error {
                    Option::Some(m) => failed_post(
                        *old(self),
                        *final(self),
                        r,
                        InstallErrorV::CreateDir(m),
                    ),
                    Option::None => {
                        if old(self).eula {
                            &&& final(self).phase == InstallPhase::WritingEula
                            &&& final(self).event_handler@ == old(self).event_handler@.push(
                                ev_progress(
                                    old(self).unit_id@,
                                    "creating initial server configuration"@,
                                ),
                            )
                            &&& (r matches InstallAdvance::Next(s) && s@ == (
                            InstallStepV::WriteEula {
                                path: old(self).install_path@ + "/eula.txt"@,
                                contents: "eula=true\n"@,
                            }))
                        } else {
                            download_turn_post(
                                *old(self),
                                *final(self),
                                r,
                                old(self).event_handler@,
                            )
                        }
                    },
                },
                InstallOutcomeV::EulaWritten { error } => match error {
                    Option::Some(m) => failed_post(
                        *old(self),
                        *final(self),
                        r,
                        InstallErrorV::WriteInitialSettings(m),
                    ),
                    Option::None => download_turn_post(
                        *old(self),
                        *final(self),
                        r,
                        old(self).event_handler@,
                    ),
                },
                InstallOutcomeV::VersionResolved { result } => match result {
                    Result::Err(e) => failed_post(
                        *old(self),
                        *final(self),
                        r,
                        InstallErrorV::DownloadFailed(spec_repo_error_text(e)),
                    ),
                    Result::Ok(v) => {
                        &&& final(self).phase == InstallPhase::Fetching
                        &&& final(self).event_handler@ == old(self).event_handler@
                        &&& (r matches InstallAdvance::Next(s) && s@ == (
                        InstallStepV::FetchArtifact { version: v }))
                    },
                },
                InstallOutcomeV::ArtifactFetched { result } => match result {
                    Result::Err(e) => failed_post(
                        *old(self),
                        *final(self),
                        r,
                        InstallErrorV::DownloadFailed(spec_repo_error_text(e)),
                    ),
                    Result::Ok(a) => {
                        &&& final(self).phase == InstallPhase::Downloading
                        &&& final(self).event_handler@ == old(self).event_handler@
                        &&& (final(self).artifact matches Option::Some(stored) && stored@ == a)
                        &&& (r matches InstallAdvance::Next(s) && s@ == (
                        InstallStepV::DownloadArtifact {
                            artifact: a,
                            dest: old(self).install_path@ + "/"@ + spec_jar_name(a.version),
                        }))
                    },
                },
                InstallOutcomeV::ArtifactDownloaded { error } => match error {
                    Option::Some(m) => failed_post(
                        *old(self),
                        *final(self),
                        r,
                        InstallErrorV::DownloadFailed(m),
                    ),
                    Option::None => {
                        &&& final(self).phase == InstallPhase::Patching
                        &&& final(self).artifact.deep_view() == old(self).artifact.deep_view()
                        &&& final(self).event_handler@ == old(self).event_handler@.push(
                            ev_progress(old(self).unit_id@, "patching jar"@),
                        )
                        &&& old(self).artifact matches Option::Some(a) && (r matches
                        InstallAdvance::Next(s) && s@ == (InstallStepV::RunPatch {
                            dir: old(self).install_path@,
                            jar: spec_jar_name(a.version),
                        }))
                    },
                },
                InstallOutcomeV::PatchFinished { ok, stderr } => {
                    if !ok {
                        failed_post(
                            *old(self),
                            *final(self),
                            r,
                            InstallErrorV::PerformPatch(stderr),
                        )
                    } else {
                        match old(self).unit_file_path.deep_view() {
                            Option::None => failed_post(
                                *old(self),
                                *final(self),
                                r,
                                InstallErrorV::UnsupportedConfiguration,
                            ),
                            Option::Some(p) => {
                                &&& old(self).artifact matches Option::Some(a)
                                &&& final(self).phase == InstallPhase::WritingUnitFile
                                &&& final(self).event_handler@ == old(self).event_handler@
                                &&& (final(self).result matches Option::Some(c) && c@
                                    == built_config(
                                    old(self).unit_id@,
                                    old(self).install_path@,
                                    old(self).server_name.deep_view(),
                                    a.version,
                                ))
                                &&& (r matches InstallAdvance::Next(s) && s@ == (
                                InstallStepV::WriteUnitFile {
                                    path: p,
                                    contents: spec_render_unit_file(
                                        built_config(
                                            old(self).unit_id@,
                                            old(self).install_path@,
                                            old(self).server_name.deep_view(),
                                            a.version,
                                        ),
                                    ),
                                }))
                            },
                        }
                    }
                },
                InstallOutcomeV::UnitFileWritten { error } => match error {
                    Option::Some(m) => failed_post(
                        *old(self),
                        *final(self),
                        r,
                        InstallErrorV::WriteUnitFile(m),
                    ),
                    Option::None => {
                        &&& final(self).phase == InstallPhase::Finished
                        &&& old(self).result matches Option::Some(c) && (r matches
                        InstallAdvance::Done(d) && d@ == c@)
                        &&& final(self).event_handler@ == old(self).event_handler@.push(
                            ev_install_complete(old(self).unit_id@),
                        )
                    },
                },
            },
    {
        match outcome {
            InstallOutcome::PathChecked { exists } => {
                if exists {
                    self.fail(InstallError::DirExists)
                } else {
                    self.event_handler.raise_event(
                        self.unit_id.as_str(),
                        progress_event(&self.unit_id, "creating server directory"),
                    );
                    self.phase = InstallPhase::CreatingDir;
                    InstallAdvance::Next(InstallStep::CreateDir { path: self.install_path.clone() })
                }
            },
            InstallOutcome::DirCreated { error } => match error {
                Option::Some(m) => self.fail(InstallError::CreateDir(m)),
                Option::None => {
                    if self.eula {
                        self.event_handler.raise_event(
                            self.unit_id.as_str(),
                            progress_event(&self.unit_id, "creating initial server configuration"),
                        );
                        self.phase = InstallPhase::WritingEula;
                        let mut path = self.install_path.clone();
                        path.append("/eula.txt");
                        InstallAdvance::Next(
                            InstallStep::WriteEula {
                                path,
                                contents: String::from_str("eula=true\n"),
                            },
                        )
                    } else {
                        self.download_turn()
                    }
                },
            },
            InstallOutcome::EulaWritten { error } => match error {
                Option::Some(m) => self.fail(InstallError::WriteInitialSettings(m)),
                Option::None => self.download_turn(),
            },
            InstallOutcome::VersionResolved { result } => match result {
                Result::Err(e) => self.fail(InstallError::DownloadFailed(e.text())),
                Result::Ok(v) => {
                    self.phase = InstallPhase::Fetching;
                    InstallAdvance::Next(InstallStep::FetchArtifact { version: v })
                },
            },
            InstallOutcome::ArtifactFetched { result } => match result {
                Result::Err(e) => self.fail(InstallError::DownloadFailed(e.text())),
                Result::Ok(a) => {
                    self.phase = InstallPhase::Downloading;
                    let mut dest = self.install_path.clone();
                    dest.append("/");
                    let jar = jar_name(&a.version);
                    dest.append(jar.as_str());
                    let dup = a.duplicate();
                    self.artifact = Option::Some(a);
                    InstallAdvance::Next(InstallStep::DownloadArtifact { artifact: dup, dest })
                },
            },
            InstallOutcome::ArtifactDownloaded { error } => match error {
                Option::Some(m) => self.fail(InstallError::DownloadFailed(m)),
                Option::None => {
                    self.event_handler.raise_event(
                        self.unit_id.as_str(),
                        progress_event(&self.unit_id, "patching jar"),
                    );
                    self.phase = InstallPhase::Patching;
                    let jar = match &self.artifact {
                        Option::Some(a) => jar_name(&a.version),
                        Option::None => vstd::pervasive::unreached(),
                    };
                    InstallAdvance::Next(
                        InstallStep::RunPatch { dir: self.install_path.clone(), jar },
                    )
                },
            },
            InstallOutcome::PatchFinished { ok, stderr } => {
                if !ok {
                    self.fail(InstallError::PerformPatch(stderr))
                } else {
                    let path = match &self.unit_file_path {
                        Option::None => {
                            return self.fail(InstallError::UnsupportedConfiguration);
                        },
                        Option::Some(p) => p.clone(),
                    };
                    let version = match &self.artifact {
                        Option::Some(a) => a.version,
                        Option::None => vstd::pervasive::unreached(),
                    };
                    let name = match &self.server_name {
                        Option::None => String::from_str("A Minecraft server"),
                        Option::Some(n) => n.clone(),
                    };
                    let config = ServerUnitConfig {
                        unit: UnitConfig {
                            id: self.unit_id.clone(),
                            unit_type: String::from_str("server"),
                        },
                        server: ServerConfig {
                            name,
                            path: self.install_path.clone(),
                            kind: String::from_str("paper"),
                            jar: jar_name(&version),
                            version,
                            memory: 10,
                        },
                    };
                    let contents = render_unit_file(&config);
                    self.result = Option::Some(config);
                    self.phase = InstallPhase::WritingUnitFile;
                    InstallAdvance::Next(InstallStep::WriteUnitFile { path, contents })
                }
            },
            InstallOutcome::UnitFileWritten { error } => match error {
                Option::Some(m) => self.fail(InstallError::WriteUnitFile(m)),
                Option::None => {
                    let done = match &self.result {
                        Option::Some(c) => c.duplicate(),
                        Option::None => vstd::pervasive::unreached(),
                    };
                    self.event_handler.raise_event(
                        self.unit_id.as_str(),
                        ServerEvent::InstallationComplete { server_id: self.unit_id.clone() },
                    );
                    self.phase = InstallPhase::Finished;
                    InstallAdvance::Done(done)
                },
            },
        }
    }

    /// Concludes the installation with an error: raises the failure event
    /// and returns the error.
    fn fail(&mut self, e: InstallError) -> (r: InstallAdvance)
        ensures
            failed_post(*old(self), *final(self), r, e@),
            request_kept(*old(self), *final(self)),
            final(self).artifact.deep_view() == old(self).artifact.deep_view(),
            final(self).result.deep_view() == old(self).result.deep_view(),
    {
        let text = e.text();
        self.event_handler.raise_event(
            self.unit_id.as_str(),
            ServerEvent::InstallationFailed { server_id: self.unit_id.clone(), error: text },
        );
        self.phase = InstallPhase::Finished;
        InstallAdvance::Failed(e)
    }

    /// Raises the download progress event and asks the repository turn:
    /// resolve the latest version, or fetch the requested one directly.
    fn download_turn(&mut self) -> (r: InstallAdvance)
        ensures
            request_kept(*old(self), *final(self)),
            download_turn_post(*old(self), *final(self), r, old(self).event_handler@),
            final(self).artifact.deep_view() == old(self).artifact.deep_view(),
            final(self).result.deep_view() == old(self).result.deep_view(),
    {
        self.event_handler.raise_event(
            self.unit_id.as_str(),
            progress_event(&self.unit_id, "downloading jar"),
        );
        match self.version_arg {
            Option::None => {
                self.phase = InstallPhase::Resolving;
                InstallAdvance::Next(InstallStep::ResolveVersion)
            },
            Option::Some(v) => {
                self.phase = InstallPhase::Fetching;
                InstallAdvance::Next(InstallStep::FetchArtifact { version: v })
            },
        }
    }
}

/// An action-progress event with no counts and step number one, as every
/// pipeline step raises it.
pub fn progress_event(unit_id: &String, action: &str) -> (e: ServerEvent)
    ensures
        e@ == (ServerEventV::ActionProgress {
            server_id: unit_id@,
            action: action@,
            progress: Option::None,
            maximum: Option::None,
            action_number: 1,
        }),
{
    ServerEvent::ActionProgress {
        server_id: unit_id.clone(),
        action: String::from_str(action),
        progress: Option::None,
        maximum: Option::None,
        action_number: 1,
    }
}


/// Different types of file changes with their roll-back strategy
#[derive(Debug)]
enum FileChange {
    /// A new file or directory was added at the path.
    ///
    /// Rollback: delete it.
    AddFile(String),
}

/// Stores changes made to the file system.  New changes are stored at the
/// back; on roll-back the newest changes would be undone first.  The
/// roll-back itself is not wired up yet: pipelines record their changes
/// here so a later revision can replay them.
#[derive(Debug)]
pub struct FileTransaction {
    /// The changes made during a transaction
    changes: Vec<FileChange>,
}

impl View for FileTransaction {
    type V = Seq<Seq<char>>;

    closed spec fn view(&self) -> Seq<Seq<char>> {
        Seq::new(
            self.changes@.len(),
            |i: int|
                match self.changes@[i] {
                    FileChange::AddFile(p) => p@,
                },
        )
    }
}

impl FileTransaction {
    /// Create a new file transaction
    pub fn new() -> (r: FileTransaction)
        ensures
            r@ =~= Seq::<Seq<char>>::empty(),
    {
        FileTransaction { changes: Vec::new() }
    }

    /// Add a new file to the recorded file system changes
    pub fn add_file(&mut self, path: String)
        ensures
            final(self)@ =~= old(self)@.push(path@),
    {
        self.changes.push(FileChange::AddFile(path));
    }
}

} // verus!

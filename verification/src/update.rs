//! The update pipeline for Paper servers, as a step machine like the
//! installer: the updater decides each repository, download, patch and
//! unit-file action, and fails with `AlreadyUpToDate` when the installed
//! version already dominates the target.

use crate::config::{ServerConfig, ServerConfigV, ServerUnitConfig, ServerUnitConfigV, UnitConfig, UnitConfigV};
use crate::event::{EventHandler, EventManagerCmdV};
use crate::install::{ev_progress, progress_event};
use crate::ipc::{ServerEvent, ServerEventV};
use crate::repo::{
    jar_name, spec_jar_name, spec_repo_error_text, PaperArtifact, PaperArtifactV, RepositoryError,
};
use crate::unit_file::{render_unit_file, spec_render_unit_file};
use crate::version::{spec_up_to_date, up_to_date, Version};
use crate::ServerType;
use vstd::prelude::*;
use vstd::string::*;

verus! {

/// Errors that can happen during an update operation.
#[derive(Debug)]
pub enum UpdateError {
    /// Download of an artifact or an additional resource has failed
    DownloadFailed(String),
    /// The patching process failed; the payload carries its error output.
    PerformPatch(String),
    /// An error occurred during the writing of the unit file.
    WriteUnitFile(String),
    /// The server is already using the current version/build
    AlreadyUpToDate,
    /// The updater does not support updating the requested server type
    UnsupportedServerType(ServerType),
}

/// Spec view of an [`UpdateError`].
pub enum UpdateErrorV {
    DownloadFailed(Seq<char>),
    PerformPatch(Seq<char>),
    WriteUnitFile(Seq<char>),
    AlreadyUpToDate,
    UnsupportedServerType(ServerType),
}

impl View for UpdateError {
    type V = UpdateErrorV;

    open spec fn view(&self) -> UpdateErrorV {
        match self {
            UpdateError::DownloadFailed(m) => UpdateErrorV::DownloadFailed(m@),
            UpdateError::PerformPatch(m) => UpdateErrorV::PerformPatch(m@),
            UpdateError::WriteUnitFile(m) => UpdateErrorV::WriteUnitFile(m@),
            UpdateError::AlreadyUpToDate => UpdateErrorV::AlreadyUpToDate,
            UpdateError::UnsupportedServerType(t) => UpdateErrorV::UnsupportedServerType(*t),
        }
    }
}

/// The one-line text of an update error, as reported in failure events.
pub open spec fn spec_update_error_text(e: UpdateErrorV) -> Seq<char> {
    match e {
        UpdateErrorV::DownloadFailed(m) => "DownloadFailed: "@ + m,
        UpdateErrorV::PerformPatch(m) => "PerformPatch: "@ + m,
        UpdateErrorV::WriteUnitFile(m) => "WriteUnitFile: "@ + m,
        UpdateErrorV::AlreadyUpToDate => "AlreadyUpToDate"@,
        UpdateErrorV::UnsupportedServerType(_) => "UnsupportedServerType"@,
    }
}

impl UpdateError {
    /// Renders the error as one line of text.
    pub fn text(&self) -> (r: String)
        ensures
            r@ == spec_update_error_text(self@),
    {
        match self {
            UpdateError::DownloadFailed(m) => {
                let mut s = String::from_str("DownloadFailed: ");
                s.append(m.as_str());
                s
            },
            UpdateError::PerformPatch(m) => {
                let mut s = String::from_str("PerformPatch: ");
                s.append(m.as_str());
                s
            },
            UpdateError::WriteUnitFile(m) => {
                let mut s = String::from_str("WriteUnitFile: ");
                s.append(m.as_str());
                s
            },
            UpdateError::AlreadyUpToDate => String::from_str("AlreadyUpToDate"),
            UpdateError::UnsupportedServerType(_) => String::from_str("UnsupportedServerType"),
        }
    }
}

/// Everything an update worker needs: the command's parameters and the
/// unit's current definition.
#[derive(Debug)]
pub struct UpdateRequest {
    pub unit_id: String,
    pub server_version: Option<Version>,
    pub unit_config: UnitConfig,
    pub server_config: ServerConfig,
    pub unit_file_path: String,
}

/// Spec view of an [`UpdateRequest`].
pub struct UpdateRequestV {
    pub unit_id: Seq<char>,
    pub server_version: Option<Version>,
    pub unit_config: UnitConfigV,
    pub server_config: ServerConfigV,
    pub unit_file_path: Seq<char>,
}

impl View for UpdateRequest {
    type V = UpdateRequestV;

    open spec fn view(&self) -> UpdateRequestV {
        UpdateRequestV {
            unit_id: self.unit_id@,
            server_version: self.server_version,
            unit_config: self.unit_config@,
            server_config: self.server_config@,
            unit_file_path: self.unit_file_path@,
        }
    }
}

/// The outside action an updater asks for next.
#[derive(Debug)]
pub enum UpdateStep {
    /// Ask the repository for its latest version.
    ResolveVersion,
    /// Ask the repository for an artifact: the latest build of `version`
    /// when `latest` is set, the exact build of `version` otherwise.
    FetchArtifact { version: Version, latest: bool },
    /// Download the artifact to `dest`.
    DownloadArtifact { artifact: PaperArtifact, dest: String },
    /// Run the Paperclip patch step in `dir` and await its exit.
    RunPatch { dir: String, jar: String },
    /// Replace the unit file with exactly these contents.
    WriteUnitFile { path: String, contents: String },
}

/// Spec view of an [`UpdateStep`].
pub enum UpdateStepV {
    ResolveVersion,
    FetchArtifact { version: Version, latest: bool },
    DownloadArtifact { artifact: PaperArtifactV, dest: Seq<char> },
    RunPatch { dir: Seq<char>, jar: Seq<char> },
    WriteUnitFile { path: Seq<char>, contents: Seq<char> },
}

impl View for UpdateStep {
    type V = UpdateStepV;

    open spec fn view(&self) -> UpdateStepV {
        match self {
            UpdateStep::ResolveVersion => UpdateStepV::ResolveVersion,
            UpdateStep::FetchArtifact { version, latest } => UpdateStepV::FetchArtifact {
                version: *version,
                latest: *latest,
            },
            UpdateStep::DownloadArtifact { artifact, dest } => UpdateStepV::DownloadArtifact {
                artifact: artifact@,
                dest: dest@,
            },
            UpdateStep::RunPatch { dir, jar } => UpdateStepV::RunPatch { dir: dir@, jar: jar@ },
            UpdateStep::WriteUnitFile { path, contents } => UpdateStepV::WriteUnitFile {
                path: path@,
                contents: contents@,
            },
        }
    }
}

/// The report on a performed update step.
#[derive(Debug)]
pub enum UpdateOutcome {
    VersionResolved { result: Result<Version, RepositoryError> },
    ArtifactFetched { result: Result<PaperArtifact, RepositoryError> },
    ArtifactDownloaded { error: Option<String> },
    PatchFinished { ok: bool, stderr: String },
    UnitFileWritten { error: Option<String> },
}

/// Spec view of an [`UpdateOutcome`].
pub enum UpdateOutcomeV {
    VersionResolved { result: Result<Version, crate::repo::RepositoryErrorV> },
    ArtifactFetched { result: Result<PaperArtifactV, crate::repo::RepositoryErrorV> },
    ArtifactDownloaded { error: Option<Seq<char>> },
    PatchFinished { ok: bool, stderr: Seq<char> },
    UnitFileWritten { error: Option<Seq<char>> },
}

impl View for UpdateOutcome {
    type V = UpdateOutcomeV;

    open spec fn view(&self) -> UpdateOutcomeV {
        match self {
            UpdateOutcome::VersionResolved { result } => UpdateOutcomeV::VersionResolved {
                result: match result {
                    Result::Ok(v) => Result::Ok(*v),
                    Result::Err(e) => Result::Err(e@),
                },
            },
            UpdateOutcome::ArtifactFetched { result } => UpdateOutcomeV::ArtifactFetched {
                result: match result {
                    Result::Ok(a) => Result::Ok(a@),
                    Result::Err(e) => Result::Err(e@),
                },
            },
            UpdateOutcome::ArtifactDownloaded { error } => UpdateOutcomeV::ArtifactDownloaded {
                error: error.deep_view(),
            },
            UpdateOutcome::PatchFinished { ok, stderr } => UpdateOutcomeV::PatchFinished {
                ok: *ok,
                stderr: stderr@,
            },
            UpdateOutcome::UnitFileWritten { error } => UpdateOutcomeV::UnitFileWritten {
                error: error.deep_view(),
            },
        }
    }
}

/// What an advance of the machine yields.
#[derive(Debug)]
pub enum UpdateAdvance {
    Next(UpdateStep),
    Done(ServerUnitConfig),
    Failed(UpdateError),
}

/// Where an updater stands in the pipeline.
#[derive(Debug, Clone, Copy, PartialEq, Eq, Structural)]
pub enum UpdatePhase {
    Idle,
    Resolving,
    Fetching,
    Downloading,
    Patching,
    WritingUnitFile,
    Finished,
}

/// Whether an outcome reports on the step the phase awaits.
pub open spec fn update_outcome_fits(phase: UpdatePhase, o: UpdateOutcomeV) -> bool {
    match o {
        UpdateOutcomeV::VersionResolved { .. } => phase == UpdatePhase::Resolving,
        UpdateOutcomeV::ArtifactFetched { .. } => phase == UpdatePhase::Fetching,
        UpdateOutcomeV::ArtifactDownloaded { .. } => phase == UpdatePhase::Downloading,
        UpdateOutcomeV::PatchFinished { .. } => phase == UpdatePhase::Patching,
        UpdateOutcomeV::UnitFileWritten { .. } => phase == UpdatePhase::WritingUnitFile,
    }
}

/// A failure event carrying an error text.
pub open spec fn ev_update_failed(unit_id: Seq<char>, error: Seq<char>) -> EventManagerCmdV {
    EventManagerCmdV::DispatchEvent {
        server_id: unit_id,
        event: ServerEventV::UpdateFailed { server_id: unit_id, error },
    }
}

/// The completion event.
pub open spec fn ev_update_complete(unit_id: Seq<char>) -> EventManagerCmdV {
    EventManagerCmdV::DispatchEvent {
        server_id: unit_id,
        event: ServerEventV::UpdateComplete { server_id: unit_id },
    }
}

/// The unit definition an update produces: the same unit, its server config
/// carried over with the new version and the new artifact name.
pub open spec fn updated_config(
    unit: UnitConfigV,
    server: ServerConfigV,
    target: Version,
) -> ServerUnitConfigV {
    ServerUnitConfigV {
        unit,
        server: ServerConfigV {
            version: target,
            jar: spec_jar_name(target),
            ..server
        },
    }
}

/// Updater for paper servers
#[derive(Debug)]
pub struct PaperServerUpdater {
    /// The id of the unit, that should be updated
    pub unit_id: String,
    /// The path to the file of the unit
    pub unit_file_path: String,
    /// Collects the events the pipeline raises.
    pub event_handler: EventHandler,
    /// Where the updater stands.
    pub phase: UpdatePhase,
    pub version_arg: Option<Version>,
    pub unit_config: Option<UnitConfig>,
    pub server_config: Option<ServerConfig>,
    /// The target artifact, once fetched.
    pub artifact: Option<PaperArtifact>,
    /// The finished definition, once the patch step succeeded.
    pub result: Option<ServerUnitConfig>,
}

/// The request parameters stay as the caller set them.
pub open spec fn update_request_kept(pre: PaperServerUpdater, post: PaperServerUpdater) -> bool {
    &&& post.unit_id@ == pre.unit_id@
    &&& post.unit_file_path@ == pre.unit_file_path@
    &&& post.version_arg == pre.version_arg
    &&& post.unit_config.deep_view() == pre.unit_config.deep_view()
    &&& post.server_config.deep_view() == pre.server_config.deep_view()
}

/// Law: a failed update raises exactly one failure event, carrying the
/// error's text, on top of what was already raised, and the machine is
/// finished: no outcome fits the finished phase, so no further step — in
/// particular no unit-file write — can be asked for afterwards.
pub proof fn lemma_update_failure_single_event(
    pre: PaperServerUpdater,
    post: PaperServerUpdater,
    r: UpdateAdvance,
    e: UpdateErrorV,
)
    requires
        update_failed_post(pre, post, r, e),
    ensures
        post.event_handler@.len() == pre.event_handler@.len() + 1,
        post.event_handler@.last() == ev_update_failed(
            pre.unit_id@,
            spec_update_error_text(e),
        ),
        post.event_handler@.subrange(0, pre.event_handler@.len() as int)
            == pre.event_handler@,
        post.phase == UpdatePhase::Finished,
        forall|o: UpdateOutcomeV| !update_outcome_fits(post.phase, o),
{
    assert(post.event_handler@.subrange(0, pre.event_handler@.len() as int)
        =~= pre.event_handler@);
}

/// The update failed: the machine is finished, the error is returned, and
/// one failure event carrying its text is raised.
pub open spec fn update_failed_post(
    pre: PaperServerUpdater,
    post: PaperServerUpdater,
    r: UpdateAdvance,
    e: UpdateErrorV,
) -> bool {
    &&& post.phase == UpdatePhase::Finished
    &&& (r matches UpdateAdvance::Failed(err) && err@ == e)
    &&& post.event_handler@ == pre.event_handler@.push(
        ev_update_failed(pre.unit_id@, spec_update_error_text(e)),
    )
}

impl PaperServerUpdater {
    /// What holds of the machine between steps.
    pub open spec fn wf(self) -> bool {
        &&& (self.phase == UpdatePhase::Resolving || self.phase == UpdatePhase::Fetching
            || self.phase == UpdatePhase::Downloading || self.phase == UpdatePhase::Patching
            || self.phase == UpdatePhase::WritingUnitFile) ==> (self.unit_config is Some
            && self.server_config is Some)
        &&& (self.phase == UpdatePhase::Downloading || self.phase == UpdatePhase::Patching
            || self.phase == UpdatePhase::WritingUnitFile) ==> self.artifact is Some
        &&& self.phase == UpdatePhase::WritingUnitFile ==> self.result is Some
    }

    /// Create a new updater for paper servers
    pub fn new(unit_id: String, unit_file_path: String, event_handler: EventHandler) -> (r:
        PaperServerUpdater)
        ensures
            r.unit_id@ == unit_id@,
            r.unit_file_path@ == unit_file_path@,
            r.event_handler@ == event_handler@,
            r.phase == UpdatePhase::Idle,
            r.wf(),
    {
        PaperServerUpdater {
            unit_id,
            unit_file_path,
            event_handler,
            phase: UpdatePhase::Idle,
            version_arg: Option::None,
            unit_config: Option::None,
            server_config: Option::None,
            artifact: Option::None,
            result: Option::None,
        }
    }

    /// Begins an update: raises the update-check progress event, records
    /// the unit's current definition, and asks the repository turn — the
    /// latest version when no target was requested, the requested
    /// artifact directly otherwise.
    pub fn update_server(
        &mut self,
        server_version: Option<Version>,
        server_config: ServerConfig,
        unit_config: UnitConfig,
    ) -> (r: UpdateStep)
        requires
            old(self).phase == UpdatePhase::Idle,
        ensures
            final(self).wf(),
            final(self).unit_id@ == old(self).unit_id@,
            final(self).unit_file_path@ == old(self).unit_file_path@,
            final(self).version_arg == server_version,
            final(self).unit_config.deep_view() == Option::Some(unit_config@),
            final(self).server_config.deep_view() == Option::Some(server_config@),
            final(self).event_handler@ == old(self).event_handler@.push(
                ev_progress(old(self).unit_id@, "checking for update"@),
            ),
            match server_version {
                Option::None => final(self).phase == UpdatePhase::Resolving && r@
                    == UpdateStepV::ResolveVersion,
                Option::Some(v) => final(self).phase == UpdatePhase::Fetching && r@ == (
                UpdateStepV::FetchArtifact { version: v, latest: false }),
            },
    {
        let ev = progress_event(&self.unit_id, "checking for update");
        self.event_handler.raise_event(self.unit_id.as_str(), ev);
        self.version_arg = server_version;
        self.unit_config = Option::Some(unit_config);
        self.server_config = Option::Some(server_config);
        match server_version {
            Option::None => {
                self.phase = UpdatePhase::Resolving;
                UpdateStep::ResolveVersion
            },
            Option::Some(v) => {
                self.phase = UpdatePhase::Fetching;
                UpdateStep::FetchArtifact { version: v, latest: false }
            },
        }
    }

    /// Consumes the report on the last step and decides the next one.
    pub fn advance(&mut self, outcome: UpdateOutcome) -> (r: UpdateAdvance)
        requires
            old(self).wf(),
            update_outcome_fits(old(self).phase, outcome@),
        ensures
            final(self).wf(),
            update_request_kept(*old(self), *final(self)),
            match outcome@ {
                UpdateOutcomeV::VersionResolved { result } => match result {
                    Result::Err(e) => update_failed_post(
                        *old(self),
                        *final(self),
                        r,
                        UpdateErrorV::DownloadFailed(spec_repo_error_text(e)),
                    ),
                    Result::Ok(v) => {
                        &&& final(self).phase == UpdatePhase::Fetching
                        &&& final(self).event_handler@ == old(self).event_handler@
                        &&& (r matches UpdateAdvance::Next(s) && s@ == (
                        UpdateStepV::FetchArtifact { version: v, latest: true }))
                    },
                },
                UpdateOutcomeV::ArtifactFetched { result } => match result {
                    Result::Err(e) => update_failed_post(
                        *old(self),
                        *final(self),
                        r,
                        UpdateErrorV::DownloadFailed(spec_repo_error_text(e)),
                    ),
                    Result::Ok(a) => {
                        if spec_up_to_date(
                            old(self).server_config.deep_view().unwrap().version,
                            a.version,
                        ) {
                            update_failed_post(
                                *old(self),
                                *final(self),
                                r,
                                UpdateErrorV::AlreadyUpToDate,
                            )
                        } else {
                            &&& final(self).phase == UpdatePhase::Downloading
                            &&& (final(self).artifact matches Option::Some(stored) && stored@ == a)
                            &&& final(self).event_handler@ == old(self).event_handler@.push(
                                ev_progress(old(self).unit_id@, "downloading jar"@),
                            )
                            &&& (r matches UpdateAdvance::Next(s) && s@ == (
                            UpdateStepV::DownloadArtifact {
                                artifact: a,
                                dest: old(self).server_config.deep_view().unwrap().path + "/"@
                                    + spec_jar_name(a.version),
                            }))
                        }
                    },
                },
                UpdateOutcomeV::ArtifactDownloaded { error } => match error {
                    Option::Some(m) => update_failed_post(
                        *old(self),
                        *final(self),
                        r,
                        UpdateErrorV::DownloadFailed(m),
                    ),
                    Option::None => {
                        &&& final(self).phase == UpdatePhase::Patching
                        &&& final(self).artifact.deep_view() == old(self).artifact.deep_view()
                        &&& final(self).event_handler@ == old(self).event_handler@.push(
                            ev_progress(old(self).unit_id@, "patching jar"@),
                        )
                        &&& old(self).artifact matches Option::Some(a) && (r matches
                        UpdateAdvance::Next(s) && s@ == (UpdateStepV::RunPatch {
                            dir: old(self).server_config.deep_view().unwrap().path,
                            jar: spec_jar_name(a.version),
                        }))
                    },
                },
                UpdateOutcomeV::PatchFinished { ok, stderr } => {
                    if !ok {
                        update_failed_post(
                            *old(self),
                            *final(self),
                            r,
                            UpdateErrorV::PerformPatch(stderr),
                        )
                    } else {
                        &&& old(self).artifact matches Option::Some(a)
                        &&& final(self).phase == UpdatePhase::WritingUnitFile
                        &&& final(self).event_handler@ == old(self).event_handler@
                        &&& (final(self).result matches Option::Some(c) && c@ == updated_config(
                            old(self).unit_config.deep_view().unwrap(),
                            old(self).server_config.deep_view().unwrap(),
                            a.version,
                        ))
                        &&& (r matches UpdateAdvance::Next(s) && s@ == (
                        UpdateStepV::WriteUnitFile {
                            path: old(self).unit_file_path@,
                            contents: spec_render_unit_file(
                                updated_config(
                                    old(self).unit_config.deep_view().unwrap(),
                                    old(self).server_config.deep_view().unwrap(),
                                    a.version,
                                ),
                            ),
                        }))
                    }
                },
                UpdateOutcomeV::UnitFileWritten { error } => match error {
                    Option::Some(m) => update_failed_post(
                        *old(self),
                        *final(self),
                        r,
                        UpdateErrorV::WriteUnitFile(m),
                    ),
                    Option::None => {
                        &&& final(self).phase == UpdatePhase::Finished
                        &&& old(self).result matches Option::Some(c) && (r matches
                        UpdateAdvance::Done(d) && d@ == c@)
                        &&& final(self).event_handler@ == old(self).event_handler@.push(
                            ev_update_complete(old(self).unit_id@),
                        )
                    },
                },
            },
    {
        match outcome {
            UpdateOutcome::VersionResolved { result } => match result {
                Result::Err(e) => self.fail(UpdateError::DownloadFailed(e.text())),
                Result::Ok(v) => {
                    self.phase = UpdatePhase::Fetching;
                    UpdateAdvance::Next(UpdateStep::FetchArtifact { version: v, latest: true })
                },
            },
            UpdateOutcome::ArtifactFetched { result } => match result {
                Result::Err(e) => self.fail(UpdateError::DownloadFailed(e.text())),
                Result::Ok(a) => {
                    let current = match &self.server_config {
                        Option::Some(c) => c.version,
                        Option::None => vstd::pervasive::unreached(),
                    };
                    if up_to_date(&current, &a.version) {
                        self.fail(UpdateError::AlreadyUpToDate)
                    } else {
                        self.event_handler.raise_event(
                            self.unit_id.as_str(),
                            progress_event(&self.unit_id, "downloading jar"),
                        );
                        self.phase = UpdatePhase::Downloading;
                        let mut dest = match &self.server_config {
                            Option::Some(c) => c.path.clone(),
                            Option::None => vstd::pervasive::unreached(),
                        };
                        dest.append("/");
                        let jar = jar_name(&a.version);
                        dest.append(jar.as_str());
                        let dup = a.duplicate();
                        self.artifact = Option::Some(a);
                        UpdateAdvance::Next(UpdateStep::DownloadArtifact { artifact: dup, dest })
                    }
                },
            },
            UpdateOutcome::ArtifactDownloaded { error } => match error {
                Option::Some(m) => self.fail(UpdateError::DownloadFailed(m)),
                Option::None => {
                    self.event_handler.raise_event(
                        self.unit_id.as_str(),
                        progress_event(&self.unit_id, "patching jar"),
                    );
                    self.phase = UpdatePhase::Patching;
                    let dir = match &self.server_config {
                        Option::Some(c) => c.path.clone(),
                        Option::None => vstd::pervasive::unreached(),
                    };
                    let jar = match &self.artifact {
                        Option::Some(a) => jar_name(&a.version),
                        Option::None => vstd::pervasive::unreached(),
                    };
                    UpdateAdvance::Next(UpdateStep::RunPatch { dir, jar })
                },
            },
            UpdateOutcome::PatchFinished { ok, stderr } => {
                if !ok {
                    self.fail(UpdateError::PerformPatch(stderr))
                } else {
                    let target = match &self.artifact {
                        Option::Some(a) => a.version,
                        Option::None => vstd::pervasive::unreached(),
                    };
                    let unit = match &self.unit_config {
                        Option::Some(u) => u.duplicate(),
                        Option::None => vstd::pervasive::unreached(),
                    };
                    let server_old = match &self.server_config {
                        Option::Some(c) => c.duplicate(),
                        Option::None => vstd::pervasive::unreached(),
                    };
                    let server = ServerConfig {
                        jar: jar_name(&target),
                        version: target,
                        ..server_old
                    };
                    let config = ServerUnitConfig { unit, server };
                    let contents = render_unit_file(&config);
                    let path = self.unit_file_path.clone();
                    self.result = Option::Some(config);
                    self.phase = UpdatePhase::WritingUnitFile;
                    UpdateAdvance::Next(UpdateStep::WriteUnitFile { path, contents })
                }
            },
            UpdateOutcome::UnitFileWritten { error } => match error {
                Option::Some(m) => self.fail(UpdateError::WriteUnitFile(m)),
                Option::None => {
                    let done = match &self.result {
                        Option::Some(c) => c.duplicate(),
                        Option::None => vstd::pervasive::unreached(),
                    };
                    self.event_handler.raise_event(
                        self.unit_id.as_str(),
                        ServerEvent::UpdateComplete { server_id: self.unit_id.clone() },
                    );
                    self.phase = UpdatePhase::Finished;
                    UpdateAdvance::Done(done)
                },
            },
        }
    }

    /// Concludes the update with an error: raises the failure event and
    /// returns the error.
    fn fail(&mut self, e: UpdateError) -> (r: UpdateAdvance)
        ensures
            update_failed_post(*old(self), *final(self), r, e@),
            update_request_kept(*old(self), *final(self)),
            final(self).artifact.deep_view() == old(self).artifact.deep_view(),
            final(self).result.deep_view() == old(self).result.deep_view(),
    {
        let text = e.text();
        self.event_handler.raise_event(
            self.unit_id.as_str(),
            ServerEvent::UpdateFailed { server_id: self.unit_id.clone(), error: text },
        );
        self.phase = UpdatePhase::Finished;
        UpdateAdvance::Failed(e)
    }
}

} // verus!

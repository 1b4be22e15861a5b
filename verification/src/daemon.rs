//! The daemon's dispatcher: the unit table, the status projection, and the
//! single consumer that executes client commands and daemon events.  The
//! dispatcher only decides; every outside effect it wants performed travels
//! out as a [`DaemonAction`], and every observation (a process exit, a
//! log-derived state change) travels in through a note method.

use crate::config::{ServerUnitConfig, ServerUnitConfigV, UnitConfig, UnitConfigV};
use crate::install::{InstallRequest, InstallRequestV};
use crate::ipc::{
    DaemonCmd, DaemonCmdV, DaemonIpcEvent, DaemonResponse, DaemonResponseV, ServerEvent,
    ServerEventType, ServerEventV,
};
use crate::text::{expect_at, str_eq};
use crate::update::{UpdateRequest, UpdateRequestV};
use crate::version::Version;
use crate::{ServerInfo, ServerInfoV, ServerStatus, ServerType, Unit};
use vstd::prelude::*;
use vstd::string::*;

verus! {

/// State of a Minecraft server process based on the log output.
///
/// Once a server has reached [`OutputState::Errored`] the log output moves
/// it no further; only process exit still changes its reported status.
#[derive(Debug, Clone, Copy, PartialEq, Eq, Structural)]
pub enum OutputState {
    /// The state of the server cannot be determined from the log output
    Unknown,
    /// The server is starting
    Starting,
    /// The server has started
    Started,
    /// The server has encountered an error (e.g. exception, panic, ...)
    Errored,
    /// The server is shutting down.
    Stopping,
    /// The server has shut down.
    Stopped,
}

/// How a unit's child process ended, as observed by a non-blocking wait.
#[derive(Debug, Clone, Copy, PartialEq, Eq, Structural)]
pub enum ProcessExit {
    /// The process exited with success.
    Clean,
    /// The process exited with a failure, with its exit code when one
    /// exists.
    Failed(Option<i32>),
}

/// A unit under the daemon's management: its definition, and what the
/// daemon knows of its process.  Process liveness and the log-derived state
/// are plain data here; whoever runs the daemon keeps them current through
/// [`DaemonServer::note_exit`] and [`DaemonServer::note_output_state`].
#[derive(Debug)]
pub struct DaemonServer {
    /// The unit's id (equals `config.unit.id`).
    pub server_id: String,
    /// The unit's on-disk definition.
    pub config: ServerUnitConfig,
    /// The path of the unit's file.
    pub unit_file: String,
    /// Whether the daemon holds a child process for this unit.
    pub has_process: bool,
    /// How the child ended, when a non-blocking wait saw it end.
    pub exit: Option<ProcessExit>,
    /// The log-derived state, once a log interpreter is attached.
    pub output_state: Option<OutputState>,
}

/// Spec view of a [`DaemonServer`].
pub struct DaemonServerV {
    pub server_id: Seq<char>,
    pub config: ServerUnitConfigV,
    pub unit_file: Seq<char>,
    pub has_process: bool,
    pub exit: Option<ProcessExit>,
    pub output_state: Option<OutputState>,
}

impl View for DaemonServer {
    type V = DaemonServerV;

    open spec fn view(&self) -> DaemonServerV {
        DaemonServerV {
            server_id: self.server_id@,
            config: self.config@,
            unit_file: self.unit_file@,
            has_process: self.has_process,
            exit: self.exit,
            output_state: self.output_state,
        }
    }
}

impl DeepView for DaemonServer {
    type V = DaemonServerV;

    open spec fn deep_view(&self) -> DaemonServerV {
        self@
    }
}

/// The status a unit reports to clients: the authoritative projection.
/// Without a child the unit is down; an exited child reports its exit;
/// otherwise the log-derived state decides.
pub open spec fn spec_status(u: DaemonServerV) -> ServerStatus {
    if !u.has_process {
        ServerStatus::Down
    } else {
        match u.exit {
            Option::Some(ProcessExit::Clean) => ServerStatus::Down,
            Option::Some(ProcessExit::Failed(code)) => ServerStatus::Errored(code),
            Option::None => match u.output_state {
                Option::None => ServerStatus::Unknown,
                Option::Some(os) => match os {
                    OutputState::Unknown => ServerStatus::Unknown,
                    OutputState::Starting => ServerStatus::Starting,
                    OutputState::Started => ServerStatus::Running,
                    OutputState::Errored => ServerStatus::Errored(Option::None),
                    OutputState::Stopping => ServerStatus::Stopping,
                    OutputState::Stopped => ServerStatus::Down,
                },
            },
        }
    }
}

/// Law: a unit without a child process always reports `Down`.
pub proof fn lemma_no_child_means_down(u: DaemonServerV)
    requires
        !u.has_process,
    ensures
        spec_status(u) == ServerStatus::Down,
{
}

/// Law: a unit reports `Running` only when the log-derived state has
/// reached `Started` and its child process is alive and has not exited.
pub proof fn lemma_running_needs_started(u: DaemonServerV)
    requires
        spec_status(u) == ServerStatus::Running,
    ensures
        u.has_process,
        u.exit is None,
        u.output_state == Option::Some(OutputState::Started),
{
}

/// A well-formed unit record: the id mirrors the definition's id, and the
/// definition is of the one supported server kind.
pub open spec fn unit_wf(u: DaemonServerV) -> bool {
    &&& u.server_id == u.config.unit.id
    &&& u.config.server.kind == "paper"@
}

/// The record of a freshly spawned unit: a live child with nothing known
/// of it yet.
pub open spec fn started_unit(u: DaemonServerV) -> DaemonServerV {
    DaemonServerV {
        has_process: true,
        exit: Option::None,
        output_state: Option::Some(OutputState::Unknown),
        ..u
    }
}

/// The record of a unit whose child was taken away for stopping.
pub open spec fn stopped_unit(u: DaemonServerV) -> DaemonServerV {
    DaemonServerV { has_process: false, exit: Option::None, ..u }
}

impl DaemonServer {
    /// The unit's reported status.
    pub fn status(&self) -> (r: ServerStatus)
        ensures
            r == spec_status(self@),
    {
        if !self.has_process {
            ServerStatus::Down
        } else {
            match self.exit {
                Option::Some(ProcessExit::Clean) => ServerStatus::Down,
                Option::Some(ProcessExit::Failed(code)) => ServerStatus::Errored(code),
                Option::None => match self.output_state {
                    Option::None => ServerStatus::Unknown,
                    Option::Some(os) => match os {
                        OutputState::Unknown => ServerStatus::Unknown,
                        OutputState::Starting => ServerStatus::Starting,
                        OutputState::Started => ServerStatus::Running,
                        OutputState::Errored => ServerStatus::Errored(Option::None),
                        OutputState::Stopping => ServerStatus::Stopping,
                        OutputState::Stopped => ServerStatus::Down,
                    },
                },
            }
        }
    }

    /// Marks the unit as spawned: a live child, exit unknown, derived state
    /// reset.  The caller owes the actual spawn (a [`DaemonAction::SpawnUnit`]).
    pub fn start(&mut self)
        ensures
            final(self)@ == started_unit(old(self)@),
    {
        self.has_process = true;
        self.exit = Option::None;
        self.output_state = Option::Some(OutputState::Unknown);
    }

    /// Takes the child away for stopping: afterwards the unit reports
    /// `Down`.  Returns whether there was a child to take.
    pub fn stop(&mut self) -> (took: bool)
        ensures
            took == old(self)@.has_process,
            took ==> final(self)@ == stopped_unit(old(self)@),
            !took ==> final(self)@ == old(self)@,
    {
        if self.has_process {
            self.has_process = false;
            self.exit = Option::None;
            true
        } else {
            false
        }
    }

    /// Records what a non-blocking wait on the child reported.
    pub fn note_exit(&mut self, exit: Option<ProcessExit>)
        ensures
            final(self)@ == (DaemonServerV { exit, ..old(self)@ }),
    {
        self.exit = exit;
    }

    /// Records a log-derived state transition.
    pub fn note_output_state(&mut self, os: OutputState)
        ensures
            final(self)@ == (DaemonServerV {
                output_state: Option::Some(os),
                ..old(self)@
            }),
    {
        self.output_state = Option::Some(os);
    }
}

impl Unit for DaemonServer {
    open spec fn spec_unit_config(&self) -> UnitConfigV {
        self@.config.unit
    }

    open spec fn spec_unit_file_path(&self) -> Seq<char> {
        self@.unit_file
    }

    fn unit_file_path(&self) -> (r: String) {
        self.unit_file.clone()
    }

    fn unit_config(&self) -> (r: UnitConfig) {
        self.config.unit.duplicate()
    }
}

/// Builds the unit record for a loaded server definition.  Only the
/// `paper` server kind is supported; any other kind is refused.
pub fn create_server(server_unit_config: ServerUnitConfig, unit_file: String) -> (r: Result<
    DaemonServer,
    (),
>)
    ensures
        r is Ok <==> server_unit_config@.server.kind == "paper"@,
        r matches Ok(u) ==> u@ == (DaemonServerV {
            server_id: server_unit_config@.unit.id,
            config: server_unit_config@,
            unit_file: unit_file@,
            has_process: false,
            exit: Option::None,
            output_state: Option::None,
        }),
        r matches Ok(u) ==> unit_wf(u@),
{
    if str_eq(server_unit_config.server.kind.as_str(), "paper") {
        let server_id = server_unit_config.unit.id.clone();
        Result::Ok(
            DaemonServer {
                server_id,
                config: server_unit_config,
                unit_file,
                has_process: false,
                exit: Option::None,
                output_state: Option::None,
            },
        )
    } else {
        Result::Err(())
    }
}

/// Event for the main daemon thread.
#[derive(Debug)]
pub enum DaemonEvent {
    /// An incoming command from a client
    IncomingCmd {
        /// The id of the client that sent the command.
        id: u32,
        /// The received command.
        cmd: DaemonCmd,
    },
    /// Deliver an event to a given client
    SendEvent { client_id: u32, event: ServerEvent },
    /// Integrate a freshly installed or updated unit definition.
    AddServerUnit { server_unit_config: ServerUnitConfig, unit_file: String },
    /// Begin the coordinated shutdown.
    StopDaemon,
    /// Broadcast a daemon event to every client, then exit.
    SendDaemonEvent(DaemonIpcEvent),
}

/// Spec view of a [`DaemonEvent`].
pub enum DaemonEventV {
    IncomingCmd { id: u32, cmd: DaemonCmdV },
    SendEvent { client_id: u32, event: ServerEventV },
    AddServerUnit { server_unit_config: ServerUnitConfigV, unit_file: Seq<char> },
    StopDaemon,
    SendDaemonEvent(DaemonIpcEvent),
}

impl View for DaemonEvent {
    type V = DaemonEventV;

    open spec fn view(&self) -> DaemonEventV {
        match self {
            DaemonEvent::IncomingCmd { id, cmd } => DaemonEventV::IncomingCmd {
                id: *id,
                cmd: cmd@,
            },
            DaemonEvent::SendEvent { client_id, event } => DaemonEventV::SendEvent {
                client_id: *client_id,
                event: event@,
            },
            DaemonEvent::AddServerUnit { server_unit_config, unit_file } => {
                DaemonEventV::AddServerUnit {
                    server_unit_config: server_unit_config@,
                    unit_file: unit_file@,
                }
            },
            DaemonEvent::StopDaemon => DaemonEventV::StopDaemon,
            DaemonEvent::SendDaemonEvent(e) => DaemonEventV::SendDaemonEvent(*e),
        }
    }
}

/// An outside effect the dispatcher wants performed, in list order.
#[derive(Debug)]
pub enum DaemonAction {
    /// Spawn the unit's server process (stdin and stdout piped), attach a
    /// log interpreter to its stdout, and keep the child handle.
    SpawnUnit { server_id: String },
    /// Write `line` and a newline to the unit's stdin, when the unit has
    /// one; silently drop the line otherwise.
    SendStdin { server_id: String, line: String },
    /// Register a subscription with the event manager.
    Subscribe { server_id: String, event_type: ServerEventType, client_id: u32 },
    /// Raise an event through the event manager.
    RaiseEvent { server_id: String, event: ServerEvent },
    /// Run an install worker for this request.
    LaunchInstall { request: InstallRequest },
    /// Run an update worker for this request.
    LaunchUpdate { request: UpdateRequest },
    /// Put [`DaemonEvent::StopDaemon`] on the daemon's own queue.
    EnqueueStopDaemon,
    /// Stop a unit's child: when `await_start` is set, first wait until the
    /// unit's status leaves `Starting`; write `stop` and a newline to its
    /// stdin; take the child handle; when `wait_exit` is set, block until
    /// the child exits.
    StopUnit { server_id: String, await_start: bool, wait_exit: bool },
    /// Put [`DaemonEvent::SendDaemonEvent`] (stopped) on the daemon's own
    /// queue, after every pending `StopUnit` finished.
    EnqueueDaemonStopped,
}

/// Spec view of a [`DaemonAction`].
pub enum DaemonActionV {
    SpawnUnit { server_id: Seq<char> },
    SendStdin { server_id: Seq<char>, line: Seq<char> },
    Subscribe { server_id: Seq<char>, event_type: ServerEventType, client_id: u32 },
    RaiseEvent { server_id: Seq<char>, event: ServerEventV },
    LaunchInstall { request: InstallRequestV },
    LaunchUpdate { request: UpdateRequestV },
    EnqueueStopDaemon,
    StopUnit { server_id: Seq<char>, await_start: bool, wait_exit: bool },
    EnqueueDaemonStopped,
}

impl View for DaemonAction {
    type V = DaemonActionV;

    open spec fn view(&self) -> DaemonActionV {
        match self {
            DaemonAction::SpawnUnit { server_id } => DaemonActionV::SpawnUnit {
                server_id: server_id@,
            },
            DaemonAction::SendStdin { server_id, line } => DaemonActionV::SendStdin {
                server_id: server_id@,
                line: line@,
            },
            DaemonAction::Subscribe { server_id, event_type, client_id } => {
                DaemonActionV::Subscribe {
                    server_id: server_id@,
                    event_type: *event_type,
                    client_id: *client_id,
                }
            },
            DaemonAction::RaiseEvent { server_id, event } => DaemonActionV::RaiseEvent {
                server_id: server_id@,
                event: event@,
            },
            DaemonAction::LaunchInstall { request } => DaemonActionV::LaunchInstall {
                request: request@,
            },
            DaemonAction::LaunchUpdate { request } => DaemonActionV::LaunchUpdate {
                request: request@,
            },
            DaemonAction::EnqueueStopDaemon => DaemonActionV::EnqueueStopDaemon,
            DaemonAction::StopUnit { server_id, await_start, wait_exit } => {
                DaemonActionV::StopUnit {
                    server_id: server_id@,
                    await_start: *await_start,
                    wait_exit: *wait_exit,
                }
            },
            DaemonAction::EnqueueDaemonStopped => DaemonActionV::EnqueueDaemonStopped,
        }
    }
}

impl DeepView for DaemonAction {
    type V = DaemonActionV;

    open spec fn deep_view(&self) -> DaemonActionV {
        self@
    }
}


/// A unit id occurs in the table.
pub open spec fn has_unit(units: Seq<DaemonServerV>, id: Seq<char>) -> bool {
    exists|i: int| 0 <= i < units.len() && (#[trigger] units[i]).server_id == id
}

/// The table projected to the info reported by `List`.
pub open spec fn info_of() -> spec_fn(DaemonServerV) -> ServerInfoV {
    |u: DaemonServerV|
        ServerInfoV {
            name: u.server_id,
            path: u.config.server.path,
            server_type: ServerType::Paper,
            server_version: u.config.server.version,
            server_status: spec_status(u),
        }
}

/// The infos of the whole table, in table order.
pub open spec fn spec_infos(units: Seq<DaemonServerV>) -> Seq<ServerInfoV> {
    units.map_values(info_of())
}

/// A subscription action.
pub open spec fn sub_action(id: Seq<char>, event_type: ServerEventType, client_id: u32) -> DaemonActionV {
    DaemonActionV::Subscribe { server_id: id, event_type, client_id }
}

/// Whether the coordinated shutdown stops a unit: every unit whose status
/// is starting, running, updating or in lockdown.
pub open spec fn shutdown_stops() -> spec_fn(DaemonServerV) -> bool {
    |u: DaemonServerV|
        match spec_status(u) {
            ServerStatus::Starting => true,
            ServerStatus::Running => true,
            ServerStatus::Updating => true,
            ServerStatus::Lockdown => true,
            _ => false,
        }
}

/// The stop action the shutdown issues for a unit: units still starting
/// are awaited up to running first; every child is waited for.
pub open spec fn shutdown_action() -> spec_fn(DaemonServerV) -> DaemonActionV {
    |u: DaemonServerV|
        DaemonActionV::StopUnit {
            server_id: u.server_id,
            await_start: spec_status(u) == ServerStatus::Starting,
            wait_exit: true,
        }
}

/// How the shutdown leaves a unit record.
pub open spec fn shutdown_update() -> spec_fn(DaemonServerV) -> DaemonServerV {
    |u: DaemonServerV|
        if shutdown_stops()(u) {
            stopped_unit(u)
        } else {
            u
        }
}

/// What the dispatcher hands back for one consumed event: responses to
/// route to clients, outside actions to perform in order, and whether the
/// daemon process is to exit now.
#[derive(Debug)]
pub struct DispatcherStep {
    /// `(client, response)` pairs to send, in order.
    pub replies: Vec<(u32, DaemonResponse)>,
    /// Outside actions to perform, in order.
    pub actions: Vec<DaemonAction>,
    /// The daemon is to exit with success after the replies went out.
    pub exit_process: bool,
}

/// The dispatcher's state: the unit table, the registered clients, and the
/// client id counter.  The daemon's version is fixed at construction.
#[derive(Debug)]
pub struct Daemon {
    /// The version the daemon advertises.
    pub version: Version,
    /// The unit table, keyed by each unit's id.
    pub units: Vec<DaemonServer>,
    /// The ids of the clients whose reply channels are registered.
    pub clients: Vec<u32>,
    /// The next client id to assign; ids are never reused.
    pub next_client: u32,
}

/// Spec view of the [`Daemon`].
pub struct DaemonV {
    pub version: Version,
    pub units: Seq<DaemonServerV>,
    pub clients: Seq<u32>,
    pub next_client: u32,
}

impl View for Daemon {
    type V = DaemonV;

    open spec fn view(&self) -> DaemonV {
        DaemonV {
            version: self.version,
            units: self.units.deep_view(),
            clients: self.clients.deep_view(),
            next_client: self.next_client,
        }
    }
}

/// The dispatcher's invariant: every record is well formed and no two
/// units share an id.
pub open spec fn daemon_wf(d: DaemonV) -> bool {
    &&& forall|i: int| 0 <= i < d.units.len() ==> unit_wf(#[trigger] d.units[i])
    &&& forall|i: int, j: int|
        0 <= i < j < d.units.len() ==> (#[trigger] d.units[i]).server_id != (
        #[trigger] d.units[j]).server_id
}
/// The predicate keeping the other clients' registrations.
pub open spec fn keeps_other_ids(client_id: u32) -> spec_fn(u32) -> bool {
    |c: u32| c != client_id
}

/// Nothing but the unit table changed.
pub open spec fn units_only_changed(pre: DaemonV, post: DaemonV) -> bool {
    &&& post.version == pre.version
    &&& post.clients == pre.clients
    &&& post.next_client == pre.next_client
}

/// The subscription an id list turns into.
pub open spec fn subs_for(event_type: ServerEventType, client_id: u32) -> spec_fn(Seq<char>) -> DaemonActionV {
    |id: Seq<char>| sub_action(id, event_type, client_id)
}

/// What `Start` does: an unknown id is answered with `ServerNotFound`;
/// otherwise, with `wait`, the caller is subscribed to the starting and
/// started events first, and the unit is spawned only from `Down` — so the
/// subscriptions stand strictly before the unit leaves `Down`.  Without
/// `wait` the reply is `ServerStarted` at once.
pub open spec fn start_cmd_post(
    pre: DaemonV,
    post: DaemonV,
    id: Seq<char>,
    wait: bool,
    client: u32,
    resp: DaemonResponseV,
    acts: Seq<DaemonActionV>,
) -> bool {
    if !has_unit(pre.units, id) {
        &&& post == pre
        &&& resp == (DaemonResponseV::ServerNotFound { server_id: id })
        &&& acts.len() == 0
    } else {
        &&& units_only_changed(pre, post)
        &&& forall|i: int|
            0 <= i < pre.units.len() && (#[trigger] pre.units[i]).server_id == id ==> {
                let down = spec_status(pre.units[i]) == ServerStatus::Down;
                &&& post.units == if down {
                    pre.units.update(i, started_unit(pre.units[i]))
                } else {
                    pre.units
                }
                &&& acts == (if wait {
                    seq![
                        sub_action(id, ServerEventType::ServerStarting, client),
                        sub_action(id, ServerEventType::ServerStarted, client),
                    ]
                } else {
                    Seq::<DaemonActionV>::empty()
                }) + (if down {
                    seq![DaemonActionV::SpawnUnit { server_id: id }]
                } else {
                    Seq::<DaemonActionV>::empty()
                })
                &&& resp == if wait {
                    DaemonResponseV::Ack
                } else {
                    DaemonResponseV::ServerStarted { server_id: id }
                }
            }
    }
}

/// What `Stop` does, symmetric to `Start`: from `Running` the unit gets a
/// `stop` line and loses its child; with `wait` the caller is subscribed to
/// the stopping and stopped events first.
pub open spec fn stop_cmd_post(
    pre: DaemonV,
    post: DaemonV,
    id: Seq<char>,
    wait: bool,
    client: u32,
    resp: DaemonResponseV,
    acts: Seq<DaemonActionV>,
) -> bool {
    if !has_unit(pre.units, id) {
        &&& post == pre
        &&& resp == (DaemonResponseV::ServerNotFound { server_id: id })
        &&& acts.len() == 0
    } else {
        &&& units_only_changed(pre, post)
        &&& forall|i: int|
            0 <= i < pre.units.len() && (#[trigger] pre.units[i]).server_id == id ==> {
                let running = spec_status(pre.units[i]) == ServerStatus::Running;
                &&& post.units == if running {
                    pre.units.update(i, stopped_unit(pre.units[i]))
                } else {
                    pre.units
                }
                &&& acts == (if wait {
                    seq![
                        sub_action(id, ServerEventType::ServerStopping, client),
                        sub_action(id, ServerEventType::ServerStopped, client),
                    ]
                } else {
                    Seq::<DaemonActionV>::empty()
                }) + (if running {
                    seq![
                        DaemonActionV::StopUnit {
                            server_id: id,
                            await_start: false,
                            wait_exit: false,
                        },
                    ]
                } else {
                    Seq::<DaemonActionV>::empty()
                })
                &&& resp == if wait {
                    DaemonResponseV::Ack
                } else {
                    DaemonResponseV::ServerStopped { server_id: id }
                }
            }
    }
}

/// What `InstallServer` does: the caller is subscribed to the completion,
/// failure and progress events of the new unit; a colliding id or an
/// unsupported server kind raises the failure event instead of a worker;
/// the reply is the acknowledgement either way.
pub open spec fn install_cmd_post(
    pre: DaemonV,
    post: DaemonV,
    req: InstallRequestV,
    client: u32,
    resp: DaemonResponseV,
    acts: Seq<DaemonActionV>,
) -> bool {
    &&& post == pre
    &&& resp == DaemonResponseV::Ack
    &&& acts == seq![
        sub_action(req.unit_id, ServerEventType::InstallationComplete, client),
        sub_action(req.unit_id, ServerEventType::InstallationFailed, client),
        sub_action(req.unit_id, ServerEventType::ActionProgress, client),
    ] + (if has_unit(pre.units, req.unit_id) {
        seq![
            DaemonActionV::RaiseEvent {
                server_id: req.unit_id,
                event: ServerEventV::InstallationFailed {
                    server_id: req.unit_id,
                    error: "a unit with that name already exists"@,
                },
            },
        ]
    } else if req.server_type != ServerType::Paper {
        seq![
            DaemonActionV::RaiseEvent {
                server_id: req.unit_id,
                event: ServerEventV::InstallationFailed {
                    server_id: req.unit_id,
                    error: crate::install::spec_install_error_text(
                        crate::install::InstallErrorV::UnsupportedServerType(req.server_type),
                    ),
                },
            },
        ]
    } else {
        seq![DaemonActionV::LaunchInstall { request: req }]
    })
}

/// What `UpdateServer` does: an unknown id is answered with
/// `ServerNotFound`; otherwise the caller is subscribed to the update
/// events and a worker is launched with the unit's current definition.
pub open spec fn update_cmd_post(
    pre: DaemonV,
    post: DaemonV,
    id: Seq<char>,
    server_version: Option<Version>,
    client: u32,
    resp: DaemonResponseV,
    acts: Seq<DaemonActionV>,
) -> bool {
    if !has_unit(pre.units, id) {
        &&& post == pre
        &&& resp == (DaemonResponseV::ServerNotFound { server_id: id })
        &&& acts.len() == 0
    } else {
        &&& post == pre
        &&& resp == DaemonResponseV::Ack
        &&& forall|i: int|
            0 <= i < pre.units.len() && (#[trigger] pre.units[i]).server_id == id ==> acts
                == seq![
                sub_action(id, ServerEventType::UpdateComplete, client),
                sub_action(id, ServerEventType::UpdateFailed, client),
                sub_action(id, ServerEventType::ActionProgress, client),
                DaemonActionV::LaunchUpdate {
                    request: UpdateRequestV {
                        unit_id: id,
                        server_version,
                        unit_config: pre.units[i].config.unit,
                        server_config: pre.units[i].config.server,
                        unit_file_path: pre.units[i].unit_file,
                    },
                },
            ]
    }
}

/// What one consumed command does: the dispatcher computes exactly one
/// direct response for the issuing client, the listed outside actions, and
/// the table change stated per command.
pub open spec fn cmd_post(
    pre: DaemonV,
    post: DaemonV,
    cmd: DaemonCmdV,
    client: u32,
    resp: DaemonResponseV,
    acts: Seq<DaemonActionV>,
) -> bool {
    match cmd {
        DaemonCmdV::List => {
            &&& post == pre
            &&& acts.len() == 0
            &&& resp == (DaemonResponseV::List { servers: spec_infos(pre.units) })
        },
        DaemonCmdV::GetVersion => {
            &&& post == pre
            &&& acts.len() == 0
            &&& resp == (DaemonResponseV::Version { version: pre.version })
        },
        DaemonCmdV::Start { server_id, wait } => start_cmd_post(
            pre,
            post,
            server_id,
            wait,
            client,
            resp,
            acts,
        ),
        DaemonCmdV::Stop { server_id, wait } => stop_cmd_post(
            pre,
            post,
            server_id,
            wait,
            client,
            resp,
            acts,
        ),
        DaemonCmdV::SubscribeEvent { event_type, server_ids } => {
            &&& post == pre
            &&& resp == DaemonResponseV::Ack
            &&& acts == match server_ids {
                Option::None => Seq::<DaemonActionV>::empty(),
                Option::Some(ids) => ids.map_values(subs_for(event_type, client)),
            }
        },
        DaemonCmdV::InstallServer {
            unit_id,
            install_path,
            unit_file_path,
            server_version,
            server_type,
            accept_eula,
            server_name,
        } => install_cmd_post(
            pre,
            post,
            InstallRequestV {
                unit_id,
                install_path,
                unit_file_path,
                server_version,
                server_type,
                accept_eula,
                server_name,
            },
            client,
            resp,
            acts,
        ),
        DaemonCmdV::UpdateServer { unit_id, server_version } => update_cmd_post(
            pre,
            post,
            unit_id,
            server_version,
            client,
            resp,
            acts,
        ),
        DaemonCmdV::StopDaemon => {
            &&& post == pre
            &&& resp == DaemonResponseV::Ack
            &&& acts == seq![DaemonActionV::EnqueueStopDaemon]
        },
        DaemonCmdV::SendMessage { unit_id, message } => {
            if !has_unit(pre.units, unit_id) {
                &&& post == pre
                &&& resp == (DaemonResponseV::ServerNotFound { server_id: unit_id })
                &&& acts.len() == 0
            } else {
                &&& post == pre
                &&& resp == DaemonResponseV::Ack
                &&& acts == seq![
                    DaemonActionV::SendStdin { server_id: unit_id, line: "say "@ + message },
                ]
            }
        },
    }
}

impl Daemon {
    /// A daemon over an empty table, with no clients yet.
    pub fn new(version: Version) -> (r: Daemon)
        ensures
            r@.version == version,
            r@.units =~= Seq::<DaemonServerV>::empty(),
            r@.clients =~= Seq::<u32>::empty(),
            r@.next_client == 0,
            daemon_wf(r@),
    {
        Daemon { version, units: Vec::new(), clients: Vec::new(), next_client: 0 }
    }

    /// The index of the unit with the given id, when one exists.
    pub fn find_unit(&self, id: &str) -> (r: Option<usize>)
        ensures
            match r {
                Option::Some(i) => i < self@.units.len() && self@.units[i as int].server_id == id@,
                Option::None => !has_unit(self@.units, id@),
            },
    {
        let n = self.units.len();
        let mut i: usize = 0;
        while i < n
            invariant
                0 <= i <= n,
                n == self@.units.len(),
                forall|j: int| 0 <= j < i ==> (#[trigger] self@.units[j]).server_id != id@,
            decreases n - i,
        {
            if str_eq(self.units[i].server_id.as_str(), id) {
                return Option::Some(i);
            }
            i = i + 1;
        }
        Option::None
    }

    /// Assigns a fresh client id and registers its reply channel.  Ids are
    /// handed out monotonically and never reused within a daemon run.
    pub fn register_client(&mut self) -> (id: u32)
        requires
            old(self)@.next_client < u32::MAX,
        ensures
            id == old(self)@.next_client,
            final(self)@.clients =~= old(self)@.clients.push(id),
            final(self)@.next_client == old(self)@.next_client + 1,
            final(self)@.units == old(self)@.units,
            final(self)@.version == old(self)@.version,
    {
        let id = self.next_client;
        self.clients.push(id);
        self.next_client = self.next_client + 1;
        proof {
            assert(final(self)@.clients =~= old(self)@.clients.push(id));
        }
        id
    }

    /// Drops a client's reply channel registration (the client is gone).
    pub fn remove_client(&mut self, client_id: u32)
        ensures
            final(self)@.clients == old(self)@.clients.filter(keeps_other_ids(client_id)),
            final(self)@.units == old(self)@.units,
            final(self)@.version == old(self)@.version,
            final(self)@.next_client == old(self)@.next_client,
    {
        let ghost pred = keeps_other_ids(client_id);
        let mut kept: Vec<u32> = Vec::new();
        let n = self.clients.len();
        let mut i: usize = 0;
        proof {
            reveal(Seq::filter);
            assert(old(self)@.clients.subrange(0, 0) =~= Seq::<u32>::empty());
        }
        while i < n
            invariant
                0 <= i <= n,
                n == self.clients.len(),
                self@ == old(self)@,
                pred == keeps_other_ids(client_id),
                kept.deep_view() == old(self)@.clients.subrange(0, i as int).filter(pred),
            decreases n - i,
        {
            let ghost pre = kept.deep_view();
            let c = self.clients[i];
            proof {
                assert(old(self)@.clients.subrange(0, i + 1) =~= old(self)@.clients.subrange(
                    0,
                    i as int,
                ).push(old(self)@.clients[i as int]));
                crate::event::lemma_filter_push(
                    old(self)@.clients.subrange(0, i as int),
                    old(self)@.clients[i as int],
                    pred,
                );
            }
            if c != client_id {
                kept.push(c);
                proof {
                    assert(kept.deep_view() =~= pre.push(old(self)@.clients[i as int]));
                }
            }
            i = i + 1;
        }
        proof {
            assert(old(self)@.clients.subrange(0, n as int) =~= old(self)@.clients);
        }
        self.clients = kept;
        proof {
            assert(final(self)@.units =~= old(self)@.units);
        }
    }
}
impl Daemon {
    /// Computes the one direct response owed for a submitted command, the
    /// outside actions it entails (in order), and the table change, as
    /// [`cmd_post`] states per command.
    #[verifier::rlimit(100)]
    #[verifier::spinoff_prover]
    pub fn handle_cmd(&mut self, cmd: DaemonCmd, client_id: u32) -> (r: (
        DaemonResponse,
        Vec<DaemonAction>,
    ))
        requires
            daemon_wf(old(self)@),
        ensures
            daemon_wf(final(self)@),
            cmd_post(old(self)@, final(self)@, cmd@, client_id, r.0@, r.1.deep_view()),
    {
        match cmd {
            DaemonCmd::List => {
                let mut servers: Vec<ServerInfo> = Vec::new();
                let n = self.units.len();
                let mut i: usize = 0;
                while i < n
                    invariant
                        0 <= i <= n,
                        n == self@.units.len(),
                        self@ == old(self)@,
                        servers@.len() == i,
                        forall|j: int|
                            0 <= j < i ==> (#[trigger] servers@[j])@ == spec_infos(
                                old(self)@.units,
                            )[j],
                    decreases n - i,
                {
                    let u = &self.units[i];
                    servers.push(
                        ServerInfo {
                            name: u.server_id.clone(),
                            path: u.config.server.path.clone(),
                            server_type: ServerType::Paper,
                            server_version: u.config.server.version,
                            server_status: u.status(),
                        },
                    );
                    i = i + 1;
                }
                let resp = DaemonResponse::List { servers };
                proof {
                    assert(resp@ matches DaemonResponseV::List { servers: s } && s =~= spec_infos(
                        old(self)@.units,
                    ));
                }
                (resp, Vec::new())
            },
            DaemonCmd::GetVersion => (
                DaemonResponse::Version { version: self.version },
                Vec::new(),
            ),
            DaemonCmd::Start { server_id, wait } => {
                let mut acts: Vec<DaemonAction> = Vec::new();
                match self.find_unit(server_id.as_str()) {
                    Option::None => (DaemonResponse::ServerNotFound { server_id }, acts),
                    Option::Some(i) => {
                        if wait {
                            acts.push(
                                DaemonAction::Subscribe {
                                    server_id: server_id.clone(),
                                    event_type: ServerEventType::ServerStarting,
                                    client_id,
                                },
                            );
                            acts.push(
                                DaemonAction::Subscribe {
                                    server_id: server_id.clone(),
                                    event_type: ServerEventType::ServerStarted,
                                    client_id,
                                },
                            );
                        }
                        let st = self.units[i].status();
                        let down = match st {
                            ServerStatus::Down => true,
                            _ => false,
                        };
                        if down {
                            acts.push(
                                DaemonAction::SpawnUnit { server_id: server_id.clone() },
                            );
                            let u = &mut self.units[i];
                            u.start();
                        }
                        proof {
                            assert forall|j: int|
                                0 <= j < old(self)@.units.len() && (
                                #[trigger] old(self)@.units[j]).server_id == server_id@ implies j
                                == i as int by {
                                if j < i as int {
                                    assert(old(self)@.units[j].server_id != old(
                                        self,
                                    )@.units[i as int].server_id);
                                }
                                if j > i as int {
                                    assert(old(self)@.units[i as int].server_id != old(
                                        self,
                                    )@.units[j].server_id);
                                }
                            }
                            if down {
                                assert(self@.units =~= old(self)@.units.update(
                                    i as int,
                                    started_unit(old(self)@.units[i as int]),
                                ));
                            }
                            assert(acts.deep_view() =~= (if wait {
                                seq![
                                    sub_action(
                                        server_id@,
                                        ServerEventType::ServerStarting,
                                        client_id,
                                    ),
                                    sub_action(
                                        server_id@,
                                        ServerEventType::ServerStarted,
                                        client_id,
                                    ),
                                ]
                            } else {
                                Seq::<DaemonActionV>::empty()
                            }) + (if down {
                                seq![DaemonActionV::SpawnUnit { server_id: server_id@ }]
                            } else {
                                Seq::<DaemonActionV>::empty()
                            }));
                            assert forall|k: int| 0 <= k < self@.units.len() implies unit_wf(
                                #[trigger] self@.units[k],
                            ) && self@.units[k].server_id == old(self)@.units[k].server_id by {}
                        }
                        let resp = if wait {
                            DaemonResponse::Ack
                        } else {
                            DaemonResponse::ServerStarted { server_id }
                        };
                        (resp, acts)
                    },
                }
            },
            DaemonCmd::Stop { server_id, wait } => {
                let mut acts: Vec<DaemonAction> = Vec::new();
                match self.find_unit(server_id.as_str()) {
                    Option::None => (DaemonResponse::ServerNotFound { server_id }, acts),
                    Option::Some(i) => {
                        if wait {
                            acts.push(
                                DaemonAction::Subscribe {
                                    server_id: server_id.clone(),
                                    event_type: ServerEventType::ServerStopping,
                                    client_id,
                                },
                            );
                            acts.push(
                                DaemonAction::Subscribe {
                                    server_id: server_id.clone(),
                                    event_type: ServerEventType::ServerStopped,
                                    client_id,
                                },
                            );
                        }
                        let st = self.units[i].status();
                        let running = match st {
                            ServerStatus::Running => true,
                            _ => false,
                        };
                        if running {
                            acts.push(
                                DaemonAction::StopUnit {
                                    server_id: server_id.clone(),
                                    await_start: false,
                                    wait_exit: false,
                                },
                            );
                            let u = &mut self.units[i];
                            u.stop();
                        }
                        proof {
                            assert forall|j: int|
                                0 <= j < old(self)@.units.len() && (
                                #[trigger] old(self)@.units[j]).server_id == server_id@ implies j
                                == i as int by {
                                if j < i as int {
                                    assert(old(self)@.units[j].server_id != old(
                                        self,
                                    )@.units[i as int].server_id);
                                }
                                if j > i as int {
                                    assert(old(self)@.units[i as int].server_id != old(
                                        self,
                                    )@.units[j].server_id);
                                }
                            }
                            if running {
                                assert(self@.units =~= old(self)@.units.update(
                                    i as int,
                                    stopped_unit(old(self)@.units[i as int]),
                                ));
                            }
                            assert(acts.deep_view() =~= (if wait {
                                seq![
                                    sub_action(
                                        server_id@,
                                        ServerEventType::ServerStopping,
                                        client_id,
                                    ),
                                    sub_action(
                                        server_id@,
                                        ServerEventType::ServerStopped,
                                        client_id,
                                    ),
                                ]
                            } else {
                                Seq::<DaemonActionV>::empty()
                            }) + (if running {
                                seq![
                                    DaemonActionV::StopUnit {
                                        server_id: server_id@,
                                        await_start: false,
                                        wait_exit: false,
                                    },
                                ]
                            } else {
                                Seq::<DaemonActionV>::empty()
                            }));
                            assert forall|k: int| 0 <= k < self@.units.len() implies unit_wf(
                                #[trigger] self@.units[k],
                            ) && self@.units[k].server_id == old(self)@.units[k].server_id by {}
                        }
                        let resp = if wait {
                            DaemonResponse::Ack
                        } else {
                            DaemonResponse::ServerStopped { server_id }
                        };
                        (resp, acts)
                    },
                }
            },
            DaemonCmd::SubscribeEvent { event_type, server_ids } => {
                let mut acts: Vec<DaemonAction> = Vec::new();
                proof {
                    assert(acts.deep_view() =~= Seq::<DaemonActionV>::empty());
                }
                match server_ids {
                    Option::None => (DaemonResponse::Ack, acts),
                    Option::Some(ids) => {
                        let n = ids.len();
                        let mut i: usize = 0;
                        proof {
                            assert(acts.deep_view() =~= ids.deep_view().subrange(0, 0).map_values(
                                subs_for(event_type, client_id),
                            ));
                        }
                        while i < n
                            invariant
                                0 <= i <= n,
                                n == ids@.len(),
                                self@ == old(self)@,
                                acts.deep_view() == ids.deep_view().subrange(0, i as int)
                                    .map_values(subs_for(event_type, client_id)),
                            decreases n - i,
                        {
                            let ghost pre = acts.deep_view();
                            acts.push(
                                DaemonAction::Subscribe {
                                    server_id: ids[i].clone(),
                                    event_type,
                                    client_id,
                                },
                            );
                            proof {
                                assert(acts.deep_view() =~= pre.push(
                                    sub_action(ids.deep_view()[i as int], event_type, client_id),
                                ));
                                assert(ids.deep_view().subrange(0, i + 1).map_values(
                                    subs_for(event_type, client_id),
                                ) =~= pre.push(
                                    sub_action(ids.deep_view()[i as int], event_type, client_id),
                                ));
                            }
                            i = i + 1;
                        }
                        proof {
                            assert(ids.deep_view().subrange(0, n as int) =~= ids.deep_view());
                        }
                        (DaemonResponse::Ack, acts)
                    },
                }
            },
            DaemonCmd::InstallServer {
                unit_id,
                install_path,
                unit_file_path,
                server_version,
                server_type,
                accept_eula,
                server_name,
            } => {
                let mut acts: Vec<DaemonAction> = Vec::new();
                acts.push(
                    DaemonAction::Subscribe {
                        server_id: unit_id.clone(),
                        event_type: ServerEventType::InstallationComplete,
                        client_id,
                    },
                );
                acts.push(
                    DaemonAction::Subscribe {
                        server_id: unit_id.clone(),
                        event_type: ServerEventType::InstallationFailed,
                        client_id,
                    },
                );
                acts.push(
                    DaemonAction::Subscribe {
                        server_id: unit_id.clone(),
                        event_type: ServerEventType::ActionProgress,
                        client_id,
                    },
                );
                let collision = self.find_unit(unit_id.as_str()).is_some();
                let ghost req = InstallRequestV {
                    unit_id: unit_id@,
                    install_path: install_path@,
                    unit_file_path: unit_file_path.deep_view(),
                    server_version,
                    server_type,
                    accept_eula,
                    server_name: server_name.deep_view(),
                };
                let paper = match server_type {
                    ServerType::Paper => true,
                    _ => false,
                };
                if collision {
                    acts.push(
                        DaemonAction::RaiseEvent {
                            server_id: unit_id.clone(),
                            event: ServerEvent::InstallationFailed {
                                server_id: unit_id.clone(),
                                error: String::from_str(
                                    "a unit with that name already exists",
                                ),
                            },
                        },
                    );
                } else if !paper {
                    let text = crate::install::InstallError::UnsupportedServerType(
                        server_type,
                    ).text();
                    acts.push(
                        DaemonAction::RaiseEvent {
                            server_id: unit_id.clone(),
                            event: ServerEvent::InstallationFailed {
                                server_id: unit_id.clone(),
                                error: text,
                            },
                        },
                    );
                } else {
                    acts.push(
                        DaemonAction::LaunchInstall {
                            request: InstallRequest {
                                unit_id,
                                install_path,
                                unit_file_path,
                                server_version,
                                server_type,
                                accept_eula,
                                server_name,
                            },
                        },
                    );
                }
                proof {
                    assert(acts.deep_view() =~= seq![
                        sub_action(
                            req.unit_id,
                            ServerEventType::InstallationComplete,
                            client_id,
                        ),
                        sub_action(req.unit_id, ServerEventType::InstallationFailed, client_id),
                        sub_action(req.unit_id, ServerEventType::ActionProgress, client_id),
                    ] + (if has_unit(old(self)@.units, req.unit_id) {
                        seq![
                            DaemonActionV::RaiseEvent {
                                server_id: req.unit_id,
                                event: ServerEventV::InstallationFailed {
                                    server_id: req.unit_id,
                                    error: "a unit with that name already exists"@,
                                },
                            },
                        ]
                    } else if req.server_type != ServerType::Paper {
                        seq![
                            DaemonActionV::RaiseEvent {
                                server_id: req.unit_id,
                                event: ServerEventV::InstallationFailed {
                                    server_id: req.unit_id,
                                    error: crate::install::spec_install_error_text(
                                        crate::install::InstallErrorV::UnsupportedServerType(
                                            req.server_type,
                                        ),
                                    ),
                                },
                            },
                        ]
                    } else {
                        seq![DaemonActionV::LaunchInstall { request: req }]
                    }));
                }
                (DaemonResponse::Ack, acts)
            },
            DaemonCmd::UpdateServer { unit_id, server_version } => {
                match self.find_unit(unit_id.as_str()) {
                    Option::None => (
                        DaemonResponse::ServerNotFound { server_id: unit_id },
                        Vec::new(),
                    ),
                    Option::Some(i) => {
                        let mut acts: Vec<DaemonAction> = Vec::new();
                        acts.push(
                            DaemonAction::Subscribe {
                                server_id: unit_id.clone(),
                                event_type: ServerEventType::UpdateComplete,
                                client_id,
                            },
                        );
                        acts.push(
                            DaemonAction::Subscribe {
                                server_id: unit_id.clone(),
                                event_type: ServerEventType::UpdateFailed,
                                client_id,
                            },
                        );
                        acts.push(
                            DaemonAction::Subscribe {
                                server_id: unit_id.clone(),
                                event_type: ServerEventType::ActionProgress,
                                client_id,
                            },
                        );
                        let u = &self.units[i];
                        let request = UpdateRequest {
                            unit_id: unit_id.clone(),
                            server_version,
                            unit_config: u.config.unit.duplicate(),
                            server_config: u.config.server.duplicate(),
                            unit_file_path: u.unit_file.clone(),
                        };
                        acts.push(DaemonAction::LaunchUpdate { request });
                        proof {
                            assert forall|j: int|
                                0 <= j < old(self)@.units.len() && (
                                #[trigger] old(self)@.units[j]).server_id == unit_id@ implies j
                                == i as int by {
                                if j < i as int {
                                    assert(old(self)@.units[j].server_id != old(
                                        self,
                                    )@.units[i as int].server_id);
                                }
                                if j > i as int {
                                    assert(old(self)@.units[i as int].server_id != old(
                                        self,
                                    )@.units[j].server_id);
                                }
                            }
                            assert(acts.deep_view() =~= seq![
                                sub_action(unit_id@, ServerEventType::UpdateComplete, client_id),
                                sub_action(unit_id@, ServerEventType::UpdateFailed, client_id),
                                sub_action(unit_id@, ServerEventType::ActionProgress, client_id),
                                DaemonActionV::LaunchUpdate {
                                    request: UpdateRequestV {
                                        unit_id: unit_id@,
                                        server_version,
                                        unit_config: old(self)@.units[i as int].config.unit,
                                        server_config: old(self)@.units[i as int].config.server,
                                        unit_file_path: old(self)@.units[i as int].unit_file,
                                    },
                                },
                            ]);
                        }
                        (DaemonResponse::Ack, acts)
                    },
                }
            },
            DaemonCmd::StopDaemon => {
                let mut acts: Vec<DaemonAction> = Vec::new();
                acts.push(DaemonAction::EnqueueStopDaemon);
                proof {
                    assert(acts.deep_view() =~= seq![DaemonActionV::EnqueueStopDaemon]);
                }
                (DaemonResponse::Ack, acts)
            },
            DaemonCmd::SendMessage { unit_id, message } => {
                match self.find_unit(unit_id.as_str()) {
                    Option::None => (
                        DaemonResponse::ServerNotFound { server_id: unit_id },
                        Vec::new(),
                    ),
                    Option::Some(_) => {
                        let ghost uid = unit_id@;
                        let mut acts: Vec<DaemonAction> = Vec::new();
                        let mut line = String::from_str("say ");
                        line.append(message.as_str());
                        acts.push(DaemonAction::SendStdin { server_id: unit_id, line });
                        proof {
                            assert(acts.deep_view() =~= seq![
                                DaemonActionV::SendStdin { server_id: uid, line: "say "@ + message@ },
                            ]);
                        }
                        (DaemonResponse::Ack, acts)
                    },
                }
            },
        }
    }
}

/// How a record enters the table: a fresh id is appended; a present id is
/// replaced only while its record holds no live process (a freshly
/// installed or updated definition supplants the idle record it belongs
/// to), and is dropped — never overwritten — while a child is running.
pub open spec fn spec_insert_unit(
    units: Seq<DaemonServerV>,
    u: DaemonServerV,
) -> Seq<DaemonServerV> {
    if !has_unit(units, u.server_id) {
        units.push(u)
    } else {
        let i = choose|i: int|
            0 <= i < units.len() && (#[trigger] units[i]).server_id == u.server_id;
        if units[i].has_process {
            units
        } else {
            units.update(i, u)
        }
    }
}

/// How `AddServerUnit` changes the table: a definition of an unsupported
/// kind is dropped; otherwise its fresh record is inserted under
/// [`spec_insert_unit`]'s policy.
pub open spec fn spec_add_record(
    units: Seq<DaemonServerV>,
    cfg: ServerUnitConfigV,
    file: Seq<char>,
) -> Seq<DaemonServerV> {
    if cfg.server.kind != "paper"@ {
        units
    } else {
        spec_insert_unit(
            units,
            DaemonServerV {
                server_id: cfg.unit.id,
                config: cfg,
                unit_file: file,
                has_process: false,
                exit: Option::None,
                output_state: Option::None,
            },
        )
    }
}

/// What starting one autostart entry does: a listed id that is in the
/// table is spawned (whatever its state); an unknown id does nothing.
pub open spec fn spec_autostart_one(units: Seq<DaemonServerV>, id: Seq<char>) -> (
    Seq<DaemonServerV>,
    Seq<DaemonActionV>,
) {
    if has_unit(units, id) {
        let i = choose|i: int| 0 <= i < units.len() && (#[trigger] units[i]).server_id == id;
        (
            units.update(i, started_unit(units[i])),
            seq![DaemonActionV::SpawnUnit { server_id: id }],
        )
    } else {
        (units, Seq::<DaemonActionV>::empty())
    }
}

/// What the whole autostart list does, first entry first.
pub open spec fn spec_autostart(units: Seq<DaemonServerV>, ids: Seq<Seq<char>>) -> (
    Seq<DaemonServerV>,
    Seq<DaemonActionV>,
)
    decreases ids.len(),
{
    if ids.len() == 0 {
        (units, Seq::<DaemonActionV>::empty())
    } else {
        let one = spec_autostart_one(units, ids[0]);
        let rest = spec_autostart(one.0, ids.subrange(1, ids.len() as int));
        (rest.0, one.1 + rest.1)
    }
}

/// How loading folds definitions into an empty table: each well-formed
/// record is inserted under [`spec_insert_unit`]'s policy (loaded records
/// hold no process, so a later unit file under the same id replaces an
/// earlier one).
pub open spec fn spec_load_units(
    acc: Seq<DaemonServerV>,
    rest: Seq<DaemonServerV>,
) -> Seq<DaemonServerV>
    decreases rest.len(),
{
    if rest.len() == 0 {
        acc
    } else {
        let u = rest[0];
        let acc2 = if unit_wf(u) {
            spec_insert_unit(acc, u)
        } else {
            acc
        };
        spec_load_units(acc2, rest.subrange(1, rest.len() as int))
    }
}

impl Daemon {
    /// Inserts a well-formed record under the table's policy: appended
    /// under a fresh id, replacing an idle record under a present id, and
    /// dropped while that record holds a live process.
    pub fn insert_unit(&mut self, u: DaemonServer)
        requires
            daemon_wf(old(self)@),
            unit_wf(u@),
        ensures
            daemon_wf(final(self)@),
            final(self)@.units == spec_insert_unit(old(self)@.units, u@),
            final(self)@.version == old(self)@.version,
            final(self)@.clients == old(self)@.clients,
            final(self)@.next_client == old(self)@.next_client,
    {
        let ghost pre_units = self@.units;
        let ghost uv = u@;
        match self.find_unit(u.server_id.as_str()) {
            Option::None => {
                self.units.push(u);
                proof {
                    assert(self@.units =~= pre_units.push(uv));
                    assert forall|i: int, j: int|
                        0 <= i < j < self@.units.len() implies (
                        #[trigger] self@.units[i]).server_id != (
                        #[trigger] self@.units[j]).server_id by {
                        if j == self@.units.len() - 1 {
                            assert(self@.units[i] == pre_units[i]);
                        }
                    }
                }
            },
            Option::Some(i) => {
                proof {
                    let ch = choose|k: int|
                        0 <= k < pre_units.len() && (#[trigger] pre_units[k]).server_id
                            == uv.server_id;
                    assert(ch == i as int) by {
                        if ch < i as int {
                            assert(pre_units[ch].server_id != pre_units[i as int].server_id);
                        }
                        if ch > i as int {
                            assert(pre_units[i as int].server_id != pre_units[ch].server_id);
                        }
                    }
                }
                if self.units[i].has_process {
                    // a running unit is never clobbered; the definition is dropped
                } else {
                    self.units.set(i, u);
                    proof {
                        assert(self@.units =~= pre_units.update(i as int, uv));
                        assert forall|k: int| 0 <= k < self@.units.len() implies unit_wf(
                            #[trigger] self@.units[k],
                        ) && self@.units[k].server_id == pre_units[k].server_id by {}
                    }
                }
            },
        }
    }

    /// Builds the daemon over the loaded unit records, folding each one in
    /// under the table's insertion policy.
    pub fn from_config(version: Version, units: Vec<DaemonServer>) -> (r: Daemon)
        ensures
            daemon_wf(r@),
            r@.version == version,
            r@.clients =~= Seq::<u32>::empty(),
            r@.next_client == 0,
            r@.units == spec_load_units(Seq::<DaemonServerV>::empty(), units.deep_view()),
    {
        let ghost full = spec_load_units(Seq::<DaemonServerV>::empty(), units.deep_view());
        let mut d = Daemon::new(version);
        let mut rest = units;
        while rest.len() > 0
            invariant
                daemon_wf(d@),
                d@.version == version,
                d@.clients =~= Seq::<u32>::empty(),
                d@.next_client == 0,
                spec_load_units(d@.units, rest.deep_view()) == full,
            decreases rest@.len(),
        {
            let ghost pre_units = d@.units;
            let ghost pre_rest = rest.deep_view();
            let u = rest.remove(0);
            proof {
                assert(rest.deep_view() =~= pre_rest.subrange(1, pre_rest.len() as int));
                assert(u@ == pre_rest[0]);
            }
            let ok = str_eq(u.server_id.as_str(), u.config.unit.id.as_str()) && str_eq(
                u.config.server.kind.as_str(),
                "paper",
            );
            if ok {
                d.insert_unit(u);
            }
        }
        proof {
            assert(rest.deep_view() =~= Seq::<DaemonServerV>::empty());
        }
        d
    }

    /// Performs the boot autostart: every listed unit that is in the table
    /// is marked spawned and a spawn action is issued, in list order.
    pub fn autostart(&mut self, ids: &Vec<String>) -> (r: Vec<DaemonAction>)
        requires
            daemon_wf(old(self)@),
        ensures
            daemon_wf(final(self)@),
            final(self)@.version == old(self)@.version,
            final(self)@.clients == old(self)@.clients,
            final(self)@.next_client == old(self)@.next_client,
            final(self)@.units == spec_autostart(old(self)@.units, ids.deep_view()).0,
            r.deep_view() == spec_autostart(old(self)@.units, ids.deep_view()).1,
    {
        let ghost full = spec_autostart(old(self)@.units, ids.deep_view());
        let mut acts: Vec<DaemonAction> = Vec::new();
        let n = ids.len();
        let mut i: usize = 0;
        proof {
            assert(acts.deep_view() =~= Seq::<DaemonActionV>::empty());
            assert(ids.deep_view().subrange(0, n as int) =~= ids.deep_view());
        }
        while i < n
            invariant
                0 <= i <= n,
                n == ids@.len(),
                daemon_wf(self@),
                self@.version == old(self)@.version,
                self@.clients == old(self)@.clients,
                self@.next_client == old(self)@.next_client,
                spec_autostart(self@.units, ids.deep_view().subrange(i as int, n as int)).0
                    == full.0,
                acts.deep_view() + spec_autostart(
                    self@.units,
                    ids.deep_view().subrange(i as int, n as int),
                ).1 == full.1,
            decreases n - i,
        {
            let ghost pre_units = self@.units;
            let ghost pre_acts = acts.deep_view();
            let ghost tail = ids.deep_view().subrange(i as int, n as int);
            proof {
                assert(tail[0] == ids.deep_view()[i as int]);
                assert(tail.subrange(1, tail.len() as int) =~= ids.deep_view().subrange(
                    i + 1,
                    n as int,
                ));
            }
            let id = &ids[i];
            match self.find_unit(id.as_str()) {
                Option::None => {
                    proof {
                        assert(!has_unit(pre_units, id@));
                    }
                },
                Option::Some(j) => {
                    acts.push(DaemonAction::SpawnUnit { server_id: id.clone() });
                    let u = &mut self.units[j];
                    u.start();
                    proof {
                        let ch = choose|k: int|
                            0 <= k < pre_units.len() && (#[trigger] pre_units[k]).server_id == id@;
                        assert(ch == j as int) by {
                            if ch < j as int {
                                assert(pre_units[ch].server_id != pre_units[j as int].server_id);
                            }
                            if ch > j as int {
                                assert(pre_units[j as int].server_id != pre_units[ch].server_id);
                            }
                        }
                        assert(self@.units =~= pre_units.update(
                            j as int,
                            started_unit(pre_units[j as int]),
                        ));
                        assert(acts.deep_view() =~= pre_acts + seq![
                            DaemonActionV::SpawnUnit { server_id: id@ },
                        ]);
                        assert forall|k: int| 0 <= k < self@.units.len() implies unit_wf(
                            #[trigger] self@.units[k],
                        ) && self@.units[k].server_id == pre_units[k].server_id by {}
                    }
                },
            }
            proof {
                assert(acts.deep_view() + spec_autostart(
                    self@.units,
                    ids.deep_view().subrange(i + 1, n as int),
                ).1 =~= full.1);
            }
            i = i + 1;
        }
        proof {
            assert(ids.deep_view().subrange(n as int, n as int) =~= Seq::<Seq<char>>::empty());
            assert(acts.deep_view() + Seq::<DaemonActionV>::empty() =~= acts.deep_view());
        }
        acts
    }

    /// Consumes one daemon event: computes the replies to route, the
    /// outside actions to perform, and whether the process is to exit.
    pub fn handle_event(&mut self, ev: DaemonEvent) -> (r: DispatcherStep)
        requires
            daemon_wf(old(self)@),
        ensures
            daemon_wf(final(self)@),
            match ev@ {
                DaemonEventV::IncomingCmd { id, cmd } => {
                    &&& r.replies@.len() == 1
                    &&& r.replies@[0].0 == id
                    &&& cmd_post(
                        old(self)@,
                        final(self)@,
                        cmd,
                        id,
                        r.replies@[0].1@,
                        r.actions.deep_view(),
                    )
                    &&& !r.exit_process
                },
                DaemonEventV::SendEvent { client_id, event } => {
                    &&& final(self)@ == old(self)@
                    &&& r.replies@.len() == 1
                    &&& r.replies@[0].0 == client_id
                    &&& r.replies@[0].1@ == (DaemonResponseV::ServerEvent { event })
                    &&& r.actions@.len() == 0
                    &&& !r.exit_process
                },
                DaemonEventV::AddServerUnit { server_unit_config, unit_file } => {
                    &&& units_only_changed(old(self)@, final(self)@)
                    &&& final(self)@.units == spec_add_record(
                        old(self)@.units,
                        server_unit_config,
                        unit_file,
                    )
                    &&& r.replies@.len() == 0
                    &&& r.actions@.len() == 0
                    &&& !r.exit_process
                },
                DaemonEventV::StopDaemon => {
                    &&& units_only_changed(old(self)@, final(self)@)
                    &&& final(self)@.units == old(self)@.units.map_values(shutdown_update())
                    &&& r.actions.deep_view() == old(self)@.units.filter(shutdown_stops())
                        .map_values(shutdown_action()).push(DaemonActionV::EnqueueDaemonStopped)
                    &&& r.replies@.len() == 0
                    &&& !r.exit_process
                },
                DaemonEventV::SendDaemonEvent(e) => {
                    &&& final(self)@ == old(self)@
                    &&& r.replies@.len() == old(self)@.clients.len()
                    &&& forall|j: int|
                        0 <= j < r.replies@.len() ==> (#[trigger] r.replies@[j]).0 == old(
                            self,
                        )@.clients[j] && r.replies@[j].1@ == DaemonResponseV::DaemonEvent(e)
                    &&& r.actions@.len() == 0
                    &&& r.exit_process
                },
            },
    {
        match ev {
            DaemonEvent::IncomingCmd { id, cmd } => {
                let (resp, actions) = self.handle_cmd(cmd, id);
                let mut replies: Vec<(u32, DaemonResponse)> = Vec::new();
                replies.push((id, resp));
                DispatcherStep { replies, actions, exit_process: false }
            },
            DaemonEvent::SendEvent { client_id, event } => {
                let mut replies: Vec<(u32, DaemonResponse)> = Vec::new();
                replies.push((client_id, DaemonResponse::ServerEvent { event }));
                DispatcherStep { replies, actions: Vec::new(), exit_process: false }
            },
            DaemonEvent::AddServerUnit { server_unit_config, unit_file } => {
                match create_server(server_unit_config, unit_file) {
                    Result::Err(_) => {},
                    Result::Ok(u) => {
                        self.insert_unit(u);
                    },
                }
                DispatcherStep { replies: Vec::new(), actions: Vec::new(), exit_process: false }
            },
            DaemonEvent::StopDaemon => {
                let ghost pred = shutdown_stops();
                let ghost act_fn = shutdown_action();
                let ghost upd = shutdown_update();
                let mut actions: Vec<DaemonAction> = Vec::new();
                let n = self.units.len();
                let mut i: usize = 0;
                proof {
                    reveal(Seq::filter);
                    assert(old(self)@.units.subrange(0, 0) =~= Seq::<DaemonServerV>::empty());
                    assert(actions.deep_view() =~= old(self)@.units.subrange(0, 0).filter(
                        pred,
                    ).map_values(act_fn));
                }
                while i < n
                    invariant
                        0 <= i <= n,
                        n == self@.units.len(),
                        n == old(self)@.units.len(),
                        self@.version == old(self)@.version,
                        self@.clients == old(self)@.clients,
                        self@.next_client == old(self)@.next_client,
                        pred == shutdown_stops(),
                        act_fn == shutdown_action(),
                        upd == shutdown_update(),
                        forall|j: int|
                            0 <= j < i ==> #[trigger] self@.units[j] == shutdown_update()(
                                old(self)@.units[j],
                            ),
                        forall|j: int|
                            i <= j < n ==> #[trigger] self@.units[j] == old(self)@.units[j],
                        actions.deep_view() == old(self)@.units.subrange(0, i as int).filter(
                            pred,
                        ).map_values(act_fn),
                    decreases n - i,
                {
                    let ghost pre_acts = actions.deep_view();
                    let ghost pre_units = self@.units;
                    let ghost x = old(self)@.units[i as int];
                    proof {
                        assert(old(self)@.units.subrange(0, i + 1) =~= old(
                            self,
                        )@.units.subrange(0, i as int).push(x));
                        crate::event::lemma_filter_push(
                            old(self)@.units.subrange(0, i as int),
                            x,
                            pred,
                        );
                        assert(pred(x) == shutdown_stops()(x));
                        assert(act_fn(x) == shutdown_action()(x));
                        assert(shutdown_action()(x) == (DaemonActionV::StopUnit {
                            server_id: x.server_id,
                            await_start: spec_status(x) == ServerStatus::Starting,
                            wait_exit: true,
                        }));
                    }
                    let st = self.units[i].status();
                    let stops = match st {
                        ServerStatus::Starting => true,
                        ServerStatus::Running => true,
                        ServerStatus::Updating => true,
                        ServerStatus::Lockdown => true,
                        _ => false,
                    };
                    if stops {
                        let starting = match st {
                            ServerStatus::Starting => true,
                            _ => false,
                        };
                        let sid = self.units[i].server_id.clone();
                        proof {
                            assert(self@.units[i as int] == x);
                            assert(sid@ == x.server_id);
                            assert(st == spec_status(x));
                        }
                        actions.push(
                            DaemonAction::StopUnit {
                                server_id: sid,
                                await_start: starting,
                                wait_exit: true,
                            },
                        );
                        let u = &mut self.units[i];
                        u.stop();
                        proof {
                            assert(actions.deep_view() =~= pre_acts.push(act_fn(x)));
                            assert(old(self)@.units.subrange(0, i + 1).filter(pred).map_values(
                                act_fn,
                            ) =~= pre_acts.push(act_fn(x)));
                            assert(self@.units =~= pre_units.update(i as int, stopped_unit(x)));
                            assert(shutdown_update()(x) == stopped_unit(x));
                        }
                    } else {
                        proof {
                            assert(old(self)@.units.subrange(0, i + 1).filter(pred).map_values(
                                act_fn,
                            ) =~= pre_acts);
                            assert(shutdown_update()(x) == x);
                        }
                    }
                    i = i + 1;
                }
                proof {
                    assert(old(self)@.units.subrange(0, n as int) =~= old(self)@.units);
                    assert(self@.units =~= old(self)@.units.map_values(upd));
                    assert forall|k: int| 0 <= k < self@.units.len() implies unit_wf(
                        #[trigger] self@.units[k],
                    ) && self@.units[k].server_id == old(self)@.units[k].server_id by {}
                }
                let ghost listed = actions.deep_view();
                actions.push(DaemonAction::EnqueueDaemonStopped);
                proof {
                    assert(actions.deep_view() =~= listed.push(
                        DaemonActionV::EnqueueDaemonStopped,
                    ));
                }
                DispatcherStep { replies: Vec::new(), actions, exit_process: false }
            },
            DaemonEvent::SendDaemonEvent(e) => {
                let mut replies: Vec<(u32, DaemonResponse)> = Vec::new();
                let n = self.clients.len();
                let mut i: usize = 0;
                while i < n
                    invariant
                        0 <= i <= n,
                        n == self@.clients.len(),
                        self@ == old(self)@,
                        replies@.len() == i,
                        forall|j: int|
                            0 <= j < i ==> (#[trigger] replies@[j]).0 == self@.clients[j]
                                && replies@[j].1@ == DaemonResponseV::DaemonEvent(e),
                    decreases n - i,
                {
                    replies.push((self.clients[i], DaemonResponse::DaemonEvent(e)));
                    i = i + 1;
                }
                DispatcherStep { replies, actions: Vec::new(), exit_process: true }
            },
        }
    }
}

/// Whether a directory entry's file name makes it a unit-file candidate:
/// it ends in `.toml`.
pub fn is_unit_candidate(name: &str) -> (r: bool)
    ensures
        r == (name@.len() >= 5 && name@.subrange(
            name@.len() - 5,
            name@.len() as int,
        ) == ".toml"@),
{
    let len = name.unicode_len();
    if len < 5 {
        return false;
    }
    let r = expect_at(name, len - 5, ".toml");
    proof {
        reveal_strlit(".toml");
    }
    r
}

/// Loads one candidate unit file's contents: the two-stage parse — first
/// the `[unit]` table, then, for entries of type `server`, the whole
/// definition — and the record construction for supported kinds.  Files
/// that fail any stage yield nothing and are skipped by the caller.
pub fn unit_from_file(contents: &str, unit_file: String) -> (r: Option<DaemonServer>)
    ensures
        match crate::unit_file::spec_parse_simple(contents@) {
            Option::None => r is None,
            Option::Some(sc) => if sc.unit_type != "server"@ {
                r is None
            } else {
                match crate::unit_file::spec_parse_unit_file(contents@) {
                    Option::None => r is None,
                    Option::Some(c) => if c.server.kind == "paper"@ {
                        r matches Option::Some(u) && u@ == (DaemonServerV {
                            server_id: c.unit.id,
                            config: c,
                            unit_file: unit_file@,
                            has_process: false,
                            exit: Option::None,
                            output_state: Option::None,
                        }) && unit_wf(u@)
                    } else {
                        r is None
                    },
                }
            },
        },
{
    let simple = match crate::unit_file::parse_simple_unit_config(contents) {
        Option::None => {
            return Option::None;
        },
        Option::Some(s) => s,
    };
    if !str_eq(simple.unit.unit_type.as_str(), "server") {
        return Option::None;
    }
    let config = match crate::unit_file::parse_unit_file(contents) {
        Option::None => {
            return Option::None;
        },
        Option::Some(c) => c,
    };
    match create_server(config, unit_file) {
        Result::Ok(u) => Option::Some(u),
        Result::Err(_) => Option::None,
    }
}

/// Law: a `Start` with `wait` set installs the caller's subscriptions
/// strictly before anything that could move the unit out of `Down`: the two
/// subscribe actions open the action list, and the spawn — issued only when
/// the unit was `Down` — comes after them or not at all.
pub proof fn lemma_start_subscribes_before_spawn(
    pre: DaemonV,
    post: DaemonV,
    id: Seq<char>,
    client: u32,
    resp: DaemonResponseV,
    acts: Seq<DaemonActionV>,
    i: int,
)
    requires
        start_cmd_post(pre, post, id, true, client, resp, acts),
        0 <= i < pre.units.len(),
        pre.units[i].server_id == id,
    ensures
        acts[0] == sub_action(id, ServerEventType::ServerStarting, client),
        acts[1] == sub_action(id, ServerEventType::ServerStarted, client),
        spec_status(pre.units[i]) == ServerStatus::Down ==> acts =~= seq![
            sub_action(id, ServerEventType::ServerStarting, client),
            sub_action(id, ServerEventType::ServerStarted, client),
            DaemonActionV::SpawnUnit { server_id: id },
        ],
        spec_status(pre.units[i]) != ServerStatus::Down ==> acts =~= seq![
            sub_action(id, ServerEventType::ServerStarting, client),
            sub_action(id, ServerEventType::ServerStarted, client),
        ],
{
    assert(has_unit(pre.units, id));
}

/// Law: `Start` on a unit that is already running is a no-op on the table
/// that still answers: with `wait` the acknowledgement with the
/// subscriptions installed, without it the started reply; no spawn action
/// is issued either way.
pub proof fn lemma_start_idempotent_on_running(
    pre: DaemonV,
    post: DaemonV,
    id: Seq<char>,
    wait: bool,
    client: u32,
    resp: DaemonResponseV,
    acts: Seq<DaemonActionV>,
    i: int,
)
    requires
        start_cmd_post(pre, post, id, wait, client, resp, acts),
        0 <= i < pre.units.len(),
        pre.units[i].server_id == id,
        spec_status(pre.units[i]) == ServerStatus::Running,
    ensures
        post.units == pre.units,
        forall|k: int| 0 <= k < acts.len() ==> !((#[trigger] acts[k]) is SpawnUnit),
        wait ==> resp == DaemonResponseV::Ack && acts =~= seq![
            sub_action(id, ServerEventType::ServerStarting, client),
            sub_action(id, ServerEventType::ServerStarted, client),
        ],
        !wait ==> resp == (DaemonResponseV::ServerStarted { server_id: id }) && acts.len() == 0,
{
    assert(has_unit(pre.units, id));
    assert(spec_status(pre.units[i]) != ServerStatus::Down);
    if wait {
        assert(acts =~= seq![
            sub_action(id, ServerEventType::ServerStarting, client),
            sub_action(id, ServerEventType::ServerStarted, client),
        ]);
    }
}

/// The launch command line for a Paper server, after the java executable
/// itself: the documented JVM flag set with the unit's memory allotment,
/// then the launcher jar, then the no-GUI switch.
pub open spec fn spec_launch_args(server: crate::config::ServerConfigV) -> Seq<Seq<char>> {
    seq![
        "-Xms"@ + crate::text::spec_u64_string(server.memory as int) + "G"@,
        "-Xmx"@ + crate::text::spec_u64_string(server.memory as int) + "G"@,
        "-XX:+UseG1GC"@,
        "-XX:+ParallelRefProcEnabled"@,
        "-XX:MaxGCPauseMillis=200"@,
        "-XX:+UnlockExperimentalVMOptions"@,
        "-XX:+DisableExplicitGC"@,
        "-XX:+AlwaysPreTouch"@,
        "-XX:G1NewSizePercent=30"@,
        "-XX:G1MaxNewSizePercent=40"@,
        "-XX:G1HeapRegionSize=8M"@,
        "-XX:G1ReservePercent=20"@,
        "-XX:G1HeapWastePercent=5"@,
        "-XX:G1MixedGCCountTarget=4"@,
        "-XX:InitiatingHeapOccupancyPercent=15"@,
        "-XX:G1MixedGCLiveThresholdPercent=90"@,
        "-XX:G1RSetUpdatingPauseTimePercent=5"@,
        "-XX:SurvivorRatio=32"@,
        "-XX:+PerfDisableSharedMem"@,
        "-XX:MaxTenuringThreshold=1"@,
        "-Dusing.aikars.flags=https://mcflags.emc.gs"@,
        "-Daikars.new.flags=true"@,
        "-jar"@,
        server.jar,
        "--nogui"@,
    ]
}

/// Builds the launch arguments for a Paper server process.  The working
/// directory is the server's path; stdin and stdout are piped by whoever
/// spawns the process.
pub fn launch_args(server: &crate::config::ServerConfig) -> (r: Vec<String>)
    ensures
        r.deep_view() == spec_launch_args(server@),
{
    let mut args: Vec<String> = Vec::new();
    let mem = crate::text::u64_string(server.memory as u64);
    let mut xms = String::from_str("-Xms");
    xms.append(mem.as_str());
    xms.append("G");
    args.push(xms);
    let mut xmx = String::from_str("-Xmx");
    xmx.append(mem.as_str());
    xmx.append("G");
    args.push(xmx);
    args.push(String::from_str("-XX:+UseG1GC"));
    args.push(String::from_str("-XX:+ParallelRefProcEnabled"));
    args.push(String::from_str("-XX:MaxGCPauseMillis=200"));
    args.push(String::from_str("-XX:+UnlockExperimentalVMOptions"));
    args.push(String::from_str("-XX:+DisableExplicitGC"));
    args.push(String::from_str("-XX:+AlwaysPreTouch"));
    args.push(String::from_str("-XX:G1NewSizePercent=30"));
    args.push(String::from_str("-XX:G1MaxNewSizePercent=40"));
    args.push(String::from_str("-XX:G1HeapRegionSize=8M"));
    args.push(String::from_str("-XX:G1ReservePercent=20"));
    args.push(String::from_str("-XX:G1HeapWastePercent=5"));
    args.push(String::from_str("-XX:G1MixedGCCountTarget=4"));
    args.push(String::from_str("-XX:InitiatingHeapOccupancyPercent=15"));
    args.push(String::from_str("-XX:G1MixedGCLiveThresholdPercent=90"));
    args.push(String::from_str("-XX:G1RSetUpdatingPauseTimePercent=5"));
    args.push(String::from_str("-XX:SurvivorRatio=32"));
    args.push(String::from_str("-XX:+PerfDisableSharedMem"));
    args.push(String::from_str("-XX:MaxTenuringThreshold=1"));
    args.push(String::from_str("-Dusing.aikars.flags=https://mcflags.emc.gs"));
    args.push(String::from_str("-Daikars.new.flags=true"));
    args.push(String::from_str("-jar"));
    args.push(server.jar.clone());
    args.push(String::from_str("--nogui"));
    proof {
        assert(args.deep_view() =~= spec_launch_args(server@));
    }
    args
}

} // verus!

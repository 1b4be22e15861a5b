//! Messages exchanged between clients and the daemon: commands, responses,
//! lifecycle events and the connection handshake.  Every type carries a spec
//! view over sequences of characters so that contracts can speak about
//! message contents.

use crate::version::Version;
use crate::ServerInfoV;
use crate::ServerInfo;
use crate::ServerType;
use vstd::prelude::*;
use vstd::string::*;

verus! {

/// Types of server events.
///
/// There exists a 1:1 mapping between events and event types, defined by
/// [`ServerEvent::get_event_type`]; the type is the key under which clients
/// subscribe.
#[derive(Debug, Clone, Copy, PartialEq, Eq, Structural, Hash)]
pub enum ServerEventType {
    /// A server has entered the starting stage
    ServerStarting,
    /// A server has started (and is accepting connections)
    ServerStarted,
    /// A server has entered the stopping stage
    ServerStopping,
    /// A server has stopped
    ServerStopped,
    /// A server has reported a fatal condition in its log output
    ServerFailed,
    ActionProgress,
    InstallationComplete,
    InstallationFailed,
    UpdateComplete,
    UpdateFailed,
}

/// Events occurring on the server
#[derive(Debug)]
pub enum ServerEvent {
    /// A server has entered the starting stage
    ServerStarting { server_id: String },
    /// A server has started (and is accepting connections)
    ServerStarted { server_id: String },
    /// A server has entered the stopping stage
    ServerStopping { server_id: String },
    /// A server has stopped
    ServerStopped { server_id: String },
    /// A server has reported a fatal condition in its log output
    ServerFailed { server_id: String, error: String },
    ActionProgress {
        server_id: String,
        action: String,
        progress: Option<usize>,
        maximum: Option<usize>,
        action_number: usize,
    },
    InstallationComplete { server_id: String },
    InstallationFailed { server_id: String, error: String },
    UpdateComplete { server_id: String },
    UpdateFailed { server_id: String, error: String },
}

/// Spec view of a [`ServerEvent`].
pub enum ServerEventV {
    ServerStarting { server_id: Seq<char> },
    ServerStarted { server_id: Seq<char> },
    ServerStopping { server_id: Seq<char> },
    ServerStopped { server_id: Seq<char> },
    ServerFailed { server_id: Seq<char>, error: Seq<char> },
    ActionProgress {
        server_id: Seq<char>,
        action: Seq<char>,
        progress: Option<usize>,
        maximum: Option<usize>,
        action_number: usize,
    },
    InstallationComplete { server_id: Seq<char> },
    InstallationFailed { server_id: Seq<char>, error: Seq<char> },
    UpdateComplete { server_id: Seq<char> },
    UpdateFailed { server_id: Seq<char>, error: Seq<char> },
}

impl View for ServerEvent {
    type V = ServerEventV;

    open spec fn view(&self) -> ServerEventV {
        match self {
            ServerEvent::ServerStarting { server_id } => ServerEventV::ServerStarting {
                server_id: server_id@,
            },
            ServerEvent::ServerStarted { server_id } => ServerEventV::ServerStarted {
                server_id: server_id@,
            },
            ServerEvent::ServerStopping { server_id } => ServerEventV::ServerStopping {
                server_id: server_id@,
            },
            ServerEvent::ServerStopped { server_id } => ServerEventV::ServerStopped {
                server_id: server_id@,
            },
            ServerEvent::ServerFailed { server_id, error } => ServerEventV::ServerFailed {
                server_id: server_id@,
                error: error@,
            },
            ServerEvent::ActionProgress { server_id, action, progress, maximum, action_number } => {
                ServerEventV::ActionProgress {
                    server_id: server_id@,
                    action: action@,
                    progress: *progress,
                    maximum: *maximum,
                    action_number: *action_number,
                }
            },
            ServerEvent::InstallationComplete { server_id } => ServerEventV::InstallationComplete {
                server_id: server_id@,
            },
            ServerEvent::InstallationFailed { server_id, error } => {
                ServerEventV::InstallationFailed { server_id: server_id@, error: error@ }
            },
            ServerEvent::UpdateComplete { server_id } => ServerEventV::UpdateComplete {
                server_id: server_id@,
            },
            ServerEvent::UpdateFailed { server_id, error } => ServerEventV::UpdateFailed {
                server_id: server_id@,
                error: error@,
            },
        }
    }
}

/// The event type a view-level event belongs to.
pub open spec fn spec_event_type(e: ServerEventV) -> ServerEventType {
    match e {
        ServerEventV::ServerStarting { .. } => ServerEventType::ServerStarting,
        ServerEventV::ServerStarted { .. } => ServerEventType::ServerStarted,
        ServerEventV::ServerStopping { .. } => ServerEventType::ServerStopping,
        ServerEventV::ServerStopped { .. } => ServerEventType::ServerStopped,
        ServerEventV::ServerFailed { .. } => ServerEventType::ServerFailed,
        ServerEventV::ActionProgress { .. } => ServerEventType::ActionProgress,
        ServerEventV::InstallationComplete { .. } => ServerEventType::InstallationComplete,
        ServerEventV::InstallationFailed { .. } => ServerEventType::InstallationFailed,
        ServerEventV::UpdateComplete { .. } => ServerEventType::UpdateComplete,
        ServerEventV::UpdateFailed { .. } => ServerEventType::UpdateFailed,
    }
}

/// The unit the view-level event originates from.
pub open spec fn spec_event_unit(e: ServerEventV) -> Seq<char> {
    match e {
        ServerEventV::ServerStarting { server_id } => server_id,
        ServerEventV::ServerStarted { server_id } => server_id,
        ServerEventV::ServerStopping { server_id } => server_id,
        ServerEventV::ServerStopped { server_id } => server_id,
        ServerEventV::ServerFailed { server_id, .. } => server_id,
        ServerEventV::ActionProgress { server_id, .. } => server_id,
        ServerEventV::InstallationComplete { server_id } => server_id,
        ServerEventV::InstallationFailed { server_id, .. } => server_id,
        ServerEventV::UpdateComplete { server_id } => server_id,
        ServerEventV::UpdateFailed { server_id, .. } => server_id,
    }
}

impl ServerEvent {
    /// Returns the [`ServerEventType`] associated with a specific type of event
    pub fn get_event_type(&self) -> (r: ServerEventType)
        ensures
            r == spec_event_type(self@),
    {
        match self {
            ServerEvent::ServerStarting { .. } => ServerEventType::ServerStarting,
            ServerEvent::ServerStarted { .. } => ServerEventType::ServerStarted,
            ServerEvent::ServerStopping { .. } => ServerEventType::ServerStopping,
            ServerEvent::ServerStopped { .. } => ServerEventType::ServerStopped,
            ServerEvent::ServerFailed { .. } => ServerEventType::ServerFailed,
            ServerEvent::ActionProgress { .. } => ServerEventType::ActionProgress,
            ServerEvent::InstallationComplete { .. } => ServerEventType::InstallationComplete,
            ServerEvent::InstallationFailed { .. } => ServerEventType::InstallationFailed,
            ServerEvent::UpdateComplete { .. } => ServerEventType::UpdateComplete,
            ServerEvent::UpdateFailed { .. } => ServerEventType::UpdateFailed,
        }
    }

    /// A structurally equal copy of the event.
    pub fn duplicate(&self) -> (r: ServerEvent)
        ensures
            r@ == self@,
    {
        match self {
            ServerEvent::ServerStarting { server_id } => ServerEvent::ServerStarting {
                server_id: server_id.clone(),
            },
            ServerEvent::ServerStarted { server_id } => ServerEvent::ServerStarted {
                server_id: server_id.clone(),
            },
            ServerEvent::ServerStopping { server_id } => ServerEvent::ServerStopping {
                server_id: server_id.clone(),
            },
            ServerEvent::ServerStopped { server_id } => ServerEvent::ServerStopped {
                server_id: server_id.clone(),
            },
            ServerEvent::ServerFailed { server_id, error } => ServerEvent::ServerFailed {
                server_id: server_id.clone(),
                error: error.clone(),
            },
            ServerEvent::ActionProgress { server_id, action, progress, maximum, action_number } => {
                ServerEvent::ActionProgress {
                    server_id: server_id.clone(),
                    action: action.clone(),
                    progress: *progress,
                    maximum: *maximum,
                    action_number: *action_number,
                }
            },
            ServerEvent::InstallationComplete { server_id } => ServerEvent::InstallationComplete {
                server_id: server_id.clone(),
            },
            ServerEvent::InstallationFailed { server_id, error } => {
                ServerEvent::InstallationFailed {
                    server_id: server_id.clone(),
                    error: error.clone(),
                }
            },
            ServerEvent::UpdateComplete { server_id } => ServerEvent::UpdateComplete {
                server_id: server_id.clone(),
            },
            ServerEvent::UpdateFailed { server_id, error } => ServerEvent::UpdateFailed {
                server_id: server_id.clone(),
                error: error.clone(),
            },
        }
    }
}

/// Commands sent from the client to the daemon.
#[derive(Debug)]
pub enum DaemonCmd {
    /// List all currently managed units
    List,
    /// Get the version of the daemon
    GetVersion,
    /// Start a server; `wait` also subscribes the client to the starting and
    /// started events of that server.
    Start { server_id: String, wait: bool },
    /// Stop a server; `wait` also subscribes the client to the stopping and
    /// stopped events of that server.
    Stop { server_id: String, wait: bool },
    /// Subscribe to events of the given type for the given servers.  Without
    /// a list of servers the command is a no-op: only per-unit subscriptions
    /// are supported.
    SubscribeEvent { event_type: ServerEventType, server_ids: Option<Vec<String>> },
    InstallServer {
        unit_id: String,
        install_path: String,
        unit_file_path: Option<String>,
        server_version: Option<Version>,
        server_type: ServerType,
        accept_eula: bool,
        server_name: Option<String>,
    },
    UpdateServer { unit_id: String, server_version: Option<Version> },
    /// Shut the daemon down.
    StopDaemon,
    /// Forward a chat message to a server's standard input.
    SendMessage { unit_id: String, message: String },
}

/// Spec view of a [`DaemonCmd`].
pub enum DaemonCmdV {
    List,
    GetVersion,
    Start { server_id: Seq<char>, wait: bool },
    Stop { server_id: Seq<char>, wait: bool },
    SubscribeEvent { event_type: ServerEventType, server_ids: Option<Seq<Seq<char>>> },
    InstallServer {
        unit_id: Seq<char>,
        install_path: Seq<char>,
        unit_file_path: Option<Seq<char>>,
        server_version: Option<Version>,
        server_type: ServerType,
        accept_eula: bool,
        server_name: Option<Seq<char>>,
    },
    UpdateServer { unit_id: Seq<char>, server_version: Option<Version> },
    StopDaemon,
    SendMessage { unit_id: Seq<char>, message: Seq<char> },
}

impl View for DaemonCmd {
    type V = DaemonCmdV;

    open spec fn view(&self) -> DaemonCmdV {
        match self {
            DaemonCmd::List => DaemonCmdV::List,
            DaemonCmd::GetVersion => DaemonCmdV::GetVersion,
            DaemonCmd::Start { server_id, wait } => DaemonCmdV::Start {
                server_id: server_id@,
                wait: *wait,
            },
            DaemonCmd::Stop { server_id, wait } => DaemonCmdV::Stop {
                server_id: server_id@,
                wait: *wait,
            },
            DaemonCmd::SubscribeEvent { event_type, server_ids } => DaemonCmdV::SubscribeEvent {
                event_type: *event_type,
                server_ids: match server_ids {
                    Option::None => Option::None,
                    Option::Some(ids) => Option::Some(ids.deep_view()),
                },
            },
            DaemonCmd::InstallServer {
                unit_id,
                install_path,
                unit_file_path,
                server_version,
                server_type,
                accept_eula,
                server_name,
            } => DaemonCmdV::InstallServer {
                unit_id: unit_id@,
                install_path: install_path@,
                unit_file_path: unit_file_path.deep_view(),
                server_version: *server_version,
                server_type: *server_type,
                accept_eula: *accept_eula,
                server_name: server_name.deep_view(),
            },
            DaemonCmd::UpdateServer { unit_id, server_version } => DaemonCmdV::UpdateServer {
                unit_id: unit_id@,
                server_version: *server_version,
            },
            DaemonCmd::StopDaemon => DaemonCmdV::StopDaemon,
            DaemonCmd::SendMessage { unit_id, message } => DaemonCmdV::SendMessage {
                unit_id: unit_id@,
                message: message@,
            },
        }
    }
}

/// An event concerning the daemon itself rather than one of its units.
#[derive(Debug, Clone, Copy, PartialEq, Eq, Structural)]
pub enum DaemonIpcEvent {
    /// The daemon is shutting down.
    Stopped,
}

/// Responses sent from the daemon to a client
#[derive(Debug)]
pub enum DaemonResponse {
    /// A list of all currently managed units
    List { servers: Vec<ServerInfo> },
    /// The command that was sent was not known or is not implemented.
    UnknownCommand,
    /// The version of the daemon.
    Version { version: Version },
    /// Tells the client to use the command channel attached out of band by
    /// the connection acceptor.  The channel handle itself travels outside
    /// this crate.
    SetSender,
    /// The given server id could not be found
    ServerNotFound { server_id: String },
    /// The process of the server has been started (the server itself may
    /// still be booting).
    ServerStarted { server_id: String },
    /// The `stop` command has been delivered to the server.
    ServerStopped { server_id: String },
    /// An event has occurred which the client has subscribed to
    ServerEvent { event: ServerEvent },
    /// An event concerning the daemon itself.
    DaemonEvent(DaemonIpcEvent),
    /// Acknowledges any prior command, which does not have a direct response.
    Ack,
}

/// Spec view of a [`DaemonResponse`].
pub enum DaemonResponseV {
    List { servers: Seq<ServerInfoV> },
    UnknownCommand,
    Version { version: Version },
    SetSender,
    ServerNotFound { server_id: Seq<char> },
    ServerStarted { server_id: Seq<char> },
    ServerStopped { server_id: Seq<char> },
    ServerEvent { event: ServerEventV },
    DaemonEvent(DaemonIpcEvent),
    Ack,
}

impl View for DaemonResponse {
    type V = DaemonResponseV;

    open spec fn view(&self) -> DaemonResponseV {
        match self {
            DaemonResponse::List { servers } => DaemonResponseV::List {
                servers: Seq::new(servers@.len(), |i: int| servers@[i]@),
            },
            DaemonResponse::UnknownCommand => DaemonResponseV::UnknownCommand,
            DaemonResponse::Version { version } => DaemonResponseV::Version { version: *version },
            DaemonResponse::SetSender => DaemonResponseV::SetSender,
            DaemonResponse::ServerNotFound { server_id } => DaemonResponseV::ServerNotFound {
                server_id: server_id@,
            },
            DaemonResponse::ServerStarted { server_id } => DaemonResponseV::ServerStarted {
                server_id: server_id@,
            },
            DaemonResponse::ServerStopped { server_id } => DaemonResponseV::ServerStopped {
                server_id: server_id@,
            },
            DaemonResponse::ServerEvent { event } => DaemonResponseV::ServerEvent { event: event@ },
            DaemonResponse::DaemonEvent(e) => DaemonResponseV::DaemonEvent(*e),
            DaemonResponse::Ack => DaemonResponseV::Ack,
        }
    }
}

/// Information for a new connection used when establishing a new connection
/// to the daemon.
#[derive(Debug)]
pub struct NewConnection {
    /// The minimum required version of the daemon; the daemon rejects the
    /// session when it cannot satisfy it.
    pub min_version: Option<Version>,
    /// The version of the client.
    pub client_version: Version,
    /// The rendezvous address under which the client awaits the daemon's
    /// reply channel.
    pub socket_path: String,
    /// The name of the client software
    pub client_name: String,
}

/// Whether the daemon can serve a client that requires at least
/// `min_version`: an absent requirement is always satisfiable, a present one
/// only when it does not exceed the daemon's own version.
pub open spec fn spec_handshake_ok(min_version: Option<Version>, daemon: Version) -> bool {
    match min_version {
        Option::None => true,
        Option::Some(m) => m.spec_core_le(daemon),
    }
}

/// Decides a client handshake.  On acceptance the two framed responses owed
/// to the client, in order: `SetSender`, then the daemon's version; `None`
/// when the client's version requirement exceeds the daemon's version and
/// the connection is to be dropped.
pub fn handshake_replies(conn: &NewConnection, daemon: &Version) -> (r: Option<
    (DaemonResponse, DaemonResponse),
>)
    ensures
        r is Some <==> spec_handshake_ok(conn.min_version, *daemon),
        r matches Some(rs) ==> rs.0@ == DaemonResponseV::SetSender && rs.1@
            == (DaemonResponseV::Version { version: *daemon }),
{
    match &conn.min_version {
        Option::None => Option::Some(
            (DaemonResponse::SetSender, DaemonResponse::Version { version: *daemon }),
        ),
        Option::Some(m) => {
            if m.core_le(daemon) {
                Option::Some(
                    (DaemonResponse::SetSender, DaemonResponse::Version { version: *daemon }),
                )
            } else {
                Option::None
            }
        },
    }
}

/// The version this daemon advertises.
pub fn daemon_version() -> (v: Version)
    ensures
        v == (Version { major: 0, minor: 1, patch: 0, build: None }),
{
    Version { major: 0, minor: 1, patch: 0, build: None }
}

} // verus!

//! A verified control plane for a fleet of managed Minecraft server units.
//!
//! A resident daemon owns every unit's lifecycle: it starts and stops child
//! processes, derives a unit status from the server's log output, fans
//! lifecycle events out to subscribed clients, and drives install and update
//! pipelines against an artifact repository.  This crate holds the decision
//! logic of that daemon: command handling, subscription management, the
//! log-derived state machine, the install/update step machines, the unit-file
//! format, and the version arithmetic.  Process spawning, sockets, HTTP and
//! the file system live outside the crate; they feed plain values in and
//! carry the returned actions out.

use vstd::prelude::*;

pub mod basic_log;
pub mod config;
pub mod daemon;
pub mod event;
pub mod install;
pub mod ipc;
pub mod repo;
pub mod text;
pub mod unit_file;
pub mod update;
pub mod version;

use crate::config::UnitConfig;
use crate::config::UnitConfigV;
use crate::version::Version;

verus! {

/// Types of servers (in the future) supported by the daemon.
#[derive(Debug, Clone, Copy, PartialEq, Eq, Structural)]
pub enum ServerType {
    /// Vanilla Minecraft server
    Vanilla,
    /// PaperMC server
    Paper,
    /// Bukkit server
    Bukkit,
    /// Spigot server
    Spigot,
}

/// Status of a server, as reported to clients: the log-derived state of the
/// server process projected through its liveness.
#[derive(Debug, Clone, Copy, PartialEq, Eq)]
pub enum ServerStatus {
    /// The status of the server is currently unknown
    Unknown,
    /// The server is currently starting
    Starting,
    /// The server has started and is currently running
    Running,
    /// The server is currently updating
    Updating,
    /// The server is not running (stopped)
    Down,
    /// The server is in lockdown.
    Lockdown,
    /// The process of the server has stopped with a failure.
    /// The error code is contained in this variant.
    Errored(Option<i32>),
    /// The server is shutting down.
    Stopping,
}

/// Info about a server
#[derive(Debug)]
pub struct ServerInfo {
    /// The name/id of a server
    pub name: String,
    /// The path to the server directory
    pub path: String,
    /// The type of the server (server application)
    pub server_type: ServerType,
    /// The version of the server software
    pub server_version: Version,
    /// The current status of the server
    pub server_status: ServerStatus,
}

/// Spec view of a [`ServerInfo`].
pub struct ServerInfoV {
    pub name: Seq<char>,
    pub path: Seq<char>,
    pub server_type: ServerType,
    pub server_version: Version,
    pub server_status: ServerStatus,
}

impl View for ServerInfo {
    type V = ServerInfoV;

    open spec fn view(&self) -> ServerInfoV {
        ServerInfoV {
            name: self.name@,
            path: self.path@,
            server_type: self.server_type,
            server_version: self.server_version,
            server_status: self.server_status,
        }
    }
}

/// General properties of any unit.
pub trait Unit {
    /// The on-disk unit definition, at the spec level.
    spec fn spec_unit_config(&self) -> UnitConfigV;

    /// The path of the unit's file, at the spec level.
    spec fn spec_unit_file_path(&self) -> Seq<char>;

    /// The file which is used to store the config of this unit.
    fn unit_file_path(&self) -> (r: String)
        ensures
            r@ == self.spec_unit_file_path(),
    ;

    /// The unit config for this unit.
    fn unit_config(&self) -> (r: UnitConfig)
        ensures
            r@ == self.spec_unit_config(),
    ;
}

} // verus!

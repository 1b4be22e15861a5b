//! Daemon and unit configurations: the data carried by the daemon's own
//! configuration file and by the per-unit files found below the unit
//! directories.

use crate::version::Version;
use vstd::prelude::*;
use vstd::string::*;

verus! {

/// Config of a daemon
#[derive(Debug)]
pub struct DaemonConfig {
    /// Directories scanned recursively for unit files.
    pub unit_directories: Vec<String>,
    /// Ordered list of unit ids started at boot.
    pub autostart: Vec<String>,
    /// Path of the local socket the connection acceptor binds.
    ///
    /// If this parameter is a relative path, make sure that daemon and
    /// client are run in the same directory!
    pub socket_file: String,
}

/// Spec view of a [`DaemonConfig`].
pub struct DaemonConfigV {
    pub unit_directories: Seq<Seq<char>>,
    pub autostart: Seq<Seq<char>>,
    pub socket_file: Seq<char>,
}

impl View for DaemonConfig {
    type V = DaemonConfigV;

    open spec fn view(&self) -> DaemonConfigV {
        DaemonConfigV {
            unit_directories: self.unit_directories.deep_view(),
            autostart: self.autostart.deep_view(),
            socket_file: self.socket_file@,
        }
    }
}

/// The part of a unit definition common to every unit kind.
#[derive(Debug)]
pub struct UnitConfig {
    pub id: String,
    pub unit_type: String,
}

/// Spec view of a [`UnitConfig`].
pub struct UnitConfigV {
    pub id: Seq<char>,
    pub unit_type: Seq<char>,
}

impl View for UnitConfig {
    type V = UnitConfigV;

    open spec fn view(&self) -> UnitConfigV {
        UnitConfigV { id: self.id@, unit_type: self.unit_type@ }
    }
}

impl DeepView for UnitConfig {
    type V = UnitConfigV;

    open spec fn deep_view(&self) -> UnitConfigV {
        self@
    }
}

impl UnitConfig {
    /// A structurally equal copy.
    pub fn duplicate(&self) -> (r: UnitConfig)
        ensures
            r@ == self@,
    {
        UnitConfig { id: self.id.clone(), unit_type: self.unit_type.clone() }
    }
}

/// The first stage of the two-stage unit-file parse: only the common part,
/// read to decide whether the entry is a server unit at all.
#[derive(Debug)]
pub struct SimpleUnitConfig {
    pub unit: UnitConfig,
}

impl View for SimpleUnitConfig {
    type V = UnitConfigV;

    open spec fn view(&self) -> UnitConfigV {
        self.unit@
    }
}

/// Config of a server
#[derive(Debug)]
pub struct ServerConfig {
    /// The name of the server
    pub name: String,
    /// The path where a server is located
    pub path: String,
    /// The name of a server type
    pub kind: String,
    /// The location of the jar relative to `path`
    pub jar: String,
    /// The version of the installed server software
    pub version: Version,
    /// The amount of memory dedicated to a server in gigabyte
    pub memory: u32,
}

/// Spec view of a [`ServerConfig`].
pub struct ServerConfigV {
    pub name: Seq<char>,
    pub path: Seq<char>,
    pub kind: Seq<char>,
    pub jar: Seq<char>,
    pub version: Version,
    pub memory: u32,
}

impl View for ServerConfig {
    type V = ServerConfigV;

    open spec fn view(&self) -> ServerConfigV {
        ServerConfigV {
            name: self.name@,
            path: self.path@,
            kind: self.kind@,
            jar: self.jar@,
            version: self.version,
            memory: self.memory,
        }
    }
}

impl DeepView for ServerConfig {
    type V = ServerConfigV;

    open spec fn deep_view(&self) -> ServerConfigV {
        self@
    }
}

impl ServerConfig {
    /// A structurally equal copy.
    pub fn duplicate(&self) -> (r: ServerConfig)
        ensures
            r@ == self@,
    {
        ServerConfig {
            name: self.name.clone(),
            path: self.path.clone(),
            kind: self.kind.clone(),
            jar: self.jar.clone(),
            version: self.version,
            memory: self.memory,
        }
    }
}

/// A full server unit definition; this is the on-disk form of a unit file.
#[derive(Debug)]
pub struct ServerUnitConfig {
    pub unit: UnitConfig,
    pub server: ServerConfig,
}

/// Spec view of a [`ServerUnitConfig`].
pub struct ServerUnitConfigV {
    pub unit: UnitConfigV,
    pub server: ServerConfigV,
}

impl View for ServerUnitConfig {
    type V = ServerUnitConfigV;

    open spec fn view(&self) -> ServerUnitConfigV {
        ServerUnitConfigV { unit: self.unit@, server: self.server@ }
    }
}

impl DeepView for ServerUnitConfig {
    type V = ServerUnitConfigV;

    open spec fn deep_view(&self) -> ServerUnitConfigV {
        self@
    }
}

impl ServerUnitConfig {
    /// A structurally equal copy.
    pub fn duplicate(&self) -> (r: ServerUnitConfig)
        ensures
            r@ == self@,
    {
        ServerUnitConfig { unit: self.unit.duplicate(), server: self.server.duplicate() }
    }
}

} // verus!

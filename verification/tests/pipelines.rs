//! Tests of the install and update pipelines, driven step by step with
//! scripted outcomes in place of the filesystem, the repository and the
//! patch process.

use mcman::config::{ServerConfig, ServerUnitConfig, UnitConfig};
use mcman::daemon::{create_server, Daemon, DaemonAction, DaemonEvent};
use mcman::event::{EventHandler, EventManagerCmd};
use mcman::install::{
    InstallAdvance, InstallError, InstallOutcome, InstallStep, PaperServerInstaller,
};
use mcman::ipc::{daemon_version, DaemonCmd, DaemonResponse, ServerEvent};
use mcman::repo::{PaperArtifact, RepositoryError};
use mcman::unit_file::parse_unit_file;
use mcman::update::{PaperServerUpdater, UpdateAdvance, UpdateError, UpdateOutcome, UpdateStep};
use mcman::version::Version;

fn artifact(v: Version) -> PaperArtifact {
    PaperArtifact {
        version: v,
        download_name: "paper-1.20.1-196.jar".to_string(),
    }
}

fn action_names(handler: &mut EventHandler) -> Vec<String> {
    let mut names = Vec::new();
    for cmd in handler.drain() {
        match cmd {
            EventManagerCmd::DispatchEvent { event, .. } => match event {
                ServerEvent::ActionProgress { action, .. } => names.push(action.as_str().to_string()),
                ServerEvent::InstallationComplete { .. } => names.push("<complete>".to_string()),
                ServerEvent::InstallationFailed { error, .. } => {
                    names.push(format!("<failed: {}>", error.as_str()))
                },
                ServerEvent::UpdateComplete { .. } => names.push("<complete>".to_string()),
                ServerEvent::UpdateFailed { error, .. } => {
                    names.push(format!("<failed: {}>", error.as_str()))
                },
                other => names.push(format!("<other: {:?}>", other)),
            },
            other => names.push(format!("<cmd: {:?}>", other)),
        }
    }
    names
}

fn expect_next(advance: InstallAdvance) -> InstallStep {
    match advance {
        InstallAdvance::Next(step) => step,
        other => panic!("expected a next step, got {:?}", other),
    }
}

#[test]
fn install_latest_paper_end_to_end() {
    let mut installer = PaperServerInstaller::new(EventHandler::new(), "u1".to_string());
    let first = installer.install_server(
        "/tmp/u1".to_string(),
        Some("/tmp/u1.toml".to_string()),
        None,
        true,
        Some("srv".to_string()),
    );
    match first {
        InstallStep::CheckPath { ref path } => assert_eq!(path.as_str(), "/tmp/u1"),
        ref other => panic!("unexpected step: {:?}", other),
    }
    // the directory does not exist yet
    let step = expect_next(installer.advance(InstallOutcome::PathChecked { exists: false }));
    match step {
        InstallStep::CreateDir { ref path } => assert_eq!(path.as_str(), "/tmp/u1"),
        ref other => panic!("unexpected step: {:?}", other),
    }
    let step = expect_next(installer.advance(InstallOutcome::DirCreated { error: None }));
    match step {
        InstallStep::WriteEula { ref path, ref contents } => {
            assert_eq!(path.as_str(), "/tmp/u1/eula.txt");
            assert_eq!(contents.as_str(), "eula=true\n");
        },
        ref other => panic!("unexpected step: {:?}", other),
    }
    // no version requested: the repository resolves the latest
    let step = expect_next(installer.advance(InstallOutcome::EulaWritten { error: None }));
    assert!(matches!(step, InstallStep::ResolveVersion));
    let step = expect_next(installer.advance(InstallOutcome::VersionResolved {
        result: Ok(Version::new(1, 20, 1)),
    }));
    match step {
        InstallStep::FetchArtifact { version } => assert_eq!(version, Version::new(1, 20, 1)),
        ref other => panic!("unexpected step: {:?}", other),
    }
    let resolved = Version::new(1, 20, 1).with_build(196);
    let step = expect_next(installer.advance(InstallOutcome::ArtifactFetched {
        result: Ok(artifact(resolved)),
    }));
    match step {
        InstallStep::DownloadArtifact { ref artifact, ref dest } => {
            assert_eq!(artifact.version, resolved);
            assert_eq!(dest.as_str(), "/tmp/u1/paper_1.20.1-196.jar");
        },
        ref other => panic!("unexpected step: {:?}", other),
    }
    let step = expect_next(installer.advance(InstallOutcome::ArtifactDownloaded { error: None }));
    match step {
        InstallStep::RunPatch { ref dir, ref jar } => {
            assert_eq!(dir.as_str(), "/tmp/u1");
            assert_eq!(jar.as_str(), "paper_1.20.1-196.jar");
        },
        ref other => panic!("unexpected step: {:?}", other),
    }
    let step = expect_next(installer.advance(InstallOutcome::PatchFinished {
        ok: true,
        stderr: String::new(),
    }));
    let contents = match step {
        InstallStep::WriteUnitFile { ref path, ref contents } => {
            assert_eq!(path.as_str(), "/tmp/u1.toml");
            contents.as_str().to_string()
        },
        ref other => panic!("unexpected step: {:?}", other),
    };
    let done = installer.advance(InstallOutcome::UnitFileWritten { error: None });
    let config = match done {
        InstallAdvance::Done(config) => config,
        other => panic!("expected completion, got {:?}", other),
    };
    assert_eq!(config.unit.id.as_str(), "u1");
    assert_eq!(config.unit.unit_type.as_str(), "server");
    assert_eq!(config.server.name.as_str(), "srv");
    assert_eq!(config.server.path.as_str(), "/tmp/u1");
    assert_eq!(config.server.kind.as_str(), "paper");
    assert_eq!(config.server.jar.as_str(), "paper_1.20.1-196.jar");
    assert_eq!(config.server.version, resolved);
    assert_eq!(config.server.memory, 10);
    // the written unit file parses back to the same definition
    let reread = parse_unit_file(contents.as_str()).unwrap();
    assert_eq!(reread.unit.id, config.unit.id);
    assert_eq!(reread.server.version, config.server.version);
    assert_eq!(reread.server.jar, config.server.jar);
    // the pipeline's events, in order
    let names = action_names(&mut installer.event_handler);
    assert_eq!(
        names,
        vec![
            "creating server directory".to_string(),
            "creating initial server configuration".to_string(),
            "downloading jar".to_string(),
            "patching jar".to_string(),
            "<complete>".to_string(),
        ]
    );
}

#[test]
fn install_skips_eula_when_not_accepted() {
    let mut installer = PaperServerInstaller::new(EventHandler::new(), "u1".to_string());
    let _ = installer.install_server(
        "/tmp/u1".to_string(),
        Some("/tmp/u1.toml".to_string()),
        Some(Version::new(1, 20, 1).with_build(196)),
        false,
        None,
    );
    let _ = installer.advance(InstallOutcome::PathChecked { exists: false });
    // with a requested version the repository is asked for it directly
    let step = expect_next(installer.advance(InstallOutcome::DirCreated { error: None }));
    match step {
        InstallStep::FetchArtifact { version } => {
            assert_eq!(version, Version::new(1, 20, 1).with_build(196));
        },
        ref other => panic!("unexpected step: {:?}", other),
    }
    let names = action_names(&mut installer.event_handler);
    assert_eq!(
        names,
        vec!["creating server directory".to_string(), "downloading jar".to_string()]
    );
}

#[test]
fn install_fails_on_existing_directory() {
    let mut installer = PaperServerInstaller::new(EventHandler::new(), "u1".to_string());
    let _ = installer.install_server("/tmp/u1".to_string(), None, None, false, None);
    let advance = installer.advance(InstallOutcome::PathChecked { exists: true });
    assert!(matches!(advance, InstallAdvance::Failed(InstallError::DirExists)));
    let names = action_names(&mut installer.event_handler);
    assert_eq!(names, vec!["<failed: DirExists>".to_string()]);
}

#[test]
fn install_reports_step_errors() {
    let mut installer = PaperServerInstaller::new(EventHandler::new(), "u1".to_string());
    let _ = installer.install_server("/tmp/u1".to_string(), None, None, false, None);
    let _ = installer.advance(InstallOutcome::PathChecked { exists: false });
    let advance = installer.advance(InstallOutcome::DirCreated {
        error: Some("permission denied".to_string()),
    });
    match advance {
        InstallAdvance::Failed(InstallError::CreateDir(message)) => {
            assert_eq!(message.as_str(), "permission denied");
        },
        other => panic!("unexpected advance: {:?}", other),
    }
}

#[test]
fn install_without_unit_file_location_fails_after_patch() {
    let mut installer = PaperServerInstaller::new(EventHandler::new(), "u1".to_string());
    let _ = installer.install_server(
        "/tmp/u1".to_string(),
        None,
        Some(Version::new(1, 20, 1).with_build(196)),
        false,
        None,
    );
    let _ = installer.advance(InstallOutcome::PathChecked { exists: false });
    let _ = installer.advance(InstallOutcome::DirCreated { error: None });
    let _ = installer.advance(InstallOutcome::ArtifactFetched {
        result: Ok(artifact(Version::new(1, 20, 1).with_build(196))),
    });
    let _ = installer.advance(InstallOutcome::ArtifactDownloaded { error: None });
    let advance = installer.advance(InstallOutcome::PatchFinished {
        ok: true,
        stderr: String::new(),
    });
    assert!(matches!(
        advance,
        InstallAdvance::Failed(InstallError::UnsupportedConfiguration)
    ));
}

#[test]
fn install_surfaces_patch_output_on_failure() {
    let mut installer = PaperServerInstaller::new(EventHandler::new(), "u1".to_string());
    let _ = installer.install_server(
        "/tmp/u1".to_string(),
        Some("/tmp/u1.toml".to_string()),
        Some(Version::new(1, 20, 1).with_build(196)),
        false,
        None,
    );
    let _ = installer.advance(InstallOutcome::PathChecked { exists: false });
    let _ = installer.advance(InstallOutcome::DirCreated { error: None });
    let _ = installer.advance(InstallOutcome::ArtifactFetched {
        result: Ok(artifact(Version::new(1, 20, 1).with_build(196))),
    });
    let _ = installer.advance(InstallOutcome::ArtifactDownloaded { error: None });
    let advance = installer.advance(InstallOutcome::PatchFinished {
        ok: false,
        stderr: "Unsupported class file version".to_string(),
    });
    match advance {
        InstallAdvance::Failed(InstallError::PerformPatch(stderr)) => {
            assert_eq!(stderr.as_str(), "Unsupported class file version");
        },
        other => panic!("unexpected advance: {:?}", other),
    }
}

#[test]
fn install_maps_repository_errors_to_download_failures() {
    let mut installer = PaperServerInstaller::new(EventHandler::new(), "u1".to_string());
    let _ = installer.install_server("/tmp/u1".to_string(), None, None, false, None);
    let _ = installer.advance(InstallOutcome::PathChecked { exists: false });
    let _ = installer.advance(InstallOutcome::DirCreated { error: None });
    let advance = installer.advance(InstallOutcome::VersionResolved {
        result: Err(RepositoryError::borrowed("no version found")),
    });
    match advance {
        InstallAdvance::Failed(InstallError::DownloadFailed(message)) => {
            assert_eq!(message.as_str(), "no version found");
        },
        other => panic!("unexpected advance: {:?}", other),
    }
}

fn current_config() -> (ServerConfig, UnitConfig) {
    (
        ServerConfig {
            name: "srv".to_string(),
            path: "/srv/u1".to_string(),
            kind: "paper".to_string(),
            jar: "paper_1.20.1-196.jar".to_string(),
            version: Version::new(1, 20, 1).with_build(196),
            memory: 10,
        },
        UnitConfig {
            id: "u1".to_string(),
            unit_type: "server".to_string(),
        },
    )
}

#[test]
fn update_fails_when_already_up_to_date() {
    let (server, unit) = current_config();
    let mut updater = PaperServerUpdater::new(
        "u1".to_string(),
        "/tmp/u1.toml".to_string(),
        EventHandler::new(),
    );
    let step = updater.update_server(None, server, unit);
    assert!(matches!(step, UpdateStep::ResolveVersion));
    let step = match updater.advance(UpdateOutcome::VersionResolved {
        result: Ok(Version::new(1, 20, 1)),
    }) {
        UpdateAdvance::Next(step) => step,
        other => panic!("expected a next step, got {:?}", other),
    };
    match step {
        UpdateStep::FetchArtifact { version, latest } => {
            assert_eq!(version, Version::new(1, 20, 1));
            assert!(latest);
        },
        ref other => panic!("unexpected step: {:?}", other),
    }
    // the repository reports the very build that is installed
    let advance = updater.advance(UpdateOutcome::ArtifactFetched {
        result: Ok(artifact(Version::new(1, 20, 1).with_build(196))),
    });
    assert!(matches!(advance, UpdateAdvance::Failed(UpdateError::AlreadyUpToDate)));
    // the check event came first, then the failure; no unit file was touched
    let names = action_names(&mut updater.event_handler);
    assert_eq!(
        names,
        vec![
            "checking for update".to_string(),
            "<failed: AlreadyUpToDate>".to_string(),
        ]
    );
}

#[test]
fn update_downloads_patches_and_rewrites_the_unit_file() {
    let (server, unit) = current_config();
    let mut updater = PaperServerUpdater::new(
        "u1".to_string(),
        "/tmp/u1.toml".to_string(),
        EventHandler::new(),
    );
    let step = updater.update_server(
        Some(Version::new(1, 20, 2).with_build(12)),
        server,
        unit,
    );
    match step {
        UpdateStep::FetchArtifact { version, latest } => {
            assert_eq!(version, Version::new(1, 20, 2).with_build(12));
            assert!(!latest);
        },
        ref other => panic!("unexpected step: {:?}", other),
    }
    let target = Version::new(1, 20, 2).with_build(12);
    let step = match updater.advance(UpdateOutcome::ArtifactFetched {
        result: Ok(artifact(target)),
    }) {
        UpdateAdvance::Next(step) => step,
        other => panic!("expected a next step, got {:?}", other),
    };
    match step {
        UpdateStep::DownloadArtifact { ref dest, .. } => {
            assert_eq!(dest.as_str(), "/srv/u1/paper_1.20.2-12.jar");
        },
        ref other => panic!("unexpected step: {:?}", other),
    }
    let step = match updater.advance(UpdateOutcome::ArtifactDownloaded { error: None }) {
        UpdateAdvance::Next(step) => step,
        other => panic!("expected a next step, got {:?}", other),
    };
    match step {
        UpdateStep::RunPatch { ref dir, ref jar } => {
            assert_eq!(dir.as_str(), "/srv/u1");
            assert_eq!(jar.as_str(), "paper_1.20.2-12.jar");
        },
        ref other => panic!("unexpected step: {:?}", other),
    }
    let step = match updater.advance(UpdateOutcome::PatchFinished {
        ok: true,
        stderr: String::new(),
    }) {
        UpdateAdvance::Next(step) => step,
        other => panic!("expected a next step, got {:?}", other),
    };
    let contents = match step {
        UpdateStep::WriteUnitFile { ref path, ref contents } => {
            assert_eq!(path.as_str(), "/tmp/u1.toml");
            contents.as_str().to_string()
        },
        ref other => panic!("unexpected step: {:?}", other),
    };
    let done = updater.advance(UpdateOutcome::UnitFileWritten { error: None });
    let config = match done {
        UpdateAdvance::Done(config) => config,
        other => panic!("expected completion, got {:?}", other),
    };
    assert_eq!(config.server.version, target);
    assert_eq!(config.server.jar.as_str(), "paper_1.20.2-12.jar");
    assert_eq!(config.server.name.as_str(), "srv");
    let reread = parse_unit_file(contents.as_str()).unwrap();
    assert_eq!(reread.server.version, target);
    let names = action_names(&mut updater.event_handler);
    assert_eq!(
        names,
        vec![
            "checking for update".to_string(),
            "downloading jar".to_string(),
            "patching jar".to_string(),
            "<complete>".to_string(),
        ]
    );
}

#[test]
fn install_error_texts_name_the_variant() {
    assert_eq!(InstallError::DirExists.text().as_str(), "DirExists");
    assert_eq!(InstallError::UnitAlreadyExists.text().as_str(), "UnitAlreadyExists");
    assert_eq!(
        InstallError::WriteUnitFile("disk full".to_string()).text().as_str(),
        "WriteUnitFile: disk full"
    );
    assert_eq!(
        InstallError::WriteInitialSettings("denied".to_string()).text().as_str(),
        "WriteInitialSettings: denied"
    );
    assert_eq!(
        UpdateError::DownloadFailed("timeout".to_string()).text().as_str(),
        "DownloadFailed: timeout"
    );
    assert_eq!(UpdateError::AlreadyUpToDate.text().as_str(), "AlreadyUpToDate");
}

#[test]
fn install_command_collision_raises_failure_event() {
    let (server, unit) = current_config();
    let existing = create_server(
        ServerUnitConfig { unit, server },
        "/tmp/u1.toml".to_string(),
    )
    .unwrap();
    let mut daemon = Daemon::from_config(daemon_version(), vec![existing]);
    let cmd = DaemonCmd::InstallServer {
        unit_id: "u1".to_string(),
        install_path: "/tmp/u1".to_string(),
        unit_file_path: Some("/tmp/u1.toml".to_string()),
        server_version: None,
        server_type: mcman::ServerType::Paper,
        accept_eula: true,
        server_name: None,
    };
    let (resp, actions) = daemon.handle_cmd(cmd, 4);
    assert!(matches!(resp, DaemonResponse::Ack));
    assert_eq!(actions.len(), 4);
    match &actions[3] {
        DaemonAction::RaiseEvent { event: ServerEvent::InstallationFailed { error, .. }, .. } => {
            assert_eq!(error.as_str(), "a unit with that name already exists");
        },
        other => panic!("unexpected action: {:?}", other),
    }
    // with a fresh id the worker is launched instead
    let cmd = DaemonCmd::InstallServer {
        unit_id: "u2".to_string(),
        install_path: "/tmp/u2".to_string(),
        unit_file_path: Some("/tmp/u2.toml".to_string()),
        server_version: None,
        server_type: mcman::ServerType::Paper,
        accept_eula: true,
        server_name: None,
    };
    let (_, actions) = daemon.handle_cmd(cmd, 4);
    assert!(matches!(&actions[3], DaemonAction::LaunchInstall { .. }));
}

#[test]
fn install_of_unsupported_kind_raises_failure_event() {
    let mut daemon = Daemon::new(daemon_version());
    let cmd = DaemonCmd::InstallServer {
        unit_id: "u1".to_string(),
        install_path: "/tmp/u1".to_string(),
        unit_file_path: Some("/tmp/u1.toml".to_string()),
        server_version: None,
        server_type: mcman::ServerType::Vanilla,
        accept_eula: true,
        server_name: None,
    };
    let (resp, actions) = daemon.handle_cmd(cmd, 4);
    assert!(matches!(resp, DaemonResponse::Ack));
    assert_eq!(actions.len(), 4);
    match &actions[3] {
        DaemonAction::RaiseEvent { event: ServerEvent::InstallationFailed { error, .. }, .. } => {
            assert_eq!(error.as_str(), "UnsupportedServerType");
        },
        other => panic!("unexpected action: {:?}", other),
    }
    // no worker is launched for an unsupported kind
    for action in &actions {
        assert!(!matches!(action, DaemonAction::LaunchInstall { .. }));
    }
}

#[test]
fn finished_update_replaces_the_live_record() {
    let (server, unit) = current_config();
    let existing = create_server(
        ServerUnitConfig { unit, server },
        "/tmp/u1.toml".to_string(),
    )
    .unwrap();
    let mut daemon = Daemon::from_config(daemon_version(), vec![existing]);
    // the update worker re-posts the rewritten definition
    let (server, unit) = current_config();
    let updated = ServerUnitConfig {
        unit,
        server: ServerConfig {
            version: Version::new(1, 20, 2).with_build(12),
            jar: "paper_1.20.2-12.jar".to_string(),
            ..server
        },
    };
    let _ = daemon.handle_event(DaemonEvent::AddServerUnit {
        server_unit_config: updated,
        unit_file: "/tmp/u1.toml".to_string(),
    });
    assert_eq!(daemon.units.len(), 1);
    assert_eq!(daemon.units[0].config.server.version, Version::new(1, 20, 2).with_build(12));
    assert_eq!(daemon.units[0].config.server.jar.as_str(), "paper_1.20.2-12.jar");
}

#[test]
fn update_command_requires_a_known_unit() {
    let mut daemon = Daemon::new(daemon_version());
    let (resp, actions) = daemon.handle_cmd(
        DaemonCmd::UpdateServer { unit_id: "ghost".to_string(), server_version: None },
        2,
    );
    assert!(matches!(resp, DaemonResponse::ServerNotFound { .. }));
    assert!(actions.is_empty());
    // with a known unit the worker request carries its current definition
    let (server, unit) = current_config();
    let existing = create_server(
        ServerUnitConfig { unit, server },
        "/tmp/u1.toml".to_string(),
    )
    .unwrap();
    let mut daemon = Daemon::from_config(daemon_version(), vec![existing]);
    let (resp, actions) = daemon.handle_cmd(
        DaemonCmd::UpdateServer { unit_id: "u1".to_string(), server_version: None },
        2,
    );
    assert!(matches!(resp, DaemonResponse::Ack));
    assert_eq!(actions.len(), 4);
    match &actions[3] {
        DaemonAction::LaunchUpdate { request } => {
            assert_eq!(request.unit_id.as_str(), "u1");
            assert_eq!(request.unit_file_path.as_str(), "/tmp/u1.toml");
            assert_eq!(request.server_config.version, Version::new(1, 20, 1).with_build(196));
        },
        other => panic!("unexpected action: {:?}", other),
    }
}

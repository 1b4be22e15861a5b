//! Tests of the control plane: handshake, dispatcher commands and events,
//! subscriptions, the log interpreter, and the status projection.

use mcman::basic_log::BasicLogService;
use mcman::config::{ServerConfig, ServerUnitConfig, UnitConfig};
use mcman::daemon::{
    create_server, launch_args, is_unit_candidate, unit_from_file, Daemon, DaemonAction,
    DaemonEvent, DaemonServer, OutputState, ProcessExit,
};
use mcman::event::{EventHandler, EventManager, EventManagerCmd};
use mcman::ipc::{
    daemon_version, handshake_replies, DaemonCmd, DaemonIpcEvent, DaemonResponse, NewConnection,
    ServerEvent, ServerEventType,
};
use mcman::unit_file::render_unit_file;
use mcman::version::Version;
use mcman::ServerStatus;

fn sample_unit(id: &str) -> ServerUnitConfig {
    ServerUnitConfig {
        unit: UnitConfig {
            id: id.to_string(),
            unit_type: "server".to_string(),
        },
        server: ServerConfig {
            name: "srv".to_string(),
            path: format!("/srv/{}", id),
            kind: "paper".to_string(),
            jar: "paper_1.20.1-196.jar".to_string(),
            version: Version::new(1, 20, 1).with_build(196),
            memory: 10,
        },
    }
}

fn daemon_with(ids: &[&str]) -> Daemon {
    let mut units = Vec::new();
    for id in ids {
        units.push(create_server(sample_unit(id), format!("/etc/units/{}.toml", id)).unwrap());
    }
    Daemon::from_config(daemon_version(), units)
}

#[test]
fn handshake_sends_set_sender_then_version() {
    let conn = NewConnection {
        min_version: None,
        client_version: Version::new(0, 1, 0),
        socket_path: "/tmp/x".to_string(),
        client_name: "t".to_string(),
    };
    let daemon = daemon_version();
    let (first, second) = handshake_replies(&conn, &daemon).unwrap();
    assert!(matches!(first, DaemonResponse::SetSender));
    match second {
        DaemonResponse::Version { version } => assert_eq!(version, daemon),
        other => panic!("unexpected reply: {:?}", other),
    }
}

#[test]
fn handshake_rejects_unsatisfiable_version() {
    let conn = NewConnection {
        min_version: Some(Version::new(9, 0, 0)),
        client_version: Version::new(0, 1, 0),
        socket_path: "/tmp/x".to_string(),
        client_name: "t".to_string(),
    };
    assert!(handshake_replies(&conn, &daemon_version()).is_none());
    let modest = NewConnection {
        min_version: Some(Version::new(0, 1, 0)),
        client_version: Version::new(0, 1, 0),
        socket_path: "/tmp/x".to_string(),
        client_name: "t".to_string(),
    };
    assert!(handshake_replies(&modest, &daemon_version()).is_some());
}

#[test]
fn list_is_empty_without_units() {
    let mut daemon = Daemon::new(daemon_version());
    let (resp, actions) = daemon.handle_cmd(DaemonCmd::List, 0);
    match resp {
        DaemonResponse::List { servers } => assert!(servers.is_empty()),
        other => panic!("unexpected response: {:?}", other),
    }
    assert!(actions.is_empty());
}

#[test]
fn list_projects_the_table() {
    let mut daemon = daemon_with(&["alpha"]);
    let (resp, _) = daemon.handle_cmd(DaemonCmd::List, 0);
    match resp {
        DaemonResponse::List { servers } => {
            assert_eq!(servers.len(), 1);
            assert_eq!(servers[0].name.as_str(), "alpha");
            assert_eq!(servers[0].path.as_str(), "/srv/alpha");
            assert_eq!(servers[0].server_status, ServerStatus::Down);
        },
        other => panic!("unexpected response: {:?}", other),
    }
}

#[test]
fn start_of_missing_unit_answers_not_found() {
    let mut daemon = Daemon::new(daemon_version());
    let (resp, actions) = daemon.handle_cmd(
        DaemonCmd::Start { server_id: "missing".to_string(), wait: true },
        3,
    );
    match resp {
        DaemonResponse::ServerNotFound { server_id } => assert_eq!(server_id.as_str(), "missing"),
        other => panic!("unexpected response: {:?}", other),
    }
    assert!(actions.is_empty());
}

#[test]
fn start_with_wait_subscribes_before_spawning() {
    let mut daemon = daemon_with(&["alpha"]);
    let (resp, actions) = daemon.handle_cmd(
        DaemonCmd::Start { server_id: "alpha".to_string(), wait: true },
        7,
    );
    assert!(matches!(resp, DaemonResponse::Ack));
    assert_eq!(actions.len(), 3);
    assert!(matches!(
        &actions[0],
        DaemonAction::Subscribe { event_type: ServerEventType::ServerStarting, client_id: 7, .. }
    ));
    assert!(matches!(
        &actions[1],
        DaemonAction::Subscribe { event_type: ServerEventType::ServerStarted, client_id: 7, .. }
    ));
    assert!(matches!(&actions[2], DaemonAction::SpawnUnit { .. }));
}

#[test]
fn start_without_wait_replies_started_at_once() {
    let mut daemon = daemon_with(&["alpha"]);
    let (resp, actions) = daemon.handle_cmd(
        DaemonCmd::Start { server_id: "alpha".to_string(), wait: false },
        7,
    );
    match resp {
        DaemonResponse::ServerStarted { server_id } => assert_eq!(server_id.as_str(), "alpha"),
        other => panic!("unexpected response: {:?}", other),
    }
    assert_eq!(actions.len(), 1);
    assert!(matches!(&actions[0], DaemonAction::SpawnUnit { .. }));
}

#[test]
fn start_again_while_running_spawns_nothing() {
    let mut daemon = daemon_with(&["alpha"]);
    let _ = daemon.handle_cmd(DaemonCmd::Start { server_id: "alpha".to_string(), wait: false }, 7);
    daemon.units[0].note_output_state(OutputState::Started);
    let (resp, actions) = daemon.handle_cmd(
        DaemonCmd::Start { server_id: "alpha".to_string(), wait: true },
        7,
    );
    assert!(matches!(resp, DaemonResponse::Ack));
    assert_eq!(actions.len(), 2);
    assert!(matches!(&actions[0], DaemonAction::Subscribe { .. }));
    assert!(matches!(&actions[1], DaemonAction::Subscribe { .. }));
}

#[test]
fn stop_sends_stop_line_only_when_running() {
    let mut daemon = daemon_with(&["alpha"]);
    // not running: nothing to stop, the reply still comes
    let (resp, actions) = daemon.handle_cmd(
        DaemonCmd::Stop { server_id: "alpha".to_string(), wait: false },
        7,
    );
    match resp {
        DaemonResponse::ServerStopped { server_id } => assert_eq!(server_id.as_str(), "alpha"),
        other => panic!("unexpected response: {:?}", other),
    }
    assert!(actions.is_empty());
    // running: the unit's child is stopped
    let _ = daemon.handle_cmd(DaemonCmd::Start { server_id: "alpha".to_string(), wait: false }, 7);
    daemon.units[0].note_output_state(OutputState::Started);
    let (resp, actions) = daemon.handle_cmd(
        DaemonCmd::Stop { server_id: "alpha".to_string(), wait: true },
        7,
    );
    assert!(matches!(resp, DaemonResponse::Ack));
    assert_eq!(actions.len(), 3);
    assert!(matches!(
        &actions[0],
        DaemonAction::Subscribe { event_type: ServerEventType::ServerStopping, .. }
    ));
    assert!(matches!(
        &actions[1],
        DaemonAction::Subscribe { event_type: ServerEventType::ServerStopped, .. }
    ));
    assert!(matches!(
        &actions[2],
        DaemonAction::StopUnit { await_start: false, wait_exit: false, .. }
    ));
    assert_eq!(daemon.units[0].status(), ServerStatus::Down);
}

#[test]
fn send_message_forwards_a_say_line() {
    let mut daemon = daemon_with(&["alpha"]);
    let (resp, actions) = daemon.handle_cmd(
        DaemonCmd::SendMessage { unit_id: "alpha".to_string(), message: "hello there".to_string() },
        1,
    );
    assert!(matches!(resp, DaemonResponse::Ack));
    assert_eq!(actions.len(), 1);
    match &actions[0] {
        DaemonAction::SendStdin { server_id, line } => {
            assert_eq!(server_id.as_str(), "alpha");
            assert_eq!(line.as_str(), "say hello there");
        },
        other => panic!("unexpected action: {:?}", other),
    }
    let (resp, _) = daemon.handle_cmd(
        DaemonCmd::SendMessage { unit_id: "beta".to_string(), message: "hi".to_string() },
        1,
    );
    assert!(matches!(resp, DaemonResponse::ServerNotFound { .. }));
}

#[test]
fn subscribe_without_servers_is_a_no_op() {
    let mut daemon = daemon_with(&["alpha"]);
    let (resp, actions) = daemon.handle_cmd(
        DaemonCmd::SubscribeEvent { event_type: ServerEventType::ServerStarted, server_ids: None },
        1,
    );
    assert!(matches!(resp, DaemonResponse::Ack));
    assert!(actions.is_empty());
    let (_, actions) = daemon.handle_cmd(
        DaemonCmd::SubscribeEvent {
            event_type: ServerEventType::ServerStarted,
            server_ids: Some(vec!["a".to_string(), "b".to_string()]),
        },
        1,
    );
    assert_eq!(actions.len(), 2);
}

#[test]
fn stop_daemon_command_enqueues_shutdown() {
    let mut daemon = daemon_with(&["alpha"]);
    let (resp, actions) = daemon.handle_cmd(DaemonCmd::StopDaemon, 1);
    assert!(matches!(resp, DaemonResponse::Ack));
    assert_eq!(actions.len(), 1);
    assert!(matches!(&actions[0], DaemonAction::EnqueueStopDaemon));
}

#[test]
fn shutdown_stops_active_units_then_reports() {
    let mut daemon = daemon_with(&["alpha", "beta", "gamma"]);
    // alpha running, beta still starting, gamma down
    let _ = daemon.handle_cmd(DaemonCmd::Start { server_id: "alpha".to_string(), wait: false }, 0);
    daemon.units[0].note_output_state(OutputState::Started);
    let _ = daemon.handle_cmd(DaemonCmd::Start { server_id: "beta".to_string(), wait: false }, 0);
    daemon.units[1].note_output_state(OutputState::Starting);
    let step = daemon.handle_event(DaemonEvent::StopDaemon);
    assert!(step.replies.is_empty());
    assert!(!step.exit_process);
    assert_eq!(step.actions.len(), 3);
    match &step.actions[0] {
        DaemonAction::StopUnit { server_id, await_start, wait_exit } => {
            assert_eq!(server_id.as_str(), "alpha");
            assert!(!*await_start);
            assert!(*wait_exit);
        },
        other => panic!("unexpected action: {:?}", other),
    }
    match &step.actions[1] {
        DaemonAction::StopUnit { server_id, await_start, wait_exit } => {
            assert_eq!(server_id.as_str(), "beta");
            assert!(*await_start);
            assert!(*wait_exit);
        },
        other => panic!("unexpected action: {:?}", other),
    }
    assert!(matches!(&step.actions[2], DaemonAction::EnqueueDaemonStopped));
    assert_eq!(daemon.units[0].status(), ServerStatus::Down);
    assert_eq!(daemon.units[1].status(), ServerStatus::Down);
}

#[test]
fn stopped_broadcast_reaches_every_client_then_exits() {
    let mut daemon = Daemon::new(daemon_version());
    let first = daemon.register_client();
    let second = daemon.register_client();
    assert_ne!(first, second);
    let step = daemon.handle_event(DaemonEvent::SendDaemonEvent(DaemonIpcEvent::Stopped));
    assert_eq!(step.replies.len(), 2);
    assert_eq!(step.replies[0].0, first);
    assert_eq!(step.replies[1].0, second);
    assert!(matches!(
        step.replies[0].1,
        DaemonResponse::DaemonEvent(DaemonIpcEvent::Stopped)
    ));
    assert!(matches!(
        step.replies[1].1,
        DaemonResponse::DaemonEvent(DaemonIpcEvent::Stopped)
    ));
    assert!(step.exit_process);
}

#[test]
fn incoming_command_gets_exactly_one_reply() {
    let mut daemon = daemon_with(&["alpha"]);
    let step = daemon.handle_event(DaemonEvent::IncomingCmd { id: 5, cmd: DaemonCmd::GetVersion });
    assert_eq!(step.replies.len(), 1);
    assert_eq!(step.replies[0].0, 5);
    assert!(matches!(step.replies[0].1, DaemonResponse::Version { .. }));
    assert!(!step.exit_process);
}

#[test]
fn add_server_unit_replaces_idle_records_only() {
    let mut daemon = daemon_with(&["alpha"]);
    let step = daemon.handle_event(DaemonEvent::AddServerUnit {
        server_unit_config: sample_unit("beta"),
        unit_file: "/etc/units/beta.toml".to_string(),
    });
    assert!(step.replies.is_empty());
    assert_eq!(daemon.units.len(), 2);
    // a later definition under an idle id replaces the record in place
    // (this is how a finished update reaches the table)
    let mut updated = sample_unit("beta");
    updated.server.version = Version::new(1, 20, 2).with_build(12);
    updated.server.jar = "paper_1.20.2-12.jar".to_string();
    let _ = daemon.handle_event(DaemonEvent::AddServerUnit {
        server_unit_config: updated,
        unit_file: "/etc/units/beta2.toml".to_string(),
    });
    assert_eq!(daemon.units.len(), 2);
    assert_eq!(daemon.units[1].unit_file.as_str(), "/etc/units/beta2.toml");
    assert_eq!(daemon.units[1].config.server.version, Version::new(1, 20, 2).with_build(12));
    assert_eq!(daemon.units[1].status(), ServerStatus::Down);
    // but a unit with a live process is never clobbered
    let _ = daemon.handle_cmd(DaemonCmd::Start { server_id: "beta".to_string(), wait: false }, 0);
    let mut newer = sample_unit("beta");
    newer.server.version = Version::new(1, 20, 3);
    let _ = daemon.handle_event(DaemonEvent::AddServerUnit {
        server_unit_config: newer,
        unit_file: "/etc/units/beta3.toml".to_string(),
    });
    assert_eq!(daemon.units.len(), 2);
    assert_eq!(daemon.units[1].unit_file.as_str(), "/etc/units/beta2.toml");
    assert_eq!(daemon.units[1].config.server.version, Version::new(1, 20, 2).with_build(12));
}

#[test]
fn loading_lets_a_later_unit_file_win() {
    let first = create_server(sample_unit("alpha"), "/etc/units/a1.toml".to_string()).unwrap();
    let mut changed = sample_unit("alpha");
    changed.server.memory = 12;
    let second = create_server(changed, "/etc/units/a2.toml".to_string()).unwrap();
    let daemon = Daemon::from_config(daemon_version(), vec![first, second]);
    assert_eq!(daemon.units.len(), 1);
    assert_eq!(daemon.units[0].unit_file.as_str(), "/etc/units/a2.toml");
    assert_eq!(daemon.units[0].config.server.memory, 12);
}

#[test]
fn autostart_spawns_listed_units_in_order() {
    let mut daemon = daemon_with(&["alpha", "beta"]);
    let ids = vec!["beta".to_string(), "missing".to_string(), "alpha".to_string()];
    let actions = daemon.autostart(&ids);
    assert_eq!(actions.len(), 2);
    match &actions[0] {
        DaemonAction::SpawnUnit { server_id } => assert_eq!(server_id.as_str(), "beta"),
        other => panic!("unexpected action: {:?}", other),
    }
    match &actions[1] {
        DaemonAction::SpawnUnit { server_id } => assert_eq!(server_id.as_str(), "alpha"),
        other => panic!("unexpected action: {:?}", other),
    }
}

#[test]
fn status_projects_liveness_and_derived_state() {
    let mut unit = create_server(sample_unit("alpha"), "/tmp/a.toml".to_string()).unwrap();
    assert_eq!(unit.status(), ServerStatus::Down);
    unit.start();
    assert_eq!(unit.status(), ServerStatus::Unknown);
    unit.note_output_state(OutputState::Starting);
    assert_eq!(unit.status(), ServerStatus::Starting);
    unit.note_output_state(OutputState::Started);
    assert_eq!(unit.status(), ServerStatus::Running);
    unit.note_output_state(OutputState::Stopping);
    assert_eq!(unit.status(), ServerStatus::Stopping);
    unit.note_output_state(OutputState::Stopped);
    assert_eq!(unit.status(), ServerStatus::Down);
    unit.note_output_state(OutputState::Errored);
    assert_eq!(unit.status(), ServerStatus::Errored(None));
    // process exit overrides the derived state
    unit.note_exit(Some(ProcessExit::Failed(Some(1))));
    assert_eq!(unit.status(), ServerStatus::Errored(Some(1)));
    unit.note_exit(Some(ProcessExit::Clean));
    assert_eq!(unit.status(), ServerStatus::Down);
    // without a child the unit is down, whatever was derived before
    let took = unit.stop();
    assert!(took);
    assert_eq!(unit.status(), ServerStatus::Down);
}

#[test]
fn create_server_refuses_unknown_kinds() {
    let mut config = sample_unit("alpha");
    config.server.kind = "vanilla".to_string();
    assert!(create_server(config, "/tmp/a.toml".to_string()).is_err());
}

#[test]
fn launch_args_follow_the_documented_flag_set() {
    let config = sample_unit("alpha");
    let args = launch_args(&config.server);
    assert_eq!(args.len(), 25);
    assert_eq!(args[0].as_str(), "-Xms10G");
    assert_eq!(args[1].as_str(), "-Xmx10G");
    assert_eq!(args[2].as_str(), "-XX:+UseG1GC");
    assert_eq!(args[22].as_str(), "-jar");
    assert_eq!(args[23].as_str(), "paper_1.20.1-196.jar");
    assert_eq!(args[24].as_str(), "--nogui");
}

#[test]
fn unit_candidates_end_in_toml() {
    assert!(is_unit_candidate("alpha.toml"));
    assert!(is_unit_candidate(".toml"));
    assert!(!is_unit_candidate("alpha.tom"));
    assert!(!is_unit_candidate("alpha.toml.bak"));
    assert!(!is_unit_candidate("tom"));
}

#[test]
fn unit_files_load_through_the_two_stage_parse() {
    let config = sample_unit("alpha");
    let text = render_unit_file(&config);
    let unit = unit_from_file(text.as_str(), "/etc/units/alpha.toml".to_string()).unwrap();
    assert_eq!(unit.server_id.as_str(), "alpha");
    assert_eq!(unit.unit_file.as_str(), "/etc/units/alpha.toml");
    assert!(!unit.has_process);
    // a unit of another type is skipped after the first stage
    let mut other = sample_unit("alpha");
    other.unit.unit_type = "proxy".to_string();
    let text = render_unit_file(&other);
    assert!(unit_from_file(text.as_str(), "/tmp/x".to_string()).is_none());
    // garbage is skipped
    assert!(unit_from_file("not a unit file", "/tmp/x".to_string()).is_none());
}

#[test]
fn subscriptions_fan_out_in_table_order() {
    let mut manager = EventManager::new();
    manager.add_subscription("u1".to_string(), ServerEventType::ServerStarted, 1);
    manager.add_subscription("u1".to_string(), ServerEventType::ServerStarted, 2);
    manager.add_subscription("u1".to_string(), ServerEventType::ServerStopped, 3);
    manager.add_subscription("u2".to_string(), ServerEventType::ServerStarted, 4);
    let deliveries = manager.handle_cmd(EventManagerCmd::DispatchEvent {
        server_id: "u1".to_string(),
        event: ServerEvent::ServerStarted { server_id: "u1".to_string() },
    });
    let clients: Vec<u32> = deliveries.iter().map(|d| d.0).collect();
    assert_eq!(clients, vec![1, 2]);
    for (_, event) in &deliveries {
        match event {
            ServerEvent::ServerStarted { server_id } => assert_eq!(server_id.as_str(), "u1"),
            other => panic!("unexpected event: {:?}", other),
        }
    }
    // an unknown key is silently dropped
    let none = manager.handle_cmd(EventManagerCmd::DispatchEvent {
        server_id: "u9".to_string(),
        event: ServerEvent::ServerStarted { server_id: "u9".to_string() },
    });
    assert!(none.is_empty());
}

#[test]
fn eviction_removes_every_entry_of_the_client() {
    let mut manager = EventManager::new();
    manager.add_subscription("u1".to_string(), ServerEventType::ServerStarted, 1);
    manager.add_subscription("u1".to_string(), ServerEventType::ServerStopped, 1);
    manager.add_subscription("u2".to_string(), ServerEventType::ServerStarted, 1);
    manager.add_subscription("u1".to_string(), ServerEventType::ServerStarted, 2);
    manager.handle_cmd(EventManagerCmd::RemoveAllSubscriptions { client_id: 1 });
    assert_eq!(manager.subscriptions.len(), 1);
    assert_eq!(manager.subscriptions[0].client_id, 2);
}

#[test]
fn removal_targets_one_key_only() {
    let mut manager = EventManager::new();
    manager.add_subscription("u1".to_string(), ServerEventType::ServerStarted, 1);
    manager.add_subscription("u1".to_string(), ServerEventType::ServerStopped, 1);
    manager.handle_cmd(EventManagerCmd::RemoveSubscription {
        server_id: "u1".to_string(),
        event_type: ServerEventType::ServerStarted,
        client_id: 1,
    });
    assert_eq!(manager.subscriptions.len(), 1);
    assert_eq!(manager.subscriptions[0].event_type, ServerEventType::ServerStopped);
}

#[test]
fn log_lines_drive_the_derived_state() {
    let service = BasicLogService::new(EventHandler::new());
    let mut handler = service.manage_output("u1".to_string());
    assert_eq!(handler.state, OutputState::Unknown);
    handler.handle_line("Loading libraries, please wait...");
    assert_eq!(handler.state, OutputState::Starting);
    handler.handle_line("[12:00] Done (4.2s)! For help, type...");
    assert_eq!(handler.state, OutputState::Started);
    handler.handle_line("chat chatter");
    assert_eq!(handler.state, OutputState::Started);
    handler.handle_line("Stopping the server");
    assert_eq!(handler.state, OutputState::Stopping);
    handler.handle_line("Closing Server");
    assert_eq!(handler.state, OutputState::Stopped);
    let events = handler.event_handler.drain();
    assert_eq!(events.len(), 4);
}

#[test]
fn started_line_reaches_subscribers_exactly_once() {
    // the unit's interpreter sees the boot completion line
    let service = BasicLogService::new(EventHandler::new());
    let mut handler = service.manage_output("u1".to_string());
    handler.handle_line("[12:00] Done (4.2s)! For help, type...");
    assert_eq!(handler.state, OutputState::Started);
    let raised = handler.event_handler.drain();
    assert_eq!(raised.len(), 1);
    // the subscription manager fans it out to the one subscriber
    let mut manager = EventManager::new();
    manager.add_subscription("u1".to_string(), ServerEventType::ServerStarted, 9);
    let mut deliveries = Vec::new();
    for cmd in raised {
        deliveries.extend(manager.handle_cmd(cmd));
    }
    assert_eq!(deliveries.len(), 1);
    assert_eq!(deliveries[0].0, 9);
    match &deliveries[0].1 {
        ServerEvent::ServerStarted { server_id } => assert_eq!(server_id.as_str(), "u1"),
        other => panic!("unexpected event: {:?}", other),
    }
    // and the unit, still alive, now reports running
    let mut unit = create_server(sample_unit("u1"), "/tmp/u1.toml".to_string()).unwrap();
    unit.start();
    unit.note_output_state(handler.state);
    assert_eq!(unit.status(), ServerStatus::Running);
}

#[test]
fn errored_state_is_terminal_for_log_transitions() {
    let service = BasicLogService::new(EventHandler::new());
    let mut handler = service.manage_output("u1".to_string());
    handler.handle_line("Failed to load eula.txt");
    assert_eq!(handler.state, OutputState::Errored);
    let events = handler.event_handler.drain();
    assert_eq!(events.len(), 1);
    match &events[0] {
        EventManagerCmd::DispatchEvent { event: ServerEvent::ServerFailed { error, .. }, .. } => {
            assert_eq!(error.as_str(), "EULA not accepted");
        },
        other => panic!("unexpected command: {:?}", other),
    }
    handler.handle_line("Loading libraries, please wait...");
    assert_eq!(handler.state, OutputState::Errored);
    assert!(handler.event_handler.drain().is_empty());
}

#[test]
fn raised_events_queue_in_order() {
    let mut handler = EventHandler::new();
    handler.raise_event("u1", ServerEvent::ServerStarting { server_id: "u1".to_string() });
    handler.raise_event("u2", ServerEvent::ServerStopped { server_id: "u2".to_string() });
    let pending = handler.drain();
    assert_eq!(pending.len(), 2);
    assert!(matches!(
        &pending[0],
        EventManagerCmd::DispatchEvent { event: ServerEvent::ServerStarting { .. }, .. }
    ));
    assert!(matches!(
        &pending[1],
        EventManagerCmd::DispatchEvent { event: ServerEvent::ServerStopped { .. }, .. }
    ));
    assert!(handler.drain().is_empty());
}

#[test]
fn event_types_project_the_event() {
    let event = ServerEvent::ActionProgress {
        server_id: "u1".to_string(),
        action: "downloading jar".to_string(),
        progress: None,
        maximum: None,
        action_number: 1,
    };
    assert_eq!(event.get_event_type(), ServerEventType::ActionProgress);
    let event = ServerEvent::InstallationFailed {
        server_id: "u1".to_string(),
        error: "x".to_string(),
    };
    assert_eq!(event.get_event_type(), ServerEventType::InstallationFailed);
}

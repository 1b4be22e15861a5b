//! The log-derived state machine: a per-unit interpreter that consumes the
//! server's standard output line by line, derives lifecycle transitions
//! from known substrings, and raises the matching events.  Reading the
//! child's pipe and writing the log file happen outside the crate; each
//! decoded line is handed in as a plain string.

use crate::daemon::OutputState;
use crate::event::{EventHandler, EventManagerCmdV};
use crate::ipc::{ServerEvent, ServerEventV};
use crate::text::{contains_seq, expect_at, lit_at, str_contains};
use vstd::prelude::*;
use vstd::string::*;

verus! {

/// The line opens the library-loading phase: the server is starting.
pub open spec fn line_starting(l: Seq<char>) -> bool {
    lit_at(l, 0, "Loading libraries"@)
}

/// The line reports boot completion: the server has started.
pub open spec fn line_started(l: Seq<char>) -> bool {
    contains_seq(l, "Done ("@) && contains_seq(l, "s)! For help"@)
}

/// The line announces the shutdown sequence: the server is stopping.
pub open spec fn line_stopping(l: Seq<char>) -> bool {
    contains_seq(l, "Stopping the server"@)
}

/// The line reports the socket closing: the server has stopped.
pub open spec fn line_stopped(l: Seq<char>) -> bool {
    contains_seq(l, "Closing Server"@)
}

/// The line reports the unaccepted EULA: the server failed.
pub open spec fn line_eula(l: Seq<char>) -> bool {
    contains_seq(l, "Failed to load eula.txt"@)
}

/// The transition a log line triggers, first match winning; `None` for
/// lines that are only logged.
pub open spec fn spec_transition(l: Seq<char>) -> Option<OutputState> {
    if line_starting(l) {
        Option::Some(OutputState::Starting)
    } else if line_started(l) {
        Option::Some(OutputState::Started)
    } else if line_stopping(l) {
        Option::Some(OutputState::Stopping)
    } else if line_stopped(l) {
        Option::Some(OutputState::Stopped)
    } else if line_eula(l) {
        Option::Some(OutputState::Errored)
    } else {
        Option::None
    }
}

/// The event raised for a log-derived transition of the given unit.
pub open spec fn event_for(t: OutputState, id: Seq<char>) -> ServerEventV {
    match t {
        OutputState::Starting => ServerEventV::ServerStarting { server_id: id },
        OutputState::Started => ServerEventV::ServerStarted { server_id: id },
        OutputState::Stopping => ServerEventV::ServerStopping { server_id: id },
        OutputState::Stopped => ServerEventV::ServerStopped { server_id: id },
        OutputState::Errored => ServerEventV::ServerFailed {
            server_id: id,
            error: "EULA not accepted"@,
        },
        OutputState::Unknown => ServerEventV::ServerStarting { server_id: id },
    }
}

/// Basic implementation for a log service: it hands each managed unit a
/// handler that parses the unit's output to track the server's state.
///
/// The output itself is redirected to `log/<unit_id>/<timestamp>_out.log`.
#[derive(Debug)]
pub struct BasicLogService {
    /// The event handler for detected server events
    pub event_handler: EventHandler,
}

impl BasicLogService {
    /// Creates a new log service with the given [`EventHandler`].
    pub fn new(event_handler: EventHandler) -> (r: BasicLogService)
        ensures
            r.event_handler@ == event_handler@,
    {
        BasicLogService { event_handler }
    }

    /// Creates the handler for one unit's output: derived state starts at
    /// `Unknown`, with a fresh event queue.
    pub fn manage_output(&self, server_id: String) -> (r: BasicLogServiceHandler)
        ensures
            r.state == OutputState::Unknown,
            r.server_id@ == server_id@,
            r.event_handler@ =~= Seq::<EventManagerCmdV>::empty(),
    {
        BasicLogServiceHandler {
            state: OutputState::Unknown,
            server_id,
            event_handler: EventHandler::new(),
        }
    }
}

/// Handles the output of a single process: the unit's derived-state cell
/// and the events its lines raise.
#[derive(Debug)]
pub struct BasicLogServiceHandler {
    /// The current state of the process as determined by parsing its output.
    pub state: OutputState,
    /// The id of the server this handler is interpreting for.
    pub server_id: String,
    /// Collects the events the interpreted lines raise.
    pub event_handler: EventHandler,
}

impl BasicLogServiceHandler {
    /// Consumes one decoded output line: applies the derived transition
    /// (first matching pattern wins) and raises the matching event.  Lines
    /// without a known pattern only get logged.  `Errored` is terminal with
    /// respect to log-derived transitions.
    pub fn handle_line(&mut self, line: &str)
        ensures
            final(self).server_id@ == old(self).server_id@,
            match spec_transition(line@) {
                Option::None => *final(self) == *old(self),
                Option::Some(t) => if old(self).state == OutputState::Errored {
                    *final(self) == *old(self)
                } else {
                    &&& final(self).state == t
                    &&& final(self).event_handler@ == old(self).event_handler@.push(
                        EventManagerCmdV::DispatchEvent {
                            server_id: old(self).server_id@,
                            event: event_for(t, old(self).server_id@),
                        },
                    )
                },
            },
    {
        match self.state {
            OutputState::Errored => {
                return ;
            },
            _ => {},
        }
        if expect_at(line, 0, "Loading libraries") {
            self.state = OutputState::Starting;
            let ev = ServerEvent::ServerStarting { server_id: self.server_id.clone() };
            self.event_handler.raise_event(self.server_id.as_str(), ev);
        } else if str_contains(line, "Done (") && str_contains(line, "s)! For help") {
            self.state = OutputState::Started;
            let ev = ServerEvent::ServerStarted { server_id: self.server_id.clone() };
            self.event_handler.raise_event(self.server_id.as_str(), ev);
        } else if str_contains(line, "Stopping the server") {
            self.state = OutputState::Stopping;
            let ev = ServerEvent::ServerStopping { server_id: self.server_id.clone() };
            self.event_handler.raise_event(self.server_id.as_str(), ev);
        } else if str_contains(line, "Closing Server") {
            self.state = OutputState::Stopped;
            let ev = ServerEvent::ServerStopped { server_id: self.server_id.clone() };
            self.event_handler.raise_event(self.server_id.as_str(), ev);
        } else if str_contains(line, "Failed to load eula.txt") {
            self.state = OutputState::Errored;
            let ev = ServerEvent::ServerFailed {
                server_id: self.server_id.clone(),
                error: String::from_str("EULA not accepted"),
            };
            self.event_handler.raise_event(self.server_id.as_str(), ev);
        }
    }
}

/// The path of a unit's log file for one run: `log/<unit>/<stamp>_out.log`.
pub fn log_file_path(server_id: &str, stamp: &str) -> (r: String)
    ensures
        r@ == "log/"@ + server_id@ + "/"@ + stamp@ + "_out.log"@,
{
    let mut s = String::from_str("log/");
    s.append(server_id);
    s.append("/");
    s.append(stamp);
    s.append("_out.log");
    s
}

} // verus!

use vstd::prelude::*;
use vstd::string::{StrSliceExecFns, StringExecFns};
use crate::errors::{AppError, AppResult};
use crate::session::{DEFAULT_COLS, DEFAULT_ROWS};

verus! {

/// Largest text frame a client link accepts, in bytes.
pub const MAX_MESSAGE_BYTES: usize = 1_048_576;
/// A link ends once it has seen more protocol errors than this.
pub const MAX_PROTOCOL_ERRORS: u64 = 10;
/// A link ends once it has seen more transport errors than this.
pub const MAX_TRANSPORT_ERRORS: u64 = 5;

/// What arrived on a client link.
#[derive(Debug, Clone, Copy, PartialEq, Eq, Structural)]
pub enum Frame {
    /// A text frame of the given length in bytes.
    Text(usize),
    Binary,
    Ping,
    Pong,
    Close,
    /// A transport failure; `closed` when the peer is gone.
    TransportError(bool),
}

/// What the link does next.
#[derive(Debug, Clone, Copy, PartialEq, Eq, Structural)]
pub enum LinkAction {
    /// Parse and handle the text frame.
    Dispatch,
    /// Answer `MESSAGE_TOO_LARGE` and go on.
    RejectOversized,
    /// Answer `MESSAGE_TOO_LARGE` and end the link.
    RejectOversizedAndClose,
    /// Echo the ping.
    Pong,
    /// Nothing to do.
    Ignore,
    /// End the link.
    End,
}

/// Per-client state of a link.
pub struct ClientLink {
    pub id: String,
    pub session_id: Option<String>,
    pub connected_at: i64,
    pub last_ping: Option<i64>,
    pub message_count: u64,
    pub protocol_errors: u64,
    pub transport_errors: u64,
}

pub open spec fn bump(n: u64) -> u64 {
    if n == u64::MAX { n } else { (n + 1) as u64 }
}

impl ClientLink {
    pub fn new(id: String, now: i64) -> (r: Self)
        ensures
            r.id@ == id@,
            r.session_id is None,
            r.connected_at == now,
            r.last_ping is None,
            r.message_count == 0,
            r.protocol_errors == 0,
            r.transport_errors == 0,
    {
        ClientLink { id, session_id: None, connected_at: now, last_ping: None, message_count: 0, protocol_errors: 0, transport_errors: 0 }
    }

    /// Decides what to do with one frame received at `now`. Text frames
    /// are counted; one over the size cap is a protocol error. Pings and
    /// pongs stamp `last_ping`. Binary frames are ignored. Transport errors
    /// are counted and end the link when the peer is gone or too many were seen.
    pub fn on_frame(&mut self, frame: Frame, now: i64) -> (r: LinkAction)
        ensures
            final(self).id == old(self).id,
            final(self).session_id == old(self).session_id,
            final(self).connected_at == old(self).connected_at,
            match frame {
                Frame::Text(len) => final(self).message_count == bump(old(self).message_count)
                    && final(self).transport_errors == old(self).transport_errors
                    && final(self).last_ping == old(self).last_ping
                    && if len > MAX_MESSAGE_BYTES {
                        final(self).protocol_errors == bump(old(self).protocol_errors)
                            && r == if final(self).protocol_errors > MAX_PROTOCOL_ERRORS {
                                LinkAction::RejectOversizedAndClose
                            } else {
                                LinkAction::RejectOversized
                            }
                    } else {
                        final(self).protocol_errors == old(self).protocol_errors && r == LinkAction::Dispatch
                    },
                Frame::Ping => r == LinkAction::Pong && final(self).last_ping == Some(now)
                    && final(self).message_count == old(self).message_count
                    && final(self).protocol_errors == old(self).protocol_errors
                    && final(self).transport_errors == old(self).transport_errors,
                Frame::Pong => r == LinkAction::Ignore && final(self).last_ping == Some(now)
                    && final(self).message_count == old(self).message_count
                    && final(self).protocol_errors == old(self).protocol_errors
                    && final(self).transport_errors == old(self).transport_errors,
                Frame::Binary => r == LinkAction::Ignore && final(self).last_ping == old(self).last_ping
                    && final(self).message_count == old(self).message_count
                    && final(self).protocol_errors == old(self).protocol_errors
                    && final(self).transport_errors == old(self).transport_errors,
                Frame::Close => r == LinkAction::End && final(self).last_ping == old(self).last_ping
                    && final(self).message_count == old(self).message_count
                    && final(self).protocol_errors == old(self).protocol_errors
                    && final(self).transport_errors == old(self).transport_errors,
                Frame::TransportError(closed) => final(self).transport_errors == bump(old(self).transport_errors)
                    && final(self).last_ping == old(self).last_ping
                    && final(self).message_count == old(self).message_count
                    && final(self).protocol_errors == old(self).protocol_errors
                    && r == if closed || final(self).transport_errors > MAX_TRANSPORT_ERRORS {
                        LinkAction::End
                    } else {
                        LinkAction::Ignore
                    },
            },
    {
        match frame {
            Frame::Text(len) => {
                self.message_count = self.message_count.saturating_add(1);
                if len > MAX_MESSAGE_BYTES {
                    self.protocol_errors = self.protocol_errors.saturating_add(1);
                    if self.protocol_errors > MAX_PROTOCOL_ERRORS {
                        LinkAction::RejectOversizedAndClose
                    } else {
                        LinkAction::RejectOversized
                    }
                } else {
                    LinkAction::Dispatch
                }
            },
            Frame::Ping => {
                self.last_ping = Some(now);
                LinkAction::Pong
            },
            Frame::Pong => {
                self.last_ping = Some(now);
                LinkAction::Ignore
            },
            Frame::Binary => LinkAction::Ignore,
            Frame::Close => LinkAction::End,
            Frame::TransportError(closed) => {
                self.transport_errors = self.transport_errors.saturating_add(1);
                if closed || self.transport_errors > MAX_TRANSPORT_ERRORS {
                    LinkAction::End
                } else {
                    LinkAction::Ignore
                }
            },
        }
    }

    /// Takes the outcome of handling a text frame: an error is counted,
    /// and the link ends (`false`) once too many were seen.
    pub fn on_handled(&mut self, ok: bool) -> (keep_open: bool)
        ensures
            final(self).id == old(self).id,
            final(self).session_id == old(self).session_id,
            final(self).message_count == old(self).message_count,
            final(self).transport_errors == old(self).transport_errors,
            final(self).last_ping == old(self).last_ping,
            final(self).protocol_errors == if ok { old(self).protocol_errors } else { bump(old(self).protocol_errors) },
            keep_open == (final(self).protocol_errors <= MAX_PROTOCOL_ERRORS),
    {
        if !ok {
            self.protocol_errors = self.protocol_errors.saturating_add(1);
        }
        self.protocol_errors <= MAX_PROTOCOL_ERRORS
    }

    /// Binds the link to a session after a successful connect.
    pub fn bind_session(&mut self, session_id: String)
        ensures
            final(self).session_id matches Some(s) && s@ == session_id@,
            final(self).message_count == old(self).message_count,
            final(self).protocol_errors == old(self).protocol_errors,
            final(self).transport_errors == old(self).transport_errors,
    {
        self.session_id = Some(session_id);
    }

    /// Unbinds the link from its session after a disconnect.
    pub fn unbind_session(&mut self)
        ensures
            final(self).session_id is None,
            final(self).message_count == old(self).message_count,
            final(self).protocol_errors == old(self).protocol_errors,
            final(self).transport_errors == old(self).transport_errors,
    {
        self.session_id = None;
    }
}

/// The events a client may send.
#[derive(Debug, Clone, Copy, PartialEq, Eq, Structural)]
pub enum EventKind {
    SshConnect,
    TerminalInput,
    TerminalResize,
    SshDisconnect,
    MobileOptimize,
    PerformanceMetrics,
}

pub open spec fn event_of_name(name: Seq<char>) -> Option<EventKind> {
    if name == "ssh_connect"@ {
        Some(EventKind::SshConnect)
    } else if name == "terminal_input"@ {
        Some(EventKind::TerminalInput)
    } else if name == "terminal_resize"@ {
        Some(EventKind::TerminalResize)
    } else if name == "ssh_disconnect"@ {
        Some(EventKind::SshDisconnect)
    } else if name == "mobile_optimize"@ {
        Some(EventKind::MobileOptimize)
    } else if name == "performance_metrics"@ {
        Some(EventKind::PerformanceMetrics)
    } else {
        None
    }
}

fn same_text(a: &str, b: &str) -> (r: bool)
    ensures
        r == (a@ == b@),
{
    let n = a.unicode_len();
    if n != b.unicode_len() {
        return false;
    }
    let mut i: usize = 0;
    while i < n
        invariant
            i <= n == a@.len() == b@.len(),
            forall|j: int| 0 <= j < i ==> a@[j] == b@[j],
        decreases n - i,
    {
        if a.get_char(i) != b.get_char(i) {
            return false;
        }
        i = i + 1;
    }
    assert(a@ =~= b@);
    true
}

/// The event named by the first element of a two-element envelope; an
/// unknown name is a `WebSocketError`.
pub fn event_kind(name: &str) -> (r: AppResult<EventKind>)
    ensures
        match event_of_name(name@) {
            Some(k) => r == Ok::<EventKind, AppError>(k),
            None => r matches Err(AppError::WebSocketError(_)),
        },
{
    if same_text(name, "ssh_connect") {
        Ok(EventKind::SshConnect)
    } else if same_text(name, "terminal_input") {
        Ok(EventKind::TerminalInput)
    } else if same_text(name, "terminal_resize") {
        Ok(EventKind::TerminalResize)
    } else if same_text(name, "ssh_disconnect") {
        Ok(EventKind::SshDisconnect)
    } else if same_text(name, "mobile_optimize") {
        Ok(EventKind::MobileOptimize)
    } else if same_text(name, "performance_metrics") {
        Ok(EventKind::PerformanceMetrics)
    } else {
        let mut message = String::from_str("Unknown event: ");
        message.append(name);
        Err(AppError::WebSocketError(message))
    }
}

/// The PTY size for a connect request, defaulting each missing side.
pub fn pty_size(cols: Option<u16>, rows: Option<u16>) -> (r: (u16, u16))
    ensures
        r.0 == match cols { Some(c) => c, None => DEFAULT_COLS },
        r.1 == match rows { Some(x) => x, None => DEFAULT_ROWS },
{
    (match cols { Some(c) => c, None => DEFAULT_COLS }, match rows { Some(x) => x, None => DEFAULT_ROWS })
}

/// What an output pump does after one poll of its shell.
#[derive(Debug, Clone, Copy, PartialEq, Eq, Structural)]
pub enum PumpAction {
    /// Publish the chunk to the subscribers and the recorder.
    Publish,
    /// No data now: wait for the next tick.
    Wait,
    /// The session is gone: stop quietly.
    Exit,
    /// A fatal read error: report it to the client, then stop.
    ReportAndExit,
}

pub open spec fn pump_decision(read: AppResult<Option<String>>) -> PumpAction {
    match read {
        Ok(Some(_)) => PumpAction::Publish,
        Ok(None) => PumpAction::Wait,
        Err(AppError::SessionNotFound(_)) => PumpAction::Exit,
        Err(_) => PumpAction::ReportAndExit,
    }
}

/// Decides the pump's next step from the outcome of a shell read: a
/// registry miss means the session is gone, any other error is fatal.
pub fn pump_step(read: &AppResult<Option<String>>) -> (r: PumpAction)
    ensures
        r == pump_decision(*read),
{
    match read {
        Ok(Some(_)) => PumpAction::Publish,
        Ok(None) => PumpAction::Wait,
        Err(AppError::SessionNotFound(_)) => PumpAction::Exit,
        Err(_) => PumpAction::ReportAndExit,
    }
}

} // verus!

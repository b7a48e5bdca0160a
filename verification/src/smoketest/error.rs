//! Failures of the harness, their messages and the hints printed with them.

use vstd::prelude::*;
use vstd::string::*;

use crate::text::{dec, decimal, texts};

verus! {

/// What kind of I/O failure occurred.
#[derive(Debug, Clone, Copy, PartialEq, Eq, Structural)]
pub enum IoKind {
    /// The peer closed its end.
    BrokenPipe,
    /// The peer reset the connection.
    ConnectionReset,
    /// The connection was aborted.
    ConnectionAborted,
    /// A read would have blocked.
    WouldBlock,
    /// A read ran into its timeout.
    TimedOut,
    /// Anything else.
    Other,
}

/// Errors of the driver that talks to the server.
#[derive(Debug)]
pub enum DriverError {
    /// Connecting to the socket failed.
    Connect {
        /// Socket that was tried.
        socket_path: String,
        /// Message of the I/O error.
        reason: String,
    },
    /// A command was attempted before the driver was initialized.
    NotInitialized,
    /// Initialization ran out of time.
    InitTimeout {
        /// Socket that was tried.
        socket_path: String,
        /// Allowance in milliseconds.
        timeout_ms: u64,
        /// Last observed failure.
        last_error: String,
    },
    /// The server accepted commands but sent no events.
    EventStreamTimeout {
        /// Socket that was tried.
        socket_path: String,
        /// Allowance in milliseconds.
        timeout_ms: u64,
    },
    /// The bridge reported a failure.
    BridgeFailure {
        /// Message of the bridge.
        message: String,
    },
    /// A command was not acknowledged in time.
    AckTimeout {
        /// The command.
        command_id: u64,
        /// Allowance in milliseconds.
        timeout_ms: u64,
    },
    /// A reply belongs to another command.
    SequenceMismatch {
        /// The command that was awaited.
        expected: u64,
        /// The command that was answered.
        got: u64,
    },
    /// A reply came where an acknowledgement was due.
    AckMissing {
        /// The command.
        command_id: u64,
    },
    /// Bindings did not appear in time.
    BindingTimeout {
        /// The missing bindings.
        ident: String,
        /// Allowance in milliseconds.
        timeout_ms: u64,
    },
    /// Reading or writing failed.
    Io {
        /// Kind of the failure.
        io_kind: IoKind,
        /// Message of the I/O error.
        reason: String,
    },
    /// An event came after the shutdown was acknowledged.
    PostShutdownMessage {
        /// The event.
        message: String,
    },
    /// The local runtime could not be made.
    Runtime {
        /// Message of the runtime.
        message: String,
    },
    /// The server reported a failure.
    ServerFailure {
        /// Message of the server.
        message: String,
    },
}

impl DriverError {
    /// The message of the error.
    pub open spec fn text(&self) -> Seq<char> {
        match self {
            DriverError::Connect { socket_path, reason } =>
                "failed to connect to bridge socket '"@ + socket_path@ + "': "@ + reason@,
            DriverError::NotInitialized => "bridge connection not initialized"@,
            DriverError::InitTimeout { socket_path, timeout_ms, last_error } => "timed out after "@
                + dec(*timeout_ms as nat) + " ms initializing bridge at '"@ + socket_path@ + "': "@
                + last_error@,
            DriverError::EventStreamTimeout { socket_path, timeout_ms } => "no events within "@
                + dec(*timeout_ms as nat) + " ms on '"@ + socket_path@ + "'"@,
            DriverError::BridgeFailure { message } => "bridge command failed: "@ + message@,
            DriverError::AckTimeout { command_id, timeout_ms } =>
                "bridge acknowledgement for command "@ + dec(*command_id as nat)
                    + " timed out after "@ + dec(*timeout_ms as nat) + " ms"@,
            DriverError::SequenceMismatch { expected, got } =>
                "bridge sequence mismatch: expected command "@ + dec(*expected as nat) + ", got "@
                    + dec(*got as nat),
            DriverError::AckMissing { command_id } => "bridge missing ACK for command "@ + dec(
                *command_id as nat,
            ),
            DriverError::BindingTimeout { ident, timeout_ms } => "timed out after "@ + dec(
                *timeout_ms as nat,
            ) + " ms waiting for binding '"@ + ident@ + "'"@,
            DriverError::Io { io_kind: _, reason } => "bridge I/O error: "@ + reason@,
            DriverError::PostShutdownMessage { message } =>
                "unexpected bridge message after shutdown: "@ + message@,
            DriverError::Runtime { message } => "failed to create the local async runtime: "@
                + message@,
            DriverError::ServerFailure { message } => "server failure: "@ + message@,
        }
    }

    /// The message of the error.
    pub fn describe(&self) -> (s: String)
        ensures
            s@ == self.text(),
    {
        match self {
            DriverError::Connect { socket_path, reason } => {
                let mut s = "failed to connect to bridge socket '".to_owned();
                s.append(socket_path.as_str());
                s.append("': ");
                s.append(reason.as_str());
                s
            },
            DriverError::NotInitialized => "bridge connection not initialized".to_owned(),
            DriverError::InitTimeout { socket_path, timeout_ms, last_error } => {
                let mut s = "timed out after ".to_owned();
                s.append(decimal(*timeout_ms).as_str());
                s.append(" ms initializing bridge at '");
                s.append(socket_path.as_str());
                s.append("': ");
                s.append(last_error.as_str());
                s
            },
            DriverError::EventStreamTimeout { socket_path, timeout_ms } => {
                let mut s = "no events within ".to_owned();
                s.append(decimal(*timeout_ms).as_str());
                s.append(" ms on '");
                s.append(socket_path.as_str());
                s.append("'");
                s
            },
            DriverError::BridgeFailure { message } => {
                let mut s = "bridge command failed: ".to_owned();
                s.append(message.as_str());
                s
            },
            DriverError::AckTimeout { command_id, timeout_ms } => {
                let mut s = "bridge acknowledgement for command ".to_owned();
                s.append(decimal(*command_id).as_str());
                s.append(" timed out after ");
                s.append(decimal(*timeout_ms).as_str());
                s.append(" ms");
                s
            },
            DriverError::SequenceMismatch { expected, got } => {
                let mut s = "bridge sequence mismatch: expected command ".to_owned();
                s.append(decimal(*expected).as_str());
                s.append(", got ");
                s.append(decimal(*got).as_str());
                s
            },
            DriverError::AckMissing { command_id } => {
                let mut s = "bridge missing ACK for command ".to_owned();
                s.append(decimal(*command_id).as_str());
                s
            },
            DriverError::BindingTimeout { ident, timeout_ms } => {
                let mut s = "timed out after ".to_owned();
                s.append(decimal(*timeout_ms).as_str());
                s.append(" ms waiting for binding '");
                s.append(ident.as_str());
                s.append("'");
                s
            },
            DriverError::Io { io_kind: _, reason } => {
                let mut s = "bridge I/O error: ".to_owned();
                s.append(reason.as_str());
                s
            },
            DriverError::PostShutdownMessage { message } => {
                let mut s = "unexpected bridge message after shutdown: ".to_owned();
                s.append(message.as_str());
                s
            },
            DriverError::Runtime { message } => {
                let mut s = "failed to create the local async runtime: ".to_owned();
                s.append(message.as_str());
                s
            },
            DriverError::ServerFailure { message } => {
                let mut s = "server failure: ".to_owned();
                s.append(message.as_str());
                s
            },
        }
    }
}

/// Errors of a smoketest run.
#[derive(Debug)]
pub enum Error {
    /// The hotki binary could not be found.
    HotkiBinNotFound,
    /// A process could not be launched.
    SpawnFailed(String),
    /// The HUD did not become visible in time.
    HudNotVisible {
        /// Allowance in milliseconds.
        timeout_ms: u64,
    },
    /// A window was not observed in time.
    FocusNotObserved {
        /// Allowance in milliseconds.
        timeout_ms: u64,
        /// What was awaited.
        expected: String,
    },
    /// The connection to the server was lost.
    IpcDisconnected {
        /// What was going on.
        during: String,
    },
    /// The driver failed.
    RpcDriver(DriverError),
    /// An I/O operation failed.
    Io(String),
    /// The run was not in a valid state.
    InvalidState(String),
}

impl Error {
    /// The message of the error.
    pub open spec fn text(&self) -> Seq<char> {
        match self {
            Error::HotkiBinNotFound =>
                "could not locate 'hotki' binary (set HOTKI_BIN or `cargo build --bin hotki`)"@,
            Error::SpawnFailed(why) => "failed to launch hotki: "@ + why@,
            Error::HudNotVisible { timeout_ms } => "HUD did not appear within "@ + dec(
                *timeout_ms as nat,
            ) + " ms (no HudUpdate depth>0)"@,
            Error::FocusNotObserved { timeout_ms, expected } => "not observed within "@ + dec(
                *timeout_ms as nat,
            ) + " ms: "@ + expected@,
            Error::IpcDisconnected { during } => "connection lost during "@ + during@,
            Error::RpcDriver(inner) => "RPC driver failure: "@ + inner.text(),
            Error::Io(why) => "I/O error: "@ + why@,
            Error::InvalidState(why) => "invalid test state: "@ + why@,
        }
    }

    /// The message of the error.
    pub fn describe(&self) -> (s: String)
        ensures
            s@ == self.text(),
    {
        match self {
            Error::HotkiBinNotFound =>
                "could not locate 'hotki' binary (set HOTKI_BIN or `cargo build --bin hotki`)".to_owned(),
            Error::SpawnFailed(why) => {
                let mut s = "failed to launch hotki: ".to_owned();
                s.append(why.as_str());
                s
            },
            Error::HudNotVisible { timeout_ms } => {
                let mut s = "HUD did not appear within ".to_owned();
                s.append(decimal(*timeout_ms).as_str());
                s.append(" ms (no HudUpdate depth>0)");
                s
            },
            Error::FocusNotObserved { timeout_ms, expected } => {
                let mut s = "not observed within ".to_owned();
                s.append(decimal(*timeout_ms).as_str());
                s.append(" ms: ");
                s.append(expected.as_str());
                s
            },
            Error::IpcDisconnected { during } => {
                let mut s = "connection lost during ".to_owned();
                s.append(during.as_str());
                s
            },
            Error::RpcDriver(inner) => {
                let mut s = "RPC driver failure: ".to_owned();
                s.append(inner.describe().as_str());
                s
            },
            Error::Io(why) => {
                let mut s = "I/O error: ".to_owned();
                s.append(why.as_str());
                s
            },
            Error::InvalidState(why) => {
                let mut s = "invalid test state: ".to_owned();
                s.append(why.as_str());
                s
            },
        }
    }

    /// An invalid state with a fixed message.
    pub fn invalid(why: &str) -> (r: Error)
        ensures
            r matches Error::InvalidState(w) && w@ == why@,
    {
        Error::InvalidState(why.to_owned())
    }
}

/// Whether an error is an invalid state with this message.
pub open spec fn is_invalid(e: Error, why: Seq<char>) -> bool {
    e matches Error::InvalidState(w) && w@ == why
}

/// Whether a result is an invalid state with this message.
pub open spec fn fails_with<T>(r: Result<T, Error>, why: Seq<char>) -> bool {
    r matches Err(Error::InvalidState(w)) && w@ == why
}

/// A line of a hint about a named thing.
pub open spec fn hint_about(before: Seq<char>, what: Seq<char>, after: Seq<char>) -> Seq<char> {
    before + what + after
}

/// The hints about a driver error that follow its own line.
pub open spec fn driver_hints(err: &DriverError) -> Seq<Seq<char>> {
    match err {
        DriverError::Connect { socket_path, .. } => seq![
            hint_about(
                "      ensure the UI-owned server is listening at '"@,
                socket_path@,
                "'."@,
            ),
            "      check Hotki permissions and rebuild the smoketest harness if needed."@,
        ],
        DriverError::InitTimeout { socket_path, .. } => seq![
            hint_about(
                "      server driver did not initialize in time (socket: '"@,
                socket_path@,
                "')."@,
            ),
            "      verify the UI launched, connected to its server, and loaded config."@,
            "      if startup logs report Accessibility=false, grant Accessibility to the launched Hotki binary."@,
        ],
        DriverError::EventStreamTimeout { socket_path, .. } => seq![
            hint_about(
                "      server accepted RPCs but sent no events on '"@,
                socket_path@,
                "'."@,
            ),
            "      verify the event forwarder and heartbeat tasks started."@,
        ],
        DriverError::NotInitialized => seq![
            "      the driver was used before HotkiSession finished initialization."@,
        ],
        DriverError::BindingTimeout { ident, .. } => seq![
            hint_about(
                "      binding '"@,
                ident@,
                "' was never observed; confirm config matches the test."@,
            ),
        ],
        DriverError::Runtime { message } => seq![
            hint_about("      failed to create the local async runtime: "@, message@, ""@),
        ],
        DriverError::ServerFailure { message } => seq![
            hint_about(
                "      see logs above for server errors returned by hotki runtime: "@,
                message@,
                ""@,
            ),
        ],
        _ => Seq::empty(),
    }
}

/// The hints about an error, one per line.
pub open spec fn hint_lines(err: &Error) -> Seq<Seq<char>> {
    match err {
        Error::HotkiBinNotFound => seq![
            "hint: set HOTKI_BIN to an existing binary or run: cargo build --bin hotki"@,
        ],
        Error::HudNotVisible { .. } => seq![
            "hint: we inject the activation chord via RPC"@,
            "      check that the server started (use --logs) and bindings are ready"@,
            "      also ensure Accessibility is granted for best reliability"@,
        ],
        Error::RpcDriver(inner) => seq![hint_about("hint: RPC driver failed: "@, inner.text(), ""@)]
            + driver_hints(inner),
        _ => Seq::empty(),
    }
}

fn push_line(lines: &mut Vec<String>, line: &str)
    ensures
        texts(final(lines)@) == texts(old(lines)@).push(line@),
{
    lines.push(line.to_owned());
    assert(texts(lines@) =~= texts(old(lines)@).push(line@));
}

fn push_hint(lines: &mut Vec<String>, before: &str, what: &str, after: &str)
    ensures
        texts(final(lines)@) == texts(old(lines)@).push(hint_about(before@, what@, after@)),
{
    let mut s = before.to_owned();
    s.append(what);
    s.append(after);
    lines.push(s);
    assert(texts(lines@) =~= texts(old(lines)@).push(hint_about(before@, what@, after@)));
}

fn push_driver_hints(lines: &mut Vec<String>, err: &DriverError)
    ensures
        texts(final(lines)@) == texts(old(lines)@) + driver_hints(err),
{
    let ghost before = texts(lines@);
    match err {
        DriverError::Connect { socket_path, .. } => {
            push_hint(
                lines,
                "      ensure the UI-owned server is listening at '",
                socket_path.as_str(),
                "'.",
            );
            push_line(
                lines,
                "      check Hotki permissions and rebuild the smoketest harness if needed.",
            );
        },
        DriverError::InitTimeout { socket_path, .. } => {
            push_hint(
                lines,
                "      server driver did not initialize in time (socket: '",
                socket_path.as_str(),
                "').",
            );
            push_line(
                lines,
                "      verify the UI launched, connected to its server, and loaded config.",
            );
            push_line(
                lines,
                "      if startup logs report Accessibility=false, grant Accessibility to the launched Hotki binary.",
            );
        },
        DriverError::EventStreamTimeout { socket_path, .. } => {
            push_hint(
                lines,
                "      server accepted RPCs but sent no events on '",
                socket_path.as_str(),
                "'.",
            );
            push_line(lines, "      verify the event forwarder and heartbeat tasks started.");
        },
        DriverError::NotInitialized => {
            push_line(
                lines,
                "      the driver was used before HotkiSession finished initialization.",
            );
        },
        DriverError::BindingTimeout { ident, .. } => {
            push_hint(
                lines,
                "      binding '",
                ident.as_str(),
                "' was never observed; confirm config matches the test.",
            );
        },
        DriverError::Runtime { message } => {
            push_hint(
                lines,
                "      failed to create the local async runtime: ",
                message.as_str(),
                "",
            );
        },
        DriverError::ServerFailure { message } => {
            push_hint(
                lines,
                "      see logs above for server errors returned by hotki runtime: ",
                message.as_str(),
                "",
            );
        },
        _ => {},
    }
    assert(texts(lines@) =~= before + driver_hints(err));
}

/// The hints to print for an error, one per line.
pub fn print_hints(err: &Error) -> (r: Vec<String>)
    ensures
        texts(r@) == hint_lines(err),
{
    let mut lines: Vec<String> = Vec::new();
    assert(texts(lines@) =~= Seq::empty());
    match err {
        Error::HotkiBinNotFound => {
            push_line(
                &mut lines,
                "hint: set HOTKI_BIN to an existing binary or run: cargo build --bin hotki",
            );
        },
        Error::HudNotVisible { .. } => {
            push_line(&mut lines, "hint: we inject the activation chord via RPC");
            push_line(
                &mut lines,
                "      check that the server started (use --logs) and bindings are ready",
            );
            push_line(
                &mut lines,
                "      also ensure Accessibility is granted for best reliability",
            );
        },
        Error::RpcDriver(inner) => {
            let message = inner.describe();
            push_hint(&mut lines, "hint: RPC driver failed: ", message.as_str(), "");
            push_driver_hints(&mut lines, inner);
        },
        _ => {},
    }
    assert(texts(lines@) =~= hint_lines(err));
    lines
}

/// Whether an I/O failure means that the connection is gone.
pub fn connection_lost(kind: IoKind) -> (r: bool)
    ensures
        r <==> kind is BrokenPipe || kind is ConnectionReset || kind is ConnectionAborted,
{
    matches!(kind, IoKind::BrokenPipe | IoKind::ConnectionReset | IoKind::ConnectionAborted)
}

} // verus!

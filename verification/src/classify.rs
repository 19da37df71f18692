//! The disconnect classification table: a total, pure map from a disconnect
//! reason to a reconnect decision and an optional user-facing message.
use vstd::prelude::*;
use vstd::string::StringExecFns;

verus! {

/// Close reasons assigned by the remote server when it closes a voice
/// session; each is a leaf fact carrying no behaviour of its own.
#[derive(Clone, Copy, Debug)]
pub enum CloseCode {
    UnknownOpcode,
    InvalidPayload,
    NotAuthenticated,
    AuthenticationFailed,
    AlreadyAuthenticated,
    SessionInvalid,
    SessionTimeout,
    ServerNotFound,
    UnknownProtocol,
    Disconnected,
    VoiceServerCrash,
    UnknownEncryptionMode,
}

/// The closed taxonomy of disconnect reasons delivered by the voice
/// transport. Absence of a reason (the classifier takes an
/// `Option<DisconnectReason>`) stands for a deliberate, requested
/// disconnect.
#[derive(Clone, Copy, Debug)]
pub enum DisconnectReason {
    /// A reconnection attempt was discarded because a newer one was
    /// already in flight.
    RequestSuperseded,
    /// The voice-transport library's own internal fault.
    InternalError,
    /// A host-level I/O fault.
    IoError,
    /// Transport and remote server disagree on protocol.
    ProtocolViolation,
    /// The connection attempt did not complete in time.
    TimedOut,
    /// The remote server closed the session, optionally with a close code.
    RemoteClosed(Option<CloseCode>),
    /// Any reason outside the recognized set.
    Unknown,
}

/// Severity of the one diagnostic log record emitted per classification.
#[derive(Clone, Copy, PartialEq, Eq, Structural, Debug)]
pub enum Severity {
    Debug,
    Info,
    Warn,
    Error,
}

/// The sole output of classification: whether to schedule a reconnection
/// attempt, and an optional human-readable explanation.
#[derive(Clone, Debug)]
pub struct ClassificationResult {
    pub should_reconnect: bool,
    pub user_message: Option<String>,
}

/// The view of an optional message: its character sequence, if present.
pub open spec fn msg_view(m: Option<String>) -> Option<Seq<char>> {
    match m {
        Some(s) => Some(s@),
        None => None,
    }
}

/// Whether a disconnect with the given reason is followed by a
/// reconnection attempt.
pub open spec fn spec_should_reconnect(reason: Option<DisconnectReason>) -> bool {
    match reason {
        None => false,
        Some(r) => match r {
            DisconnectReason::RequestSuperseded => false,
            DisconnectReason::RemoteClosed(code) => !(code matches Some(c)
                && c is Disconnected),
            _ => true,
        },
    }
}

/// The user-facing explanation for a close code, if any.
pub open spec fn spec_close_message(code: CloseCode) -> Option<Seq<char>> {
    match code {
        CloseCode::UnknownOpcode => Some("remote closed connection due to unknown opcode"@),
        CloseCode::InvalidPayload => Some("remote closed connection due to invalid payload"@),
        CloseCode::NotAuthenticated => Some(
            "remote closed connection due to not being authenticated"@,
        ),
        CloseCode::AuthenticationFailed => Some(
            "remote closed connection due to failing to authenticate"@,
        ),
        CloseCode::AlreadyAuthenticated => Some(
            "remote closed connection due to already being authenticated"@,
        ),
        CloseCode::SessionInvalid => Some("remote invalidated session"@),
        CloseCode::SessionTimeout => Some("session timed out"@),
        CloseCode::ServerNotFound => Some("voice server couldn't be found"@),
        CloseCode::UnknownProtocol => Some("remote didn't recognize protocol"@),
        CloseCode::Disconnected => None,
        CloseCode::VoiceServerCrash => Some("remote voice server crashed"@),
        CloseCode::UnknownEncryptionMode => Some("remote didn't recognize encryption scheme"@),
    }
}

/// The user-facing explanation for a disconnect reason, if any.
pub open spec fn spec_message(reason: Option<DisconnectReason>) -> Option<Seq<char>> {
    match reason {
        None => None,
        Some(r) => match r {
            DisconnectReason::RequestSuperseded => None,
            DisconnectReason::InternalError => Some("library internal error"@),
            DisconnectReason::IoError => Some("host IO error"@),
            DisconnectReason::ProtocolViolation => Some(
                "library and remote disagreed on protocol"@,
            ),
            DisconnectReason::TimedOut => Some("timed out waiting for connection"@),
            DisconnectReason::RemoteClosed(code) => match code {
                None => Some("remote closed connection without reason"@),
                Some(c) => spec_close_message(c),
            },
            DisconnectReason::Unknown => Some("disconnected for unknown reason"@),
        },
    }
}

/// Severity of the log record for a closure by the remote server:
/// codes that indicate a fault of the library or a protocol mismatch are
/// errors, recoverable environmental faults are warnings, and a removal
/// by moderation is merely informational.
pub open spec fn spec_close_severity(code: CloseCode) -> Severity {
    match code {
        CloseCode::UnknownOpcode => Severity::Error,
        CloseCode::InvalidPayload => Severity::Error,
        CloseCode::NotAuthenticated => Severity::Error,
        CloseCode::AuthenticationFailed => Severity::Error,
        CloseCode::AlreadyAuthenticated => Severity::Error,
        CloseCode::SessionInvalid => Severity::Error,
        CloseCode::SessionTimeout => Severity::Error,
        CloseCode::ServerNotFound => Severity::Warn,
        CloseCode::UnknownProtocol => Severity::Warn,
        CloseCode::Disconnected => Severity::Info,
        CloseCode::VoiceServerCrash => Severity::Warn,
        CloseCode::UnknownEncryptionMode => Severity::Warn,
    }
}

/// Severity of the one log record emitted per classification:
/// informational for the deliberate, superseded and moderation-removal
/// cases, warning for recoverable environmental faults, and error for
/// faults that indicate a bug or a protocol mismatch.
pub open spec fn spec_severity(reason: Option<DisconnectReason>) -> Severity {
    match reason {
        None => Severity::Info,
        Some(r) => match r {
            DisconnectReason::RequestSuperseded => Severity::Info,
            DisconnectReason::InternalError => Severity::Error,
            DisconnectReason::IoError => Severity::Warn,
            DisconnectReason::ProtocolViolation => Severity::Error,
            DisconnectReason::TimedOut => Severity::Warn,
            DisconnectReason::RemoteClosed(code) => match code {
                None => Severity::Warn,
                Some(c) => spec_close_severity(c),
            },
            DisconnectReason::Unknown => Severity::Warn,
        },
    }
}

/// The severity at which the log record for this classification is
/// emitted.
pub fn log_severity(reason: Option<DisconnectReason>) -> (s: Severity)
    ensures
        s == spec_severity(reason),
{
    match reason {
        None => Severity::Info,
        Some(r) => match r {
            DisconnectReason::RequestSuperseded => Severity::Info,
            DisconnectReason::InternalError => Severity::Error,
            DisconnectReason::IoError => Severity::Warn,
            DisconnectReason::ProtocolViolation => Severity::Error,
            DisconnectReason::TimedOut => Severity::Warn,
            DisconnectReason::RemoteClosed(code) => match code {
                None => Severity::Warn,
                Some(c) => match c {
                    CloseCode::UnknownOpcode => Severity::Error,
                    CloseCode::InvalidPayload => Severity::Error,
                    CloseCode::NotAuthenticated => Severity::Error,
                    CloseCode::AuthenticationFailed => Severity::Error,
                    CloseCode::AlreadyAuthenticated => Severity::Error,
                    CloseCode::SessionInvalid => Severity::Error,
                    CloseCode::SessionTimeout => Severity::Error,
                    CloseCode::ServerNotFound => Severity::Warn,
                    CloseCode::UnknownProtocol => Severity::Warn,
                    CloseCode::Disconnected => Severity::Info,
                    CloseCode::VoiceServerCrash => Severity::Warn,
                    CloseCode::UnknownEncryptionMode => Severity::Warn,
                },
            },
            DisconnectReason::Unknown => Severity::Warn,
        },
    }
}

/// Classify a closure of the session by the remote server, by its close
/// code: every code except a removal by moderation warrants a
/// reconnection attempt and an explanation.
pub fn check_ws_close_err(code: CloseCode) -> (r: ClassificationResult)
    ensures
        r.should_reconnect == spec_should_reconnect(
            Some(DisconnectReason::RemoteClosed(Some(code))),
        ),
        msg_view(r.user_message) == spec_close_message(code),
{
    match code {
        CloseCode::UnknownOpcode => ClassificationResult {
            should_reconnect: true,
            user_message: Some(
                String::from_str("remote closed connection due to unknown opcode"),
            ),
        },
        CloseCode::InvalidPayload => ClassificationResult {
            should_reconnect: true,
            user_message: Some(
                String::from_str("remote closed connection due to invalid payload"),
            ),
        },
        CloseCode::NotAuthenticated => ClassificationResult {
            should_reconnect: true,
            user_message: Some(
                String::from_str("remote closed connection due to not being authenticated"),
            ),
        },
        CloseCode::AuthenticationFailed => ClassificationResult {
            should_reconnect: true,
            user_message: Some(
                String::from_str("remote closed connection due to failing to authenticate"),
            ),
        },
        CloseCode::AlreadyAuthenticated => ClassificationResult {
            should_reconnect: true,
            user_message: Some(
                String::from_str("remote closed connection due to already being authenticated"),
            ),
        },
        CloseCode::SessionInvalid => ClassificationResult {
            should_reconnect: true,
            user_message: Some(String::from_str("remote invalidated session")),
        },
        CloseCode::SessionTimeout => ClassificationResult {
            should_reconnect: true,
            user_message: Some(String::from_str("session timed out")),
        },
        CloseCode::ServerNotFound => ClassificationResult {
            should_reconnect: true,
            user_message: Some(String::from_str("voice server couldn't be found")),
        },
        CloseCode::UnknownProtocol => ClassificationResult {
            should_reconnect: true,
            user_message: Some(String::from_str("remote didn't recognize protocol")),
        },
        CloseCode::Disconnected => ClassificationResult {
            should_reconnect: false,
            user_message: None,
        },
        CloseCode::VoiceServerCrash => ClassificationResult {
            should_reconnect: true,
            user_message: Some(String::from_str("remote voice server crashed")),
        },
        CloseCode::UnknownEncryptionMode => ClassificationResult {
            should_reconnect: true,
            user_message: Some(String::from_str("remote didn't recognize encryption scheme")),
        },
    }
}

/// Classify a disconnect event: a total, pure map from the (optional)
/// reason to the reconnect decision and optional explanation. Every
/// variant of the taxonomy maps to exactly one result; no input is
/// excluded and no branch can fail.
pub fn classify(reason: Option<DisconnectReason>) -> (r: ClassificationResult)
    ensures
        r.should_reconnect == spec_should_reconnect(reason),
        msg_view(r.user_message) == spec_message(reason),
{
    match reason {
        None => ClassificationResult { should_reconnect: false, user_message: None },
        Some(DisconnectReason::RequestSuperseded) => ClassificationResult {
            should_reconnect: false,
            user_message: None,
        },
        Some(DisconnectReason::InternalError) => ClassificationResult {
            should_reconnect: true,
            user_message: Some(String::from_str("library internal error")),
        },
        Some(DisconnectReason::IoError) => ClassificationResult {
            should_reconnect: true,
            user_message: Some(String::from_str("host IO error")),
        },
        Some(DisconnectReason::ProtocolViolation) => ClassificationResult {
            should_reconnect: true,
            user_message: Some(String::from_str("library and remote disagreed on protocol")),
        },
        Some(DisconnectReason::TimedOut) => ClassificationResult {
            should_reconnect: true,
            user_message: Some(String::from_str("timed out waiting for connection")),
        },
        Some(DisconnectReason::RemoteClosed(None)) => ClassificationResult {
            should_reconnect: true,
            user_message: Some(String::from_str("remote closed connection without reason")),
        },
        Some(DisconnectReason::RemoteClosed(Some(code))) => check_ws_close_err(code),
        Some(DisconnectReason::Unknown) => ClassificationResult {
            should_reconnect: true,
            user_message: Some(String::from_str("disconnected for unknown reason")),
        },
    }
}

/// A disconnect that is not followed by a reconnection attempt carries no
/// user-facing message: the only reasons classified as final are the
/// deliberate, superseded and moderation-removal cases, and none of them
/// warrants an explanation.
pub proof fn lemma_no_reconnect_no_message(reason: Option<DisconnectReason>)
    ensures
        !spec_should_reconnect(reason) ==> spec_message(reason) is None,
{
}

/// The user-facing message is absent exactly for a deliberate disconnect
/// (no reason supplied), a superseded reconnection request, and a removal
/// by moderation; every other reason carries one.
pub proof fn lemma_message_absent(reason: Option<DisconnectReason>)
    ensures
        spec_message(reason) is None <==> (reason is None || reason == Some(
            DisconnectReason::RequestSuperseded,
        ) || reason == Some(DisconnectReason::RemoteClosed(Some(CloseCode::Disconnected)))),
{
}

/// Classification is deterministic: any two results that meet the
/// classifier's contract for the same reason agree on the reconnect
/// decision and on the message, so two calls with the same input yield
/// the same output.
pub proof fn lemma_classify_deterministic(
    reason: Option<DisconnectReason>,
    r1: ClassificationResult,
    r2: ClassificationResult,
)
    requires
        r1.should_reconnect == spec_should_reconnect(reason),
        msg_view(r1.user_message) == spec_message(reason),
        r2.should_reconnect == spec_should_reconnect(reason),
        msg_view(r2.user_message) == spec_message(reason),
    ensures
        r1.should_reconnect == r2.should_reconnect,
        msg_view(r1.user_message) == msg_view(r2.user_message),
{
}

} // verus!

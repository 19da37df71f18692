use voice_disconnect::classify::{
    check_ws_close_err, classify, log_severity, CloseCode, DisconnectReason, Severity,
};

fn all_close_codes() -> Vec<CloseCode> {
    vec![
        CloseCode::UnknownOpcode,
        CloseCode::InvalidPayload,
        CloseCode::NotAuthenticated,
        CloseCode::AuthenticationFailed,
        CloseCode::AlreadyAuthenticated,
        CloseCode::SessionInvalid,
        CloseCode::SessionTimeout,
        CloseCode::ServerNotFound,
        CloseCode::UnknownProtocol,
        CloseCode::Disconnected,
        CloseCode::VoiceServerCrash,
        CloseCode::UnknownEncryptionMode,
    ]
}

fn all_reasons() -> Vec<Option<DisconnectReason>> {
    let mut reasons = vec![
        None,
        Some(DisconnectReason::RequestSuperseded),
        Some(DisconnectReason::InternalError),
        Some(DisconnectReason::IoError),
        Some(DisconnectReason::ProtocolViolation),
        Some(DisconnectReason::TimedOut),
        Some(DisconnectReason::RemoteClosed(None)),
        Some(DisconnectReason::Unknown),
    ];
    for code in all_close_codes() {
        reasons.push(Some(DisconnectReason::RemoteClosed(Some(code))));
    }
    reasons
}

#[test]
fn totality_every_variant_classified() {
    for reason in all_reasons() {
        let r = classify(reason);
        // A final disconnect never carries an explanation.
        if !r.should_reconnect {
            assert_eq!(r.user_message, None);
        }
    }
}

#[test]
fn classification_table_exact() {
    let expect: Vec<(Option<DisconnectReason>, bool, Option<&str>)> = vec![
        (None, false, None),
        (Some(DisconnectReason::RequestSuperseded), false, None),
        (
            Some(DisconnectReason::InternalError),
            true,
            Some("library internal error"),
        ),
        (Some(DisconnectReason::IoError), true, Some("host IO error")),
        (
            Some(DisconnectReason::ProtocolViolation),
            true,
            Some("library and remote disagreed on protocol"),
        ),
        (
            Some(DisconnectReason::TimedOut),
            true,
            Some("timed out waiting for connection"),
        ),
        (
            Some(DisconnectReason::RemoteClosed(None)),
            true,
            Some("remote closed connection without reason"),
        ),
        (
            Some(DisconnectReason::RemoteClosed(Some(CloseCode::UnknownOpcode))),
            true,
            Some("remote closed connection due to unknown opcode"),
        ),
        (
            Some(DisconnectReason::RemoteClosed(Some(CloseCode::InvalidPayload))),
            true,
            Some("remote closed connection due to invalid payload"),
        ),
        (
            Some(DisconnectReason::RemoteClosed(Some(CloseCode::NotAuthenticated))),
            true,
            Some("remote closed connection due to not being authenticated"),
        ),
        (
            Some(DisconnectReason::RemoteClosed(Some(CloseCode::AuthenticationFailed))),
            true,
            Some("remote closed connection due to failing to authenticate"),
        ),
        (
            Some(DisconnectReason::RemoteClosed(Some(CloseCode::AlreadyAuthenticated))),
            true,
            Some("remote closed connection due to already being authenticated"),
        ),
        (
            Some(DisconnectReason::RemoteClosed(Some(CloseCode::SessionInvalid))),
            true,
            Some("remote invalidated session"),
        ),
        (
            Some(DisconnectReason::RemoteClosed(Some(CloseCode::SessionTimeout))),
            true,
            Some("session timed out"),
        ),
        (
            Some(DisconnectReason::RemoteClosed(Some(CloseCode::ServerNotFound))),
            true,
            Some("voice server couldn't be found"),
        ),
        (
            Some(DisconnectReason::RemoteClosed(Some(CloseCode::UnknownProtocol))),
            true,
            Some("remote didn't recognize protocol"),
        ),
        (
            Some(DisconnectReason::RemoteClosed(Some(CloseCode::Disconnected))),
            false,
            None,
        ),
        (
            Some(DisconnectReason::RemoteClosed(Some(CloseCode::VoiceServerCrash))),
            true,
            Some("remote voice server crashed"),
        ),
        (
            Some(DisconnectReason::RemoteClosed(Some(CloseCode::UnknownEncryptionMode))),
            true,
            Some("remote didn't recognize encryption scheme"),
        ),
        (
            Some(DisconnectReason::Unknown),
            true,
            Some("disconnected for unknown reason"),
        ),
    ];
    for (reason, should_reconnect, message) in expect {
        let r = classify(reason);
        assert_eq!(r.should_reconnect, should_reconnect);
        assert_eq!(r.user_message, message.map(|m| m.to_string()));
    }
}

#[test]
fn determinism_same_input_same_output() {
    for reason in all_reasons() {
        let r1 = classify(reason);
        let r2 = classify(reason);
        assert_eq!(r1.should_reconnect, r2.should_reconnect);
        assert_eq!(r1.user_message, r2.user_message);
    }
}

#[test]
fn message_absent_cases() {
    for reason in [
        None,
        Some(DisconnectReason::RequestSuperseded),
        Some(DisconnectReason::RemoteClosed(Some(CloseCode::Disconnected))),
    ] {
        assert_eq!(classify(reason).user_message, None);
    }
}

#[test]
fn close_code_classifier_matches_full_classifier() {
    for code in all_close_codes() {
        let direct = check_ws_close_err(code);
        let through = classify(Some(DisconnectReason::RemoteClosed(Some(code))));
        assert_eq!(direct.should_reconnect, through.should_reconnect);
        assert_eq!(direct.user_message, through.user_message);
    }
}

#[test]
fn severity_table() {
    assert_eq!(log_severity(None), Severity::Info);
    assert_eq!(
        log_severity(Some(DisconnectReason::RequestSuperseded)),
        Severity::Info
    );
    assert_eq!(
        log_severity(Some(DisconnectReason::InternalError)),
        Severity::Error
    );
    assert_eq!(log_severity(Some(DisconnectReason::IoError)), Severity::Warn);
    assert_eq!(
        log_severity(Some(DisconnectReason::ProtocolViolation)),
        Severity::Error
    );
    assert_eq!(log_severity(Some(DisconnectReason::TimedOut)), Severity::Warn);
    assert_eq!(
        log_severity(Some(DisconnectReason::RemoteClosed(None))),
        Severity::Warn
    );
    assert_eq!(
        log_severity(Some(DisconnectReason::RemoteClosed(Some(
            CloseCode::Disconnected
        )))),
        Severity::Info
    );
    assert_eq!(
        log_severity(Some(DisconnectReason::RemoteClosed(Some(
            CloseCode::ServerNotFound
        )))),
        Severity::Warn
    );
    assert_eq!(log_severity(Some(DisconnectReason::Unknown)), Severity::Warn);
}

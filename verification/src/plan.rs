//! The full decision for one disconnect event: classification, log
//! severity, whether (and after what delay) to schedule a reconnection
//! attempt, and the composed notification text.
use vstd::prelude::*;
use crate::SessionId;
use crate::classify::{
    classify, log_severity, msg_view, spec_message, spec_severity, spec_should_reconnect,
    DisconnectReason, Severity,
};
use crate::notify::{compose_notification, spec_notification};

verus! {

/// Seconds between a reconnectable disconnect and the one scheduled
/// reconnection attempt.
pub const RECONNECT_DELAY_SECS: u64 = 30;

/// Everything the surrounding runtime needs to act on one disconnect
/// event. Constructed per event, consumed immediately, then discarded.
#[derive(Clone, Debug)]
pub struct DisconnectPlan {
    /// The session the event pertains to, carried through for
    /// correlation.
    pub session: SessionId,
    /// Whether a reconnection attempt is to be scheduled.
    pub should_reconnect: bool,
    /// The user-facing explanation, if the reason warrants one.
    pub user_message: Option<String>,
    /// Severity of the one log record for this event.
    pub severity: Severity,
    /// The delay before the scheduled reconnection attempt; present
    /// exactly when `should_reconnect` holds.
    pub reconnect_delay_secs: Option<u64>,
    /// The composed notification text; present exactly when
    /// `user_message` is.
    pub notification: Option<String>,
}

/// Decide everything about one disconnect event. The decision is a pure
/// function of the reason alone: the runtime around it only performs the
/// actions (log, delayed reconnect, notification delivery), and no
/// outcome of those actions feeds back into the decision.
pub fn plan_disconnect(session: SessionId, reason: Option<DisconnectReason>) -> (p:
    DisconnectPlan)
    ensures
        p.session == session,
        p.should_reconnect == spec_should_reconnect(reason),
        msg_view(p.user_message) == spec_message(reason),
        p.severity == spec_severity(reason),
        p.reconnect_delay_secs == (if spec_should_reconnect(reason) {
            Some(RECONNECT_DELAY_SECS)
        } else {
            None::<u64>
        }),
        msg_view(p.notification) == (match spec_message(reason) {
            Some(m) => Some(spec_notification(m, spec_should_reconnect(reason))),
            None => None::<Seq<char>>,
        }),
{
    let severity = log_severity(reason);
    let result = classify(reason);
    let reconnect_delay_secs = if result.should_reconnect {
        Some(RECONNECT_DELAY_SECS)
    } else {
        None
    };
    let notification = match &result.user_message {
        Some(message) => Some(compose_notification(message.as_str(), result.should_reconnect)),
        None => None,
    };
    DisconnectPlan {
        session,
        should_reconnect: result.should_reconnect,
        user_message: result.user_message,
        severity,
        reconnect_delay_secs,
        notification,
    }
}

} // verus!

//! Composition of the operator-facing notification text, and the severity
//! of the log record written when its delivery fails.
use vstd::prelude::*;
use vstd::string::StringExecFns;
use crate::classify::Severity;

verus! {

/// The notification text for a disconnect explained by `message`: the base
/// clause, with the reconnection clause appended exactly when a
/// reconnection attempt is scheduled.
pub open spec fn spec_notification(message: Seq<char>, should_reconnect: bool) -> Seq<char> {
    "I had an issue ("@ + message + ") and disconnected from the voice session."@ + (
    if should_reconnect {
        " I'll try reconnecting in 30 seconds."@
    } else {
        Seq::<char>::empty()
    })
}

/// Compose the single human-readable sentence sent through the
/// notification sink for a disconnect with a user-facing message.
pub fn compose_notification(message: &str, should_reconnect: bool) -> (r: String)
    ensures
        r@ == spec_notification(message@, should_reconnect),
{
    let mut text = String::from_str("I had an issue (");
    text.append(message);
    text.append(") and disconnected from the voice session.");
    if should_reconnect {
        text.append(" I'll try reconnecting in 30 seconds.");
    }
    proof {
        assert(text@ =~= spec_notification(message@, should_reconnect));
    }
    text
}

/// When a reconnection is scheduled, the composed notification is the
/// no-reconnect text with the reconnection clause appended: the clause is
/// present exactly when `should_reconnect` holds.
pub proof fn lemma_notification_reconnect_clause(message: Seq<char>)
    ensures
        spec_notification(message, true) == spec_notification(message, false)
            + " I'll try reconnecting in 30 seconds."@,
{
    assert(spec_notification(message, true) =~= spec_notification(message, false)
        + " I'll try reconnecting in 30 seconds."@);
}

/// The severity of the log record written after a delivery through the
/// notification sink: nothing is logged on success, and a failure is
/// logged at diagnostic severity and otherwise swallowed; it never
/// escalates to a caller-visible fault.
pub fn delivery_log_severity(delivered: bool) -> (s: Option<Severity>)
    ensures
        s == (if delivered {
            None::<Severity>
        } else {
            Some(Severity::Debug)
        }),
{
    if delivered {
        None
    } else {
        Some(Severity::Debug)
    }
}

} // verus!

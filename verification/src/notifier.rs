//! Desktop notifications: who sends them and what they say.

use crate::detector::{Alert, AlertReason, Severity};
use crate::text::{decimal, decimal_text};
use vstd::prelude::*;

verus! {

/// The sender of desktop notifications.
pub struct Notifier {
    app_name: String,
}

impl Notifier {
    /// The application name under which notifications are shown.
    pub closed spec fn name(&self) -> Seq<char> {
        self.app_name@
    }

    /// A notifier that shows its notifications as `RunawayGuard`.
    pub fn new() -> (notifier: Notifier)
        ensures
            notifier.name() == "RunawayGuard"@,
    {
        Notifier { app_name: "RunawayGuard".to_string() }
    }

    /// The application name under which notifications are shown.
    pub fn app_name(&self) -> (name: &str)
        ensures
            name@ == self.name(),
    {
        self.app_name.as_str()
    }
}

impl Default for Notifier {
    fn default() -> (notifier: Notifier)
        ensures
            notifier.name() == "RunawayGuard"@,
    {
        Notifier::new()
    }
}

/// The text of one notification.
#[derive(Debug, Clone)]
pub struct Notice {
    pub summary: String,
    pub body: String,
}

/// The summary line of the notification for an alert.
pub open spec fn notice_summary(name: Seq<char>, severity: Severity) -> Seq<char> {
    "RunawayGuard: "@ + name + " ("@ + severity.label() + ")"@
}

/// The body of the notification for an alert.
pub open spec fn notice_body(pid: u32, reason: AlertReason) -> Seq<char> {
    "PID "@ + decimal(pid as nat) + " - "@ + reason.label()
}

impl Notice {
    /// The notification that tells of `alert`.
    pub fn of(alert: &Alert) -> (notice: Notice)
        ensures
            notice.summary@ == notice_summary(alert@.name, alert@.severity),
            notice.body@ == notice_body(alert@.pid, alert@.reason),
    {
        let mut summary: String = "RunawayGuard: ".to_string();
        summary.append(alert.name.as_str());
        summary.append(" (");
        summary.append(alert.severity.as_str());
        summary.append(")");
        let mut body: String = "PID ".to_string();
        let pid = decimal_text(alert.pid as u64);
        body.append(pid.as_str());
        body.append(" - ");
        body.append(alert.reason.as_str());
        Notice { summary, body }
    }
}

} // verus!

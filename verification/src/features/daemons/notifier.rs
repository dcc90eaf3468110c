//! The notifications that report what happened to daemons.

use vstd::prelude::*;
use crate::text::{join2, join3, to_string};
use crate::notifier::Notification;
use crate::features::daemons::event::{DaemonDomainEvent, action_text};

verus! {

/// The notifications of the daemons feature replace each other under this
/// id, apart from those of the VPN feature.
pub open spec fn daemon_notification_id() -> u32 {
    4225
}

/// Whether `n` is a daemon notification with this summary, body and urgency.
pub open spec fn is_daemon_notification(n: Notification, summary: Seq<char>, body: Seq<char>, critical: bool) -> bool {
    &&& n.id == Some(daemon_notification_id())
    &&& n.summary@ == summary
    &&& n.body@ == body
    &&& n.appname matches Some(a) && a@ == "de-configurator"@
    &&& n.critical == critical
}

/// The daemon notification service.
pub struct DaemonNotificationService;

impl DaemonNotificationService {
    /// The notification of a daemon event.
    pub fn notification_for(e: &DaemonDomainEvent) -> (r: Notification)
        ensures
            match *e {
                DaemonDomainEvent::StateChanged { display_name, is_running, .. } => is_daemon_notification(
                    r,
                    "Демон: "@ + display_name@,
                    if is_running {
                        "Процесс "@ + display_name@ + " запущен"@
                    } else {
                        "Процесс "@ + display_name@ + " остановлен"@
                    },
                    false,
                ),
                DaemonDomainEvent::TransitionFailed { display_name, action, error, .. } => is_daemon_notification(
                    r,
                    "Ошибка демона: "@ + display_name@,
                    "Не удалось выполнить '"@ + action_text(action) + "' для "@ + display_name@ + ": "@ + error@,
                    true,
                ),
            },
    {
        match e {
            DaemonDomainEvent::StateChanged { display_name, is_running, .. } => {
                let summary = join2("Демон: ", display_name.as_str());
                let body = if *is_running {
                    join3("Процесс ", display_name.as_str(), " запущен")
                } else {
                    join3("Процесс ", display_name.as_str(), " остановлен")
                };
                Notification { id: Some(4225), summary, body, appname: Some(to_string("de-configurator")), critical: false }
            },
            DaemonDomainEvent::TransitionFailed { display_name, action, error, .. } => {
                let summary = join2("Ошибка демона: ", display_name.as_str());
                let mut body = join3("Не удалось выполнить '", action.text(), "' для ");
                body.append(display_name.as_str());
                body.append(": ");
                body.append(error.as_str());
                Notification { id: Some(4225), summary, body, appname: Some(to_string("de-configurator")), critical: true }
            },
        }
    }
}

} // verus!

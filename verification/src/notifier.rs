//! Desktop notifications as plain values: what to show, and how.

use vstd::prelude::*;
use crate::text::{join2, join3, to_string};
use crate::event::DomainEvent;
use crate::features::vpn::manager::ip_info_text;

verus! {

/// A desktop notification: its summary and body, the notification id that
/// replaces an earlier one, the application name, and whether it is critical.
#[derive(Debug, Clone)]
pub struct Notification {
    pub id: Option<u32>,
    pub summary: String,
    pub body: String,
    pub appname: Option<String>,
    pub critical: bool,
}

/// Whether `n` is a notification of the stand-alone VPN manager with this
/// summary, body and urgency.
pub open spec fn is_manager_notification(n: Notification, summary: Seq<char>, body: Seq<char>, critical: bool) -> bool {
    &&& n.id == Some(4224u32)
    &&& n.summary@ == summary
    &&& n.body@ == body
    &&& n.appname matches Some(a) && a@ == "de-configurator"@
    &&& n.critical == critical
}

/// The notification service of the stand-alone VPN manager.
pub struct NotificationService;

impl NotificationService {
    /// The notification that reports a switch event.
    pub fn notification_for(e: &DomainEvent) -> (r: Notification)
        ensures
            match *e {
                DomainEvent::TransitionStarted { display_name, has_interface, .. } => is_manager_notification(
                    r,
                    "Переключение: "@ + display_name@,
                    if has_interface {
                        "Установка соединения с "@ + display_name@ + "..."@
                    } else {
                        "Отключение всех VPN туннелей..."@
                    },
                    false,
                ),
                DomainEvent::TransitionCompleted { display_name, ip_info, .. } => is_manager_notification(
                    r,
                    "Успешно: "@ + display_name@,
                    match ip_info {
                        Some(info) => "Соединение установлено\n"@ + ip_info_text(info.query@, info.city@, info.country@),
                        None => "Все туннели успешно остановлены"@,
                    },
                    false,
                ),
                DomainEvent::TransitionFailed { display_name, error, .. } => is_manager_notification(
                    r,
                    "Ошибка: "@ + display_name@,
                    error@,
                    true,
                ),
            },
    {
        let (summary, body, critical) = match e {
            DomainEvent::TransitionStarted { display_name, has_interface, .. } => {
                let body = if *has_interface {
                    join3("Установка соединения с ", display_name.as_str(), "...")
                } else {
                    to_string("Отключение всех VPN туннелей...")
                };
                (join2("Переключение: ", display_name.as_str()), body, false)
            },
            DomainEvent::TransitionCompleted { display_name, ip_info, .. } => {
                let body = match ip_info {
                    Some(info) => {
                        let d = info.describe();
                        join2("Соединение установлено\n", d.as_str())
                    },
                    None => to_string("Все туннели успешно остановлены"),
                };
                (join2("Успешно: ", display_name.as_str()), body, false)
            },
            DomainEvent::TransitionFailed { display_name, error, .. } => {
                (join2("Ошибка: ", display_name.as_str()), error.clone(), true)
            },
        };
        Notification { id: Some(4224), summary, body, appname: Some(to_string("de-configurator")), critical }
    }
}

} // verus!

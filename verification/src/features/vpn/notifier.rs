//! The notifications that report VPN switches.

use vstd::prelude::*;
use vstd::string::*;
use crate::text::{join2, join3, to_string};
use crate::base::event_bus::SystemEvent;
use crate::notifier::Notification;

verus! {

/// The notifications of the VPN feature replace each other under this id.
pub open spec fn vpn_notification_id() -> u32 {
    4224
}

/// Whether `n` is a VPN notification with this summary, body and urgency.
pub open spec fn is_vpn_notification(n: Notification, summary: Seq<char>, body: Seq<char>, critical: bool) -> bool {
    &&& n.id == Some(vpn_notification_id())
    &&& n.summary@ == summary
    &&& n.body@ == body
    &&& n.appname matches Some(a) && a@ == "de-configurator"@
    &&& n.critical == critical
}

/// The VPN notification service.
pub struct VpnNotificationService;

fn vpn_notification(summary: String, body: String, critical: bool) -> (r: Notification)
    ensures
        is_vpn_notification(r, summary@, body@, critical),
{
    Notification { id: Some(4224), summary, body, appname: Some(to_string("de-configurator")), critical }
}

impl VpnNotificationService {
    /// The notification that an event calls for: none for a silent event
    /// or one that is not about a VPN switch.
    pub fn notification_for(e: &SystemEvent) -> (r: Option<Notification>)
        ensures
            match *e {
                SystemEvent::VpnTransitionStarted { display_name, has_interface, context, .. } => if context.silent {
                    r is None
                } else {
                    r matches Some(n) && is_vpn_notification(
                        n,
                        "Переключение: "@ + display_name@,
                        if has_interface {
                            "Установка соединения с "@ + display_name@ + "..."@
                        } else {
                            "Отключение всех VPN туннелей..."@
                        },
                        false,
                    )
                },
                SystemEvent::VpnStateChanged { display_name, ip_info, context, .. } => if context.silent {
                    r is None
                } else {
                    r matches Some(n) && is_vpn_notification(
                        n,
                        "Успешно: "@ + display_name@,
                        match ip_info {
                            Some(info) => "Соединение установлено\n"@ + info@,
                            None => "Все туннели успешно остановлены"@,
                        },
                        false,
                    )
                },
                SystemEvent::VpnStateTransitionFailed { display_name, error, context, .. } => if context.silent {
                    r is None
                } else {
                    r matches Some(n) && is_vpn_notification(n, "Ошибка: "@ + display_name@, error@, true)
                },
                _ => r is None,
            },
    {
        match e {
            SystemEvent::VpnTransitionStarted { display_name, has_interface, context, .. } => {
                if context.silent {
                    return None;
                }
                let title = join2("Переключение: ", display_name.as_str());
                let body = if *has_interface {
                    join3("Установка соединения с ", display_name.as_str(), "...")
                } else {
                    to_string("Отключение всех VPN туннелей...")
                };
                Some(vpn_notification(title, body, false))
            },
            SystemEvent::VpnStateChanged { display_name, ip_info, context, .. } => {
                if context.silent {
                    return None;
                }
                let title = join2("Успешно: ", display_name.as_str());
                let body = match ip_info {
                    Some(info) => join2("Соединение установлено\n", info.as_str()),
                    None => to_string("Все туннели успешно остановлены"),
                };
                Some(vpn_notification(title, body, false))
            },
            SystemEvent::VpnStateTransitionFailed { display_name, error, context, .. } => {
                if context.silent {
                    return None;
                }
                let title = join2("Ошибка: ", display_name.as_str());
                Some(vpn_notification(title, error.clone(), true))
            },
            _ => None,
        }
    }
}

} // verus!

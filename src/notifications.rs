//! Which notifications reach the operator, and their text.

use vstd::prelude::*;
use crate::device::{mode_label, AudioMode};
use crate::error::ErrorSeverity;

verus! {

/// Something the operator may be told about.
#[derive(Debug, Clone)]
pub enum NotificationType {
    ModeChange { old: AudioMode, new: AudioMode },
    MicUsageStart { app_name: String },
    MicUsageStop { app_name: String },
    UpdateAvailable { version: String },
    Error { message: String, severity: ErrorSeverity },
    Info { title: String, message: String },
}

/// The icon of a notification.
#[derive(Debug, Clone, Copy, PartialEq, Eq, Structural)]
pub enum ToastIcon {
    Info,
    Warning,
    Error,
}

/// A notification to display.
#[derive(Debug, Clone)]
pub struct Notice {
    pub title: String,
    pub message: String,
    pub icon: ToastIcon,
    /// Show a message box rather than trying a toast first.
    pub use_message_box: bool,
}

/// The notification preferences.
#[derive(Debug, Clone)]
pub struct NotificationManager {
    pub enabled: bool,
    pub notify_mode_change: bool,
    pub notify_mic_usage: bool,
    pub notify_errors: bool,
    pub notify_updates: bool,
    pub use_toast: bool,
    /// Always use a message box, for installs where toasts do not appear.
    pub force_message_box: bool,
}

/// The (title, message, icon) a notification is shown with, if it is shown.
pub open spec fn notice_text(m: NotificationManager, n: NotificationType) -> Option<
    (Seq<char>, Seq<char>, ToastIcon),
> {
    if !m.enabled {
        None
    } else {
        match n {
            NotificationType::ModeChange { old, new } => if m.notify_mode_change {
                Some(
                    (
                        "Audio Mode Changed"@,
                        "Switched from "@ + mode_label(old) + " to "@ + mode_label(new),
                        ToastIcon::Info,
                    ),
                )
            } else {
                None
            },
            NotificationType::MicUsageStart { app_name } => if m.notify_mic_usage {
                Some(("Microphone In Use"@, app_name@ + " started using the microphone"@, ToastIcon::Info))
            } else {
                None
            },
            NotificationType::MicUsageStop { app_name } => if m.notify_mic_usage {
                Some(("Microphone Released"@, app_name@ + " stopped using the microphone"@, ToastIcon::Info))
            } else {
                None
            },
            NotificationType::UpdateAvailable { version } => if m.notify_updates {
                Some(
                    (
                        "Update Available"@,
                        "Version "@ + version@ + " is available. Check menu to update."@,
                        ToastIcon::Info,
                    ),
                )
            } else {
                None
            },
            NotificationType::Error { message, severity } => if m.notify_errors {
                match severity {
                    ErrorSeverity::Fatal => Some(("Error"@, message@, ToastIcon::Error)),
                    ErrorSeverity::Recoverable => Some(("Warning"@, message@, ToastIcon::Warning)),
                    ErrorSeverity::Minor => None,
                }
            } else {
                None
            },
            NotificationType::Info { title, message } => Some((title@, message@, ToastIcon::Info)),
        }
    }
}

fn notice(title: String, message: String, icon: ToastIcon, use_message_box: bool) -> (r: Option<Notice>)
    ensures
        r matches Some(n) && n.title == title && n.message == message && n.icon == icon
            && n.use_message_box == use_message_box,
{
    Some(Notice { title, message, icon, use_message_box })
}

impl NotificationManager {
    /// Everything enabled, toasts preferred.
    pub fn new() -> (r: Self)
        ensures
            r.enabled,
            r.notify_mode_change,
            r.notify_mic_usage,
            r.notify_errors,
            r.notify_updates,
            r.use_toast,
            !r.force_message_box,
    {
        NotificationManager {
            enabled: true,
            notify_mode_change: true,
            notify_mic_usage: true,
            notify_errors: true,
            notify_updates: true,
            use_toast: true,
            force_message_box: false,
        }
    }

    pub fn set_force_message_box(&mut self, force: bool)
        ensures
            *final(self) == (NotificationManager { force_message_box: force, ..*old(self) }),
    {
        self.force_message_box = force;
    }

    pub fn update_settings(
        &mut self,
        notify_mode_change: bool,
        notify_mic_usage: bool,
        notify_errors: bool,
        notify_updates: bool,
    )
        ensures
            *final(self) == (NotificationManager {
                notify_mode_change,
                notify_mic_usage,
                notify_errors,
                notify_updates,
                ..*old(self)
            }),
    {
        self.notify_mode_change = notify_mode_change;
        self.notify_mic_usage = notify_mic_usage;
        self.notify_errors = notify_errors;
        self.notify_updates = notify_updates;
    }

    pub fn set_enabled(&mut self, enabled: bool)
        ensures
            *final(self) == (NotificationManager { enabled, ..*old(self) }),
    {
        self.enabled = enabled;
    }

    /// The notification to display for an event, if the preferences let it through.
    pub fn show(&self, notification: NotificationType) -> (r: Option<Notice>)
        ensures
            match (r, notice_text(*self, notification)) {
                (None, None) => true,
                (Some(n), Some((t, m, i))) => n.title@ == t && n.message@ == m && n.icon == i
                    && n.use_message_box == (self.force_message_box || !self.use_toast),
                _ => false,
            },
    {
        if !self.enabled {
            return None;
        }
        let boxed = self.force_message_box || !self.use_toast;
        match notification {
            NotificationType::ModeChange { old, new } => {
                if self.notify_mode_change {
                    let message = String::from_str("Switched from ").concat(
                        old.to_string().as_str(),
                    ).concat(" to ").concat(new.to_string().as_str());
                    notice(String::from_str("Audio Mode Changed"), message, ToastIcon::Info, boxed)
                } else {
                    None
                }
            },
            NotificationType::MicUsageStart { app_name } => {
                if self.notify_mic_usage {
                    let message = app_name.concat(" started using the microphone");
                    notice(String::from_str("Microphone In Use"), message, ToastIcon::Info, boxed)
                } else {
                    None
                }
            },
            NotificationType::MicUsageStop { app_name } => {
                if self.notify_mic_usage {
                    let message = app_name.concat(" stopped using the microphone");
                    notice(String::from_str("Microphone Released"), message, ToastIcon::Info, boxed)
                } else {
                    None
                }
            },
            NotificationType::UpdateAvailable { version } => {
                if self.notify_updates {
                    let message = String::from_str("Version ").concat(version.as_str()).concat(
                        " is available. Check menu to update.",
                    );
                    notice(String::from_str("Update Available"), message, ToastIcon::Info, boxed)
                } else {
                    None
                }
            },
            NotificationType::Error { message, severity } => {
                if self.notify_errors {
                    match severity {
                        ErrorSeverity::Fatal => notice(
                            String::from_str("Error"),
                            message,
                            ToastIcon::Error,
                            boxed,
                        ),
                        ErrorSeverity::Recoverable => notice(
                            String::from_str("Warning"),
                            message,
                            ToastIcon::Warning,
                            boxed,
                        ),
                        ErrorSeverity::Minor => None,
                    }
                } else {
                    None
                }
            },
            NotificationType::Info { title, message } => notice(title, message, ToastIcon::Info, boxed),
        }
    }
}

/// The XML escape of one character.
pub open spec fn escaped_char(c: char) -> Seq<char> {
    if c == '&' {
        "&amp;"@
    } else if c == '<' {
        "&lt;"@
    } else if c == '>' {
        "&gt;"@
    } else if c == '"' {
        "&quot;"@
    } else if c == '\'' {
        "&apos;"@
    } else {
        seq![c]
    }
}

/// The XML escape of a text, character by character.
pub open spec fn escaped(s: Seq<char>) -> Seq<char>
    decreases s.len(),
{
    if s.len() == 0 {
        Seq::empty()
    } else {
        escaped(s.drop_last()) + escaped_char(s.last())
    }
}

/// Escapes the five XML special characters.
pub fn escape_xml(s: &str) -> (r: String)
    ensures
        r@ == escaped(s@),
{
    let n = s.unicode_len();
    let mut r = String::new();
    let mut i: usize = 0;
    while i < n
        invariant
            n == s@.len(),
            i <= n,
            r@ == escaped(s@.subrange(0, i as int)),
        decreases n - i,
    {
        let c = s.get_char(i);
        proof {
            assert(s@.subrange(0, i + 1).drop_last() =~= s@.subrange(0, i as int));
        }
        if c == '&' {
            r.append("&amp;");
        } else if c == '<' {
            r.append("&lt;");
        } else if c == '>' {
            r.append("&gt;");
        } else if c == '"' {
            r.append("&quot;");
        } else if c == '\'' {
            r.append("&apos;");
        } else {
            let one = s.substring_char(i, i + 1);
            proof {
                assert(one@ =~= seq![c]);
            }
            r.append(one);
        }
        i += 1;
    }
    proof {
        assert(s@.subrange(0, n as int) =~= s@);
    }
    r
}

/// The toast document for a title and a message, both escaped.
pub fn toast_xml(title: &str, message: &str) -> (r: String)
    ensures
        r@ == "<toast><visual><binding template=\"ToastGeneric\"><text>"@ + escaped(title@)
            + "</text><text>"@ + escaped(message@)
            + "</text></binding></visual><audio silent=\"true\"/></toast>"@,
{
    let t = escape_xml(title);
    let m = escape_xml(message);
    String::from_str("<toast><visual><binding template=\"ToastGeneric\"><text>").concat(
        t.as_str(),
    ).concat("</text><text>").concat(m.as_str()).concat(
        "</text></binding></visual><audio silent=\"true\"/></toast>",
    )
}

} // verus!

//! The application's global settings record.

use vstd::prelude::*;

verus! {

/// Settings that control how the application registers itself for logon and
/// which reminders it shows.
#[derive(Clone, Copy, Debug, PartialEq, Eq, Structural)]
pub struct AppSettings {
    pub auto_startup_enabled: bool,
    pub auto_startup_as_admin: bool,
    pub minimize_to_tray: bool,
    pub start_minimized: bool,
    pub check_updates: bool,
    pub hide_startup_reminder: bool,
    pub hide_admin_startup_reminder: bool,
    pub exit_after_startup: bool,
}

/// The record used when nothing has been saved yet.
pub open spec fn default_settings() -> AppSettings {
    AppSettings {
        auto_startup_enabled: false,
        auto_startup_as_admin: false,
        minimize_to_tray: true,
        start_minimized: false,
        check_updates: true,
        hide_startup_reminder: false,
        hide_admin_startup_reminder: false,
        exit_after_startup: false,
    }
}

/// Returns the default settings: autostart off, both reminders visible, and
/// the process stays alive after an automatic launch pass.
pub fn default_app_settings() -> (settings: AppSettings)
    ensures
        settings == default_settings(),
{
    AppSettings {
        auto_startup_enabled: false,
        auto_startup_as_admin: false,
        minimize_to_tray: true,
        start_minimized: false,
        check_updates: true,
        hide_startup_reminder: false,
        hide_admin_startup_reminder: false,
        exit_after_startup: false,
    }
}

/// Returns `settings` with the two reminder switches set as given and every
/// other field as it was.
pub fn with_reminder_flags(settings: AppSettings, hide_startup: bool, hide_admin: bool) -> (updated:
    AppSettings)
    ensures
        updated == (AppSettings {
            hide_startup_reminder: hide_startup,
            hide_admin_startup_reminder: hide_admin,
            ..settings
        }),
{
    AppSettings {
        hide_startup_reminder: hide_startup,
        hide_admin_startup_reminder: hide_admin,
        ..settings
    }
}

} // verus!

//! The two reminders that nag the user about autostart.

use vstd::prelude::*;
use crate::settings::AppSettings;

verus! {

/// Both reminders are switched off in the settings.
pub open spec fn suppressed(settings: AppSettings) -> bool {
    settings.hide_startup_reminder && settings.hide_admin_startup_reminder
}

/// The reminder to switch autostart on is shown unless it is hidden in the
/// settings or one of the two mechanisms is active.
pub open spec fn shows_startup_reminder(
    settings: AppSettings,
    run_entry_enabled: bool,
    scheduled_task_enabled: bool,
) -> bool {
    !settings.hide_startup_reminder && !run_entry_enabled && !scheduled_task_enabled
}

/// The reminder to start with administrator rights is shown unless it is
/// hidden in the settings, no enabled item asks for such rights, or the
/// scheduled task is active.
pub open spec fn shows_admin_reminder(
    settings: AppSettings,
    scheduled_task_enabled: bool,
    has_admin_items: bool,
) -> bool {
    !settings.hide_admin_startup_reminder && has_admin_items && !scheduled_task_enabled
}

/// Tells whether both reminders are switched off in the settings. The state
/// of the two mechanisms then need not be asked for: no reminder is shown,
/// whatever it is.
pub fn reminders_suppressed(settings: &AppSettings) -> (hidden: bool)
    ensures
        hidden == suppressed(*settings),
        hidden ==> forall|run_entry: bool, task: bool, admin_items: bool|
            !#[trigger] shows_startup_reminder(*settings, run_entry, task)
                && !#[trigger] shows_admin_reminder(*settings, task, admin_items),
{
    settings.hide_startup_reminder && settings.hide_admin_startup_reminder
}

/// Decides which reminders are shown: first the one for autostart, second
/// the one for administrator rights.
///
/// `run_entry_enabled` and `scheduled_task_enabled` tell which mechanisms
/// are active now, `has_admin_items` whether some enabled item of the list
/// asks for administrator rights.
pub fn check_startup_reminders(
    settings: &AppSettings,
    run_entry_enabled: bool,
    scheduled_task_enabled: bool,
    has_admin_items: bool,
) -> (shown: (bool, bool))
    ensures
        shown.0 == shows_startup_reminder(*settings, run_entry_enabled, scheduled_task_enabled),
        shown.1 == shows_admin_reminder(*settings, scheduled_task_enabled, has_admin_items),
        suppressed(*settings) ==> shown == (false, false),
{
    if settings.hide_startup_reminder && settings.hide_admin_startup_reminder {
        return (false, false);
    }
    let show_startup = !settings.hide_startup_reminder && !run_entry_enabled
        && !scheduled_task_enabled;
    let show_admin = !settings.hide_admin_startup_reminder && has_admin_items
        && !scheduled_task_enabled;
    (show_startup, show_admin)
}

} // verus!

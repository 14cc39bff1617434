//! The launcher window's reactions: to the tray icon, and to a change of
//! the single-instance setting.
use vstd::prelude::*;

use crate::text::str_equal;

verus! {

/// What the user did with the tray icon.
pub enum TrayEvent {
    /// A menu entry was clicked, with the entry's id.
    MenuItemClick(String),
    LeftClick,
    DoubleClick,
    /// Anything else (a right click, for one).
    Other,
}

/// What the launcher does in answer.
#[derive(Clone, Copy, Debug, PartialEq, Eq, Structural)]
pub enum TrayAction {
    RestoreWindow,
    Exit,
    Nothing,
}

pub open spec fn spec_tray_action(event: TrayEvent) -> TrayAction {
    match event {
        TrayEvent::MenuItemClick(id) => if id@ == "tray-show"@ {
            TrayAction::RestoreWindow
        } else if id@ == "tray-exit"@ {
            TrayAction::Exit
        } else {
            TrayAction::Nothing
        },
        TrayEvent::LeftClick => TrayAction::RestoreWindow,
        TrayEvent::DoubleClick => TrayAction::RestoreWindow,
        TrayEvent::Other => TrayAction::Nothing,
    }
}

/// The answer to a tray event: its `Show` entry and a click on the icon
/// bring the window back, its `Exit` entry ends the launcher.
pub fn tray_action(event: &TrayEvent) -> (r: TrayAction)
    ensures
        r == spec_tray_action(*event),
{
    match event {
        TrayEvent::MenuItemClick(id) => {
            if str_equal(id.as_str(), "tray-show") {
                TrayAction::RestoreWindow
            } else if str_equal(id.as_str(), "tray-exit") {
                TrayAction::Exit
            } else {
                TrayAction::Nothing
            }
        },
        TrayEvent::LeftClick => TrayAction::RestoreWindow,
        TrayEvent::DoubleClick => TrayAction::RestoreWindow,
        TrayEvent::Other => TrayAction::Nothing,
    }
}

/// What changing a boolean option does to the single-instance guard: for
/// the `prevent_multiple_instances` option, its state is remembered (to be
/// restored if saving fails), and it is switched on before the option is
/// saved, or off after.
pub struct OptionUpdatePlan {
    pub remember_guard_state: bool,
    pub enable_guard_first: bool,
    pub disable_guard_after: bool,
}

pub fn plan_option_update(id: &str, value: bool) -> (r: OptionUpdatePlan)
    ensures
        r.remember_guard_state == (id@ == "prevent_multiple_instances"@),
        r.enable_guard_first == (id@ == "prevent_multiple_instances"@ && value),
        r.disable_guard_after == (id@ == "prevent_multiple_instances"@ && !value),
{
    let is_guard_option = str_equal(id, "prevent_multiple_instances");
    OptionUpdatePlan {
        remember_guard_state: is_guard_option,
        enable_guard_first: is_guard_option && value,
        disable_guard_after: is_guard_option && !value,
    }
}

} // verus!

//! The decision rule for replacing the global hotkey: which registrations
//! to undo and to make, given the old and the new shortcut. The
//! surrounding application performs the actions in order.
use vstd::prelude::*;
use vstd::string::StringExecFns;
use crate::text::str_eq;

verus! {

/// One registration action the application must perform.
pub enum ShortcutAction {
    Unregister(String),
    Register(String),
}

/// Plans a hotkey change: an unchanged shortcut needs no action; a
/// non-empty old shortcut is unregistered first; a non-empty new shortcut
/// is then registered.
pub fn plan_shortcut_update(old_shortcut: &str, new_shortcut: &str) -> (r: Vec<ShortcutAction>)
    ensures
        old_shortcut@ == new_shortcut@ ==> r@.len() == 0,
        old_shortcut@ != new_shortcut@ && old_shortcut@.len() > 0 && new_shortcut@.len() > 0
            ==> r@.len() == 2 && (r@[0] matches ShortcutAction::Unregister(s) && s@
            == old_shortcut@) && (r@[1] matches ShortcutAction::Register(s) && s@
            == new_shortcut@),
        old_shortcut@ != new_shortcut@ && old_shortcut@.len() == 0 && new_shortcut@.len() > 0
            ==> r@.len() == 1 && (r@[0] matches ShortcutAction::Register(s) && s@
            == new_shortcut@),
        old_shortcut@ != new_shortcut@ && old_shortcut@.len() > 0 && new_shortcut@.len() == 0
            ==> r@.len() == 1 && (r@[0] matches ShortcutAction::Unregister(s) && s@
            == old_shortcut@),
{
    let mut actions: Vec<ShortcutAction> = Vec::new();
    if str_eq(old_shortcut, new_shortcut) {
        return actions;
    }
    if !old_shortcut.is_empty() {
        actions.push(ShortcutAction::Unregister(String::from_str(old_shortcut)));
    }
    if !new_shortcut.is_empty() {
        actions.push(ShortcutAction::Register(String::from_str(new_shortcut)));
    }
    actions
}

} // verus!

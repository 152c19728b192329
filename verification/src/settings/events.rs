//! What the settings window does with a polled event.

use crate::input::{Event, EventType, Key, MODIFIER_CONTROL, MODIFIER_NONE};
use vstd::prelude::*;

verus! {

/// What an item-level event handler asks the window to do afterwards.
#[derive(Clone, Copy, Debug, PartialEq, Eq, Structural)]
pub enum WindowEvent {
    NoEvent,
    ExitWindow,
}

/// What the settings window does with one event while no submenu is open.
#[derive(Clone, Copy, Debug, PartialEq, Eq, Structural)]
pub enum SettingsAction {
    SelectPrev,
    SelectNext,
    OpenSelected,
    CloseSettings,
    Nothing,
}

/// The window's default-state decision table: plain up/down (or `k`/`j`)
/// move the selection, enter opens the selected item's submenu, `q` or
/// escape closes the settings, and control-`s` closes them whatever else
/// is held; everything else, and any mouse event, does nothing.
pub open spec fn spec_default_action(e: Event) -> SettingsAction {
    match e.type_ {
        EventType::KeyEvent(k) => {
            if e.modifiers == MODIFIER_NONE {
                if k == Key::Up || k == Key::Char('k') {
                    SettingsAction::SelectPrev
                } else if k == Key::Down || k == Key::Char('j') {
                    SettingsAction::SelectNext
                } else if k == Key::Enter {
                    SettingsAction::OpenSelected
                } else if k == Key::Char('q') || k == Key::Esc {
                    SettingsAction::CloseSettings
                } else {
                    SettingsAction::Nothing
                }
            } else if e.modifiers & MODIFIER_CONTROL == MODIFIER_CONTROL {
                if k == Key::Char('s') {
                    SettingsAction::CloseSettings
                } else {
                    SettingsAction::Nothing
                }
            } else {
                SettingsAction::Nothing
            }
        },
        EventType::MouseEvent(_) => SettingsAction::Nothing,
    }
}

/// Decides what the settings window does with one event while no submenu
/// is open; the window then carries the action out.
pub fn default_action(event: &Event) -> (r: SettingsAction)
    ensures
        r == spec_default_action(*event),
{
    let k = match event.type_ {
        EventType::KeyEvent(k) => k,
        EventType::MouseEvent(_) => {
            return SettingsAction::Nothing;
        },
    };
    if event.modifiers == MODIFIER_NONE {
        if k == Key::Up || k == Key::Char('k') {
            SettingsAction::SelectPrev
        } else if k == Key::Down || k == Key::Char('j') {
            SettingsAction::SelectNext
        } else if k == Key::Enter {
            SettingsAction::OpenSelected
        } else if k == Key::Char('q') || k == Key::Esc {
            SettingsAction::CloseSettings
        } else {
            SettingsAction::Nothing
        }
    } else if event.modifiers & MODIFIER_CONTROL == MODIFIER_CONTROL {
        if k == Key::Char('s') {
            SettingsAction::CloseSettings
        } else {
            SettingsAction::Nothing
        }
    } else {
        SettingsAction::Nothing
    }
}

} // verus!

//! The settings window's own state.

use super::item::ContentKey;
use vstd::prelude::*;

verus! {

/// Whether the window shows the main list or one item's submenu.
#[derive(Clone, Copy, Debug, PartialEq, Eq, Structural)]
pub enum WindowState {
    Default,
    SubMenu(ContentKey),
}

} // verus!

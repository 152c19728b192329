//! The keys the settings items are filed under.

use vstd::prelude::*;

verus! {

/// Names one configurable setting.
#[derive(Clone, Copy, Debug, PartialEq, Eq, Hash, Structural)]
pub enum ContentKey {
    TickRate,
    ShowMillis,
    ActKeyboard,
}

} // verus!

//! The settings submenu: key bindings and the window's event decisions.

pub mod events;
pub mod item;
pub mod ui;

pub use item::ContentKey;

use crate::input::Key;
use vstd::prelude::*;

verus! {

/// Which keys drive which counter action.
#[derive(Clone, Debug)]
pub struct KeyMap {
    pub key_increase_counter: Vec<Key>,
    pub key_decrease_counter: Vec<Key>,
    pub key_toggle_keylogger: Vec<Key>,
}

impl Default for KeyMap {
    /// The stock bindings: plus and equals count up, minus counts down,
    /// star toggles the keylogger.
    fn default() -> (r: Self)
        ensures
            r.key_increase_counter@ == seq![Key::Char('+'), Key::Char('=')],
            r.key_decrease_counter@ == seq![Key::Char('-')],
            r.key_toggle_keylogger@ == seq![Key::Char('*')],
    {
        let mut inc: Vec<Key> = Vec::new();
        inc.push(Key::Char('+'));
        inc.push(Key::Char('='));
        let mut dec: Vec<Key> = Vec::new();
        dec.push(Key::Char('-'));
        let mut log: Vec<Key> = Vec::new();
        log.push(Key::Char('*'));
        proof {
            assert(inc@ =~= seq![Key::Char('+'), Key::Char('=')]);
            assert(dec@ =~= seq![Key::Char('-')]);
            assert(log@ =~= seq![Key::Char('*')]);
        }
        KeyMap { key_increase_counter: inc, key_decrease_counter: dec, key_toggle_keylogger: log }
    }
}

/// Whether a binding list holds the given key; the event consumers test
/// each polled key against the map with this.
pub fn key_in(keys: &Vec<Key>, key: Key) -> (r: bool)
    ensures
        r == keys@.contains(key),
{
    let n = keys.len();
    let mut i: usize = 0;
    while i < n
        invariant
            n == keys@.len(),
            i <= n,
            forall|j: int| 0 <= j < i ==> keys@[j] != key,
        decreases n - i,
    {
        if keys[i] == key {
            return true;
        }
        i = i + 1;
    }
    false
}

} // verus!

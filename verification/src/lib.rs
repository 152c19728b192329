//! Core of an interactive terminal counter: the input-event multiplexing
//! subsystem. Two heterogeneous input sources — the terminal's key events and
//! a raw OS input-device node — are decoded into one logical `Key` set and
//! merged through a FIFO queue behind the `EventHandler` facade, which filters
//! out events whose source is no longer the selected one.
//!
//! Everything here is sequential, verified logic: the blocking reads, the
//! producer thread and its locks live in the surrounding application, which
//! feeds decoded values in and takes plain values back out.

pub mod app;
pub mod counter;
pub mod debugging;
pub mod entry;
pub mod input;
pub mod settings;
pub mod ui;
pub mod widgets;

use vstd::prelude::*;

verus! {

/// Relies on `String::push`: appends the given character to the end of
/// the string.
pub assume_specification[ String::push ](s: &mut String, ch: char)
    ensures
        final(s)@ == old(s)@.push(ch),
;

/// Relies on `String::pop`: removes the last character and returns it,
/// or returns nothing and leaves the string as it is when it is empty.
pub assume_specification[ String::pop ](s: &mut String) -> (r: Option<char>)
    ensures
        old(s)@.len() == 0 ==> r is None && final(s)@ == old(s)@,
        old(s)@.len() > 0 ==> r == Some(old(s)@.last()) && final(s)@ == old(s)@.drop_last(),
;

} // verus!

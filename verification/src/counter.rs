//! A phase of a counter: a named slice of the total count with the time
//! spent in it, in milliseconds.

use vstd::prelude::*;

verus! {

/// One phase of a counter.
#[derive(Clone, Debug, PartialEq, Eq)]
pub struct Phase {
    name: String,
    count: i32,
    time: u64,
}

impl Phase {
    /// The phase's name.
    pub closed spec fn spec_name(&self) -> Seq<char> {
        self.name@
    }

    /// The phase's count.
    pub closed spec fn spec_count(&self) -> i32 {
        self.count
    }

    /// The time spent in the phase, in milliseconds.
    pub closed spec fn spec_time(&self) -> u64 {
        self.time
    }

    pub fn new(name: String, count: i32, time: u64) -> (r: Self)
        ensures
            r.spec_name() == name@,
            r.spec_count() == count,
            r.spec_time() == time,
    {
        Phase { name, count, time }
    }

    pub fn get_name(&self) -> (r: String)
        ensures
            r@ == self.spec_name(),
    {
        self.name.clone()
    }

    pub fn get_count(&self) -> (r: i32)
        ensures
            r == self.spec_count(),
    {
        self.count
    }

    pub fn get_time(&self) -> (r: u64)
        ensures
            r == self.spec_time(),
    {
        self.time
    }
}

} // verus!

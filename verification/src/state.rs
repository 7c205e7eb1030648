//! The shared leadership cell.
//!
//! A single boolean bridging the two loops: the election engine writes the
//! verdict of each cycle, the orchestrator reads it and dispatches hooks on
//! change. The cell starts as "not leader". The embedding program is the one
//! place that shares it between loops and guards that sharing; this module
//! fixes what the cell's operations mean.

use vstd::prelude::*;

verus! {

/// The leadership cell: holds the most recently written verdict.
pub struct State {
    leader: bool,
}

impl View for State {
    type V = bool;

    closed spec fn view(&self) -> bool {
        self.leader
    }
}

impl State {
    /// A fresh cell: a node always starts as standby.
    pub fn new() -> (s: State)
        ensures
            !s@,
    {
        State { leader: false }
    }

    /// Read the most recently written verdict.
    pub fn is_leader(&self) -> (b: bool)
        ensures
            b == self@,
    {
        self.leader
    }

    /// Write this cycle's verdict; report whether it differed from the
    /// value the cell held before.
    pub fn set_leader(&mut self, leader: bool) -> (changed: bool)
        ensures
            final(self)@ == leader,
            changed == (leader != old(self)@),
    {
        let changed = leader != self.leader;
        self.leader = leader;
        changed
    }
}

} // verus!

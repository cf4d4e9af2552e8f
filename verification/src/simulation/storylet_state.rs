use vstd::prelude::*;

use crate::ledger::{tick_down_map_i32, Ledger};

verus! {

/// Which storylets have fired, their cooldowns in turns, and the flags they set.
pub struct StoryletState {
    pub fired: Vec<String>,
    pub cooldowns: Ledger<i32>,
    pub flags: Ledger<bool>,
}

impl StoryletState {
    pub fn new() -> (s: StoryletState)
        ensures
            s.fired@.len() == 0,
            s.cooldowns.map() == Map::<Seq<char>, i32>::empty(),
            s.flags.map() == Map::<Seq<char>, bool>::empty(),
    {
        StoryletState { fired: Vec::new(), cooldowns: Ledger::new(), flags: Ledger::new() }
    }

    /// A turn passes: every cooldown counts down, and those that run out are cleared.
    pub fn tick(&mut self)
        ensures
            final(self).cooldowns.map() == tick_down_map_i32(old(self).cooldowns.map()),
            final(self).fired == old(self).fired,
            final(self).flags == old(self).flags,
    {
        self.cooldowns.tick_down();
    }
}

/// A cooldown that is cleared stays cleared, and one that is kept has a turn fewer.
pub proof fn law_cooldown_counts_down(m: Map<Seq<char>, i32>, id: Seq<char>)
    ensures
        !m.contains_key(id) ==> !tick_down_map_i32(m).contains_key(id),
        tick_down_map_i32(m).contains_key(id) ==> tick_down_map_i32(m)[id] == m[id] - 1 && tick_down_map_i32(m)[id] > 0,
{
}

} // verus!

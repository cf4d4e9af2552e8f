use vstd::prelude::*;

use crate::content::repository::ExpressionId;
use crate::simulation::city::LocationId;
use crate::text::{eq_ignore_ascii_case, eq_ignore_case_chars};

verus! {

#[derive(Debug, Clone, Copy, PartialEq, Eq, Structural)]
pub enum CombatScale {
    Street,
    District,
    City,
    National,
    Cosmic,
}

#[derive(Debug, Clone, Copy, PartialEq, Eq, Structural)]
pub enum CombatIntent {
    Attack,
    Escape,
    Hold,
    Capture,
}

#[derive(Debug, Clone, Copy, PartialEq, Eq, Structural)]
pub enum CombatSide {
    Player,
    Opponent,
    Ally,
}

#[derive(Debug, Clone, Copy, PartialEq, Eq, Structural)]
pub enum CombatEnd {
    PlayerEscaped,
    PlayerDefeated,
    OpponentsDefeated,
    Resolved,
}

pub struct Combatant {
    pub id: u32,
    pub name: String,
    pub side: CombatSide,
    pub stress: i32,
    pub intent: CombatIntent,
    pub is_player: bool,
}

pub struct CombatState {
    pub active: bool,
    pub source: String,
    pub location_id: LocationId,
    pub scale: CombatScale,
    pub tick: u64,
    pub log: Vec<String>,
    pub combatants: Vec<Combatant>,
    pub pending_player_expression: Option<ExpressionId>,
    pub escape_progress: u8,
}

impl Default for CombatState {
    fn default() -> (s: CombatState)
        ensures
            !s.active,
            s.source@.len() == 0,
            s.location_id == LocationId(0),
            s.scale == CombatScale::Street,
            s.tick == 0,
            s.log@.len() == 0,
            s.combatants@.len() == 0,
            s.pending_player_expression is None,
            s.escape_progress == 0,
    {
        CombatState {
            active: false,
            source: String::new(),
            location_id: LocationId(0),
            scale: CombatScale::Street,
            tick: 0,
            log: Vec::new(),
            combatants: Vec::new(),
            pending_player_expression: None,
            escape_progress: 0,
        }
    }
}

/// Index of the first combatant at or after `i` who is the player.
pub open spec fn player_position_from(cs: Seq<Combatant>, i: int) -> Option<int>
    decreases cs.len() - i,
{
    if i < 0 || i >= cs.len() {
        None
    } else if cs[i].is_player {
        Some(i)
    } else {
        player_position_from(cs, i + 1)
    }
}

/// Whether a combatant is an opponent still in the fight.
pub open spec fn fighting_opponent(c: Combatant) -> bool {
    c.side == CombatSide::Opponent && c.stress < 100
}

impl CombatState {
    fn player_index(&self) -> (r: Option<usize>)
        ensures
            match r {
                Some(k) => player_position_from(self.combatants@, 0) == Some(k as int) && k < self.combatants@.len(),
                None => player_position_from(self.combatants@, 0) is None,
            },
    {
        let mut i: usize = 0;
        while i < self.combatants.len()
            invariant
                i <= self.combatants@.len(),
                player_position_from(self.combatants@, i as int) == player_position_from(self.combatants@, 0),
            decreases self.combatants@.len() - i,
        {
            if self.combatants[i].is_player {
                return Some(i);
            }
            i = i + 1;
        }
        None
    }

    /// The first combatant who is the player.
    pub fn player(&self) -> (r: Option<&Combatant>)
        ensures
            match player_position_from(self.combatants@, 0) {
                Some(k) => r matches Some(c) && *c == self.combatants@[k],
                None => r is None,
            },
    {
        match self.player_index() {
            Some(k) => Some(&self.combatants[k]),
            None => None,
        }
    }

    /// The first combatant who is the player, to change.
    pub fn player_mut(&mut self) -> (r: Option<&mut Combatant>)
        ensures
            match player_position_from(old(self).combatants@, 0) {
                Some(k) => r matches Some(c) && *c == old(self).combatants@[k]
                    && final(self).combatants@ == old(self).combatants@.update(k, *final(c)),
                None => r is None && *final(self) == *old(self),
            },
    {
        match self.player_index() {
            Some(k) => Some(&mut self.combatants[k]),
            None => None,
        }
    }

    /// The opponents still in the fight.
    pub fn active_opponent_count(&self) -> (n: usize)
        ensures
            n == self.combatants@.filter(|c: Combatant| fighting_opponent(c)).len(),
    {
        let mut n: usize = 0;
        let mut i: usize = 0;
        proof {
            reveal(Seq::filter);
        }
        assert(self.combatants@.take(0).filter(|c: Combatant| fighting_opponent(c)) =~= Seq::<Combatant>::empty());
        while i < self.combatants.len()
            invariant
                i <= self.combatants@.len(),
                n == self.combatants@.take(i as int).filter(|c: Combatant| fighting_opponent(c)).len(),
                n <= i,
            decreases self.combatants@.len() - i,
        {
            proof {
                assert(self.combatants@.take(i as int).push(self.combatants@[i as int]) =~= self.combatants@.take(i + 1));
                self.combatants@.take(i as int).lemma_filter_push(self.combatants@[i as int], |c: Combatant| fighting_opponent(c));
            }
            let c = &self.combatants[i];
            if c.side == CombatSide::Opponent && c.stress < 100 {
                n = n + 1;
            }
            i = i + 1;
        }
        assert(self.combatants@.take(self.combatants@.len() as int) =~= self.combatants@);
        n
    }
}

/// The scale a word names, in any (ASCII) case.
pub open spec fn combat_scale_named(v: Seq<char>) -> Option<CombatScale> {
    if eq_ignore_case_chars(v, "street"@) {
        Some(CombatScale::Street)
    } else if eq_ignore_case_chars(v, "district"@) {
        Some(CombatScale::District)
    } else if eq_ignore_case_chars(v, "city"@) {
        Some(CombatScale::City)
    } else if eq_ignore_case_chars(v, "national"@) {
        Some(CombatScale::National)
    } else if eq_ignore_case_chars(v, "cosmic"@) {
        Some(CombatScale::Cosmic)
    } else {
        None
    }
}

/// The intent a word names, in any (ASCII) case.
pub open spec fn combat_intent_named(v: Seq<char>) -> Option<CombatIntent> {
    if eq_ignore_case_chars(v, "attack"@) {
        Some(CombatIntent::Attack)
    } else if eq_ignore_case_chars(v, "escape"@) {
        Some(CombatIntent::Escape)
    } else if eq_ignore_case_chars(v, "hold"@) {
        Some(CombatIntent::Hold)
    } else if eq_ignore_case_chars(v, "capture"@) {
        Some(CombatIntent::Capture)
    } else {
        None
    }
}

pub fn parse_combat_scale(raw: &str) -> (r: Option<CombatScale>)
    ensures
        r == combat_scale_named(raw@),
{
    if eq_ignore_ascii_case(raw, "street") {
        Some(CombatScale::Street)
    } else if eq_ignore_ascii_case(raw, "district") {
        Some(CombatScale::District)
    } else if eq_ignore_ascii_case(raw, "city") {
        Some(CombatScale::City)
    } else if eq_ignore_ascii_case(raw, "national") {
        Some(CombatScale::National)
    } else if eq_ignore_ascii_case(raw, "cosmic") {
        Some(CombatScale::Cosmic)
    } else {
        None
    }
}

pub fn parse_combat_intent(raw: &str) -> (r: Option<CombatIntent>)
    ensures
        r == combat_intent_named(raw@),
{
    if eq_ignore_ascii_case(raw, "attack") {
        Some(CombatIntent::Attack)
    } else if eq_ignore_ascii_case(raw, "escape") {
        Some(CombatIntent::Escape)
    } else if eq_ignore_ascii_case(raw, "hold") {
        Some(CombatIntent::Hold)
    } else if eq_ignore_ascii_case(raw, "capture") {
        Some(CombatIntent::Capture)
    } else {
        None
    }
}

/// How a fight's end is told.
pub open spec fn combat_end_text(end: CombatEnd) -> Seq<char> {
    match end {
        CombatEnd::PlayerEscaped => "player escaped"@,
        CombatEnd::PlayerDefeated => "player defeated"@,
        CombatEnd::OpponentsDefeated => "opponents defeated"@,
        CombatEnd::Resolved => "resolved"@,
    }
}

pub fn format_combat_end(end: CombatEnd) -> (s: &'static str)
    ensures
        s@ == combat_end_text(end),
{
    match end {
        CombatEnd::PlayerEscaped => "player escaped",
        CombatEnd::PlayerDefeated => "player defeated",
        CombatEnd::OpponentsDefeated => "opponents defeated",
        CombatEnd::Resolved => "resolved",
    }
}

} // verus!

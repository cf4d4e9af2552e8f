use vstd::prelude::*;

use crate::components::persona::{
    civilian_persona, hero_persona_stack, masked_persona, villain_persona_stack, vigilante_persona_stack, Alignment,
    PersonaStack, RiskModifiers,
};
use crate::ids::IdAllocator;
use crate::text::{concat_str, decimal, decimal_text};
use crate::simulation::storylet_state::StoryletState;
use crate::simulation::time::GameTime;

verus! {

broadcast use vstd::string::group_string_axioms;

/// A snapshot of the world: time, seed, the player and everyone else.
pub struct SaveState {
    pub version: u32,
    pub seed: u64,
    pub time: GameTime,
    pub player: SavedPlayer,
    pub npcs: Vec<SavedActor>,
    pub storylet_state: StoryletState,
}

pub struct SavedHealth {
    pub current: i32,
    pub max: i32,
}

pub struct SavedCivilian {
    pub job_title: String,
    pub salary: u32,
    pub suspicion: u8,
}

pub struct SavedSuperIdentity {
    pub hero_name: String,
    pub is_masked: bool,
    pub reputation: i32,
}

pub struct SavedPlayer {
    pub uid: u32,
    pub name: String,
    pub suspicion: u8,
    pub position: (i32, i32),
    pub health: SavedHealth,
    pub faction: Option<String>,
    pub civilian: Option<SavedCivilian>,
    pub super_identity: Option<SavedSuperIdentity>,
    pub persona_stack: Option<PersonaStack>,
    pub alignment: Option<Alignment>,
}

pub struct SavedActor {
    pub uid: u32,
    pub name: Option<String>,
    pub position: Option<(i32, i32)>,
    pub civilian: Option<SavedCivilian>,
    pub super_identity: Option<SavedSuperIdentity>,
    pub health: Option<SavedHealth>,
    pub faction: Option<String>,
    pub persona_stack: Option<PersonaStack>,
    pub alignment: Option<Alignment>,
}

/// The version a save is written with, and read as when it names none.
pub fn default_save_version() -> (v: u32)
    ensures
        v == 1,
{
    1
}

/// The name a player is saved under: its own, else `Player` and its uid.
pub open spec fn saved_name(uid: u32, name: Option<String>) -> Seq<char> {
    match name {
        Some(n) => n@,
        None => "Player "@ + decimal(uid as int),
    }
}

/// The saved record of a player from what the world holds of it: a missing uid is 0, a
/// missing name is `Player` and the uid, the suspicion is the civilian identity's (0
/// without one), a missing position is the origin and missing health is none at all; the
/// rest is kept as it is.
pub fn saved_player(
    uid: Option<u32>,
    name: Option<String>,
    position: Option<(i32, i32)>,
    health: Option<SavedHealth>,
    civilian: Option<SavedCivilian>,
    super_identity: Option<SavedSuperIdentity>,
    faction: Option<String>,
    persona_stack: Option<PersonaStack>,
    alignment: Option<Alignment>,
) -> (p: SavedPlayer)
    ensures
        p.uid == (match uid {
            Some(u) => u,
            None => 0u32,
        }),
        p.name@ == saved_name(p.uid, name),
        p.suspicion == (match civilian {
            Some(c) => c.suspicion,
            None => 0u8,
        }),
        p.position == (match position {
            Some(q) => q,
            None => (0i32, 0i32),
        }),
        p.health == (match health {
            Some(h) => h,
            None => SavedHealth { current: 0, max: 0 },
        }),
        p.civilian == civilian,
        p.super_identity == super_identity,
        p.faction == faction,
        p.persona_stack == persona_stack,
        p.alignment == alignment,
{
    let uid: u32 = match uid {
        Some(u) => u,
        None => 0,
    };
    let name = match name {
        Some(n) => n,
        None => {
            proof {
                reveal_strlit("Player ");
            }
            concat_str("Player ", decimal_text(uid as u64).as_str())
        },
    };
    let suspicion: u8 = match &civilian {
        Some(c) => c.suspicion,
        None => 0,
    };
    let position = match position {
        Some(q) => q,
        None => (0, 0),
    };
    let health = match health {
        Some(h) => h,
        None => SavedHealth { current: 0, max: 0 },
    };
    SavedPlayer {
        uid,
        name,
        suspicion,
        position,
        health,
        faction,
        civilian,
        super_identity,
        persona_stack,
        alignment,
    }
}

/// The uids a save holds: the other characters', in order, then the player's.
pub open spec fn saved_uids(state: SaveState) -> Seq<u32> {
    state.npcs@.map_values(|a: SavedActor| a.uid).push(state.player.uid)
}

/// The largest of the uids a save holds.
pub open spec fn max_saved_uid(state: SaveState) -> u32 {
    let uids = saved_uids(state);
    choose|m: u32| uids.contains(m) && forall|i: int| 0 <= i < uids.len() ==> uids[i] <= m
}

/// The largest uid in the save, the player's among them.
pub fn largest_saved_uid(state: &SaveState) -> (m: u32)
    ensures
        saved_uids(*state).contains(m),
        forall|i: int| 0 <= i < saved_uids(*state).len() ==> saved_uids(*state)[i] <= m,
        m == max_saved_uid(*state),
{
    let ghost uids = saved_uids(*state);
    let mut m: u32 = state.player.uid;
    let ghost mut at: int = state.npcs@.len() as int;
    let mut i: usize = 0;
    while i < state.npcs.len()
        invariant
            uids == saved_uids(*state),
            i <= state.npcs@.len(),
            0 <= at < uids.len(),
            uids[at] == m,
            m >= state.player.uid,
            forall|j: int| 0 <= j < i ==> #[trigger] uids[j] <= m,
        decreases state.npcs@.len() - i,
    {
        assert(uids[i as int] == state.npcs@[i as int].uid);
        if state.npcs[i].uid > m {
            m = state.npcs[i].uid;
            proof {
                at = i as int;
            }
        }
        i = i + 1;
    }
    assert(uids[uids.len() - 1] == state.player.uid);
    assert(uids.contains(m));
    assert(forall|i: int| 0 <= i < uids.len() ==> uids[i] <= m);
    m
}

/// The alignment a default persona stack is chosen for: the saved one, a hero where none
/// is saved; a neutral character gets the hero's stack, as elsewhere in the rules.
pub open spec fn stack_alignment(a: Option<Alignment>) -> Alignment {
    match a {
        Some(Alignment::Vigilante) => Alignment::Vigilante,
        Some(Alignment::Villain) => Alignment::Villain,
        _ => Alignment::Hero,
    }
}

/// A default persona stack for the alignment: an everyday persona, presented, and a
/// masked one with the alignment's label and risk factors.
pub open spec fn is_default_stack(s: PersonaStack, a: Alignment) -> bool {
    let (label, civ, masked) = match a {
        Alignment::Vigilante => (
            "Vigilante"@,
            RiskModifiers { public_suspicion: 100, civilian_suspicion: 110, wanted_level: 90, exposure_risk: 100 },
            RiskModifiers { public_suspicion: 120, civilian_suspicion: 90, wanted_level: 130, exposure_risk: 100 },
        ),
        Alignment::Villain => (
            "Villain"@,
            RiskModifiers { public_suspicion: 80, civilian_suspicion: 110, wanted_level: 70, exposure_risk: 100 },
            RiskModifiers { public_suspicion: 90, civilian_suspicion: 90, wanted_level: 130, exposure_risk: 80 },
        ),
        _ => (
            "Masked"@,
            RiskModifiers { public_suspicion: 80, civilian_suspicion: 110, wanted_level: 70, exposure_risk: 100 },
            RiskModifiers { public_suspicion: 110, civilian_suspicion: 90, wanted_level: 100, exposure_risk: 100 },
        ),
    };
    &&& s.personas@.len() == 2
    &&& civilian_persona(s.personas@[0], "Civilian"@, civ)
    &&& masked_persona(s.personas@[1], label, masked)
    &&& s.active_persona_id@ == "civilian"@
    &&& s.next_switch_tick == 0
}

/// The persona stack a character restored without one is given, by its alignment.
pub fn default_persona_stack(alignment: Option<Alignment>) -> (s: PersonaStack)
    ensures
        is_default_stack(s, stack_alignment(alignment)),
{
    match alignment {
        Some(Alignment::Vigilante) => vigilante_persona_stack(),
        Some(Alignment::Villain) => villain_persona_stack(),
        _ => hero_persona_stack(),
    }
}

/// What restoring a save decides beyond copying it: the persona stack the player is
/// given when the save holds none, and the least id the allocator may hand out next so
/// that no saved uid is handed out again.
pub struct RestorePlan {
    pub default_persona: Option<PersonaStack>,
    pub next_id_floor: u32,
}

/// Plans the restoring of a save: a default persona stack for the player's alignment
/// when the save holds none, and the id floor one past the largest saved uid.
pub fn restore_plan(state: &SaveState) -> (p: RestorePlan)
    requires
        max_saved_uid(*state) < u32::MAX,
    ensures
        p.default_persona is Some <==> state.player.persona_stack is None,
        p.default_persona matches Some(s) ==> is_default_stack(s, stack_alignment(state.player.alignment)),
        p.next_id_floor == max_saved_uid(*state) + 1,
{
    let default_persona = if state.player.persona_stack.is_none() {
        Some(default_persona_stack(state.player.alignment))
    } else {
        None
    };
    let m = largest_saved_uid(state);
    RestorePlan { default_persona, next_id_floor: m + 1 }
}

/// Brings the allocator past every uid in the save, so that restored characters keep
/// their ids and new ones get fresh ids.
pub fn restore_allocator(alloc: &mut IdAllocator, state: &SaveState)
    requires
        max_saved_uid(*state) < u32::MAX,
    ensures
        final(alloc).next_id() == if old(alloc).next_id() <= max_saved_uid(*state) {
            (max_saved_uid(*state) + 1) as u32
        } else {
            old(alloc).next_id()
        },
        forall|i: int| 0 <= i < saved_uids(*state).len() ==> saved_uids(*state)[i] < final(alloc).next_id(),
{
    let m = largest_saved_uid(state);
    alloc.bump_to_at_least(m + 1);
}

} // verus!

use superhero_universe::components::persona::{PersonaSuspicion, SuspicionDelta};
use superhero_universe::data::omni_powers::OmniPowerDefinition;
use superhero_universe::rules::mastery::{stage_from_uses, MasteryStage};
use superhero_universe::simulation::case::CaseRegistry;
use superhero_universe::simulation::cast::{
    mark_character_status, tick_cast_aging, ImportanceTier, PersistentCharacter,
};
use superhero_universe::simulation::city::LocationId;
use superhero_universe::simulation::cosmic::OmniPowerRegistry;
use superhero_universe::simulation::economy::{EconomyState, Money, WealthTier};
use superhero_universe::simulation::evidence::WorldEvidence;
use superhero_universe::rules::signature::{SignatureInstance, SignatureSpec, SignatureType};
use superhero_universe::simulation::storylet_state::StoryletState;
use superhero_universe::simulation::time::GameTime;

#[test]
fn suspicion_stays_between_zero_and_a_hundred() {
    let mut s = PersonaSuspicion { public_suspicion: 90, civilian_suspicion: 10, wanted_level: 50, exposure_risk: 0 };
    s.apply_delta(&SuspicionDelta { public_suspicion: 40, civilian_suspicion: -30, wanted_level: 5, exposure_risk: -1 });
    assert_eq!(s, PersonaSuspicion { public_suspicion: 100, civilian_suspicion: 0, wanted_level: 55, exposure_risk: 0 });
}

#[test]
fn mastery_never_drops_with_more_uses() {
    assert_eq!(stage_from_uses(4), MasteryStage::Raw);
    assert_eq!(stage_from_uses(5), MasteryStage::Controlled);
    assert_eq!(stage_from_uses(12), MasteryStage::Precise);
    assert_eq!(stage_from_uses(24), MasteryStage::Silent);
    assert_eq!(stage_from_uses(1000), MasteryStage::Iconic);
}

#[test]
fn new_cases_get_fresh_ids() {
    let mut cases = CaseRegistry::new();
    let a = cases.create_case("police".to_string(), LocationId(1), Vec::new(), false);
    let b = cases.create_case("police".to_string(), LocationId(2), Vec::new(), true);
    assert_eq!((a, b), (1, 2));
    assert!(cases.has_active_case("police", LocationId(2)));
    assert!(cases.any_heat_lock(LocationId(2)));
    assert!(!cases.any_heat_lock(LocationId(1)));
}

#[test]
fn cooldowns_count_down_and_clear() {
    let mut state = StoryletState::new();
    state.cooldowns.set("a".to_string(), 2);
    state.cooldowns.set("b".to_string(), 1);
    state.tick();
    assert_eq!(state.cooldowns.get("a"), Some(&1));
    assert_eq!(state.cooldowns.get("b"), None);
    state.tick();
    assert_eq!(state.cooldowns.get("a"), None);
}

#[test]
fn more_money_never_lowers_the_tier() {
    let mut e = EconomyState::default();
    assert_eq!(e.wealth_tier(), WealthTier::Stable);
    e.assets = Money::from_dollars(2_000_000);
    assert_eq!(e.wealth_tier(), WealthTier::Wealthy);
    e.liabilities = Money::from_dollars(10_000_000);
    assert_eq!(e.wealth_tier(), WealthTier::Struggling);
}

#[test]
fn the_clock_moves_one_hour() {
    let mut t = GameTime { tick: 10, day: 6, hour: 23, week: 1, month: 1, is_day: false };
    t.advance();
    assert_eq!(t, GameTime { tick: 11, day: 7, hour: 0, week: 2, month: 1, is_day: false });
    t.advance();
    assert_eq!(t.hour, 1);
    assert_eq!(t.day, 7);
}

#[test]
fn decay_keeps_only_live_traces() {
    let mut w = WorldEvidence::new();
    let spec = SignatureSpec { signature_type: SignatureType::EmSpike, strength: 2, persistence_turns: 1 };
    w.emit(LocationId(3), &[SignatureInstance { signature: spec, remaining_turns: 1 }, SignatureInstance { signature: spec, remaining_turns: 3 }]);
    assert_eq!(w.signatures.len(), 2);
    w.tick_decay();
    assert_eq!(w.signatures.len(), 1);
    assert_eq!(w.signatures[0].signature.remaining_turns, 2);
    assert!(w.signatures[0].is_new);
}

fn character(id: &str, birth_year: Option<i32>) -> PersistentCharacter {
    PersistentCharacter {
        character_id: id.to_string(),
        scope_id: "scope".to_string(),
        first_name: "Ada".to_string(),
        last_name: "Stone".to_string(),
        birth_year,
        ancestry: None,
        nationality: None,
        importance_tier: ImportanceTier::A,
        created_at_tick: 0,
        roles: Vec::new(),
        personas: Vec::new(),
        powers: Vec::new(),
        relationships: Vec::new(),
    }
}

#[test]
fn the_dead_stay_dead() {
    let mut cast = vec![character("c1", Some(1900))];
    mark_character_status(&mut cast[0], "DECEASED", 5);
    let report = tick_cast_aging(&mut cast, 2000, 9);
    assert!(report.deceased.is_empty());
    assert!(report.retired.is_empty());
    assert!(report.changed_ids.is_empty());
    assert_eq!(cast[0].roles.len(), 1);
    assert_eq!(cast[0].birth_year, Some(1900));
}

#[test]
fn a_birth_year_is_assigned_once() {
    let mut cast = vec![character("c2", None)];
    let report = tick_cast_aging(&mut cast, 2000, 9);
    assert_eq!(report.assigned_birth_year, vec!["c2".to_string()]);
    let year = cast[0].birth_year;
    assert!(year.is_some());
    let report = tick_cast_aging(&mut cast, 2000, 10);
    assert!(report.assigned_birth_year.is_empty());
    assert_eq!(cast[0].birth_year, year);
}

#[test]
fn a_claimed_power_is_not_stolen() {
    let mut r = OmniPowerRegistry::new();
    let omni = OmniPowerDefinition {
        id: "time_lord".to_string(),
        label: "Time Lord".to_string(),
        power_name: "Chronokinesis".to_string(),
        tags: Vec::new(),
    };
    assert!(r.claim_power(&omni, "hero", "u1"));
    assert!(!r.claim_power(&omni, "villain", "u2"));
    assert_eq!(r.holder_for_universe("u1"), Some("hero"));
    assert!(r.is_power_claimed("time_lord"));
    r.mark_holder_dead("hero");
    assert!(!r.is_power_claimed("time_lord"));
    assert!(r.claim_power(&omni, "villain", "u2"));
}

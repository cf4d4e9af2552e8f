use superhero_universe::components::persona::Alignment;
use superhero_universe::content::repository::{OriginAcquisitionProfile, PowerId, PowerRepository};
use superhero_universe::data::omni_powers::OmniPowerCatalog;
use superhero_universe::ids::IdAllocator;
use superhero_universe::content::meta::check_content_meta;
use superhero_universe::rules::expression::constraints_from_json;
use superhero_universe::serialization::{
    default_persona_stack, saved_player, default_save_version, largest_saved_uid, restore_allocator, restore_plan, SaveState,
    SavedActor, SavedCivilian, SavedHealth, SavedPlayer,
};
use superhero_universe::simulation::civilian::effects::apply_civilian_effects;
use superhero_universe::simulation::civilian::daily::tick_civilian_life;
use superhero_universe::simulation::civilian::{CivilianState, JobStatus};
use superhero_universe::simulation::cosmic::{OmniPowerRegistry, OmniRollConfig};
use superhero_universe::simulation::economy::Money;
use superhero_universe::simulation::power_assignment::{
    assign_mutant_powers, lowered_tag_list, mutant_affinity_with, plan_mutant_draws, tier_from_tag_lists,
    MutantInheritanceProfile, PowerAssignmentConfig, PowerAssignmentError,
};
use superhero_universe::simulation::storylet_rules::tick_punctuation;
use superhero_universe::simulation::storylet_state::StoryletState;
use superhero_universe::simulation::time::GameTime;

struct ListRepo {
    answer: Vec<PowerId>,
    down: bool,
}

impl PowerRepository for ListRepo {
    fn power_ids_by_tags(&self, _any: &[String], _all: &[String], _none: &[String]) -> Result<Vec<PowerId>, String> {
        if self.down {
            Err("offline".to_string())
        } else {
            Ok(self.answer.clone())
        }
    }

    fn power_tags(&self, _power_id: PowerId) -> Result<Vec<String>, String> {
        Ok(Vec::new())
    }

    fn acquisition_profiles_for_origin(&self, _c: &str, _s: &str) -> Result<Vec<OriginAcquisitionProfile>, String> {
        Ok(Vec::new())
    }
}

fn strings(items: &[&str]) -> Vec<String> {
    items.iter().map(|s| s.to_string()).collect()
}

fn config(min: u32, max: u32, denominator: u64) -> PowerAssignmentConfig {
    PowerAssignmentConfig { expression_min: min, expression_max: max, omni_roll: OmniRollConfig { denominator } }
}

fn empty_catalog() -> OmniPowerCatalog {
    OmniPowerCatalog { schema_version: 1, powers: Vec::new() }
}

#[test]
fn a_mutant_without_lineage_draws_its_baseline_then_one_more() {
    let repo = ListRepo { answer: vec![PowerId(7), PowerId(8), PowerId(9)], down: false };
    let mut registry = OmniPowerRegistry::new();
    let r = assign_mutant_powers(&repo, &empty_catalog(), &Vec::new(), &mut registry, "m1", "u1", 0, config(1, 2, 1000), None);
    let res = r.ok().expect("assigned");
    assert_eq!(res.baseline, Some(PowerId(9)));
    assert_eq!(res.expressions, vec![PowerId(8)]);
    assert!(res.omni.is_empty());
}

#[test]
fn an_omega_lineage_raises_the_count_and_inherits_first() {
    let repo = ListRepo { answer: vec![PowerId(7), PowerId(8), PowerId(9), PowerId(10), PowerId(11)], down: false };
    let mut registry = OmniPowerRegistry::new();
    let heritage = MutantInheritanceProfile { parent_powers: vec![PowerId(1), PowerId(2), PowerId(3)], omega_parent: true };
    let r = assign_mutant_powers(&repo, &empty_catalog(), &Vec::new(), &mut registry, "m2", "u1", 5, config(1, 2, 1000), Some(heritage));
    let res = r.ok().expect("assigned");
    assert_eq!(res.baseline, Some(PowerId(2)));
    assert_eq!(res.expressions, vec![PowerId(2), PowerId(7), PowerId(9)]);
    assert_eq!(res.notes[0], "Omega inheritance increases power count.");
}

#[test]
fn a_mutant_that_inherits_enough_draws_no_more() {
    let repo = ListRepo { answer: vec![PowerId(7), PowerId(8), PowerId(9), PowerId(10), PowerId(11)], down: false };
    let mut registry = OmniPowerRegistry::new();
    let heritage = MutantInheritanceProfile { parent_powers: vec![PowerId(1), PowerId(2), PowerId(3)], omega_parent: false };
    let r = assign_mutant_powers(&repo, &empty_catalog(), &Vec::new(), &mut registry, "m3", "u1", 1, config(1, 2, 1000), Some(heritage));
    let res = r.ok().expect("assigned");
    assert_eq!(res.baseline, Some(PowerId(2)));
    assert_eq!(res.expressions, vec![PowerId(2), PowerId(3)]);
}

#[test]
fn a_mutant_with_a_bad_config_or_no_omni_odds_is_refused() {
    let repo = ListRepo { answer: vec![PowerId(7)], down: false };
    let mut registry = OmniPowerRegistry::new();
    match assign_mutant_powers(&repo, &empty_catalog(), &Vec::new(), &mut registry, "m4", "u1", 0, config(3, 2, 1000), None) {
        Err(PowerAssignmentError::InvalidConfig(m)) => assert_eq!(m, "expression_min cannot exceed expression_max"),
        _ => panic!("expected a refused config"),
    }
    match assign_mutant_powers(&repo, &empty_catalog(), &Vec::new(), &mut registry, "m4", "u1", 0, config(1, 2, 0), None) {
        Err(PowerAssignmentError::Repository(m)) => assert_eq!(m, "omni roll denominator must be > 0"),
        _ => panic!("expected a repository error"),
    }
    let down = ListRepo { answer: Vec::new(), down: true };
    match assign_mutant_powers(&down, &empty_catalog(), &Vec::new(), &mut registry, "m4", "u1", 0, config(1, 2, 1000), None) {
        Err(PowerAssignmentError::Repository(m)) => assert_eq!(m, "offline"),
        _ => panic!("expected a repository error"),
    }
}

#[test]
fn a_mutant_plan_draws_its_baseline_and_rolls_its_count() {
    let mut rng: u64 = 0;
    let (baseline, selected, wanted) = plan_mutant_draws(&Vec::new(), &mut rng, &config(1, 2, 1000), false, &vec![PowerId(10), PowerId(20), PowerId(30)]);
    assert_eq!(baseline, Some(PowerId(20)));
    assert_eq!(selected, vec![PowerId(20)]);
    assert_eq!(wanted, 1);
    assert_eq!(rng, 6364136223846793006);
    let mut rng2: u64 = 0;
    let (baseline, selected, wanted) = plan_mutant_draws(&vec![PowerId(7)], &mut rng2, &config(1, 3, 1000), true, &Vec::new());
    assert_eq!(baseline, Some(PowerId(7)));
    assert_eq!(selected, vec![PowerId(7)]);
    assert_eq!(wanted, 3);
}

#[test]
fn mutant_tags_take_in_the_parents_tags() {
    let parents = vec![strings(&["Fire", "MUTANT"]), Vec::new(), strings(&["fire", "Ice"])];
    assert_eq!(lowered_tag_list(&parents), strings(&["fire", "mutant", "fire", "ice"]));
    assert_eq!(mutant_affinity_with(&parents), strings(&["mutation", "mutant", "genetic", "dna", "fire", "ice"]));
}

#[test]
fn a_mutant_tier_counts_each_power_once() {
    let lists = vec![Vec::new(), Vec::new()];
    assert_eq!(tier_from_tag_lists(Some(PowerId(1)), &[PowerId(1), PowerId(2)], &[], false, &lists), 1);
}

fn save(npc_uids: &[u32], player_uid: u32, alignment: Option<Alignment>) -> SaveState {
    SaveState {
        version: default_save_version(),
        seed: 3,
        time: GameTime { tick: 0, day: 0, hour: 0, week: 0, month: 0, is_day: true },
        player: SavedPlayer {
            uid: player_uid,
            name: "Ada".to_string(),
            suspicion: 0,
            position: (1, 2),
            health: SavedHealth { current: 10, max: 10 },
            faction: None,
            civilian: None,
            super_identity: None,
            persona_stack: None,
            alignment,
        },
        npcs: npc_uids
            .iter()
            .map(|u| SavedActor {
                uid: *u,
                name: None,
                position: None,
                civilian: None,
                super_identity: None,
                health: None,
                faction: None,
                persona_stack: None,
                alignment: None,
            })
            .collect(),
        storylet_state: StoryletState::new(),
    }
}

#[test]
fn restoring_a_save_keeps_ids_fresh_and_gives_a_default_stack() {
    let s = save(&[3, 9, 4], 5, Some(Alignment::Vigilante));
    assert_eq!(default_save_version(), 1);
    assert_eq!(largest_saved_uid(&s), 9);
    let plan = restore_plan(&s);
    assert_eq!(plan.next_id_floor, 10);
    let stack = plan.default_persona.expect("a default stack");
    assert_eq!(stack.personas[1].label, "Vigilante");
    assert_eq!(stack.active_persona_id, "civilian");
    let mut alloc = IdAllocator::default();
    restore_allocator(&mut alloc, &s);
    assert_eq!(alloc.allocate(), 10);
    let only_player = save(&[], 12, None);
    assert_eq!(restore_plan(&only_player).next_id_floor, 13);
    assert_eq!(default_persona_stack(None).personas[1].label, "Masked");
    assert_eq!(default_persona_stack(Some(Alignment::Neutral)).personas[1].label, "Masked");
    assert_eq!(default_persona_stack(Some(Alignment::Villain)).personas[1].label, "Villain");
}

#[test]
fn money_saturates_and_adds_back() {
    let a = Money::from_cents(1_250);
    let b = Money::from_cents(-300);
    assert_eq!(a.add(b).cents(), b.add(a).cents());
    assert_eq!(a.add(Money::zero()).cents(), 1_250);
    assert_eq!(a.add(b).sub(b).cents(), 1_250);
    assert_eq!(Money::from_cents(i64::MAX).add(Money::from_cents(1)).cents(), i64::MAX);
    assert_eq!(Money::from_cents(i64::MIN).sub(Money::from_cents(1)).cents(), i64::MIN);
}

#[test]
fn effects_keep_rent_and_cooldown_non_negative() {
    let mut s = CivilianState::default();
    apply_civilian_effects(&mut s, &strings(&["housing_rent:-100000", "relocation_cooldown:-5"]));
    assert_eq!(s.housing.rent, 0);
    assert_eq!(s.housing.relocation_cooldown, 0);
    assert_eq!(s.finances.rent, 0);
    apply_civilian_effects(&mut s, &strings(&["job:unemployed"]));
    assert_eq!(s.job_status, JobStatus::Unemployed);
    assert_eq!(s.finances.wage, 0);
}

#[test]
fn ticks_keep_pending_events_in_order() {
    let mut s = CivilianState::default();
    let first = GameTime { tick: 5, day: 1, hour: 16, week: 1, month: 1, is_day: true };
    tick_civilian_life(&mut s, &first);
    let rent_after_first = s.finances.rent_due_in;
    let age = s.life.age_years;
    let kept = s.pending_events[0].storylet_id.clone();
    let later = GameTime { tick: 6, day: 1, hour: 19, week: 1, month: 1, is_day: false };
    tick_civilian_life(&mut s, &later);
    assert_eq!(s.pending_events[0].storylet_id, kept);
    assert_eq!(s.finances.rent_due_in, rent_after_first);
    assert_eq!(s.life.age_years, age);
    let next_day = GameTime { tick: 30, day: 2, hour: 3, week: 1, month: 1, is_day: false };
    tick_civilian_life(&mut s, &next_day);
    assert_eq!(s.pending_events[0].storylet_id, kept);
    assert_eq!(s.last_day, 2);
    assert_eq!(s.finances.rent_due_in, rent_after_first - 1);
    for i in 0..s.pending_events.len() {
        for j in (i + 1)..s.pending_events.len() {
            assert_ne!(s.pending_events[i].storylet_id, s.pending_events[j].storylet_id);
        }
    }
}

#[test]
fn a_holder_of_nothing_lists_nothing() {
    let registry = OmniPowerRegistry::new();
    assert!(registry.powers_for_holder("nobody").is_empty());
    assert!(registry.holder_powers().is_empty());
}

#[test]
fn the_punctuation_layer_runs_out() {
    let mut only = true;
    let mut turns: i32 = 2;
    let mut cooldown: i32 = 1;
    tick_punctuation(&mut only, &mut turns, &mut cooldown);
    assert!(only);
    assert_eq!((turns, cooldown), (1, 0));
    tick_punctuation(&mut only, &mut turns, &mut cooldown);
    assert!(!only);
    assert_eq!((turns, cooldown), (0, 0));
}

struct TagsOnlyRepo;

impl PowerRepository for TagsOnlyRepo {
    fn power_ids_by_tags(&self, _any: &[String], _all: &[String], _none: &[String]) -> Result<Vec<PowerId>, String> {
        panic!("no candidates are to be asked for");
    }

    fn power_tags(&self, _power_id: PowerId) -> Result<Vec<String>, String> {
        Err("tags unreadable".to_string())
    }

    fn acquisition_profiles_for_origin(&self, _c: &str, _s: &str) -> Result<Vec<OriginAcquisitionProfile>, String> {
        Ok(Vec::new())
    }
}

#[test]
fn a_mutant_whose_inheritance_fills_the_count_needs_no_candidates() {
    let mut registry = OmniPowerRegistry::default();
    let heritage = MutantInheritanceProfile { parent_powers: vec![PowerId(1), PowerId(2), PowerId(3)], omega_parent: false };
    let r = assign_mutant_powers(&TagsOnlyRepo, &empty_catalog(), &Vec::new(), &mut registry, "m5", "u1", 0, config(1, 1, 1000), Some(heritage));
    let res = r.ok().expect("assigned without asking for candidates");
    assert_eq!(res.baseline, Some(PowerId(3)));
    assert_eq!(res.expressions, vec![PowerId(3)]);
}

#[test]
fn a_player_without_components_is_saved_with_defaults() {
    let p = saved_player(None, None, None, None, None, None, None, None, Some(Alignment::Hero));
    assert_eq!(p.uid, 0);
    assert_eq!(p.name, "Player 0");
    assert_eq!(p.suspicion, 0);
    assert_eq!(p.position, (0, 0));
    assert_eq!((p.health.current, p.health.max), (0, 0));
    assert_eq!(p.alignment, Some(Alignment::Hero));
    let civ = SavedCivilian { job_title: "Clerk".to_string(), salary: 30, suspicion: 12 };
    let q = saved_player(Some(42), None, Some((3, -4)), Some(SavedHealth { current: 7, max: 9 }), Some(civ), None, Some("Guild".to_string()), None, None);
    assert_eq!(q.name, "Player 42");
    assert_eq!(q.suspicion, 12);
    assert_eq!(q.position, (3, -4));
    assert_eq!(q.health.current, 7);
    assert_eq!(q.faction, Some("Guild".to_string()));
    let named = saved_player(Some(5), Some("Ada".to_string()), None, None, None, None, None, None, None);
    assert_eq!(named.name, "Ada");
}

#[test]
fn content_metadata_is_checked() {
    assert_eq!(check_content_meta(true, Some((1, "v1".to_string()))), Ok(()));
    assert_eq!(check_content_meta(false, None), Err("content_meta table missing".to_string()));
    assert_eq!(check_content_meta(true, None), Err("content_meta missing row id=1".to_string()));
    assert_eq!(
        check_content_meta(true, Some((-2, "v1".to_string()))),
        Err("content_meta schema_version -2 != expected 1".to_string())
    );
    assert_eq!(
        check_content_meta(true, Some((1, "v2".to_string()))),
        Err("content_meta content_version v2 != expected v1".to_string())
    );
}

#[test]
fn constraints_are_read_from_json() {
    let c = constraints_from_json(r#"{"requires_los": true, "range_m": 30, "cooldown": "soon"}"#).ok().expect("json");
    assert!(c.requires_los);
    assert!(!c.requires_contact);
    assert_eq!(c.range_m, Some(30));
    assert_eq!(c.cooldown, None);
    assert_eq!(c.radius_m, None);
    assert!(constraints_from_json("not json").is_err());
}

#[test]
fn the_clock_writes_any_hour() {
    let morning = GameTime { tick: 0, day: 3, hour: 8, week: 1, month: 1, is_day: true };
    assert_eq!(morning.to_string(), "Day 3, Week 1, Month 1, 08:00 (Day)");
    let odd = GameTime { tick: 0, day: 3, hour: 123, week: 1, month: 1, is_day: false };
    assert_eq!(odd.to_string(), "Day 3, Week 1, Month 1, 123:00 (Night)");
}

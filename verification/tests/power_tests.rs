use superhero_universe::content::repository::{OriginAcquisitionProfile, PowerId, PowerRepository};
use superhero_universe::rng::{hash_seed, next_u64, FNV_OFFSET, FNV_PRIME, LCG_MULTIPLIER};
use superhero_universe::simulation::power_assignment::{
    choose_power, dedupe_lowercase, extract_power_tags, mutant_affinity_tags, mutant_blocked_tags,
    pick_power, roll_percent, roll_range, tier_for_powers, validate_config,
    PowerAssignmentConfig, PowerAssignmentError,
};

struct FixedRepo {
    answer: Result<Vec<PowerId>, String>,
}

impl PowerRepository for FixedRepo {
    fn power_ids_by_tags(
        &self,
        _tags_any: &[String],
        _tags_all: &[String],
        _tags_none: &[String],
    ) -> Result<Vec<PowerId>, String> {
        self.answer.clone()
    }

    fn power_tags(&self, _power_id: PowerId) -> Result<Vec<String>, String> {
        Ok(Vec::new())
    }

    fn acquisition_profiles_for_origin(
        &self,
        _origin_class: &str,
        _origin_subtype: &str,
    ) -> Result<Vec<OriginAcquisitionProfile>, String> {
        Ok(Vec::new())
    }
}

struct SilentRepo;

impl PowerRepository for SilentRepo {
    fn power_ids_by_tags(&self, _a: &[String], _b: &[String], _c: &[String]) -> Result<Vec<PowerId>, String> {
        panic!("the repository is not to be asked");
    }

    fn power_tags(&self, _power_id: PowerId) -> Result<Vec<String>, String> {
        panic!("the repository is not to be asked");
    }

    fn acquisition_profiles_for_origin(&self, _c: &str, _s: &str) -> Result<Vec<OriginAcquisitionProfile>, String> {
        panic!("the repository is not to be asked");
    }
}

fn strings(items: &[&str]) -> Vec<String> {
    items.iter().map(|s| s.to_string()).collect()
}

#[test]
fn the_generator_steps_as_a_linear_congruence() {
    let mut state: u64 = 0;
    assert_eq!(next_u64(&mut state), 1);
    assert_eq!(state, 1);
    assert_eq!(next_u64(&mut state), LCG_MULTIPLIER.wrapping_add(1));
    let mut other: u64 = 12345;
    let expected = 12345u64.wrapping_mul(LCG_MULTIPLIER).wrapping_add(1);
    assert_eq!(next_u64(&mut other), expected);
}

#[test]
fn seeds_hash_with_fnv1a() {
    assert_eq!(hash_seed(""), FNV_OFFSET);
    assert_eq!(hash_seed("a"), 0x44bd8ad473cd9906);
    let mut h = FNV_OFFSET;
    for b in "hero".bytes() {
        h = (h ^ b as u64).wrapping_mul(FNV_PRIME);
    }
    assert_eq!(hash_seed("hero"), h);
}

#[test]
fn ranges_and_percentages() {
    let mut rng: u64 = 0;
    assert_eq!(roll_range(&mut rng, 1, 6), 2);
    assert_eq!(rng, 1);
    let mut fixed: u64 = 99;
    assert_eq!(roll_range(&mut fixed, 5, 5), 5);
    assert_eq!(fixed, 99);
    let mut r: u64 = 7;
    for _ in 0..200 {
        let v = roll_range(&mut r, 3, 9);
        assert!((3..=9).contains(&v));
    }
    let mut p: u64 = 42;
    assert!(!roll_percent(&mut p, 0));
    assert_eq!(p, 42);
    let mut q: u64 = 0;
    assert!(roll_percent(&mut q, 100));
    let mut s: u64 = 0;
    assert!(!roll_percent(&mut s, 1));
}

#[test]
fn config_rules() {
    let good = PowerAssignmentConfig::default();
    assert!(validate_config(&good).is_ok());
    let mut zero = PowerAssignmentConfig::default();
    zero.expression_min = 0;
    match validate_config(&zero) {
        Err(PowerAssignmentError::InvalidConfig(m)) => assert_eq!(m, "expression count must be >= 1"),
        other => panic!("unexpected {:?}", other),
    }
    let mut crossed = PowerAssignmentConfig::default();
    crossed.expression_min = 3;
    crossed.expression_max = 2;
    match validate_config(&crossed) {
        Err(PowerAssignmentError::InvalidConfig(m)) => {
            assert_eq!(m, "expression_min cannot exceed expression_max")
        }
        other => panic!("unexpected {:?}", other),
    }
    assert_eq!(
        PowerAssignmentError::Repository("db locked".to_string()).message(),
        "repository error: db locked"
    );
}

#[test]
fn tags_are_lowercased_and_kept_once() {
    assert_eq!(dedupe_lowercase(strings(&["Fire", "fire", "ICE", "Fire"])), strings(&["fire", "ice"]));
    assert_eq!(
        extract_power_tags(&strings(&["power:Fire", "tag:ICE", "other", "power:"])),
        strings(&["fire", "ice", ""])
    );
    assert_eq!(mutant_affinity_tags(), strings(&["mutation", "mutant", "genetic", "dna"]));
    assert_eq!(mutant_blocked_tags(true), strings(&["tier:apex", "omni"]));
    assert_eq!(mutant_blocked_tags(false).len(), 8);
}

#[test]
fn mutant_tiers() {
    let none: Vec<String> = Vec::new();
    assert_eq!(tier_for_powers(0, &none, false, false), 0);
    assert_eq!(tier_for_powers(2, &none, false, false), 1);
    assert_eq!(tier_for_powers(3, &none, false, false), 2);
    assert_eq!(tier_for_powers(4, &none, false, false), 3);
    assert_eq!(tier_for_powers(5, &none, false, false), 4);
    assert_eq!(tier_for_powers(9, &none, false, false), 5);
    assert_eq!(tier_for_powers(1, &none, false, true), 6);
    assert_eq!(tier_for_powers(1, &strings(&["cosmic"]), false, false), 6);
    assert_eq!(tier_for_powers(1, &strings(&["tier:apex"]), false, false), 7);
    assert_eq!(tier_for_powers(0, &none, true, false), 7);
}

#[test]
fn powers_are_drawn_by_the_generator() {
    let candidates = vec![PowerId(10), PowerId(20), PowerId(30)];
    let mut rng: u64 = 0;
    assert_eq!(choose_power(&candidates, &mut rng), Some(PowerId(20)));
    let mut untouched: u64 = 5;
    assert_eq!(choose_power(&Vec::new(), &mut untouched), None);
    assert_eq!(untouched, 5);

    let repo = FixedRepo { answer: Ok(vec![PowerId(7), PowerId(8)]) };
    let mut r: u64 = 0;
    match pick_power(&repo, &strings(&["fire"]), &Vec::new(), &mut r) {
        Ok(p) => assert_eq!(p, Some(PowerId(8))),
        Err(e) => panic!("unexpected {:?}", e),
    }
    assert_eq!(r, 1);

    let failing = FixedRepo { answer: Err("down".to_string()) };
    let mut f: u64 = 3;
    match pick_power(&failing, &strings(&["fire"]), &Vec::new(), &mut f) {
        Err(PowerAssignmentError::Repository(m)) => assert_eq!(m, "down"),
        other => panic!("unexpected {:?}", other.is_ok()),
    }
    assert_eq!(f, 3);

    let mut s: u64 = 9;
    match pick_power(&SilentRepo, &Vec::new(), &Vec::new(), &mut s) {
        Ok(p) => assert_eq!(p, None),
        Err(e) => panic!("unexpected {:?}", e),
    }
    assert_eq!(s, 9);
}

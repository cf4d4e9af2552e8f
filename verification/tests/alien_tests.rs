use superhero_universe::data::alien_generation::AlienTableEntry;
use superhero_universe::simulation::alien::{
    capitalize_first, derive_gravity_traits, describe_entry, entry_key, flight_mod_from_gravity,
    has_tag, merge_fragments, roll_2d6, roll_d6, roll_d66, select_by_threshold, TableDie,
};

fn entry(id: Option<&str>, d6: Option<u32>, label: &str, detail: Option<&str>, tags: &[&str]) -> AlienTableEntry {
    AlienTableEntry {
        id: id.map(|s| s.to_string()),
        d6,
        d2d6: None,
        d66: None,
        label: label.to_string(),
        detail: detail.map(|s| s.to_string()),
        tags: tags.iter().map(|s| s.to_string()).collect(),
    }
}

#[test]
fn dice_follow_the_generator_and_stay_on_the_die() {
    let mut rng: u64 = 0;
    assert_eq!(roll_d6(&mut rng, 0), 2);
    assert_eq!(rng, 1);
    let mut hi: u64 = 0;
    assert_eq!(roll_d6(&mut hi, 10), 6);
    let mut lo: u64 = 0;
    assert_eq!(roll_d6(&mut lo, -10), 1);
    let mut two: u64 = 0;
    assert_eq!(roll_2d6(&mut two, 0), 7);
    let mut d66: u64 = 0;
    assert_eq!(roll_d66(&mut d66, 0), 25);
    let mut r: u64 = 99;
    for _ in 0..200 {
        let v = roll_d66(&mut r, 0);
        assert!((1..=6).contains(&(v / 10)) && (1..=6).contains(&(v % 10)));
    }
}

#[test]
fn tables_pick_the_first_threshold_reached() {
    let table = vec![
        entry(Some("low"), Some(2), "Low", None, &[]),
        entry(Some("mid"), Some(4), "Mid", None, &[]),
        entry(Some("high"), Some(6), "High", None, &[]),
    ];
    assert_eq!(select_by_threshold(&table, 1, TableDie::D6).label, "Low");
    assert_eq!(select_by_threshold(&table, 3, TableDie::D6).label, "Mid");
    assert_eq!(select_by_threshold(&table, 6, TableDie::D6).label, "High");
    assert_eq!(select_by_threshold(&table, 9, TableDie::D6).label, "High");
    assert_eq!(select_by_threshold(&table, 3, TableDie::TwoD6).label, "High");
    assert_eq!(select_by_threshold(&[], 3, TableDie::D6).label, "Unknown");
}

#[test]
fn names_and_labels() {
    assert_eq!(merge_fragments("Zor", "rath"), "Zorath");
    assert_eq!(merge_fragments("Ka", "Lun"), "KaLun");
    assert_eq!(merge_fragments("", "vex"), "vex");
    assert_eq!(capitalize_first("vexar"), "Vexar");
    assert_eq!(capitalize_first(""), "");
    assert_eq!(entry_key(&entry(None, None, "Red Dwarf Star", None, &[])), "red_dwarf_star");
    assert_eq!(entry_key(&entry(Some("k1"), None, "Red Dwarf", None, &[])), "k1");
    assert_eq!(describe_entry(&entry(None, None, "Dense", Some("2g"), &[])), "Dense (2g)");
    assert_eq!(describe_entry(&entry(None, None, "Dense", None, &[])), "Dense");
}

#[test]
fn gravity_shapes_the_body() {
    let low = entry(None, None, "Low", None, &["Gravity:Low"]);
    assert!(has_tag(&low, "gravity:low"));
    assert_eq!(derive_gravity_traits(&low), vec!["lightframe", "longstride", "glide"]);
    assert_eq!(flight_mod_from_gravity(&low), -1);
    let both = entry(None, None, "Odd", None, &["gravity:extreme", "gravity:variable"]);
    assert_eq!(
        derive_gravity_traits(&both),
        vec!["massive_bone", "shockproof", "impulse_flight", "adaptive_balance", "vector_reflex"]
    );
    assert_eq!(flight_mod_from_gravity(&both), 2);
    let plain = entry(None, None, "Plain", None, &[]);
    assert_eq!(derive_gravity_traits(&plain), vec!["baseline"]);
    assert_eq!(flight_mod_from_gravity(&plain), 0);
}

use superhero_universe::components::persona::Alignment;
use superhero_universe::data::storylets::{Storylet, StoryletCategory};
use superhero_universe::simulation::storylets::{
    is_punctuation_storylet, storylet_has_gate_requirements, storylet_has_thresholds, storylet_threshold_keys,
    StoryletLibrary,
};

fn storylet(id: &str, category: StoryletCategory, preconditions: &[&str], tags: &[&str]) -> Storylet {
    Storylet {
        id: id.to_string(),
        category,
        preconditions: preconditions.iter().map(|s| s.to_string()).collect(),
        text_stub: String::new(),
        choices: Vec::new(),
        effects: Vec::new(),
        tags: tags.iter().map(|s| s.to_string()).collect(),
    }
}

#[test]
fn threshold_keys_only_for_numeric_comparisons() {
    let s = storylet(
        "s",
        StoryletCategory::InstitutionalPressure,
        &["heat >= 40", " alignment == 3", "time.is_day", "flag.seen", "notoriety < x", "wanted  !=  -2", "a b"],
        &[],
    );
    assert_eq!(storylet_threshold_keys(&s), vec!["heat".to_string(), "wanted".to_string()]);
    assert!(storylet_has_thresholds(&s));
}

#[test]
fn gates_from_tags_thresholds_or_state() {
    let plain = storylet("p", StoryletCategory::VillainOpportunities, &["time.is_night"], &[]);
    assert!(!storylet_has_gate_requirements(&plain));
    let flagged = storylet("f", StoryletCategory::VillainOpportunities, &["  flag.met_mentor"], &[]);
    assert!(storylet_has_gate_requirements(&flagged));
    let endgame = storylet("e", StoryletCategory::VillainOpportunities, &["endgame.state == exposed"], &[]);
    assert!(storylet_has_gate_requirements(&endgame));
    let tagged = storylet("t", StoryletCategory::VillainOpportunities, &[], &["x"]);
    assert!(storylet_has_gate_requirements(&tagged));
}

#[test]
fn punctuation_by_tag_or_category() {
    assert!(is_punctuation_storylet(&storylet("a", StoryletCategory::CivilianLife, &[], &[])));
    assert!(is_punctuation_storylet(&storylet("b", StoryletCategory::MaskedLife, &[], &[])));
    assert!(is_punctuation_storylet(&storylet("c", StoryletCategory::InstitutionalPressure, &[], &["Punctuation"])));
    assert!(!is_punctuation_storylet(&storylet("d", StoryletCategory::InstitutionalPressure, &[], &["other"])));
}

#[test]
fn neutral_draws_from_the_hero_list() {
    let library = StoryletLibrary {
        hero: vec![storylet("h", StoryletCategory::CivilianLife, &[], &[])],
        vigilante: Vec::new(),
        villain: vec![storylet("v1", StoryletCategory::CivilianLife, &[], &[]), storylet("v2", StoryletCategory::CivilianLife, &[], &[])],
    };
    assert_eq!(library.for_alignment(Alignment::Neutral).len(), 1);
    assert_eq!(library.for_alignment(Alignment::Hero)[0].id, "h");
    assert_eq!(library.for_alignment(Alignment::Vigilante).len(), 0);
    assert_eq!(library.for_alignment(Alignment::Villain).len(), 2);
}

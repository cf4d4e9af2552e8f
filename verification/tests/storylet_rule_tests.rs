use superhero_universe::components::persona::{Alignment, PersonaType};
use superhero_universe::data::storylets::{Storylet, StoryletCategory};
use superhero_universe::simulation::endgame::TransformationState;
use superhero_universe::simulation::storylet_rules::{
    compare_numeric, eval_condition, evaluate_storylet, parse_alignment, parse_endgame_state,
    parse_persona_type, select_storylet_for_turn, storylet_passes_state_gates, StoryletContext,
    DEFAULT_PUNCTUATION_COOLDOWN_TURNS,
};
use superhero_universe::simulation::storylet_state::StoryletState;

fn context() -> StoryletContext {
    StoryletContext {
        alignment: Alignment::Hero,
        active_persona: Some(PersonaType::Masked),
        flags: vec!["met_mentor".to_string()],
        endgame_state: None,
        public_suspicion: 30,
        civilian_suspicion: 0,
        wanted_level: 0,
        exposure_risk: 0,
        heat: 45,
        surveillance_level: 0,
        crime_pressure: 12,
        case_progress: 0,
        has_visible_signatures: false,
        is_day: true,
        stress: 0,
        reputation: 0,
        pressure_identity: 0,
        pressure_moral: 0,
        pressure_institutional: 0,
        pressure_resource: 0,
        pressure_temporal: 0,
        pressure_psychological: 0,
    }
}

fn storylet(id: &str, category: StoryletCategory, preconditions: &[&str], tags: &[&str]) -> Storylet {
    Storylet {
        id: id.to_string(),
        category,
        preconditions: preconditions.iter().map(|s| s.to_string()).collect(),
        text_stub: "text".to_string(),
        choices: Vec::new(),
        effects: Vec::new(),
        tags: tags.iter().map(|s| s.to_string()).collect(),
    }
}

#[test]
fn names_are_read_in_any_case() {
    assert_eq!(parse_alignment("villain"), Some(Alignment::Villain));
    assert_eq!(parse_alignment("Hero"), Some(Alignment::Hero));
    assert_eq!(parse_alignment("neutral"), None);
    assert_eq!(parse_persona_type("masked"), Some(PersonaType::Masked));
    assert_eq!(parse_endgame_state("cosmic_judgment"), Some(TransformationState::CosmicJudgement));
    assert_eq!(parse_endgame_state("COSMIC_JUDGEMENT"), Some(TransformationState::CosmicJudgement));
    assert_eq!(parse_endgame_state("over"), None);
}

#[test]
fn conditions_read_the_context() {
    let ctx = context();
    assert!(eval_condition("", &ctx));
    assert!(eval_condition("  time.is_day ", &ctx));
    assert!(!eval_condition("time.is_night", &ctx));
    assert!(!eval_condition("signatures.visible", &ctx));
    assert!(eval_condition("flag.met_mentor", &ctx));
    assert!(!eval_condition("flag.lost", &ctx));
    assert!(eval_condition("heat >= 40", &ctx));
    assert!(!eval_condition("heat >= 46", &ctx));
    assert!(eval_condition("gang.pressure == 12", &ctx));
    assert!(eval_condition("alignment == hero", &ctx));
    assert!(!eval_condition("alignment != HERO", &ctx));
    assert!(eval_condition("persona == masked", &ctx));
    assert!(eval_condition("endgame.state != exposed", &ctx));
    assert!(!eval_condition("endgame.state == exposed", &ctx));
    assert!(!eval_condition("heat >= forty", &ctx));
    assert!(!eval_condition("notoriety >= 1", &ctx));
    assert!(!eval_condition("heat >=", &ctx));
    assert!(!eval_condition("heat => 1", &ctx));
    assert!(compare_numeric(3, 3, "<="));
    assert!(!compare_numeric(3, 3, "<"));
}

#[test]
fn eligibility_lists_the_met_conditions() {
    let ctx = context();
    let ok = storylet("a", StoryletCategory::MaskedLife, &["heat >= 40", "time.is_day"], &[]);
    let e = evaluate_storylet(&ok, &ctx);
    assert!(e.eligible);
    assert_eq!(e.matched, vec!["heat >= 40".to_string(), "time.is_day".to_string()]);
    let no = storylet("b", StoryletCategory::MaskedLife, &["heat >= 40", "time.is_night"], &[]);
    let e = evaluate_storylet(&no, &ctx);
    assert!(!e.eligible);
    assert!(e.matched.is_empty());
}

#[test]
fn a_selected_storylet_fires_once() {
    let ctx = context();
    let list = vec![
        storylet("ungated", StoryletCategory::InstitutionalPressure, &["time.is_day"], &[]),
        storylet("late", StoryletCategory::InstitutionalPressure, &["heat >= 40"], &[]),
        storylet("quiet", StoryletCategory::CivilianLife, &["heat >= 1"], &[]),
    ];
    let mut state = StoryletState::new();
    let mut cooldown: i32 = 0;
    assert_eq!(select_storylet_for_turn(&list, &mut state, false, &mut cooldown, &ctx), Some(1));
    assert_eq!(state.fired, vec!["late".to_string()]);
    assert_eq!(cooldown, 0);
    assert!(!storylet_passes_state_gates(&list[1], &state, false, 0));
    assert_eq!(select_storylet_for_turn(&list, &mut state, false, &mut cooldown, &ctx), Some(2));
    assert_eq!(cooldown, DEFAULT_PUNCTUATION_COOLDOWN_TURNS);
    assert_eq!(select_storylet_for_turn(&list, &mut state, false, &mut cooldown, &ctx), None);
    let mut fresh = StoryletState::new();
    let mut cd: i32 = 0;
    assert_eq!(select_storylet_for_turn(&list, &mut fresh, true, &mut cd, &ctx), Some(2));
}

use superhero_universe::simulation::case::CaseRegistry;
use superhero_universe::simulation::city::LocationId;
use superhero_universe::simulation::endgame::{
    apply_transformation_event, endgame_phase_label, evaluate_case_pressure, evaluate_faction_attention,
    evaluate_transformation, EndgameState, TransformationEvent, TransformationState, TransformationTrigger,
};
use superhero_universe::simulation::storylet_state::StoryletState;

fn registry_with_progress(progress: &[u32]) -> CaseRegistry {
    let mut registry = CaseRegistry::new();
    for (i, p) in progress.iter().enumerate() {
        registry.create_case(format!("faction_{}", i), LocationId(i as u32 + 1), Vec::new(), false);
        let case = registry.find_case_mut(&format!("faction_{}", i), LocationId(i as u32 + 1)).unwrap();
        case.progress = *p;
    }
    registry
}

#[test]
fn case_pressure_thresholds() {
    assert_eq!(evaluate_case_pressure(&CaseRegistry::new()), None);
    assert_eq!(evaluate_case_pressure(&registry_with_progress(&[10, 69])), None);
    assert_eq!(evaluate_case_pressure(&registry_with_progress(&[10, 70])), Some(TransformationState::Registration));
    assert_eq!(evaluate_case_pressure(&registry_with_progress(&[95, 70])), Some(TransformationState::Exposed));
}

#[test]
fn faction_attention_needs_two_critical_levels() {
    let one = vec!["CRITICAL".to_string(), "low".to_string()];
    assert_eq!(evaluate_faction_attention(&one), None);
    let two = vec!["Critical".to_string(), "MAX".to_string()];
    assert_eq!(evaluate_faction_attention(&two), Some(TransformationState::Exile));
}

#[test]
fn transformation_priority_is_cases_then_pressure_then_factions() {
    let levels = vec!["max".to_string(), "max".to_string()];
    let cases = registry_with_progress(&[90]);
    let e = evaluate_transformation(&cases, Some(TransformationState::Ascension), &levels).unwrap();
    assert_eq!(e.state, TransformationState::Exposed);
    assert_eq!(e.trigger, TransformationTrigger::CaseCollapse);
    let quiet = CaseRegistry::new();
    let e = evaluate_transformation(&quiet, Some(TransformationState::Ascension), &levels).unwrap();
    assert_eq!(e.trigger, TransformationTrigger::PressureSpike);
    let e = evaluate_transformation(&quiet, None, &levels).unwrap();
    assert_eq!(e.trigger, TransformationTrigger::FactionAttention);
    assert_eq!(evaluate_transformation(&quiet, None, &Vec::new()), None);
}

#[test]
fn transformation_applies_once() {
    let mut endgame = EndgameState::default();
    let mut storylets = StoryletState::new();
    let event = TransformationEvent { state: TransformationState::Exposed, trigger: TransformationTrigger::CaseCollapse };
    let first = apply_transformation_event(&mut endgame, &mut storylets, event).unwrap();
    assert_eq!(first.narrative, "Your cover breaks. The city has a name and a face for you.");
    assert_eq!(endgame.phase, Some(TransformationState::Exposed));
    assert_eq!(storylets.flags.get("transformation_exposed"), Some(&true));
    assert_eq!(storylets.flags.get("endgame_exposed"), Some(&true));
    assert!(apply_transformation_event(&mut endgame, &mut storylets, event).is_none());
    assert_eq!(storylets.flags.len(), 2);
}

#[test]
fn phase_labels() {
    assert_eq!(endgame_phase_label(None), "Dormant");
    assert_eq!(endgame_phase_label(Some(TransformationState::CosmicJudgement)), "Cosmic Judgement");
    assert_eq!(EndgameState::default().label(), "Dormant");
}

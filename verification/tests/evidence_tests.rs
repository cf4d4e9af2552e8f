use superhero_universe::rules::signature::{SignatureInstance, SignatureSpec, SignatureType};
use superhero_universe::simulation::case::{combat_case_progress_summary, CaseRegistry};
use superhero_universe::simulation::city::{CityState, LocationId};
use superhero_universe::simulation::combat::{
    format_combat_end, parse_combat_intent, parse_combat_scale, CombatEnd, CombatIntent, CombatScale,
};
use superhero_universe::simulation::identity_evidence::{
    record_identity_evidence, IdentityEvidenceModifiers, IdentityEvidenceStore, PersonaHint,
};

fn trace(t: SignatureType) -> SignatureInstance {
    SignatureInstance {
        signature: SignatureSpec { signature_type: t, strength: 3, persistence_turns: 2 },
        remaining_turns: 2,
    }
}

#[test]
fn evidence_reads_the_place_it_was_left() {
    let city = CityState::default();
    let mut store = IdentityEvidenceStore::new();
    let sigs = vec![trace(SignatureType::ThermalBloom), trace(SignatureType::EmSpike)];
    record_identity_evidence(&mut store, &city, LocationId(1), 7, &sigs, 0, PersonaHint::Masked, None);
    assert_eq!(store.items.len(), 2);
    assert_eq!(store.items[0].evidence_id, 1);
    assert_eq!(store.items[1].evidence_id, 2);
    assert_eq!(store.items[1].signatures, vec![SignatureType::EmSpike]);
    assert_eq!(store.items[0].witness_count, 1);
    assert_eq!(store.items[0].visual_quality, 25);
    assert_eq!(store.items[0].time_tick, 7);
    assert_eq!(store.items[0].persona_hint, PersonaHint::Masked);

    record_identity_evidence(&mut store, &city, LocationId(2), 8, &sigs[..1], 5, PersonaHint::Unknown, None);
    assert_eq!(store.items[2].witness_count, 0);
    assert_eq!(store.items[2].visual_quality, 10);

    record_identity_evidence(&mut store, &city, LocationId(99), 9, &sigs[..1], 3, PersonaHint::Unknown, None);
    assert_eq!(store.items[3].witness_count, 3);
    assert_eq!(store.items[3].visual_quality, 30);

    let m = IdentityEvidenceModifiers { witness_bonus: 2, visual_bonus: -50 };
    record_identity_evidence(&mut store, &city, LocationId(1), 10, &sigs[..1], 4, PersonaHint::Civilian, Some(m));
    assert_eq!(store.items[4].witness_count, 6);
    assert_eq!(store.items[4].visual_quality, 25);
    assert_eq!(store.items[4].evidence_id, 5);

    let loud = IdentityEvidenceModifiers { witness_bonus: 0, visual_bonus: 500 };
    record_identity_evidence(&mut store, &city, LocationId(1), 11, &sigs[..1], 1, PersonaHint::Civilian, Some(loud));
    assert_eq!(store.items[5].visual_quality, 100);
}

#[test]
fn combat_words() {
    assert_eq!(parse_combat_scale("Street"), Some(CombatScale::Street));
    assert_eq!(parse_combat_scale("COSMIC"), Some(CombatScale::Cosmic));
    assert_eq!(parse_combat_scale("galactic"), None);
    assert_eq!(parse_combat_intent("capture"), Some(CombatIntent::Capture));
    assert_eq!(parse_combat_intent("Hold"), Some(CombatIntent::Hold));
    assert_eq!(parse_combat_intent("flee"), None);
    assert_eq!(format_combat_end(CombatEnd::OpponentsDefeated), "opponents defeated");
    assert_eq!(format_combat_end(CombatEnd::PlayerEscaped), "player escaped");
}

#[test]
fn case_progress_is_summarised_per_location() {
    let mut cases = CaseRegistry::new();
    let a = cases.create_case("police".to_string(), LocationId(1), Vec::new(), false);
    let _b = cases.create_case("mob".to_string(), LocationId(2), Vec::new(), false);
    let c = cases.create_case("feds".to_string(), LocationId(1), Vec::new(), true);
    cases.cases[2].progress = 35;
    assert_eq!(
        combat_case_progress_summary(&cases, LocationId(1)),
        vec![format!("case#{}:0", a), format!("case#{}:35", c)]
    );
    assert!(combat_case_progress_summary(&cases, LocationId(3)).is_empty());
}

use superhero_universe::content::repository::{ExpressionId, PowerId};
use superhero_universe::rules::expression::{
    Constraints, Delivery, ExpressionDef, ExpressionForm, ExpressionText, Scale,
};
use superhero_universe::rules::mastery::MasteryStage;
use superhero_universe::simulation::growth::{
    apply_growth_on_use, mastery_stage_flag, record_expression_use, seed_mastery, unlock_evolution,
    GrowthState,
};
use superhero_universe::simulation::storylet_state::StoryletState;

fn expression(id: &str, form: ExpressionForm) -> ExpressionDef {
    ExpressionDef {
        id: ExpressionId(id.to_string()),
        power_id: PowerId(1),
        form,
        delivery: Delivery::Instant,
        scale: Scale::Street,
        constraints: Constraints {
            requires_contact: false,
            requires_los: false,
            range_m: None,
            radius_m: None,
            cooldown: None,
            duration_turns: None,
        },
        text: ExpressionText { ui_name: id.to_string(), tooltip_short: String::new() },
        costs: Vec::new(),
        signatures: Vec::new(),
    }
}

fn ids(growth: &GrowthState) -> Vec<String> {
    growth.unlocked_expressions.iter().map(|e| e.0.clone()).collect()
}

#[test]
fn uses_climb_the_mastery_stages() {
    let mut growth = GrowthState::default();
    let beam = expression("beam1", ExpressionForm::Beam);
    let mut changes = Vec::new();
    for _ in 0..40 {
        if let Some(stage) = record_expression_use(&mut growth, &beam) {
            changes.push((growth.mastery.get("beam1").unwrap().uses, stage));
        }
    }
    assert_eq!(
        changes,
        vec![
            (5, MasteryStage::Controlled),
            (12, MasteryStage::Precise),
            (24, MasteryStage::Silent),
            (40, MasteryStage::Iconic),
        ]
    );
    assert_eq!(ids(&growth), vec!["beam1".to_string()]);
}

#[test]
fn a_new_stage_raises_its_flags() {
    assert_eq!(mastery_stage_flag(MasteryStage::Controlled), None);
    assert_eq!(mastery_stage_flag(MasteryStage::Iconic), Some("mastery_iconic"));
    let mut growth = GrowthState::default();
    let mut storylets = StoryletState::new();
    let beam = expression("beam1", ExpressionForm::Beam);
    seed_mastery(&mut growth, "beam1", 11);
    assert_eq!(growth.mastery.get("beam1").map(|m| (m.stage, m.uses)), Some((MasteryStage::Controlled, 11)));
    assert_eq!(apply_growth_on_use(&mut growth, &beam, &mut storylets), Some(MasteryStage::Precise));
    assert_eq!(storylets.flags.get("mastery_precise"), Some(&true));
    assert_eq!(storylets.flags.get("mastery_precise_beam1"), Some(&true));
    assert_eq!(apply_growth_on_use(&mut growth, &beam, &mut storylets), None);
    assert_eq!(storylets.flags.len(), 2);
}

#[test]
fn evolution_prefers_the_forms_a_form_leans_to() {
    let mut growth = GrowthState::default();
    let beam = expression("beam1", ExpressionForm::Beam);
    let candidates = vec![
        expression("beam1", ExpressionForm::Beam),
        expression("zone_b", ExpressionForm::Zone),
        expression("proj_z", ExpressionForm::Projectile),
        expression("aura_a", ExpressionForm::Aura),
    ];
    let picks: Vec<Option<String>> = (0..4)
        .map(|_| unlock_evolution(&mut growth, &beam, &candidates).map(|e| e.0))
        .collect();
    assert_eq!(
        picks,
        vec![Some("aura_a".to_string()), Some("zone_b".to_string()), Some("proj_z".to_string()), None]
    );
    assert_eq!(ids(&growth), vec!["aura_a".to_string(), "zone_b".to_string(), "proj_z".to_string()]);
}

use superhero_universe::content::repository::{ExpressionId, PowerId};
use superhero_universe::ledger::Ledger;
use superhero_universe::rules::cost::{CostSpec, CostType};
use superhero_universe::rules::expression::{
    Constraints, Delivery, ExpressionDef, ExpressionForm, ExpressionText, Scale,
};
use superhero_universe::rules::mastery::MasteryStage;
use superhero_universe::rules::signature::{SignatureSpec, SignatureType};
use superhero_universe::rules::target::{parse_u32, update_context};
use superhero_universe::rules::use_power::{
    can_use, scale_cost, use_power, ActorState, TargetContext, UseContext, UseError, WorldState,
};

fn cost(cost_type: CostType, value: i64) -> CostSpec {
    CostSpec { cost_type, value: Some(value), risk_type: None }
}

fn blast(range_m: Option<i64>) -> ExpressionDef {
    ExpressionDef {
        id: ExpressionId("blast".to_string()),
        power_id: PowerId(1),
        form: ExpressionForm::Beam,
        delivery: Delivery::Instant,
        scale: Scale::Street,
        constraints: Constraints {
            requires_contact: false,
            requires_los: true,
            range_m,
            radius_m: None,
            cooldown: None,
            duration_turns: None,
        },
        text: ExpressionText { ui_name: "Blast".to_string(), tooltip_short: "A beam".to_string() },
        costs: vec![
            cost(CostType::Stamina, 4),
            cost(CostType::Focus, 2),
            cost(CostType::Cooldown, 3),
        ],
        signatures: vec![SignatureSpec {
            signature_type: SignatureType::ThermalBloom,
            strength: 10,
            persistence_turns: 5,
        }],
    }
}

fn actor(stamina: i64, focus: i64) -> ActorState {
    ActorState { stamina, focus, resources: Ledger::new(), cooldowns: Ledger::new() }
}

fn target(distance_m: Option<i64>, los: bool) -> TargetContext {
    TargetContext {
        distance_m,
        has_line_of_sight: los,
        has_contact: false,
        in_public: true,
        witnesses: 0,
    }
}

#[test]
fn costs_round_up_and_never_reach_zero() {
    assert_eq!(scale_cost(10, 95, 100), 10);
    assert_eq!(scale_cost(10, 80, 100), 8);
    assert_eq!(scale_cost(3, 85, 100), 3);
    assert_eq!(scale_cost(1, 60, 100), 1);
    assert_eq!(scale_cost(-2, 60, 100), -2);
    assert_eq!(scale_cost(0, 60, 100), 0);
}

#[test]
fn a_use_pays_its_costs_and_starts_its_cooldown() {
    let mut a = actor(10, 10);
    let world = WorldState { turn: 1 };
    let expr = blast(Some(30));
    let t = target(Some(10), true);
    {
        let mut ctx = UseContext { actor: &mut a, world: &world, mastery: Some(MasteryStage::Controlled), unlocked: None };
        assert_eq!(can_use(&ctx, &expr, &t), Ok(()));
        let result = match use_power(&mut ctx, &expr, &t) {
            Ok(r) => r,
            Err(e) => panic!("unexpected {:?}", e),
        };
        assert_eq!(result.mastery_stage, MasteryStage::Controlled);
        assert_eq!(result.cooldown_turns, Some(3));
        assert_eq!(result.emitted_signatures.len(), 1);
        assert_eq!(result.emitted_signatures[0].signature.strength, 9);
        assert_eq!(result.emitted_signatures[0].remaining_turns, 5);
    }
    assert_eq!(a.stamina, 6);
    assert_eq!(a.focus, 8);
    assert_eq!(a.cooldowns.get("blast"), Some(&3));
    let mut again = UseContext { actor: &mut a, world: &world, mastery: None, unlocked: None };
    assert!(matches!(use_power(&mut again, &expr, &t), Err(UseError::OnCooldown)));
}

#[test]
fn refusals_come_in_order() {
    let world = WorldState { turn: 0 };
    let expr = blast(Some(30));
    let mut a = actor(10, 10);
    let locked: Ledger<()> = Ledger::new();
    let ctx = UseContext { actor: &mut a, world: &world, mastery: None, unlocked: Some(&locked) };
    assert_eq!(can_use(&ctx, &expr, &target(Some(100), false)), Err(UseError::Locked));

    let mut b = actor(10, 10);
    let ctx = UseContext { actor: &mut b, world: &world, mastery: None, unlocked: None };
    assert_eq!(can_use(&ctx, &expr, &target(Some(100), false)), Err(UseError::ConstraintFailed("requires_los")));
    assert_eq!(can_use(&ctx, &expr, &target(Some(100), true)), Err(UseError::ConstraintFailed("range")));
    assert_eq!(can_use(&ctx, &expr, &target(None, true)), Ok(()));

    let mut tired = actor(3, 10);
    let ctx = UseContext { actor: &mut tired, world: &world, mastery: None, unlocked: None };
    assert_eq!(can_use(&ctx, &expr, &target(Some(5), true)), Err(UseError::NotEnoughStamina));

    let mut distracted = actor(10, 1);
    let mut ctx = UseContext { actor: &mut distracted, world: &world, mastery: None, unlocked: None };
    assert_eq!(can_use(&ctx, &expr, &target(Some(5), true)), Err(UseError::NotEnoughFocus));
    assert!(matches!(use_power(&mut ctx, &expr, &target(Some(5), true)), Err(UseError::NotEnoughFocus)));
    assert_eq!(distracted.stamina, 10);
    assert_eq!(distracted.focus, 1);
}

#[test]
fn the_target_is_set_from_text() {
    let mut t = target(Some(10), true);
    assert_eq!(update_context(&mut t, "dist", "25"), Ok(()));
    assert_eq!(t.distance_m, Some(25));
    assert_eq!(update_context(&mut t, "los", "off"), Ok(()));
    assert!(!t.has_line_of_sight);
    assert_eq!(update_context(&mut t, "contact", "true"), Ok(()));
    assert!(t.has_contact);
    assert_eq!(update_context(&mut t, "public", "false"), Ok(()));
    assert!(!t.in_public);
    assert_eq!(update_context(&mut t, "witnesses", "+4"), Ok(()));
    assert_eq!(t.witnesses, 4);
    let before = t;
    assert_eq!(update_context(&mut t, "witnesses", "-1"), Err(()));
    assert_eq!(update_context(&mut t, "los", "maybe"), Err(()));
    assert_eq!(update_context(&mut t, "mood", "1"), Err(()));
    assert_eq!(t, before);
    assert_eq!(parse_u32("-0"), None);
    assert_eq!(parse_u32("4294967295"), Some(u32::MAX));
    assert_eq!(parse_u32("4294967296"), None);
}

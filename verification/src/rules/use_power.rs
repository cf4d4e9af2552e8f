use vstd::prelude::*;

use crate::ledger::Ledger;
use crate::rules::cost::{CostSpec, CostType};
use crate::rules::expression::ExpressionDef;
use crate::rules::mastery::MasteryStage;
use crate::rules::signature::{SignatureInstance, SignatureSpec};
use crate::text::copy_str;

verus! {

broadcast use vstd::string::group_string_axioms;

pub struct ActorState {
    pub stamina: i64,
    pub focus: i64,
    pub resources: Ledger<i64>,
    pub cooldowns: Ledger<i64>,
}

#[derive(Debug, Clone, Copy, PartialEq, Eq, Structural)]
pub struct WorldState {
    pub turn: u64,
}

#[derive(Debug, Clone, Copy, PartialEq, Eq, Structural)]
pub struct TargetContext {
    pub distance_m: Option<i64>,
    pub has_line_of_sight: bool,
    pub has_contact: bool,
    pub in_public: bool,
    pub witnesses: u32,
}

pub struct UseContext<'a> {
    pub actor: &'a mut ActorState,
    pub world: &'a WorldState,
    pub mastery: Option<MasteryStage>,
    pub unlocked: Option<&'a Ledger<()>>,
}


/// Why a use was refused.
#[derive(Debug, Clone, Copy, PartialEq, Eq)]
pub enum UseError {
    Locked,
    OnCooldown,
    NotEnoughStamina,
    NotEnoughFocus,
    MissingResource,
    ConstraintFailed(&'static str),
}

/// The verdict on a use, in the order the checks are made.
#[derive(Debug, Clone, Copy, PartialEq, Eq, Structural)]
pub enum UseCheck {
    Pass,
    Locked,
    RequiresContact,
    RequiresLineOfSight,
    OutOfRange,
    OnCooldown,
    NotEnoughStamina,
    NotEnoughFocus,
    MissingResource,
}

/// Whether an error reports the given failed check.
pub open spec fn error_reports(e: UseError, c: UseCheck) -> bool {
    match c {
        UseCheck::Pass => false,
        UseCheck::Locked => e == UseError::Locked,
        UseCheck::RequiresContact => e matches UseError::ConstraintFailed(m) && m@ == "requires_contact"@,
        UseCheck::RequiresLineOfSight => e matches UseError::ConstraintFailed(m) && m@ == "requires_los"@,
        UseCheck::OutOfRange => e matches UseError::ConstraintFailed(m) && m@ == "range"@,
        UseCheck::OnCooldown => e == UseError::OnCooldown,
        UseCheck::NotEnoughStamina => e == UseError::NotEnoughStamina,
        UseCheck::NotEnoughFocus => e == UseError::NotEnoughFocus,
        UseCheck::MissingResource => e == UseError::MissingResource,
    }
}

pub struct UseResult {
    pub applied_costs: Vec<CostSpec>,
    pub emitted_signatures: Vec<SignatureInstance>,
    pub cooldown_turns: Option<i64>,
    pub mastery_stage: MasteryStage,
}

/// Cost numerator, cost denominator, risk numerator and risk denominator for a stage.
pub open spec fn cost_factors(stage: MasteryStage) -> (i64, i64, i64, i64) {
    match stage {
        MasteryStage::Raw => (100, 100, 100, 100),
        MasteryStage::Controlled => (95, 100, 90, 100),
        MasteryStage::Precise => (90, 100, 85, 100),
        MasteryStage::Silent => (85, 100, 70, 100),
        MasteryStage::Iconic => (80, 100, 65, 100),
    }
}

/// Strength numerator, strength denominator and persistence change for a stage.
pub open spec fn signature_factors(stage: MasteryStage) -> (i64, i64, i64) {
    match stage {
        MasteryStage::Raw => (100, 100, 0),
        MasteryStage::Controlled => (90, 100, 0),
        MasteryStage::Precise => (80, 100, -1i64),
        MasteryStage::Silent => (65, 100, -2i64),
        MasteryStage::Iconic => (60, 100, -2i64),
    }
}

pub fn mastery_cost_factors(stage: MasteryStage) -> (f: (i64, i64, i64, i64))
    ensures
        f == cost_factors(stage),
{
    match stage {
        MasteryStage::Raw => (100, 100, 100, 100),
        MasteryStage::Controlled => (95, 100, 90, 100),
        MasteryStage::Precise => (90, 100, 85, 100),
        MasteryStage::Silent => (85, 100, 70, 100),
        MasteryStage::Iconic => (80, 100, 65, 100),
    }
}

pub fn mastery_signature_factors(stage: MasteryStage) -> (f: (i64, i64, i64))
    ensures
        f == signature_factors(stage),
{
    match stage {
        MasteryStage::Raw => (100, 100, 0),
        MasteryStage::Controlled => (90, 100, 0),
        MasteryStage::Precise => (80, 100, -1),
        MasteryStage::Silent => (65, 100, -2),
        MasteryStage::Iconic => (60, 100, -2),
    }
}

/// A positive amount scaled by `num / den`, rounded up and kept at least one;
/// amounts that are not positive are left alone.
pub open spec fn scaled_value(value: int, num: int, den: int) -> int {
    if value <= 0 {
        value
    } else {
        let scaled = (value * num + den - 1) / den;
        if scaled < 1 {
            1
        } else {
            scaled
        }
    }
}

/// Whether scaling `value` by `num / den` stays within `i64`.
pub open spec fn scalable(value: int, num: int, den: int) -> bool {
    value <= 0 || value * num + den <= i64::MAX
}

pub fn scale_cost(value: i64, num: i64, den: i64) -> (r: i64)
    requires
        den > 0,
        num >= 0,
        scalable(value as int, num as int, den as int),
    ensures
        r == scaled_value(value as int, num as int, den as int),
{
    if value <= 0 {
        return value;
    }
    assert(value * num >= 0) by (nonlinear_arith)
        requires
            value > 0,
            num >= 0,
    ;
    let scaled: i64 = (value * num + den - 1) / den;
    if scaled < 1 {
        1
    } else {
        scaled
    }
}

/// The stage a use is made at: the recorded one, or raw.
pub open spec fn stage_or_raw(m: Option<MasteryStage>) -> MasteryStage {
    match m {
        Some(s) => s,
        None => MasteryStage::Raw,
    }
}

/// A cost with its amount scaled for the stage.
pub open spec fn scaled_cost(c: CostSpec, stage: MasteryStage) -> CostSpec {
    let (num, den, _, _) = cost_factors(stage);
    CostSpec {
        cost_type: c.cost_type,
        value: match c.value {
            Some(v) => Some(scaled_value(v as int, num as int, den as int) as i64),
            None => None,
        },
        risk_type: c.risk_type,
    }
}

/// Every cost scaled for the stage.
pub open spec fn scaled_costs(costs: Seq<CostSpec>, stage: MasteryStage) -> Seq<CostSpec> {
    costs.map_values(|c: CostSpec| scaled_cost(c, stage))
}

/// Every amount among the costs can be scaled for the stage.
pub open spec fn costs_scalable(costs: Seq<CostSpec>, stage: MasteryStage) -> bool {
    let (num, den, _, _) = cost_factors(stage);
    forall|i: int|
        0 <= i < costs.len() ==> ((#[trigger] costs[i]).value matches Some(v) ==> scalable(
            v as int,
            num as int,
            den as int,
        ))
}

/// A signature with its strength and persistence adjusted for the stage.
pub open spec fn scaled_signature(s: SignatureSpec, stage: MasteryStage) -> SignatureSpec {
    let (num, den, delta) = signature_factors(stage);
    let p = s.persistence_turns + delta;
    SignatureSpec {
        signature_type: s.signature_type,
        strength: scaled_value(s.strength as int, num as int, den as int) as i64,
        persistence_turns: (if p < 1 {
            1
        } else {
            p
        }) as i64,
    }
}

/// Every signature can be adjusted for the stage within `i64`.
pub open spec fn signatures_scalable(sigs: Seq<SignatureSpec>, stage: MasteryStage) -> bool {
    let (num, den, delta) = signature_factors(stage);
    forall|i: int|
        0 <= i < sigs.len() ==> scalable((#[trigger] sigs[i]).strength as int, num as int, den as int)
            && sigs[i].persistence_turns + delta >= i64::MIN
}

/// The amounts of the costs of one type, added up in order.
pub open spec fn cost_sum(costs: Seq<CostSpec>, t: CostType) -> int
    decreases costs.len(),
{
    if costs.len() == 0 {
        0
    } else {
        cost_sum(costs.drop_last(), t) + match costs.last().value {
            Some(v) => if costs.last().cost_type == t {
                v as int
            } else {
                0
            },
            None => 0,
        }
    }
}

/// Every running total of the amounts of one type fits in `i64`.
pub open spec fn cost_sums_fit(costs: Seq<CostSpec>, t: CostType) -> bool {
    forall|n: int| 0 <= n <= costs.len() ==> i64::MIN <= #[trigger] cost_sum(costs.take(n), t) <= i64::MAX
}

/// The largest amount among the costs of one type, if any has an amount.
pub open spec fn cost_max(costs: Seq<CostSpec>, t: CostType) -> Option<i64>
    decreases costs.len(),
{
    if costs.len() == 0 {
        None
    } else {
        let prev = cost_max(costs.drop_last(), t);
        let c = costs.last();
        if c.cost_type == t && c.value is Some {
            let v = c.value.unwrap();
            match prev {
                Some(m) => Some(if m >= v { m } else { v }),
                None => Some(v),
            }
        } else {
            prev
        }
    }
}

pub fn sum_costs(costs: &Vec<CostSpec>, cost_type: CostType) -> (total: i64)
    requires
        cost_sums_fit(costs@, cost_type),
    ensures
        total == cost_sum(costs@, cost_type),
{
    let mut total: i64 = 0;
    let mut i: usize = 0;
    while i < costs.len()
        invariant
            i <= costs@.len(),
            cost_sums_fit(costs@, cost_type),
            total == cost_sum(costs@.take(i as int), cost_type),
        decreases costs@.len() - i,
    {
        proof {
            assert(costs@.take(i + 1).drop_last() =~= costs@.take(i as int));
            assert(costs@.take(i + 1).last() == costs@[i as int]);
            assert(i64::MIN <= cost_sum(costs@.take(i + 1), cost_type) <= i64::MAX);
        }
        if costs[i].cost_type == cost_type {
            match costs[i].value {
                Some(v) => {
                    total = total + v;
                },
                None => {},
            }
        }
        i = i + 1;
    }
    assert(costs@.take(i as int) =~= costs@);
    total
}

pub fn max_cost(costs: &Vec<CostSpec>, cost_type: CostType) -> (m: Option<i64>)
    ensures
        m == cost_max(costs@, cost_type),
{
    let mut best: Option<i64> = None;
    let mut i: usize = 0;
    while i < costs.len()
        invariant
            i <= costs@.len(),
            best == cost_max(costs@.take(i as int), cost_type),
        decreases costs@.len() - i,
    {
        proof {
            assert(costs@.take(i + 1).drop_last() =~= costs@.take(i as int));
            assert(costs@.take(i + 1).last() == costs@[i as int]);
        }
        if costs[i].cost_type == cost_type {
            match costs[i].value {
                Some(v) => {
                    best = match best {
                        Some(b) => Some(if b >= v { b } else { v }),
                        None => Some(v),
                    };
                },
                None => {},
            }
        }
        i = i + 1;
    }
    assert(costs@.take(i as int) =~= costs@);
    best
}

fn clone_opt_string(s: &Option<String>) -> (r: Option<String>)
    ensures
        r == *s,
{
    match s {
        Some(v) => Some(v.clone()),
        None => None,
    }
}

pub fn apply_mastery_costs(costs: &Vec<CostSpec>, stage: MasteryStage) -> (r: Vec<CostSpec>)
    requires
        costs_scalable(costs@, stage),
    ensures
        r@ == scaled_costs(costs@, stage),
{
    let (cost_num, cost_den, _risk_num, _risk_den) = mastery_cost_factors(stage);
    let mut out: Vec<CostSpec> = Vec::new();
    let mut i: usize = 0;
    while i < costs.len()
        invariant
            i <= costs@.len(),
            costs_scalable(costs@, stage),
            (cost_num, cost_den) == (cost_factors(stage).0, cost_factors(stage).1),
            out@ == scaled_costs(costs@.take(i as int), stage),
        decreases costs@.len() - i,
    {
        let c = &costs[i];
        proof {
            assert(costs@[i as int] == *c);
        }
        let value = match c.value {
            Some(v) => Some(scale_cost(v, cost_num, cost_den)),
            None => None,
        };
        out.push(CostSpec { cost_type: c.cost_type, value, risk_type: clone_opt_string(&c.risk_type) });
        assert(scaled_costs(costs@.take(i + 1), stage) =~= scaled_costs(costs@.take(i as int), stage).push(scaled_cost(costs@[i as int], stage)));
        i = i + 1;
    }
    assert(costs@.take(i as int) =~= costs@);
    out
}

pub fn apply_mastery_signatures(signatures: &Vec<SignatureSpec>, stage: MasteryStage) -> (r: Vec<SignatureSpec>)
    requires
        signatures_scalable(signatures@, stage),
    ensures
        r@ == signatures@.map_values(|s: SignatureSpec| scaled_signature(s, stage)),
{
    let (num, den, delta) = mastery_signature_factors(stage);
    let mut out: Vec<SignatureSpec> = Vec::new();
    let mut i: usize = 0;
    while i < signatures.len()
        invariant
            i <= signatures@.len(),
            signatures_scalable(signatures@, stage),
            (num, den, delta) == signature_factors(stage),
            out@ == signatures@.take(i as int).map_values(|s: SignatureSpec| scaled_signature(s, stage)),
        decreases signatures@.len() - i,
    {
        let sig = signatures[i];
        proof {
            assert(signatures@[i as int] == sig);
        }
        let p: i64 = sig.persistence_turns + delta;
        let persistence_turns = if p < 1 { 1 } else { p };
        out.push(SignatureSpec {
            signature_type: sig.signature_type,
            strength: scale_cost(sig.strength, num, den),
            persistence_turns,
        });
        assert(signatures@.take(i + 1).map_values(|s: SignatureSpec| scaled_signature(s, stage)) =~= signatures@.take(i as int).map_values(|s: SignatureSpec| scaled_signature(s, stage)).push(scaled_signature(sig, stage)));
        i = i + 1;
    }
    assert(signatures@.take(i as int) =~= signatures@);
    out
}


/// The amount of the generic resource the actor holds.
pub open spec fn resource_available(actor: ActorState) -> i64 {
    if actor.resources.map().contains_key("resource"@) {
        actor.resources.map()["resource"@]
    } else {
        0
    }
}

/// Whether the unlock list, when there is one, holds the expression.
pub open spec fn is_unlocked(unlocked: Option<&Ledger<()>>, id: Seq<char>) -> bool {
    match unlocked {
        Some(u) => u.map().contains_key(id),
        None => true,
    }
}

/// The first check that a use fails, or `Pass`.
pub open spec fn use_check(
    actor: ActorState,
    mastery: Option<MasteryStage>,
    unlocked: Option<&Ledger<()>>,
    expr: ExpressionDef,
    target: TargetContext,
) -> UseCheck {
    let costs = scaled_costs(expr.costs@, stage_or_raw(mastery));
    let id = expr.id.0@;
    if !is_unlocked(unlocked, id) {
        UseCheck::Locked
    } else if expr.constraints.requires_contact && !target.has_contact {
        UseCheck::RequiresContact
    } else if expr.constraints.requires_los && !target.has_line_of_sight {
        UseCheck::RequiresLineOfSight
    } else if expr.constraints.range_m is Some && target.distance_m is Some
        && target.distance_m.unwrap() > expr.constraints.range_m.unwrap() {
        UseCheck::OutOfRange
    } else if actor.cooldowns.map().contains_key(id) && actor.cooldowns.map()[id] > 0 {
        UseCheck::OnCooldown
    } else if actor.stamina < cost_sum(costs, CostType::Stamina) {
        UseCheck::NotEnoughStamina
    } else if actor.focus < cost_sum(costs, CostType::Focus) {
        UseCheck::NotEnoughFocus
    } else if cost_sum(costs, CostType::Resource) > 0 && resource_available(actor) < cost_sum(
        costs,
        CostType::Resource,
    ) {
        UseCheck::MissingResource
    } else {
        UseCheck::Pass
    }
}

/// The amounts of the expression's costs and signatures can be worked out
/// within `i64` at the stage.
pub open spec fn use_arithmetic_fits(expr: ExpressionDef, stage: MasteryStage) -> bool {
    let costs = scaled_costs(expr.costs@, stage);
    &&& costs_scalable(expr.costs@, stage)
    &&& cost_sums_fit(costs, CostType::Stamina)
    &&& cost_sums_fit(costs, CostType::Focus)
    &&& cost_sums_fit(costs, CostType::Resource)
    &&& signatures_scalable(expr.signatures@, stage)
}

/// Whether the actor may use the expression on the target now.
pub fn can_use(ctx: &UseContext, expr: &ExpressionDef, target: &TargetContext) -> (r: Result<(), UseError>)
    requires
        use_arithmetic_fits(*expr, stage_or_raw(ctx.mastery)),
    ensures
        r is Ok <==> use_check(*old(ctx.actor), ctx.mastery, ctx.unlocked, *expr, *target) == UseCheck::Pass,
        r matches Err(e) ==> error_reports(e, use_check(*old(ctx.actor), ctx.mastery, ctx.unlocked, *expr, *target)),
        expr.constraints.requires_contact && !target.has_contact ==> r is Err,
        expr.constraints.requires_contact && !target.has_contact && (ctx.unlocked is None
            || ctx.unlocked.unwrap().map().contains_key(expr.id.0@)) ==> (r matches Err(UseError::ConstraintFailed(m))
            && m@ == "requires_contact"@),
{
    proof {
        reveal_strlit("requires_contact");
        reveal_strlit("requires_los");
        reveal_strlit("range");
        reveal_strlit("resource");
    }
    let mastery_stage = match ctx.mastery {
        Some(s) => s,
        None => MasteryStage::Raw,
    };
    let costs = apply_mastery_costs(&expr.costs, mastery_stage);
    match ctx.unlocked {
        Some(unlocked) => {
            if !unlocked.contains(expr.id.0.as_str()) {
                return Err(UseError::Locked);
            }
        },
        None => {},
    }
    if expr.constraints.requires_contact && !target.has_contact {
        return Err(UseError::ConstraintFailed("requires_contact"));
    }
    if expr.constraints.requires_los && !target.has_line_of_sight {
        return Err(UseError::ConstraintFailed("requires_los"));
    }
    match (expr.constraints.range_m, target.distance_m) {
        (Some(range), Some(distance)) => {
            if distance > range {
                return Err(UseError::ConstraintFailed("range"));
            }
        },
        _ => {},
    }
    match ctx.actor.cooldowns.get(expr.id.0.as_str()) {
        Some(turns) => {
            if *turns > 0 {
                return Err(UseError::OnCooldown);
            }
        },
        None => {},
    }
    let stamina_cost = sum_costs(&costs, CostType::Stamina);
    if ctx.actor.stamina < stamina_cost {
        return Err(UseError::NotEnoughStamina);
    }
    let focus_cost = sum_costs(&costs, CostType::Focus);
    if ctx.actor.focus < focus_cost {
        return Err(UseError::NotEnoughFocus);
    }
    let resource_cost = sum_costs(&costs, CostType::Resource);
    if resource_cost > 0 {
        let available: i64 = match ctx.actor.resources.get("resource") {
            Some(v) => *v,
            None => 0,
        };
        if available < resource_cost {
            return Err(UseError::MissingResource);
        }
    }
    Ok(())
}


/// A live trace of a signature specification.
pub open spec fn instance_of(s: SignatureSpec) -> SignatureInstance {
    SignatureInstance { signature: s, remaining_turns: s.spec_persistence() }
}

/// The amount that is taken from a pool for a total cost: the cost when positive, nothing otherwise.
pub open spec fn charged(cost: int) -> int {
    if cost > 0 {
        cost
    } else {
        0
    }
}

/// An expression that needs contact is never used on a target out of contact: unless it
/// is locked, the check fails on the contact constraint.
pub proof fn law_contact_required(
    actor: ActorState,
    mastery: Option<MasteryStage>,
    unlocked: Option<&Ledger<()>>,
    expr: ExpressionDef,
    target: TargetContext,
)
    requires
        expr.constraints.requires_contact,
        !target.has_contact,
    ensures
        use_check(actor, mastery, unlocked, expr, target) != UseCheck::Pass,
        (unlocked is None || unlocked.unwrap().map().contains_key(expr.id.0@)) ==> use_check(
            actor,
            mastery,
            unlocked,
            expr,
            target,
        ) == UseCheck::RequiresContact,
{
}

/// Two errors of the same kind, with the same message where they carry one.
pub open spec fn same_use_error(a: UseError, b: UseError) -> bool {
    match (a, b) {
        (UseError::ConstraintFailed(m), UseError::ConstraintFailed(n)) => m@ == n@,
        (UseError::ConstraintFailed(_), _) => false,
        (_, UseError::ConstraintFailed(_)) => false,
        _ => a == b,
    }
}

/// `can_use` and `use_power` agree: both succeed exactly when the check passes, and two
/// errors that report the same failed check are the same error. So, on the same actor,
/// mastery, unlocks, expression and target, a use fails exactly when `can_use` refuses it,
/// and with the same error.
pub proof fn law_use_matches_can_use(c: UseCheck, e1: UseError, e2: UseError)
    requires
        error_reports(e1, c),
        error_reports(e2, c),
    ensures
        c != UseCheck::Pass,
        same_use_error(e1, e2),
{
}

/// What `can_use` and `use_power` give on the same actor, mastery, unlocks, expression and
/// target (both state their results over the same `use_check`): one succeeds exactly when
/// the other does, and when they fail, they fail with the same error.
pub proof fn law_use_and_check_agree(c: UseCheck, checked: Result<(), UseError>, used: Result<UseResult, UseError>)
    requires
        checked is Ok <==> c == UseCheck::Pass,
        checked matches Err(e) ==> error_reports(e, c),
        used is Ok <==> c == UseCheck::Pass,
        used matches Err(e) ==> error_reports(e, c),
    ensures
        checked is Ok <==> used is Ok,
        checked matches Err(e1) ==> (used matches Err(e2) && same_use_error(e1, e2)),
{
    if let Err(e1) = checked {
        if let Err(e2) = used {
            law_use_matches_can_use(c, e1, e2);
        }
    }
}

/// Uses the expression: checks it as `can_use` does, then takes its costs from
/// the actor, starts its cooldown and emits its traces.
pub fn use_power(ctx: &mut UseContext, expr: &ExpressionDef, target: &TargetContext) -> (r: Result<UseResult, UseError>)
    requires
        use_arithmetic_fits(*expr, stage_or_raw(old(ctx).mastery)),
    ensures
        final(ctx).mastery == old(ctx).mastery,
        final(ctx).unlocked == old(ctx).unlocked,
        final(ctx).world == old(ctx).world,
        r is Ok <==> use_check(*old(ctx).actor, old(ctx).mastery, old(ctx).unlocked, *expr, *target) == UseCheck::Pass,
        r matches Err(e) ==> error_reports(e, use_check(*old(ctx).actor, old(ctx).mastery, old(ctx).unlocked, *expr, *target))
            && *final(ctx).actor == *old(ctx).actor,
        expr.constraints.requires_contact && !target.has_contact ==> r is Err && *final(ctx).actor == *old(ctx).actor,
        expr.constraints.requires_contact && !target.has_contact && (old(ctx).unlocked is None
            || old(ctx).unlocked.unwrap().map().contains_key(expr.id.0@)) ==> (r matches Err(UseError::ConstraintFailed(m))
            && m@ == "requires_contact"@),
        r matches Ok(res) ==> {
            let stage = stage_or_raw(old(ctx).mastery);
            let costs = scaled_costs(expr.costs@, stage);
            let stamina_cost = cost_sum(costs, CostType::Stamina);
            let focus_cost = cost_sum(costs, CostType::Focus);
            let resource_cost = cost_sum(costs, CostType::Resource);
            let old_actor = *old(ctx).actor;
            let new_actor = *final(ctx).actor;
            &&& res.mastery_stage == stage
            &&& res.applied_costs@ == costs
            &&& res.cooldown_turns == cost_max(costs, CostType::Cooldown)
            &&& res.emitted_signatures@ == expr.signatures@.map_values(
                |s: SignatureSpec| instance_of(scaled_signature(s, stage)),
            )
            &&& new_actor.stamina == old_actor.stamina - charged(stamina_cost)
            &&& new_actor.focus == old_actor.focus - charged(focus_cost)
            &&& new_actor.resources.map() == (if resource_cost > 0 {
                old_actor.resources.map().insert(
                    "resource"@,
                    (resource_available(old_actor) - resource_cost) as i64,
                )
            } else {
                old_actor.resources.map()
            })
            &&& new_actor.cooldowns.map() == match res.cooldown_turns {
                Some(t) => old_actor.cooldowns.map().insert(expr.id.0@, t),
                None => old_actor.cooldowns.map(),
            }
        },
{
    proof {
        reveal_strlit("resource");
    }
    let checked = can_use(&*ctx, expr, target);
    match checked {
        Err(e) => {
            return Err(e);
        },
        Ok(()) => {},
    }
    let mastery_stage = match ctx.mastery {
        Some(s) => s,
        None => MasteryStage::Raw,
    };
    let costs = apply_mastery_costs(&expr.costs, mastery_stage);
    let stamina_cost = sum_costs(&costs, CostType::Stamina);
    let focus_cost = sum_costs(&costs, CostType::Focus);
    let resource_cost = sum_costs(&costs, CostType::Resource);
    if stamina_cost > 0 {
        ctx.actor.stamina = ctx.actor.stamina - stamina_cost;
    }
    if focus_cost > 0 {
        ctx.actor.focus = ctx.actor.focus - focus_cost;
    }
    if resource_cost > 0 {
        let available: i64 = match ctx.actor.resources.get("resource") {
            Some(v) => *v,
            None => 0,
        };
        ctx.actor.resources.set(copy_str("resource"), available - resource_cost);
    }
    let cooldown_turns = max_cost(&costs, CostType::Cooldown);
    match cooldown_turns {
        Some(turns) => {
            ctx.actor.cooldowns.set(expr.id.0.clone(), turns);
        },
        None => {},
    }
    let scaled = apply_mastery_signatures(&expr.signatures, mastery_stage);
    let mut emitted_signatures: Vec<SignatureInstance> = Vec::new();
    let mut i: usize = 0;
    while i < scaled.len()
        invariant
            i <= scaled@.len(),
            scaled@ == expr.signatures@.map_values(|s: SignatureSpec| scaled_signature(s, mastery_stage)),
            emitted_signatures@ == scaled@.take(i as int).map_values(|s: SignatureSpec| instance_of(s)),
        decreases scaled@.len() - i,
    {
        let inst = scaled[i].to_instance();
        emitted_signatures.push(inst);
        assert(scaled@.take(i + 1).map_values(|s: SignatureSpec| instance_of(s)) =~= scaled@.take(i as int).map_values(|s: SignatureSpec| instance_of(s)).push(instance_of(scaled@[i as int])));
        i = i + 1;
    }
    assert(scaled@.take(i as int) =~= scaled@);
    assert(emitted_signatures@ =~= expr.signatures@.map_values(|s: SignatureSpec| instance_of(scaled_signature(s, mastery_stage))));
    Ok(UseResult { applied_costs: costs, emitted_signatures, cooldown_turns, mastery_stage })
}


/// Mastery never makes a cost dearer or a trace stronger: every stage scales
/// positive amounts by at most one, and never below one.
pub proof fn law_mastery_never_raises_costs(value: i64, stage: MasteryStage)
    ensures
        value > 0 ==> 1 <= scaled_value(value as int, cost_factors(stage).0 as int, cost_factors(stage).1 as int) <= value,
        value > 0 ==> 1 <= scaled_value(value as int, signature_factors(stage).0 as int, signature_factors(stage).1 as int) <= value,
        value <= 0 ==> scaled_value(value as int, cost_factors(stage).0 as int, cost_factors(stage).1 as int) == value,
{
    let v = value as int;
    let num = cost_factors(stage).0 as int;
    let den = cost_factors(stage).1 as int;
    let snum = signature_factors(stage).0 as int;
    let sden = signature_factors(stage).1 as int;
    if value > 0 {
        assert((v * num + den - 1) / den <= v) by (nonlinear_arith)
            requires
                v > 0,
                0 <= num <= den,
                den == 100,
        ;
        assert((v * snum + sden - 1) / sden <= v) by (nonlinear_arith)
            requires
                v > 0,
                0 <= snum <= sden,
                sden == 100,
        ;
    }
}

} // verus!

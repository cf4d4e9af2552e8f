use vstd::prelude::*;

use crate::content::repository::ExpressionId;
use crate::ledger::Ledger;
use crate::rules::expression::{ExpressionDef, ExpressionForm};
use crate::rules::mastery::{spec_stage_from_uses, stage_from_uses, MasteryStage};
use crate::simulation::storylet_state::StoryletState;
use crate::text::{concat3, copy_str, str_eq};

verus! {

broadcast use vstd::string::group_string_axioms;

/// How far one expression has been mastered, and how often it has been used.
#[derive(Debug, Clone, Copy, PartialEq, Eq, Structural)]
pub struct ExpressionMastery {
    pub stage: MasteryStage,
    pub uses: u32,
}

#[derive(Debug, Clone, Copy, PartialEq, Eq, Structural)]
pub struct Reputation {
    pub trust: i32,
    pub fear: i32,
    pub infamy: i32,
    pub symbolism: i32,
}

impl Default for Reputation {
    fn default() -> (r: Reputation)
        ensures
            r == (Reputation { trust: 0, fear: 0, infamy: 0, symbolism: 0 }),
    {
        Reputation { trust: 0, fear: 0, infamy: 0, symbolism: 0 }
    }
}

/// A character's growth: mastery per expression id, the expressions unlocked (each
/// once), reputation, and resistance to pressure.
pub struct GrowthState {
    pub mastery: Ledger<ExpressionMastery>,
    pub unlocked_expressions: Vec<ExpressionId>,
    pub reputation: Reputation,
    pub pressure_resistance: i32,
}

impl Default for GrowthState {
    fn default() -> (g: GrowthState)
        ensures
            g.mastery.map() == Map::<Seq<char>, ExpressionMastery>::empty(),
            g.unlocked_expressions@.len() == 0,
            g.reputation == (Reputation { trust: 0, fear: 0, infamy: 0, symbolism: 0 }),
            g.pressure_resistance == 0,
    {
        GrowthState {
            mastery: Ledger::new(),
            unlocked_expressions: Vec::new(),
            reputation: Reputation::default(),
            pressure_resistance: 0,
        }
    }
}

/// The ids of a list of expression ids, as text.
pub open spec fn id_views(ids: Seq<ExpressionId>) -> Seq<Seq<char>> {
    ids.map_values(|i: ExpressionId| i.0@)
}

/// The mastery of an expression before a use: what is recorded, or none yet.
pub open spec fn mastery_before(m: Map<Seq<char>, ExpressionMastery>, id: Seq<char>) -> ExpressionMastery {
    if m.contains_key(id) {
        m[id]
    } else {
        ExpressionMastery { stage: MasteryStage::Raw, uses: 0 }
    }
}

/// The mastery after one more use: one more use, capped at `u32::MAX`, and the stage
/// those uses reach.
pub open spec fn mastery_after(before: ExpressionMastery) -> ExpressionMastery {
    let uses = if before.uses == u32::MAX { u32::MAX } else { (before.uses + 1) as u32 };
    ExpressionMastery { stage: spec_stage_from_uses(uses), uses }
}

/// Adds an expression to an unlock list that does not hold it yet.
pub fn unlock(ids: &mut Vec<ExpressionId>, id: &ExpressionId)
    ensures
        id_views(final(ids)@) == if id_views(old(ids)@).contains(id.0@) {
            id_views(old(ids)@)
        } else {
            id_views(old(ids)@).push(id.0@)
        },
{
    let mut i: usize = 0;
    while i < ids.len()
        invariant
            i <= ids@.len(),
            forall|j: int| 0 <= j < i ==> #[trigger] ids@[j].0@ != id.0@,
        decreases ids@.len() - i,
    {
        if str_eq(ids[i].0.as_str(), id.0.as_str()) {
            assert(id_views(ids@)[i as int] == id.0@);
            return;
        }
        i = i + 1;
    }
    assert(!id_views(ids@).contains(id.0@)) by {
        if id_views(ids@).contains(id.0@) {
            let j = choose|j: int| 0 <= j < id_views(ids@).len() && id_views(ids@)[j] == id.0@;
            assert(ids@[j].0@ == id.0@);
        }
    }
    let ghost before = ids@;
    ids.push(ExpressionId(copy_str(id.0.as_str())));
    assert(id_views(ids@) =~= id_views(before).push(id.0@));
}

/// Records a use of an expression: it is unlocked, its use is counted, and the stage it
/// reaches is returned when that is a new stage.
pub fn record_expression_use(growth: &mut GrowthState, expr: &ExpressionDef) -> (r: Option<MasteryStage>)
    ensures
        ({
            let before = mastery_before(old(growth).mastery.map(), expr.id.0@);
            let after = mastery_after(before);
            &&& final(growth).mastery.map() == old(growth).mastery.map().insert(expr.id.0@, after)
            &&& r == if after.stage != before.stage { Some(after.stage) } else { None }
        }),
        id_views(final(growth).unlocked_expressions@) == if id_views(old(growth).unlocked_expressions@).contains(expr.id.0@) {
            id_views(old(growth).unlocked_expressions@)
        } else {
            id_views(old(growth).unlocked_expressions@).push(expr.id.0@)
        },
        final(growth).reputation == old(growth).reputation,
        final(growth).pressure_resistance == old(growth).pressure_resistance,
{
    unlock(&mut growth.unlocked_expressions, &expr.id);
    let before: ExpressionMastery = match growth.mastery.get(expr.id.0.as_str()) {
        Some(m) => *m,
        None => ExpressionMastery { stage: MasteryStage::Raw, uses: 0 },
    };
    let uses = before.uses.saturating_add(1);
    let next_stage = stage_from_uses(uses);
    let mut entry = ExpressionMastery { stage: before.stage, uses };
    let mut changed: Option<MasteryStage> = None;
    if next_stage != entry.stage {
        entry.stage = next_stage;
        changed = Some(next_stage);
    }
    growth.mastery.set(copy_str(expr.id.0.as_str()), entry);
    changed
}

/// The forms an expression of a form tends to evolve toward.
pub open spec fn preferred_form_list(form: ExpressionForm) -> Seq<ExpressionForm> {
    match form {
        ExpressionForm::Beam | ExpressionForm::Projectile => seq![ExpressionForm::Zone, ExpressionForm::Aura, ExpressionForm::Touch],
        ExpressionForm::Zone | ExpressionForm::Aura => seq![ExpressionForm::Projectile, ExpressionForm::Beam],
        ExpressionForm::Touch => seq![ExpressionForm::Sense, ExpressionForm::Aura],
        ExpressionForm::Sense => seq![ExpressionForm::Touch],
        ExpressionForm::Movement => seq![ExpressionForm::Touch, ExpressionForm::Aura],
        ExpressionForm::Summon => seq![ExpressionForm::Zone, ExpressionForm::Aura],
        ExpressionForm::Construct => seq![ExpressionForm::Projectile, ExpressionForm::Zone],
        ExpressionForm::Passive => seq![ExpressionForm::Touch],
    }
}

pub fn preferred_forms(form: ExpressionForm) -> (r: Vec<ExpressionForm>)
    ensures
        r@ == preferred_form_list(form),
{
    let mut r: Vec<ExpressionForm> = Vec::new();
    match form {
        ExpressionForm::Beam | ExpressionForm::Projectile => {
            r.push(ExpressionForm::Zone);
            r.push(ExpressionForm::Aura);
            r.push(ExpressionForm::Touch);
        },
        ExpressionForm::Zone | ExpressionForm::Aura => {
            r.push(ExpressionForm::Projectile);
            r.push(ExpressionForm::Beam);
        },
        ExpressionForm::Touch => {
            r.push(ExpressionForm::Sense);
            r.push(ExpressionForm::Aura);
        },
        ExpressionForm::Sense => {
            r.push(ExpressionForm::Touch);
        },
        ExpressionForm::Movement => {
            r.push(ExpressionForm::Touch);
            r.push(ExpressionForm::Aura);
        },
        ExpressionForm::Summon => {
            r.push(ExpressionForm::Zone);
            r.push(ExpressionForm::Aura);
        },
        ExpressionForm::Construct => {
            r.push(ExpressionForm::Projectile);
            r.push(ExpressionForm::Zone);
        },
        ExpressionForm::Passive => {
            r.push(ExpressionForm::Touch);
        },
    }
    assert(r@ =~= preferred_form_list(form));
    r
}

/// Whether `a` comes before `b` in the order of their characters.
pub open spec fn text_less(a: Seq<char>, b: Seq<char>) -> bool
    decreases a.len(),
{
    if b.len() == 0 {
        false
    } else if a.len() == 0 {
        true
    } else if a[0] != b[0] {
        (a[0] as u32) < (b[0] as u32)
    } else {
        text_less(a.drop_first(), b.drop_first())
    }
}

fn str_less(a: &str, b: &str) -> (r: bool)
    ensures
        r == text_less(a@, b@),
{
    let n = a.unicode_len();
    let m = b.unicode_len();
    let mut i: usize = 0;
    assert(a@.skip(0) =~= a@);
    assert(b@.skip(0) =~= b@);
    while i < n && i < m
        invariant
            n == a@.len(),
            m == b@.len(),
            i <= n,
            i <= m,
            text_less(a@, b@) == text_less(a@.skip(i as int), b@.skip(i as int)),
        decreases n - i,
    {
        let x = a.get_char(i);
        let y = b.get_char(i);
        assert(a@.skip(i as int)[0] == x);
        assert(b@.skip(i as int)[0] == y);
        if x != y {
            return (x as u32) < (y as u32);
        }
        assert(a@.skip(i as int).drop_first() =~= a@.skip(i + 1));
        assert(b@.skip(i as int).drop_first() =~= b@.skip(i + 1));
        i = i + 1;
    }
    assert(a@.skip(i as int).len() == n - i);
    assert(b@.skip(i as int).len() == m - i);
    i < m
}

/// The least of a non-empty list of ids, the earliest of equals.
pub open spec fn least_id(ids: Seq<Seq<char>>) -> Seq<char>
    decreases ids.len(),
{
    if ids.len() <= 1 {
        ids[0]
    } else {
        let m = least_id(ids.drop_last());
        if text_less(ids.last(), m) {
            ids.last()
        } else {
            m
        }
    }
}

/// Whether a candidate may be evolved into from `expr`: another expression not yet
/// unlocked.
pub open spec fn evolution_choice(expr: ExpressionDef, unlocked: Seq<Seq<char>>, c: ExpressionDef) -> bool {
    c.id.0@ != expr.id.0@ && !unlocked.contains(c.id.0@)
}

/// The ids of the candidates that may be evolved into, in order; with `preferred_only`,
/// only those of a form `expr` tends toward.
pub open spec fn choice_ids(expr: ExpressionDef, unlocked: Seq<Seq<char>>, cs: Seq<ExpressionDef>, preferred_only: bool) -> Seq<Seq<char>>
    decreases cs.len(),
{
    if cs.len() == 0 {
        Seq::empty()
    } else {
        let prev = choice_ids(expr, unlocked, cs.drop_last(), preferred_only);
        let c = cs.last();
        if evolution_choice(expr, unlocked, c) && (!preferred_only || preferred_form_list(expr.form).contains(c.form)) {
            prev.push(c.id.0@)
        } else {
            prev
        }
    }
}

/// The expression to evolve into: the least id among the choices of a preferred form,
/// else the least id among all choices, else none.
pub open spec fn evolution_target(expr: ExpressionDef, unlocked: Seq<Seq<char>>, cs: Seq<ExpressionDef>) -> Option<Seq<char>> {
    let preferred = choice_ids(expr, unlocked, cs, true);
    let all = choice_ids(expr, unlocked, cs, false);
    if all.len() == 0 {
        None
    } else if preferred.len() > 0 {
        Some(least_id(preferred))
    } else {
        Some(least_id(all))
    }
}

fn form_listed(forms: &Vec<ExpressionForm>, f: ExpressionForm) -> (b: bool)
    ensures
        b == forms@.contains(f),
{
    let mut i: usize = 0;
    while i < forms.len()
        invariant
            i <= forms@.len(),
            forall|j: int| 0 <= j < i ==> forms@[j] != f,
        decreases forms@.len() - i,
    {
        if forms[i] == f {
            return true;
        }
        i = i + 1;
    }
    false
}

fn id_listed(ids: &Vec<ExpressionId>, id: &str) -> (b: bool)
    ensures
        b == id_views(ids@).contains(id@),
{
    let mut i: usize = 0;
    while i < ids.len()
        invariant
            i <= ids@.len(),
            forall|j: int| 0 <= j < i ==> #[trigger] ids@[j].0@ != id@,
        decreases ids@.len() - i,
    {
        if str_eq(ids[i].0.as_str(), id) {
            assert(id_views(ids@)[i as int] == id@);
            return true;
        }
        i = i + 1;
    }
    assert(!id_views(ids@).contains(id@)) by {
        if id_views(ids@).contains(id@) {
            let j = choose|j: int| 0 <= j < id_views(ids@).len() && id_views(ids@)[j] == id@;
            assert(ids@[j].0@ == id@);
        }
    }
    false
}

/// The least id among the choices, or nothing when there are none.
fn least_choice(expr: &ExpressionDef, candidates: &[ExpressionDef], unlocked: &Vec<ExpressionId>, preferred: &Vec<ExpressionForm>, preferred_only: bool) -> (r: Option<usize>)
    requires
        preferred@ == preferred_form_list(expr.form),
    ensures
        match r {
            Some(k) => k < candidates@.len() && choice_ids(*expr, id_views(unlocked@), candidates@, preferred_only).len() > 0
                && candidates@[k as int].id.0@ == least_id(choice_ids(*expr, id_views(unlocked@), candidates@, preferred_only)),
            None => choice_ids(*expr, id_views(unlocked@), candidates@, preferred_only).len() == 0,
        },
{
    let ghost u = id_views(unlocked@);
    let mut best: Option<usize> = None;
    let mut i: usize = 0;
    assert(candidates@.take(0) =~= Seq::<ExpressionDef>::empty());
    while i < candidates.len()
        invariant
            i <= candidates@.len(),
            u == id_views(unlocked@),
            preferred@ == preferred_form_list(expr.form),
            match best {
                Some(k) => k < i && choice_ids(*expr, u, candidates@.take(i as int), preferred_only).len() > 0
                    && candidates@[k as int].id.0@ == least_id(choice_ids(*expr, u, candidates@.take(i as int), preferred_only)),
                None => choice_ids(*expr, u, candidates@.take(i as int), preferred_only).len() == 0,
            },
        decreases candidates@.len() - i,
    {
        assert(candidates@.take(i + 1).drop_last() =~= candidates@.take(i as int));
        assert(candidates@.take(i + 1).last() == candidates@[i as int]);
        let c = &candidates[i];
        let eligible = !str_eq(c.id.0.as_str(), expr.id.0.as_str()) && !id_listed(unlocked, c.id.0.as_str())
            && (!preferred_only || form_listed(preferred, c.form));
        if eligible {
            let ghost prev = choice_ids(*expr, u, candidates@.take(i as int), preferred_only);
            match best {
                None => {
                    assert(choice_ids(*expr, u, candidates@.take(i + 1), preferred_only) =~= seq![c.id.0@]);
                    best = Some(i);
                },
                Some(k) => {
                    assert(choice_ids(*expr, u, candidates@.take(i + 1), preferred_only) == prev.push(c.id.0@));
                    assert(prev.push(c.id.0@).drop_last() =~= prev);
                    if str_less(c.id.0.as_str(), candidates[k].id.0.as_str()) {
                        best = Some(i);
                    }
                },
            }
        }
        i = i + 1;
    }
    assert(candidates@.take(candidates@.len() as int) =~= candidates@);
    best
}

/// The expression an expression evolves into.
pub fn select_evolution_candidate(expr: &ExpressionDef, candidates: &[ExpressionDef], unlocked: &Vec<ExpressionId>) -> (r: Option<ExpressionId>)
    ensures
        match evolution_target(*expr, id_views(unlocked@), candidates@) {
            Some(id) => r matches Some(e) && e.0@ == id,
            None => r is None,
        },
{
    let preferred = preferred_forms(expr.form);
    let all = least_choice(expr, candidates, unlocked, &preferred, false);
    let k = match all {
        None => return None,
        Some(k) => k,
    };
    if preferred.len() > 0 {
        if let Some(p) = least_choice(expr, candidates, unlocked, &preferred, true) {
            return Some(ExpressionId(copy_str(candidates[p].id.0.as_str())));
        }
    }
    Some(ExpressionId(copy_str(candidates[k].id.0.as_str())))
}

/// The storylet flag a mastery stage raises, if any.
pub open spec fn stage_flag(stage: MasteryStage) -> Option<Seq<char>> {
    match stage {
        MasteryStage::Precise => Some("mastery_precise"@),
        MasteryStage::Silent => Some("mastery_silent"@),
        MasteryStage::Iconic => Some("mastery_iconic"@),
        _ => None,
    }
}

pub fn mastery_stage_flag(stage: MasteryStage) -> (r: Option<&'static str>)
    ensures
        match stage_flag(stage) {
            Some(f) => r matches Some(s) && s@ == f,
            None => r is None,
        },
{
    match stage {
        MasteryStage::Precise => Some("mastery_precise"),
        MasteryStage::Silent => Some("mastery_silent"),
        MasteryStage::Iconic => Some("mastery_iconic"),
        _ => None,
    }
}

/// The storylet flags after a use that reached `change`: a stage with a flag raises it,
/// once plain and once for the expression.
pub open spec fn flags_after_use(flags: Map<Seq<char>, bool>, change: Option<MasteryStage>, id: Seq<char>) -> Map<Seq<char>, bool> {
    match change {
        Some(stage) => match stage_flag(stage) {
            Some(f) => flags.insert(f, true).insert(f + "_"@ + id, true),
            None => flags,
        },
        None => flags,
    }
}

/// Records a use of an expression as `record_expression_use` does and, when the use
/// reaches a new stage, raises that stage's storylet flags. Returns the new stage.
pub fn apply_growth_on_use(growth: &mut GrowthState, expr: &ExpressionDef, storylet_state: &mut StoryletState) -> (r: Option<MasteryStage>)
    ensures
        ({
            let before = mastery_before(old(growth).mastery.map(), expr.id.0@);
            let after = mastery_after(before);
            &&& final(growth).mastery.map() == old(growth).mastery.map().insert(expr.id.0@, after)
            &&& r == if after.stage != before.stage { Some(after.stage) } else { None }
        }),
        id_views(final(growth).unlocked_expressions@) == if id_views(old(growth).unlocked_expressions@).contains(expr.id.0@) {
            id_views(old(growth).unlocked_expressions@)
        } else {
            id_views(old(growth).unlocked_expressions@).push(expr.id.0@)
        },
        final(growth).reputation == old(growth).reputation,
        final(growth).pressure_resistance == old(growth).pressure_resistance,
        final(storylet_state).flags.map() == flags_after_use(old(storylet_state).flags.map(), r, expr.id.0@),
        final(storylet_state).fired == old(storylet_state).fired,
        final(storylet_state).cooldowns == old(storylet_state).cooldowns,
{
    let change = record_expression_use(growth, expr);
    if let Some(stage) = change {
        if let Some(flag) = mastery_stage_flag(stage) {
            proof {
                reveal_strlit("_");
            }
            storylet_state.flags.set(copy_str(flag), true);
            storylet_state.flags.set(concat3(flag, "_", expr.id.0.as_str()), true);
        }
    }
    change
}

/// Unlocks the expression that `expr` evolves into among `candidates`, if there is one,
/// and returns it.
pub fn unlock_evolution(growth: &mut GrowthState, expr: &ExpressionDef, candidates: &[ExpressionDef]) -> (r: Option<ExpressionId>)
    ensures
        match evolution_target(*expr, id_views(old(growth).unlocked_expressions@), candidates@) {
            Some(id) => r matches Some(e) && e.0@ == id && id_views(final(growth).unlocked_expressions@) == (
                if id_views(old(growth).unlocked_expressions@).contains(id) {
                    id_views(old(growth).unlocked_expressions@)
                } else {
                    id_views(old(growth).unlocked_expressions@).push(id)
                }),
            None => r is None && final(growth).unlocked_expressions@ == old(growth).unlocked_expressions@,
        },
        final(growth).mastery == old(growth).mastery,
        final(growth).reputation == old(growth).reputation,
        final(growth).pressure_resistance == old(growth).pressure_resistance,
{
    let target = select_evolution_candidate(expr, candidates, &growth.unlocked_expressions);
    if let Some(id) = &target {
        unlock(&mut growth.unlocked_expressions, id);
    }
    target
}

/// Sets an expression's mastery as if it had been used `uses` times, and unlocks it.
pub fn seed_mastery(growth: &mut GrowthState, expr_id: &str, uses: u32)
    ensures
        final(growth).mastery.map() == old(growth).mastery.map().insert(
            expr_id@,
            ExpressionMastery { stage: spec_stage_from_uses(uses), uses },
        ),
        id_views(final(growth).unlocked_expressions@) == if id_views(old(growth).unlocked_expressions@).contains(expr_id@) {
            id_views(old(growth).unlocked_expressions@)
        } else {
            id_views(old(growth).unlocked_expressions@).push(expr_id@)
        },
        final(growth).reputation == old(growth).reputation,
        final(growth).pressure_resistance == old(growth).pressure_resistance,
{
    let id = ExpressionId(copy_str(expr_id));
    unlock(&mut growth.unlocked_expressions, &id);
    let stage = stage_from_uses(uses);
    growth.mastery.set(copy_str(expr_id), ExpressionMastery { stage, uses });
}

} // verus!

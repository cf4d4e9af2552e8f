use vstd::prelude::*;

use crate::components::persona::{Alignment, PersonaType};
use crate::data::storylets::Storylet;
use crate::simulation::endgame::TransformationState;
use crate::simulation::storylet_state::StoryletState;
use crate::simulation::storylets::{
    has_gate_requirements, is_punctuation_storylet, punctuation_storylet,
    storylet_has_gate_requirements,
};
use crate::text::{
    contains_str, copy_str, eq_ignore_ascii_case, eq_ignore_case_chars, has_prefix, parse_i32,
    parsed_i32, split_whitespace, str_eq, strip_prefix, trim, trim_chars, views, words_of,
};

verus! {

broadcast use vstd::string::group_string_axioms;

/// Turns a punctuation storylet keeps the narrative in punctuation mode.
pub const DEFAULT_PUNCTUATION_TURNS: i32 = 2;

/// Turns before another punctuation storylet may fire.
pub const DEFAULT_PUNCTUATION_COOLDOWN_TURNS: i32 = 3;

/// What storylet preconditions are judged against: the character, the place and the
/// pressures, each gauge as a whole number.
pub struct StoryletContext {
    pub alignment: Alignment,
    pub active_persona: Option<PersonaType>,
    /// The storylet flags that are set.
    pub flags: Vec<String>,
    pub endgame_state: Option<TransformationState>,
    pub public_suspicion: i32,
    pub civilian_suspicion: i32,
    pub wanted_level: i32,
    pub exposure_risk: i32,
    pub heat: i32,
    pub surveillance_level: i32,
    pub crime_pressure: i32,
    pub case_progress: i32,
    pub has_visible_signatures: bool,
    pub is_day: bool,
    pub stress: i32,
    pub reputation: i32,
    pub pressure_identity: i32,
    pub pressure_moral: i32,
    pub pressure_institutional: i32,
    pub pressure_resource: i32,
    pub pressure_temporal: i32,
    pub pressure_psychological: i32,
}

/// Whether a storylet may fire, and the preconditions it met (all of them when it may,
/// none otherwise).
pub struct StoryletEligibility {
    pub eligible: bool,
    pub matched: Vec<String>,
}

/// The alignment a condition names, in any case.
pub open spec fn alignment_named(v: Seq<char>) -> Option<Alignment> {
    if eq_ignore_case_chars(v, "HERO"@) {
        Some(Alignment::Hero)
    } else if eq_ignore_case_chars(v, "VIGILANTE"@) {
        Some(Alignment::Vigilante)
    } else if eq_ignore_case_chars(v, "VILLAIN"@) {
        Some(Alignment::Villain)
    } else {
        None
    }
}

/// The persona type a condition names, in any case.
pub open spec fn persona_named(v: Seq<char>) -> Option<PersonaType> {
    if eq_ignore_case_chars(v, "CIVILIAN"@) {
        Some(PersonaType::Civilian)
    } else if eq_ignore_case_chars(v, "MASKED"@) {
        Some(PersonaType::Masked)
    } else {
        None
    }
}

/// The endgame phase a condition names, in any case; judgement may be spelt either way.
pub open spec fn endgame_named(v: Seq<char>) -> Option<TransformationState> {
    if eq_ignore_case_chars(v, "EXPOSED"@) {
        Some(TransformationState::Exposed)
    } else if eq_ignore_case_chars(v, "REGISTRATION"@) {
        Some(TransformationState::Registration)
    } else if eq_ignore_case_chars(v, "COSMIC_JUDGEMENT"@) || eq_ignore_case_chars(v, "COSMIC_JUDGMENT"@) {
        Some(TransformationState::CosmicJudgement)
    } else if eq_ignore_case_chars(v, "ASCENSION"@) {
        Some(TransformationState::Ascension)
    } else if eq_ignore_case_chars(v, "EXILE"@) {
        Some(TransformationState::Exile)
    } else {
        None
    }
}

/// The gauge a numeric condition reads.
pub open spec fn metric_value(key: Seq<char>, ctx: StoryletContext) -> Option<i32> {
    if key == "public.suspicion"@ {
        Some(ctx.public_suspicion)
    } else if key == "civilian.suspicion"@ {
        Some(ctx.civilian_suspicion)
    } else if key == "wanted.level"@ {
        Some(ctx.wanted_level)
    } else if key == "exposure.risk"@ {
        Some(ctx.exposure_risk)
    } else if key == "heat"@ {
        Some(ctx.heat)
    } else if key == "surveillance.level"@ {
        Some(ctx.surveillance_level)
    } else if key == "gang.pressure"@ || key == "crime.pressure"@ {
        Some(ctx.crime_pressure)
    } else if key == "case.progress"@ {
        Some(ctx.case_progress)
    } else if key == "stress"@ {
        Some(ctx.stress)
    } else if key == "reputation"@ {
        Some(ctx.reputation)
    } else if key == "pressure.identity"@ {
        Some(ctx.pressure_identity)
    } else if key == "pressure.moral"@ {
        Some(ctx.pressure_moral)
    } else if key == "pressure.institutional"@ {
        Some(ctx.pressure_institutional)
    } else if key == "pressure.resource"@ {
        Some(ctx.pressure_resource)
    } else if key == "pressure.temporal"@ {
        Some(ctx.pressure_temporal)
    } else if key == "pressure.psychological"@ {
        Some(ctx.pressure_psychological)
    } else {
        None
    }
}

/// Whether `left op right` holds; an unknown operator never does.
pub open spec fn comparison_holds(left: i32, right: i32, op: Seq<char>) -> bool {
    if op == ">="@ {
        left >= right
    } else if op == "<="@ {
        left <= right
    } else if op == ">"@ {
        left > right
    } else if op == "<"@ {
        left < right
    } else if op == "=="@ {
        left == right
    } else if op == "!="@ {
        left != right
    } else {
        false
    }
}

/// Whether `found` stands in relation `op` (`==` or `!=`) to `expected`.
pub open spec fn equality_holds<T>(found: T, expected: T, op: Seq<char>) -> bool {
    if op == "=="@ {
        found == expected
    } else if op == "!="@ {
        found != expected
    } else {
        false
    }
}

/// A three-word condition `left op right`.
pub open spec fn comparison_condition(left: Seq<char>, op: Seq<char>, right: Seq<char>, ctx: StoryletContext) -> bool {
    if left == "alignment"@ {
        match alignment_named(right) {
            Some(e) => equality_holds(ctx.alignment, e, op),
            None => false,
        }
    } else if left == "persona"@ {
        match persona_named(right) {
            Some(e) => equality_holds(ctx.active_persona, Some(e), op),
            None => false,
        }
    } else if left == "endgame.state"@ {
        match endgame_named(right) {
            Some(e) => equality_holds(ctx.endgame_state, Some(e), op),
            None => false,
        }
    } else {
        match (metric_value(left, ctx), parsed_i32(right)) {
            (Some(l), Some(r)) => comparison_holds(l, r, op),
            _ => false,
        }
    }
}

/// Whether a storylet precondition holds: a blank one always does; the time of day,
/// visible signatures and flags are read directly; anything else must be three words.
pub open spec fn condition_holds(condition: Seq<char>, ctx: StoryletContext) -> bool {
    let c = trim_chars(condition);
    let parts = words_of(c);
    if c.len() == 0 {
        true
    } else if c == "time.is_day"@ {
        ctx.is_day
    } else if c == "time.is_night"@ {
        !ctx.is_day
    } else if c == "signatures.visible"@ {
        ctx.has_visible_signatures
    } else if has_prefix(c, "flag."@) {
        views(ctx.flags@).contains(c.skip("flag."@.len() as int))
    } else if parts.len() != 3 {
        false
    } else {
        comparison_condition(parts[0], parts[1], parts[2], ctx)
    }
}

/// Every one of the conditions holds.
pub open spec fn all_conditions_hold(conditions: Seq<String>, ctx: StoryletContext) -> bool {
    forall|i: int| 0 <= i < conditions.len() ==> condition_holds(#[trigger] conditions[i]@, ctx)
}

pub fn parse_alignment(value: &str) -> (r: Option<Alignment>)
    ensures
        r == alignment_named(value@),
{
    if eq_ignore_ascii_case(value, "HERO") {
        Some(Alignment::Hero)
    } else if eq_ignore_ascii_case(value, "VIGILANTE") {
        Some(Alignment::Vigilante)
    } else if eq_ignore_ascii_case(value, "VILLAIN") {
        Some(Alignment::Villain)
    } else {
        None
    }
}

pub fn parse_persona_type(value: &str) -> (r: Option<PersonaType>)
    ensures
        r == persona_named(value@),
{
    if eq_ignore_ascii_case(value, "CIVILIAN") {
        Some(PersonaType::Civilian)
    } else if eq_ignore_ascii_case(value, "MASKED") {
        Some(PersonaType::Masked)
    } else {
        None
    }
}

pub fn parse_endgame_state(value: &str) -> (r: Option<TransformationState>)
    ensures
        r == endgame_named(value@),
{
    if eq_ignore_ascii_case(value, "EXPOSED") {
        Some(TransformationState::Exposed)
    } else if eq_ignore_ascii_case(value, "REGISTRATION") {
        Some(TransformationState::Registration)
    } else if eq_ignore_ascii_case(value, "COSMIC_JUDGEMENT") || eq_ignore_ascii_case(value, "COSMIC_JUDGMENT") {
        Some(TransformationState::CosmicJudgement)
    } else if eq_ignore_ascii_case(value, "ASCENSION") {
        Some(TransformationState::Ascension)
    } else if eq_ignore_ascii_case(value, "EXILE") {
        Some(TransformationState::Exile)
    } else {
        None
    }
}

pub fn numeric_metric(key: &str, ctx: &StoryletContext) -> (r: Option<i32>)
    ensures
        r == metric_value(key@, *ctx),
{
    if str_eq(key, "public.suspicion") {
        Some(ctx.public_suspicion)
    } else if str_eq(key, "civilian.suspicion") {
        Some(ctx.civilian_suspicion)
    } else if str_eq(key, "wanted.level") {
        Some(ctx.wanted_level)
    } else if str_eq(key, "exposure.risk") {
        Some(ctx.exposure_risk)
    } else if str_eq(key, "heat") {
        Some(ctx.heat)
    } else if str_eq(key, "surveillance.level") {
        Some(ctx.surveillance_level)
    } else if str_eq(key, "gang.pressure") || str_eq(key, "crime.pressure") {
        Some(ctx.crime_pressure)
    } else if str_eq(key, "case.progress") {
        Some(ctx.case_progress)
    } else if str_eq(key, "stress") {
        Some(ctx.stress)
    } else if str_eq(key, "reputation") {
        Some(ctx.reputation)
    } else if str_eq(key, "pressure.identity") {
        Some(ctx.pressure_identity)
    } else if str_eq(key, "pressure.moral") {
        Some(ctx.pressure_moral)
    } else if str_eq(key, "pressure.institutional") {
        Some(ctx.pressure_institutional)
    } else if str_eq(key, "pressure.resource") {
        Some(ctx.pressure_resource)
    } else if str_eq(key, "pressure.temporal") {
        Some(ctx.pressure_temporal)
    } else if str_eq(key, "pressure.psychological") {
        Some(ctx.pressure_psychological)
    } else {
        None
    }
}

/// Each comparison operator compares as its symbol says: `>=`, `<=`, `>`, `<` order the
/// numbers, `==` holds of equal ones and `!=` of different ones, exactly where `==` fails;
/// any other operator never holds.
pub proof fn lemma_comparison_ops(left: i32, right: i32)
    ensures
        comparison_holds(left, right, ">="@) <==> left >= right,
        comparison_holds(left, right, "<="@) <==> left <= right,
        comparison_holds(left, right, ">"@) <==> left > right,
        comparison_holds(left, right, "<"@) <==> left < right,
        comparison_holds(left, right, "=="@) <==> left == right,
        comparison_holds(left, right, "!="@) <==> left != right,
        comparison_holds(left, right, "!="@) <==> !comparison_holds(left, right, "=="@),
        comparison_holds(left, right, ">"@) <==> !comparison_holds(left, right, "<="@),
        comparison_holds(left, right, "<"@) <==> !comparison_holds(left, right, ">="@),
{
    reveal_strlit(">=");
    reveal_strlit("<=");
    reveal_strlit(">");
    reveal_strlit("<");
    reveal_strlit("==");
    reveal_strlit("!=");
    assert(">="@[0] == '>');
    assert("<="@[0] == '<');
    assert(">"@[0] == '>');
    assert("<"@[0] == '<');
    assert("=="@[0] == '=');
    assert("!="@[0] == '!');
    assert(">="@.len() == 2);
    assert("<="@.len() == 2);
    assert(">"@.len() == 1);
    assert("<"@.len() == 1);
    assert("=="@.len() == 2);
    assert("!="@.len() == 2);
    assert(">="@ != "<="@) by { assert(">="@[0] != "<="@[0]); }
    assert(">="@ != ">"@);
    assert(">="@ != "<"@);
    assert(">="@ != "=="@) by { assert(">="@[0] != "=="@[0]); }
    assert(">="@ != "!="@) by { assert(">="@[0] != "!="@[0]); }
    assert("<="@ != ">"@);
    assert("<="@ != "<"@);
    assert("<="@ != "=="@) by { assert("<="@[0] != "=="@[0]); }
    assert("<="@ != "!="@) by { assert("<="@[0] != "!="@[0]); }
    assert(">"@ != "<"@) by { assert(">"@[0] != "<"@[0]); }
    assert(">"@ != "=="@);
    assert(">"@ != "!="@);
    assert("<"@ != "=="@);
    assert("<"@ != "!="@);
    assert("=="@ != "!="@) by { assert("=="@[0] != "!="@[0]); }
}

pub fn compare_numeric(left: i32, right: i32, op: &str) -> (b: bool)
    ensures
        b == comparison_holds(left, right, op@),
        op@ == ">="@ ==> (b <==> left >= right),
        op@ == "<="@ ==> (b <==> left <= right),
        op@ == ">"@ ==> (b <==> left > right),
        op@ == "<"@ ==> (b <==> left < right),
        op@ == "=="@ ==> (b <==> left == right),
        op@ == "!="@ ==> (b <==> left != right),
{
    proof {
        lemma_comparison_ops(left, right);
    }
    if str_eq(op, ">=") {
        left >= right
    } else if str_eq(op, "<=") {
        left <= right
    } else if str_eq(op, ">") {
        left > right
    } else if str_eq(op, "<") {
        left < right
    } else if str_eq(op, "==") {
        left == right
    } else if str_eq(op, "!=") {
        left != right
    } else {
        false
    }
}

fn eval_comparison(left: &str, op: &str, right: &str, ctx: &StoryletContext) -> (b: bool)
    ensures
        b == comparison_condition(left@, op@, right@, *ctx),
{
    if str_eq(left, "alignment") {
        match parse_alignment(right) {
            Some(e) => {
                if str_eq(op, "==") {
                    ctx.alignment == e
                } else if str_eq(op, "!=") {
                    ctx.alignment != e
                } else {
                    false
                }
            },
            None => false,
        }
    } else if str_eq(left, "persona") {
        match parse_persona_type(right) {
            Some(e) => {
                let same = match ctx.active_persona {
                    Some(p) => p == e,
                    None => false,
                };
                if str_eq(op, "==") {
                    same
                } else if str_eq(op, "!=") {
                    !same
                } else {
                    false
                }
            },
            None => false,
        }
    } else if str_eq(left, "endgame.state") {
        match parse_endgame_state(right) {
            Some(e) => {
                let same = match ctx.endgame_state {
                    Some(p) => p == e,
                    None => false,
                };
                if str_eq(op, "==") {
                    same
                } else if str_eq(op, "!=") {
                    !same
                } else {
                    false
                }
            },
            None => false,
        }
    } else {
        match numeric_metric(left, ctx) {
            Some(l) => match parse_i32(right) {
                Some(r) => compare_numeric(l, r, op),
                None => false,
            },
            None => false,
        }
    }
}

/// Judges one storylet precondition against the context.
pub fn eval_condition(condition: &str, ctx: &StoryletContext) -> (b: bool)
    ensures
        b == condition_holds(condition@, *ctx),
{
    let cond = trim(condition);
    if cond.unicode_len() == 0 {
        return true;
    }
    if str_eq(cond, "time.is_day") {
        return ctx.is_day;
    }
    if str_eq(cond, "time.is_night") {
        return !ctx.is_day;
    }
    if str_eq(cond, "signatures.visible") {
        return ctx.has_visible_signatures;
    }
    match strip_prefix(cond, "flag.") {
        Some(flag) => {
            return contains_str(&ctx.flags, flag.as_str());
        },
        None => {},
    }
    let parts = split_whitespace(cond);
    if parts.len() != 3 {
        return false;
    }
    eval_comparison(parts[0].as_str(), parts[1].as_str(), parts[2].as_str(), ctx)
}

/// Judges all of a storylet's preconditions, stopping at the first that fails.
pub fn evaluate_storylet(storylet: &Storylet, ctx: &StoryletContext) -> (e: StoryletEligibility)
    ensures
        e.eligible == all_conditions_hold(storylet.preconditions@, *ctx),
        views(e.matched@) == (if e.eligible { views(storylet.preconditions@) } else { Seq::<Seq<char>>::empty() }),
{
    let mut matched: Vec<String> = Vec::new();
    let mut i: usize = 0;
    while i < storylet.preconditions.len()
        invariant
            i <= storylet.preconditions@.len(),
            forall|j: int| 0 <= j < i ==> condition_holds(#[trigger] storylet.preconditions@[j]@, *ctx),
            views(matched@) == views(storylet.preconditions@.take(i as int)),
        decreases storylet.preconditions@.len() - i,
    {
        if eval_condition(storylet.preconditions[i].as_str(), ctx) {
            let ghost before = matched@;
            let c = copy_str(storylet.preconditions[i].as_str());
            matched.push(c);
            assert(storylet.preconditions@.take(i + 1) =~= storylet.preconditions@.take(i as int).push(storylet.preconditions@[i as int]));
            assert(views(storylet.preconditions@.take(i + 1)) =~= views(storylet.preconditions@.take(i as int)).push(storylet.preconditions@[i as int]@));
            assert(views(matched@) =~= views(before).push(c@));
        } else {
            let none: Vec<String> = Vec::new();
            assert(views(none@) =~= Seq::<Seq<char>>::empty());
            return StoryletEligibility { eligible: false, matched: none };
        }
        i = i + 1;
    }
    assert(storylet.preconditions@.take(i as int) =~= storylet.preconditions@);
    StoryletEligibility { eligible: true, matched }
}

/// Whether the storylet state lets a storylet fire: it has not fired, is not cooling
/// down, is gated by something, and fits the punctuation mode and its cooldown.
pub open spec fn passes_state_gates(s: Storylet, state: StoryletState, punctuation_only: bool, punctuation_cooldown: i32) -> bool {
    &&& !views(state.fired@).contains(s.id@)
    &&& !(state.cooldowns.map().contains_key(s.id@) && state.cooldowns.map()[s.id@] > 0)
    &&& has_gate_requirements(s)
    &&& !(punctuation_only && !punctuation_storylet(s))
    &&& !(punctuation_cooldown > 0 && punctuation_storylet(s))
}

pub fn storylet_passes_state_gates(
    storylet: &Storylet,
    storylet_state: &StoryletState,
    punctuation_only: bool,
    punctuation_cooldown: i32,
) -> (b: bool)
    ensures
        b == passes_state_gates(*storylet, *storylet_state, punctuation_only, punctuation_cooldown),
{
    if contains_str(&storylet_state.fired, storylet.id.as_str()) {
        return false;
    }
    match storylet_state.cooldowns.get(storylet.id.as_str()) {
        Some(turns) => {
            if *turns > 0 {
                return false;
            }
        },
        None => {},
    }
    if !storylet_has_gate_requirements(storylet) {
        return false;
    }
    let punctuation = is_punctuation_storylet(storylet);
    if punctuation_only && !punctuation {
        return false;
    }
    if punctuation_cooldown > 0 && punctuation {
        return false;
    }
    true
}

/// A storylet that may fire now: the state lets it and its preconditions hold.
pub open spec fn open_for_turn(s: Storylet, state: StoryletState, punctuation_only: bool, punctuation_cooldown: i32, ctx: StoryletContext) -> bool {
    passes_state_gates(s, state, punctuation_only, punctuation_cooldown) && all_conditions_hold(s.preconditions@, ctx)
}

/// The first storylet from `start` on that may fire now.
pub open spec fn first_open_from(
    storylets: Seq<Storylet>,
    state: StoryletState,
    punctuation_only: bool,
    punctuation_cooldown: i32,
    ctx: StoryletContext,
    start: int,
) -> Option<int>
    decreases storylets.len() - start,
{
    if start < 0 || start >= storylets.len() {
        None
    } else if open_for_turn(storylets[start], state, punctuation_only, punctuation_cooldown, ctx) {
        Some(start)
    } else {
        first_open_from(storylets, state, punctuation_only, punctuation_cooldown, ctx, start + 1)
    }
}

/// A turn passes for the punctuation layer: its cooldown and its remaining turns count
/// down to zero, and the layer turns off as its last turn runs out.
pub fn tick_punctuation(only: &mut bool, turns: &mut i32, cooldown: &mut i32)
    ensures
        *final(cooldown) == if *old(cooldown) > 0 { *old(cooldown) - 1 } else { *old(cooldown) as int },
        *final(turns) == if *old(turns) > 0 { *old(turns) - 1 } else { *old(turns) as int },
        *final(only) == if *old(turns) == 1 { false } else { *old(only) },
{
    if *cooldown > 0 {
        *cooldown = *cooldown - 1;
    }
    if *turns > 0 {
        *turns = *turns - 1;
        if *turns == 0 {
            *only = false;
        }
    }
}

/// Picks the first storylet that may fire this turn and marks it fired; a punctuation
/// storylet also starts the punctuation cooldown. Returns its position.
pub fn select_storylet_for_turn(
    storylets: &[Storylet],
    storylet_state: &mut StoryletState,
    punctuation_only: bool,
    punctuation_cooldown: &mut i32,
    ctx: &StoryletContext,
) -> (r: Option<usize>)
    ensures
        match first_open_from(storylets@, *old(storylet_state), punctuation_only, *old(punctuation_cooldown), *ctx, 0) {
            Some(k) => r == Some(k as usize),
            None => r is None,
        },
        match r {
            Some(k) => {
                &&& views(final(storylet_state).fired@) == views(old(storylet_state).fired@).push(storylets@[k as int].id@)
                &&& *final(punctuation_cooldown) == (if punctuation_storylet(storylets@[k as int]) {
                    DEFAULT_PUNCTUATION_COOLDOWN_TURNS
                } else {
                    *old(punctuation_cooldown)
                })
            },
            None => final(storylet_state).fired@ == old(storylet_state).fired@ && *final(punctuation_cooldown) == *old(punctuation_cooldown),
        },
        final(storylet_state).cooldowns == old(storylet_state).cooldowns,
        final(storylet_state).flags == old(storylet_state).flags,
{
    let mut i: usize = 0;
    while i < storylets.len()
        invariant
            i <= storylets@.len(),
            *storylet_state == *old(storylet_state),
            *punctuation_cooldown == *old(punctuation_cooldown),
            first_open_from(storylets@, *storylet_state, punctuation_only, *punctuation_cooldown, *ctx, 0)
                == first_open_from(storylets@, *storylet_state, punctuation_only, *punctuation_cooldown, *ctx, i as int),
        decreases storylets@.len() - i,
    {
        let s = &storylets[i];
        if storylet_passes_state_gates(s, storylet_state, punctuation_only, *punctuation_cooldown)
            && evaluate_storylet(s, ctx).eligible {
            let ghost before = storylet_state.fired@;
            if is_punctuation_storylet(s) {
                *punctuation_cooldown = DEFAULT_PUNCTUATION_COOLDOWN_TURNS;
            }
            storylet_state.fired.push(copy_str(s.id.as_str()));
            assert(views(storylet_state.fired@) =~= views(before).push(s.id@));
            return Some(i);
        }
        i = i + 1;
    }
    None
}

/// Once a storylet is marked fired, the state gates keep it from firing again, whatever
/// the punctuation mode.
pub proof fn law_fired_storylet_does_not_repeat(
    s: Storylet,
    before: StoryletState,
    after: StoryletState,
    punctuation_only: bool,
    punctuation_cooldown: i32,
)
    requires
        views(after.fired@) == views(before.fired@).push(s.id@),
    ensures
        !passes_state_gates(s, after, punctuation_only, punctuation_cooldown),
{
    assert(views(after.fired@)[views(before.fired@).len() as int] == s.id@);
}

} // verus!

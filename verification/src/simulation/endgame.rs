use vstd::prelude::*;

use crate::simulation::case::{Case, CaseRegistry, CaseStatus};
use crate::simulation::storylet_state::StoryletState;
use crate::text::{copy_str, eq_ignore_ascii_case, eq_ignore_case_chars};

verus! {

broadcast use vstd::string::group_string_axioms;

#[derive(Debug, Clone, Copy, PartialEq, Eq, Structural)]
pub enum TransformationState {
    Exposed,
    Registration,
    CosmicJudgement,
    Ascension,
    Exile,
}

#[derive(Debug, Clone, Copy, PartialEq, Eq, Structural)]
pub enum TransformationTrigger {
    CaseCollapse,
    PressureSpike,
    FactionAttention,
}

#[derive(Debug, Clone, Copy, PartialEq, Eq, Structural)]
pub struct TransformationEvent {
    pub state: TransformationState,
    pub trigger: TransformationTrigger,
}

/// The phase of the endgame the run has reached, if any.
#[derive(Debug, Clone, Copy, PartialEq, Eq, Structural)]
pub struct EndgameState {
    pub phase: Option<TransformationState>,
}

impl Default for EndgameState {
    fn default() -> (s: EndgameState)
        ensures
            s.phase is None,
    {
        EndgameState { phase: None }
    }
}

/// An applied transformation and the narrative line it produced.
#[derive(Debug, Clone, Copy)]
pub struct EndgameTransition {
    pub event: TransformationEvent,
    pub narrative: &'static str,
}

/// The label shown for a phase.
pub open spec fn phase_label(state: Option<TransformationState>) -> Seq<char> {
    match state {
        None => "Dormant"@,
        Some(TransformationState::Exposed) => "Exposed"@,
        Some(TransformationState::Registration) => "Registration"@,
        Some(TransformationState::CosmicJudgement) => "Cosmic Judgement"@,
        Some(TransformationState::Ascension) => "Ascension"@,
        Some(TransformationState::Exile) => "Exile"@,
    }
}

/// The storylet flag raised when a transformation takes hold.
pub open spec fn flag_for(state: TransformationState) -> Seq<char> {
    match state {
        TransformationState::Exposed => "transformation_exposed"@,
        TransformationState::Registration => "transformation_registration"@,
        TransformationState::CosmicJudgement => "transformation_cosmic_judgement"@,
        TransformationState::Ascension => "transformation_ascension"@,
        TransformationState::Exile => "transformation_exile"@,
    }
}

/// The narrative line of a transformation.
pub open spec fn text_for(state: TransformationState) -> Seq<char> {
    match state {
        TransformationState::Exposed => "Your cover breaks. The city has a name and a face for you."@,
        TransformationState::Registration => "The registries open. Compliance or resistance becomes the story."@,
        TransformationState::CosmicJudgement => "The signal rises beyond the city. Something vast takes notice."@,
        TransformationState::Ascension => "Your power crests. The world bends to the new gravity you carry."@,
        TransformationState::Exile => "Faction attention becomes a net. Retreat to survive."@,
    }
}

/// The second flag some transformations raise, beside their own.
pub open spec fn extra_flag_for(state: TransformationState) -> Option<Seq<char>> {
    match state {
        TransformationState::Exposed => Some("endgame_exposed"@),
        TransformationState::Registration => Some("endgame_registration"@),
        TransformationState::CosmicJudgement => Some("endgame_cosmic"@),
        _ => None,
    }
}

/// Some active case has progressed to at least `threshold`.
pub open spec fn active_case_at_least(cases: Seq<Case>, threshold: u32) -> bool {
    exists|i: int| 0 <= i < cases.len() && cases[i].status == CaseStatus::Active && #[trigger] cases[i].progress >= threshold
}

/// A case close to completion exposes the hero; one far along forces registration.
pub open spec fn case_collapse(cases: Seq<Case>) -> Option<TransformationState> {
    if active_case_at_least(cases, 90) {
        Some(TransformationState::Exposed)
    } else if active_case_at_least(cases, 70) {
        Some(TransformationState::Registration)
    } else {
        None
    }
}

/// How many faction escalation levels read "critical" or "max", in any case.
pub open spec fn escalation_count(levels: Seq<String>) -> nat
    decreases levels.len(),
{
    if levels.len() == 0 {
        0
    } else {
        let l = levels.last()@;
        escalation_count(levels.drop_last()) + if eq_ignore_case_chars(l, "critical"@)
            || eq_ignore_case_chars(l, "max"@) {
            1nat
        } else {
            0nat
        }
    }
}

/// Two or more critical escalations drive the hero into exile.
pub open spec fn faction_attention(levels: Seq<String>) -> Option<TransformationState> {
    if escalation_count(levels) >= 2 {
        Some(TransformationState::Exile)
    } else {
        None
    }
}

/// The first transformation that applies: a case collapse, then a pressure spike,
/// then faction attention.
pub open spec fn transformation_for(
    cases: Seq<Case>,
    pressure_spike: Option<TransformationState>,
    levels: Seq<String>,
) -> Option<TransformationEvent> {
    match case_collapse(cases) {
        Some(s) => Some(TransformationEvent { state: s, trigger: TransformationTrigger::CaseCollapse }),
        None => match pressure_spike {
            Some(s) => Some(TransformationEvent { state: s, trigger: TransformationTrigger::PressureSpike }),
            None => match faction_attention(levels) {
                Some(s) => Some(TransformationEvent { state: s, trigger: TransformationTrigger::FactionAttention }),
                None => None,
            },
        },
    }
}

impl EndgameState {
    pub fn label(&self) -> (l: &'static str)
        ensures
            l@ == phase_label(self.phase),
    {
        endgame_phase_label(self.phase)
    }
}

pub fn endgame_phase_label(state: Option<TransformationState>) -> (l: &'static str)
    ensures
        l@ == phase_label(state),
{
    match state {
        None => "Dormant",
        Some(TransformationState::Exposed) => "Exposed",
        Some(TransformationState::Registration) => "Registration",
        Some(TransformationState::CosmicJudgement) => "Cosmic Judgement",
        Some(TransformationState::Ascension) => "Ascension",
        Some(TransformationState::Exile) => "Exile",
    }
}

/// The transformation that the open cases force, if any, judged by the furthest
/// progress among the active ones.
pub fn evaluate_case_pressure(cases: &CaseRegistry) -> (r: Option<TransformationState>)
    ensures
        r == case_collapse(cases.case_list()),
{
    let list = cases.case_slice();
    let mut any_active = false;
    let mut max_progress: u32 = 0;
    let mut i: usize = 0;
    while i < list.len()
        invariant
            i <= list@.len(),
            any_active == exists|j: int| 0 <= j < i && list@[j].status == CaseStatus::Active,
            forall|j: int| 0 <= j < i && list@[j].status == CaseStatus::Active ==> #[trigger] list@[j].progress <= max_progress,
            any_active ==> exists|j: int| 0 <= j < i && list@[j].status == CaseStatus::Active && #[trigger] list@[j].progress == max_progress,
            !any_active ==> max_progress == 0,
        decreases list@.len() - i,
    {
        let case = &list[i];
        if case.status == CaseStatus::Active {
            if !any_active || case.progress > max_progress {
                max_progress = case.progress;
            }
            any_active = true;
        }
        i = i + 1;
    }
    if !any_active {
        return None;
    }
    if max_progress >= 90 {
        return Some(TransformationState::Exposed);
    }
    if max_progress >= 70 {
        return Some(TransformationState::Registration);
    }
    None
}

/// Exile once at least two faction escalations reached a critical level.
pub fn evaluate_faction_attention(levels: &Vec<String>) -> (r: Option<TransformationState>)
    ensures
        r == faction_attention(levels@),
{
    let mut escalations: usize = 0;
    let mut i: usize = 0;
    while i < levels.len()
        invariant
            i <= levels@.len(),
            escalations == escalation_count(levels@.take(i as int)),
            escalations <= i,
        decreases levels@.len() - i,
    {
        assert(levels@.take(i as int) =~= levels@.take((i + 1) as int).drop_last());
        let level = levels[i].as_str();
        if eq_ignore_ascii_case(level, "critical") || eq_ignore_ascii_case(level, "max") {
            escalations = escalations + 1;
        }
        i = i + 1;
    }
    assert(levels@.take(levels@.len() as int) =~= levels@);
    if escalations >= 2 {
        return Some(TransformationState::Exile);
    }
    None
}

/// Which transformation happens now, if any. The pressure spike is judged by the
/// caller from the pressure gauges; it is consulted only when no case collapses.
pub fn evaluate_transformation(
    cases: &CaseRegistry,
    pressure_spike: Option<TransformationState>,
    faction_levels: &Vec<String>,
) -> (r: Option<TransformationEvent>)
    ensures
        r == transformation_for(cases.case_list(), pressure_spike, faction_levels@),
{
    if let Some(state) = evaluate_case_pressure(cases) {
        return Some(TransformationEvent { state, trigger: TransformationTrigger::CaseCollapse });
    }
    if let Some(state) = pressure_spike {
        return Some(TransformationEvent { state, trigger: TransformationTrigger::PressureSpike });
    }
    if let Some(state) = evaluate_faction_attention(faction_levels) {
        return Some(TransformationEvent { state, trigger: TransformationTrigger::FactionAttention });
    }
    None
}

fn transformation_flag(state: TransformationState) -> (f: &'static str)
    ensures
        f@ == flag_for(state),
{
    match state {
        TransformationState::Exposed => "transformation_exposed",
        TransformationState::Registration => "transformation_registration",
        TransformationState::CosmicJudgement => "transformation_cosmic_judgement",
        TransformationState::Ascension => "transformation_ascension",
        TransformationState::Exile => "transformation_exile",
    }
}

fn transformation_text(state: TransformationState) -> (t: &'static str)
    ensures
        t@ == text_for(state),
{
    match state {
        TransformationState::Exposed => "Your cover breaks. The city has a name and a face for you.",
        TransformationState::Registration => "The registries open. Compliance or resistance becomes the story.",
        TransformationState::CosmicJudgement => "The signal rises beyond the city. Something vast takes notice.",
        TransformationState::Ascension => "Your power crests. The world bends to the new gravity you carry.",
        TransformationState::Exile => "Faction attention becomes a net. Retreat to survive.",
    }
}

fn handle_exposed(storylet_state: &mut StoryletState) -> (t: &'static str)
    ensures
        t@ == text_for(TransformationState::Exposed),
        final(storylet_state).flags.map() == old(storylet_state).flags.map().insert("endgame_exposed"@, true),
        final(storylet_state).fired == old(storylet_state).fired,
        final(storylet_state).cooldowns == old(storylet_state).cooldowns,
{
    storylet_state.flags.set(copy_str("endgame_exposed"), true);
    transformation_text(TransformationState::Exposed)
}

fn handle_registration(storylet_state: &mut StoryletState) -> (t: &'static str)
    ensures
        t@ == text_for(TransformationState::Registration),
        final(storylet_state).flags.map() == old(storylet_state).flags.map().insert("endgame_registration"@, true),
        final(storylet_state).fired == old(storylet_state).fired,
        final(storylet_state).cooldowns == old(storylet_state).cooldowns,
{
    storylet_state.flags.set(copy_str("endgame_registration"), true);
    transformation_text(TransformationState::Registration)
}

fn handle_cosmic(storylet_state: &mut StoryletState) -> (t: &'static str)
    ensures
        t@ == text_for(TransformationState::CosmicJudgement),
        final(storylet_state).flags.map() == old(storylet_state).flags.map().insert("endgame_cosmic"@, true),
        final(storylet_state).fired == old(storylet_state).fired,
        final(storylet_state).cooldowns == old(storylet_state).cooldowns,
{
    storylet_state.flags.set(copy_str("endgame_cosmic"), true);
    transformation_text(TransformationState::CosmicJudgement)
}

/// The storylet flags after a transformation to `state` takes hold.
pub open spec fn flags_after(flags: Map<Seq<char>, bool>, state: TransformationState) -> Map<Seq<char>, bool> {
    let raised = flags.insert(flag_for(state), true);
    match extra_flag_for(state) {
        Some(extra) => raised.insert(extra, true),
        None => raised,
    }
}

/// Moves the endgame into the event's phase and raises its storylet flags; an event
/// for the phase already reached changes nothing and yields no transition.
pub fn apply_transformation_event(
    endgame_state: &mut EndgameState,
    storylet_state: &mut StoryletState,
    event: TransformationEvent,
) -> (r: Option<EndgameTransition>)
    ensures
        old(endgame_state).phase == Some(event.state) ==> {
            &&& r is None
            &&& *final(endgame_state) == *old(endgame_state)
            &&& final(storylet_state).flags.map() == old(storylet_state).flags.map()
        },
        old(endgame_state).phase != Some(event.state) ==> {
            &&& r matches Some(t) && t.event == event && t.narrative@ == text_for(event.state)
            &&& final(endgame_state).phase == Some(event.state)
            &&& final(storylet_state).flags.map() == flags_after(old(storylet_state).flags.map(), event.state)
        },
        final(storylet_state).fired == old(storylet_state).fired,
        final(storylet_state).cooldowns == old(storylet_state).cooldowns,
{
    if endgame_state.phase == Some(event.state) {
        return None;
    }
    endgame_state.phase = Some(event.state);
    storylet_state.flags.set(copy_str(transformation_flag(event.state)), true);
    let narrative = match event.state {
        TransformationState::Exposed => handle_exposed(storylet_state),
        TransformationState::Registration => handle_registration(storylet_state),
        TransformationState::CosmicJudgement => handle_cosmic(storylet_state),
        _ => transformation_text(event.state),
    };
    Some(EndgameTransition { event, narrative })
}

/// Raising a transformation's flags a second time leaves them as the first time did.
pub proof fn law_transformation_flags_idempotent(flags: Map<Seq<char>, bool>, state: TransformationState)
    ensures
        flags_after(flags_after(flags, state), state) == flags_after(flags, state),
{
    let once = flags_after(flags, state);
    assert(flags_after(once, state) =~= once);
}

} // verus!

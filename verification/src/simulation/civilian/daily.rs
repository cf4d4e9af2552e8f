use vstd::prelude::*;

use crate::simulation::civilian::contacts::level_for_bond;
use crate::simulation::civilian::life::{
    align_education_with_life_stage, changed_to, education_aligned, mutation_updated, tdiv, update_mutation_status,
};
use crate::simulation::civilian::{
    civ_wf, clamp_metric, contact_views, event_views, in_metric, life_stage_for_age, metric, stage_for_age, CivView,
    CivilianEvent, CivilianFinances, CivilianHealth, CivilianJob, CivilianState, ContactDomain, ContactView,
    DeathRecord, DeathView, EventView, JobStatus, LifeState, RelationshipLevel, RelationType, ReputationTrack,
    SocialTies, DAYS_PER_YEAR, JOB_OFFER_COOLDOWN_DAYS, JOB_OFFER_UNEMPLOYED_COOLDOWN_DAYS,
};
use crate::simulation::civilian::routine::{earliest_start, routine_blocks};
use crate::simulation::time::GameTime;
use crate::text::{copy_str, opt_view, str_eq};

verus! {

broadcast use vstd::string::group_string_axioms;

/// Whole years from a birthday to today.
pub open spec fn birthdays(birth_day: u32, day: u32) -> nat {
    if day >= birth_day {
        ((day - birth_day) / 336) as nat
    } else {
        0
    }
}

/// The life after the birthdays up to today: older (up to the largest `u32`), the
/// birthday moved on, a new life stage with fitting schooling when the age crossed
/// into one, and a mutation check.
pub open spec fn aged(v: CivView, day: u32) -> CivView {
    let n = birthdays(v.life.birth_day, day);
    let sum = v.life.age_years + n;
    let age: u32 = if sum <= u32::MAX { sum as u32 } else { u32::MAX };
    let life1 = LifeState { age_years: age, birth_day: (v.life.birth_day + 336 * n) as u32, ..v.life };
    let v1 = CivView { life: life1, ..v };
    let v2 = if n > 0 && stage_for_age(age) != v.life.life_stage {
        CivView {
            life: LifeState { life_stage: stage_for_age(age), ..life1 },
            education: education_aligned(v.education, stage_for_age(age)),
            ..v1
        }
    } else {
        v1
    };
    CivView { life: mutation_updated(v2.life), ..v2 }
}

fn update_age_and_life_stage(state: &mut CivilianState, day: u32)
    requires
        day < u32::MAX,
    ensures
        changed_to(*old(state), *final(state), aged(old(state)@, day)),
{
    let ghost v0 = state@;
    let ghost birth0 = state.life.birth_day;
    let ghost age0 = state.life.age_years;
    let ghost k: nat = 0;
    let mut age_changed = false;
    loop
        invariant
            day < u32::MAX,
            state.life.birth_day == birth0 + 336 * k,
            state.life.birth_day <= day || k == 0,
            age0 + k <= u32::MAX ==> state.life.age_years == age0 + k,
            age0 + k > u32::MAX ==> state.life.age_years == u32::MAX,
            age_changed == (k > 0),
            state@ == (CivView { life: LifeState { age_years: state.life.age_years, birth_day: state.life.birth_day, ..v0.life }, ..v0 }),
            crate::simulation::civilian::same_records(*old(state), *state),
        ensures
            day < state.life.birth_day + 336,
        decreases day - state.life.birth_day,
    {
        let next: u32 = if state.life.birth_day as u64 + DAYS_PER_YEAR as u64 <= u32::MAX as u64 {
            state.life.birth_day + DAYS_PER_YEAR
        } else {
            u32::MAX
        };
        if day < next {
            break;
        }
        state.life.birth_day = next;
        state.life.age_years = if state.life.age_years < u32::MAX { state.life.age_years + 1 } else { u32::MAX };
        age_changed = true;
        proof {
            k = k + 1;
        }
    }
    proof {
        if day >= birth0 {
            assert(k == (day - birth0) / 336) by (nonlinear_arith)
                requires
                    birth0 + 336 * k <= day,
                    day < birth0 + 336 * (k + 1),
                    day >= birth0,
            ;
        }
    }
    if age_changed {
        let new_stage = life_stage_for_age(state.life.age_years);
        if new_stage != state.life.life_stage {
            state.life.life_stage = new_stage;
            align_education_with_life_stage(state);
        }
    }
    update_mutation_status(state);
}

/// Every twenty-eight days age takes its toll: fitness from forty-five, stress from
/// sixty, injuries from seventy and sleep from eighty.
pub open spec fn age_declined(v: CivView, day: u32) -> CivView {
    if day % 28 != 0 {
        v
    } else {
        let a = v.life.age_years;
        let h = v.health;
        CivView {
            health: CivilianHealth {
                fitness: if a >= 45 { metric(h.fitness - 1) } else { h.fitness },
                stress: if a >= 60 { metric(h.stress + 1) } else { h.stress },
                injuries: if a >= 70 { metric(h.injuries + 1) } else { h.injuries },
                sleep_debt: if a >= 80 { metric(h.sleep_debt + 1) } else { h.sleep_debt },
            },
            ..v
        }
    }
}

fn apply_age_decline(state: &mut CivilianState, day: u32)
    requires
        civ_wf(old(state)@),
    ensures
        changed_to(*old(state), *final(state), age_declined(old(state)@, day)),
{
    if day % 28 != 0 {
        return;
    }
    if state.life.age_years >= 45 {
        state.health.fitness = clamp_metric(state.health.fitness - 1);
    }
    if state.life.age_years >= 60 {
        state.health.stress = clamp_metric(state.health.stress + 1);
    }
    if state.life.age_years >= 70 {
        state.health.injuries = clamp_metric(state.health.injuries + 1);
    }
    if state.life.age_years >= 80 {
        state.health.sleep_debt = clamp_metric(state.health.sleep_debt + 1);
    }
}

/// A day's wear: lack of sleep adds stress, stress costs fitness, and a large sleep
/// debt eases a little.
pub open spec fn daily_health(v: CivView) -> CivView {
    let h = v.health;
    let stress = if h.sleep_debt > 16 { metric(h.stress + 2) } else { h.stress };
    let fitness = if stress > 70 { metric(h.fitness - 1) } else { h.fitness };
    let sleep_debt = if h.sleep_debt > 20 { metric(h.sleep_debt - 1) } else { h.sleep_debt };
    CivView { health: CivilianHealth { stress, fitness, sleep_debt, ..h }, ..v }
}

fn apply_daily_health(state: &mut CivilianState)
    requires
        civ_wf(old(state)@),
    ensures
        changed_to(*old(state), *final(state), daily_health(old(state)@)),
{
    if state.health.sleep_debt > 16 {
        state.health.stress = clamp_metric(state.health.stress + 2);
    }
    if state.health.stress > 70 {
        state.health.fitness = clamp_metric(state.health.fitness - 1);
    }
    if state.health.sleep_debt > 20 {
        state.health.sleep_debt = clamp_metric(state.health.sleep_debt - 1);
    }
}

/// The risk of dying: none before forty, rising with age faster after sixty and
/// eighty, and raised by injuries, stress, lack of sleep and lack of fitness;
/// within `0..=150`.
pub open spec fn mortality_risk_of(v: CivView) -> i32 {
    let age = v.life.age_years as int;
    let h = v.health;
    let base = if age < 40 {
        0
    } else if age < 60 {
        age - 40
    } else if age < 80 {
        20 + (age - 60) * 2
    } else {
        60 + (age - 80) * 3
    };
    let risk = base + (if h.injuries > 60 { (h.injuries - 60) / 2 } else { 0 }) + (if h.stress > 70 {
        (h.stress - 70) / 3
    } else {
        0
    }) + (if h.sleep_debt > 75 { (h.sleep_debt - 75) / 4 } else { 0 }) + (if h.fitness < 30 {
        (30 - h.fitness) / 2
    } else {
        0
    });
    if risk < 0 {
        0
    } else if risk > 150 {
        150
    } else {
        risk as i32
    }
}

/// The age at which the mortality arithmetic still fits an `i32`.
pub open spec fn mortality_age_fits(age: u32) -> bool {
    age <= 700_000_000
}

fn update_mortality_risk(state: &mut CivilianState)
    requires
        civ_wf(old(state)@),
        mortality_age_fits(old(state).life.age_years),
    ensures
        changed_to(
            *old(state),
            *final(state),
            CivView { life: LifeState { mortality_risk: mortality_risk_of(old(state)@), ..old(state).life }, ..old(state)@ },
        ),
{
    let age: i32 = state.life.age_years as i32;
    let mut risk: i32 = if age < 40 {
        0
    } else if age < 60 {
        age - 40
    } else if age < 80 {
        20 + (age - 60) * 2
    } else {
        60 + (age - 80) * 3
    };
    let injuries = state.health.injuries;
    if injuries > 60 {
        risk = risk + (injuries - 60) / 2;
    }
    let stress = state.health.stress;
    if stress > 70 {
        risk = risk + (stress - 70) / 3;
    }
    let sleep_debt = state.health.sleep_debt;
    if sleep_debt > 75 {
        risk = risk + (sleep_debt - 75) / 4;
    }
    let fitness = state.health.fitness;
    if fitness < 30 {
        risk = risk + (30 - fitness) / 2;
    }
    state.life.mortality_risk = if risk < 0 {
        0
    } else if risk > 150 {
        150
    } else {
        risk
    };
}

/// Why the civilian dies now, if they do: critical injuries, collapse from stress
/// and lack of sleep, or a mortality risk of a hundred.
pub open spec fn death_reason(v: CivView) -> Option<Seq<char>> {
    if v.health.injuries >= 95 {
        Some("critical injuries"@)
    } else if v.health.stress >= 95 && v.health.sleep_debt >= 85 {
        Some("collapse"@)
    } else if v.life.mortality_risk >= 100 {
        Some("mortality"@)
    } else {
        None
    }
}

/// A death is recorded once, on the day it happens.
pub open spec fn death_checked(v: CivView, day: u32) -> CivView {
    if v.pending_death is Some {
        v
    } else {
        match death_reason(v) {
            Some(reason) => CivView { pending_death: Some(DeathView { day, age_years: v.life.age_years, reason }), ..v },
            None => v,
        }
    }
}

fn check_for_death(state: &mut CivilianState, day: u32)
    ensures
        changed_to(*old(state), *final(state), death_checked(old(state)@, day)),
        civ_wf(old(state)@) ==> civ_wf(final(state)@),
{
    if state.pending_death.is_some() {
        return;
    }
    let reason: Option<&str> = if state.health.injuries >= 95 {
        Some("critical injuries")
    } else if state.health.stress >= 95 && state.health.sleep_debt >= 85 {
        Some("collapse")
    } else if state.life.mortality_risk >= 100 {
        Some("mortality")
    } else {
        None
    };
    if let Some(reason) = reason {
        state.pending_death = Some(DeathRecord { day, age_years: state.life.age_years, reason: copy_str(reason) });
    }
}

/// An event is waiting already under this storylet.
pub open spec fn has_pending(es: Seq<EventView>, id: Seq<char>) -> bool {
    exists|i: int| 0 <= i < es.len() && #[trigger] es[i].storylet_id == id
}

/// Queues an event unless one for the same storylet is waiting.
pub open spec fn queued(v: CivView, id: Seq<char>, tick: u64, contact: Option<Seq<char>>) -> CivView {
    if has_pending(v.pending_events, id) {
        v
    } else {
        CivView { pending_events: v.pending_events.push(EventView { storylet_id: id, created_tick: tick, contact_name: contact }), ..v }
    }
}

fn queue_event_with_contact(state: &mut CivilianState, storylet_id: &str, created_tick: u64, contact_name: Option<String>)
    ensures
        changed_to(
            *old(state),
            *final(state),
            queued(old(state)@, storylet_id@, created_tick, opt_view(contact_name)),
        ),
{
    let ghost es = state@.pending_events;
    let mut i: usize = 0;
    while i < state.pending_events.len()
        invariant
            es == event_views(state.pending_events@),
            i <= es.len(),
            forall|j: int| 0 <= j < i ==> #[trigger] es[j].storylet_id != storylet_id@,
        decreases es.len() - i,
    {
        assert(es[i as int].storylet_id == state.pending_events@[i as int].storylet_id@);
        if str_eq(state.pending_events[i].storylet_id.as_str(), storylet_id) {
            return;
        }
        i = i + 1;
    }
    let ghost cn = opt_view(contact_name);
    state.pending_events.push(CivilianEvent { storylet_id: copy_str(storylet_id), created_tick, contact_name });
    assert(event_views(state.pending_events@) =~= es.push(EventView { storylet_id: storylet_id@, created_tick, contact_name: cn }));
}

fn queue_event(state: &mut CivilianState, storylet_id: &str, created_tick: u64)
    ensures
        changed_to(*old(state), *final(state), queued(old(state)@, storylet_id@, created_tick, None)),
{
    queue_event_with_contact(state, storylet_id, created_tick, None);
}

/// Short of rent money with rent due tomorrow, an adult is offered a quick crime.
pub open spec fn crime_tempts(v: CivView) -> bool {
    v.life.age_years >= 16 && v.finances.rent_due_in <= 1 && v.finances.cash < v.housing.rent
}

fn should_queue_crime_opportunity(state: &CivilianState) -> (b: bool)
    ensures
        b == crime_tempts(state@),
{
    if state.life.age_years < 16 {
        return false;
    }
    if state.finances.rent_due_in > 1 {
        return false;
    }
    state.finances.cash < state.housing.rent
}

/// A day in the home: the relocation cooldown runs down; overdue rent costs
/// stability (more when the rent cannot be paid) and adds strain, while rent well
/// ahead lets stability recover up to eighty-two; an unstable home with no cooldown
/// brings a relocation offer.
pub open spec fn housing_updated(v: CivView, tick: u64) -> CivView {
    let h = v.housing;
    let cooldown = if h.relocation_cooldown > 0 { (h.relocation_cooldown - 1) as i32 } else { h.relocation_cooldown };
    let overdue = v.finances.rent_due_in <= 0;
    let stability = if overdue {
        metric(h.stability - (if v.finances.cash < h.rent { 4int } else { 2int }))
    } else if v.finances.rent_due_in > 7 && h.stability < 82 {
        metric(h.stability + 1)
    } else {
        h.stability
    };
    let strain = if overdue { metric(v.social.strain + 1) } else { v.social.strain };
    let v1 = CivView {
        housing: crate::simulation::civilian::HousingView { relocation_cooldown: cooldown, stability, ..h },
        social: SocialTies { strain, ..v.social },
        ..v
    };
    if stability <= 40 && cooldown <= 0 {
        queued(v1, "civilian_relocation_offer"@, tick, None)
    } else {
        v1
    }
}

fn update_housing_state(state: &mut CivilianState, tick: u64)
    requires
        civ_wf(old(state)@),
    ensures
        changed_to(*old(state), *final(state), housing_updated(old(state)@, tick)),
{
    if state.housing.relocation_cooldown > 0 {
        state.housing.relocation_cooldown = state.housing.relocation_cooldown - 1;
    }
    let rent_overdue = state.finances.rent_due_in <= 0;
    if rent_overdue {
        let penalty: i32 = if state.finances.cash < state.housing.rent { 4 } else { 2 };
        state.housing.stability = clamp_metric(state.housing.stability - penalty);
        state.social.strain = clamp_metric(state.social.strain + 1);
    } else if state.finances.rent_due_in > 7 && state.housing.stability < 82 {
        state.housing.stability = clamp_metric(state.housing.stability + 1);
    }
    if state.housing.stability <= 40 && state.housing.relocation_cooldown <= 0 {
        queue_event(state, "civilian_relocation_offer", tick);
    }
}

/// The daily change of every bond: warmer with support, cooler with strain and
/// obligations.
pub open spec fn bond_drift(v: CivView) -> i32 {
    ((if v.social.support > 60 { 1int } else { 0int }) - (if v.social.strain > 60 { 1int } else { 0int }) - (if v.social.obligation
        > 65 {
        1int
    } else {
        0int
    })) as i32
}

fn daily_bond_delta(state: &CivilianState) -> (d: i32)
    ensures
        d == bond_drift(state@),
{
    let mut delta: i32 = 0;
    if state.social.support > 60 {
        delta = delta + 1;
    }
    if state.social.strain > 60 {
        delta = delta - 1;
    }
    if state.social.obligation > 65 {
        delta = delta - 1;
    }
    delta
}

/// The influence a contact tends toward: a tenth of the bond, more for closer
/// levels and some relations, less for rivals, and what their circle values in the
/// civilian; within `0..=100`.
pub open spec fn influence_target(
    c: ContactView,
    reputation: ReputationTrack,
    job: CivilianJob,
    social: SocialTies,
    finances: CivilianFinances,
) -> i32 {
    let level_bonus: int = match c.level {
        RelationshipLevel::Stranger => 2,
        RelationshipLevel::Acquaintance => 4,
        RelationshipLevel::Friend => 6,
        RelationshipLevel::Confidant => 8,
        RelationshipLevel::Ally => 10,
    };
    let relation_bonus: int = match c.relation_type {
        RelationType::Family => 4,
        RelationType::Mentor => 3,
        RelationType::Romance => 3,
        RelationType::Colleague => 1,
        RelationType::Peer => 0,
        RelationType::Rival => -2,
    };
    let circle: int = match c.domain {
        ContactDomain::Professional => tdiv(reputation.career as int, 12) + job.level * 2,
        ContactDomain::Community => tdiv(reputation.community as int, 12) + tdiv(social.support as int, 15),
        ContactDomain::Media => tdiv(reputation.media as int, 12) + tdiv(social.strain as int, 20),
        ContactDomain::Underground => tdiv(social.obligation as int, 12) + (if finances.debt > 0 {
            finances.debt as int
        } else {
            0
        }) / 20,
    };
    metric(tdiv(c.bond as int, 10) + level_bonus + relation_bonus + circle)
}

fn contact_influence_target(
    c: &crate::simulation::civilian::Contact,
    reputation: &ReputationTrack,
    job: &CivilianJob,
    social: &SocialTies,
    finances: &CivilianFinances,
) -> (t: i32)
    requires
        in_metric(c.bond),
        0 <= job.level <= 10,
        in_metric(reputation.career) && in_metric(reputation.community) && in_metric(reputation.media),
        in_metric(social.support) && in_metric(social.strain) && in_metric(social.obligation),
    ensures
        t == influence_target(c@, *reputation, *job, *social, *finances),
{
    let level_bonus: i32 = match c.level {
        RelationshipLevel::Stranger => 2,
        RelationshipLevel::Acquaintance => 4,
        RelationshipLevel::Friend => 6,
        RelationshipLevel::Confidant => 8,
        RelationshipLevel::Ally => 10,
    };
    let mut target: i32 = c.bond / 10 + level_bonus;
    let relation_bonus: i32 = match c.relation_type {
        RelationType::Family => 4,
        RelationType::Mentor => 3,
        RelationType::Romance => 3,
        RelationType::Colleague => 1,
        RelationType::Peer => 0,
        RelationType::Rival => -2,
    };
    target = target + relation_bonus;
    match c.domain {
        ContactDomain::Professional => {
            target = target + reputation.career / 12;
            target = target + job.level * 2;
        },
        ContactDomain::Community => {
            target = target + reputation.community / 12;
            target = target + social.support / 15;
        },
        ContactDomain::Media => {
            target = target + reputation.media / 12;
            target = target + social.strain / 20;
        },
        ContactDomain::Underground => {
            target = target + social.obligation / 12;
            let debt: i32 = if finances.debt > 0 { finances.debt } else { 0 };
            target = target + debt / 20;
        },
    }
    clamp_metric(target)
}

/// One contact after a day: the bond drifts (and the level follows it), then the
/// influence moves one step toward its target.
pub open spec fn drifted(c: ContactView, delta: i32, v: CivView) -> ContactView {
    let c1 = if delta != 0 {
        let bond = metric(c.bond + delta);
        ContactView { bond, level: level_for_bond(bond), ..c }
    } else {
        c
    };
    let target = influence_target(c1, v.reputation, v.job, v.social, v.finances);
    ContactView {
        influence: if c1.influence < target {
            metric(c1.influence + 1)
        } else if c1.influence > target {
            metric(c1.influence - 1)
        } else {
            c1.influence
        },
        ..c1
    }
}

/// Every contact after a day, then the social web rebuilt.
pub open spec fn social_updated(v: CivView) -> CivView {
    let delta = bond_drift(v);
    let cs = Seq::new(v.contacts.len(), |i: int| drifted(v.contacts[i], delta, v));
    let v1 = CivView { contacts: cs, ..v };
    CivView { social_web: crate::simulation::civilian::life::web_for(v1), ..v1 }
}

fn update_social_web(state: &mut CivilianState)
    requires
        civ_wf(old(state)@),
    ensures
        changed_to(*old(state), *final(state), social_updated(old(state)@)),
        civ_wf(final(state)@),
{
    let ghost v0 = state@;
    let ghost cs0 = v0.contacts;
    let bond_delta = daily_bond_delta(state);
    let reputation = state.reputation;
    let job = state.job;
    let social = state.social;
    let finances = state.finances;
    let mut i: usize = 0;
    while i < state.contacts.len()
        invariant
            v0 == old(state)@,
            civ_wf(v0),
            cs0 == v0.contacts,
            bond_delta == bond_drift(v0),
            reputation == v0.reputation,
            job == v0.job,
            social == v0.social,
            finances == v0.finances,
            state.contacts@.len() == cs0.len(),
            i <= cs0.len(),
            forall|j: int| 0 <= j < i ==> #[trigger] state.contacts@[j]@ == drifted(cs0[j], bond_delta, v0),
            forall|j: int| i <= j < cs0.len() ==> #[trigger] state.contacts@[j]@ == cs0[j],
            state@ == (CivView { contacts: contact_views(state.contacts@), ..v0 }),
            crate::simulation::civilian::same_records(*old(state), *state),
        decreases cs0.len() - i,
    {
        assert(state.contacts@[i as int]@ == cs0[i as int]);
        assert(in_metric(cs0[i as int].bond) && in_metric(cs0[i as int].influence));
        let c = &mut state.contacts[i];
        if bond_delta != 0 {
            c.bond = clamp_metric(c.bond + bond_delta);
            c.level = crate::simulation::civilian::contacts::relationship_level_from_bond(c.bond);
        }
        let target = contact_influence_target(c, &reputation, &job, &social, &finances);
        if c.influence < target {
            c.influence = clamp_metric(c.influence + 1);
        } else if c.influence > target {
            c.influence = clamp_metric(c.influence - 1);
        }
        i = i + 1;
    }
    assert(contact_views(state.contacts@) =~= Seq::new(cs0.len(), |j: int| drifted(cs0[j], bond_delta, v0)));
    assert(civ_wf(state@));
    crate::simulation::civilian::life::rebuild_social_web(state);
}

/// How likely the civilian is to make a mistake: poor stability or satisfaction at
/// work, rent coming due, stress, lack of sleep, risk of dropping out, an unstable
/// home, strain and obligations each add to it; within `0..=100`.
pub open spec fn mistake_risk_of(v: CivView) -> i32 {
    metric(mistake_risk_raw(v))
}

/// The mistake risk before it is limited.
pub open spec fn mistake_risk_raw(v: CivView) -> int {
    let r1: int = if v.job.stability < 45 { (45 - v.job.stability) / 2 } else { 0 };
    let r2: int = if v.job.satisfaction < 40 { (40 - v.job.satisfaction) / 2 } else { 0 };
    let r3: int = if v.finances.rent_due_in <= 0 { 12 } else if v.finances.rent_due_in <= 2 { 6 } else { 0 };
    let r4: int = if v.health.stress > 70 { (v.health.stress - 70) / 2 } else { 0 };
    let r5: int = if v.health.sleep_debt > 18 { (v.health.sleep_debt - 18) / 2 } else { 0 };
    let r6: int = if v.education.dropout_risk > 60 { (v.education.dropout_risk - 60) / 2 } else { 0 };
    let r7: int = if v.housing.stability < 45 { (45 - v.housing.stability) / 2 } else { 0 };
    let r8: int = if v.social.strain > 60 { (v.social.strain - 60) / 2 } else { 0 };
    let r9: int = if v.social.obligation > 65 { (v.social.obligation - 65) / 2 } else { 0 };
    r1 + r2 + r3 + r4 + r5 + r6 + r7 + r8 + r9
}

#[verifier::rlimit(80)]
fn update_mistake_risk(state: &mut CivilianState)
    requires
        civ_wf(old(state)@),
    ensures
        changed_to(*old(state), *final(state), CivView { mistake_risk: mistake_risk_of(old(state)@), ..old(state)@ }),
{
    let r1: i32 = if state.job.stability < 45 { (45 - state.job.stability) / 2 } else { 0 };
    let r2: i32 = if state.job.satisfaction < 40 { (40 - state.job.satisfaction) / 2 } else { 0 };
    let r3: i32 = if state.finances.rent_due_in <= 0 {
        12
    } else if state.finances.rent_due_in <= 2 {
        6
    } else {
        0
    };
    let r4: i32 = if state.health.stress > 70 { (state.health.stress - 70) / 2 } else { 0 };
    let r5: i32 = if state.health.sleep_debt > 18 { (state.health.sleep_debt - 18) / 2 } else { 0 };
    let r6: i32 = if state.education.dropout_risk > 60 { (state.education.dropout_risk - 60) / 2 } else { 0 };
    let r7: i32 = if state.housing.stability < 45 { (45 - state.housing.stability) / 2 } else { 0 };
    let r8: i32 = if state.social.strain > 60 { (state.social.strain - 60) / 2 } else { 0 };
    let r9: i32 = if state.social.obligation > 65 { (state.social.obligation - 65) / 2 } else { 0 };
    let risk = r1 + r2 + r3 + r4 + r5 + r6 + r7 + r8 + r9;
    assert(risk == mistake_risk_raw(old(state)@));
    state.mistake_risk = clamp_metric(risk);
}

/// A job offer comes once the cooldown (a week without a job, two weeks with one)
/// has passed, always to the unemployed and to the employed who are unhappy or
/// insecure.
pub open spec fn job_offer_due(v: CivView, day: u32) -> bool {
    let cooldown: int = if v.job_status == JobStatus::Unemployed { 7 } else { 14 };
    let end: int = if v.last_job_offer_day + cooldown <= u32::MAX { v.last_job_offer_day + cooldown } else { u32::MAX as int };
    if day < end {
        false
    } else if v.job_status == JobStatus::Unemployed {
        true
    } else {
        v.job.satisfaction < 55 || v.job.stability < 45
    }
}

fn should_queue_job_offer(state: &CivilianState, day: u32) -> (b: bool)
    ensures
        b == job_offer_due(state@, day),
{
    let cooldown: u32 = if state.job_status == JobStatus::Unemployed {
        JOB_OFFER_UNEMPLOYED_COOLDOWN_DAYS
    } else {
        JOB_OFFER_COOLDOWN_DAYS
    };
    let end: u32 = if state.last_job_offer_day as u64 + cooldown as u64 <= u32::MAX as u64 {
        state.last_job_offer_day + cooldown
    } else {
        u32::MAX
    };
    if day < end {
        return false;
    }
    if state.job_status == JobStatus::Unemployed {
        return true;
    }
    state.job.satisfaction < 55 || state.job.stability < 45
}

/// An hour spent at an activity: work and school tire and stress (and strain the
/// unhappy or the absent), hobbies and company relax and support, rest restores,
/// and errands stress a little.
pub open spec fn activity_applied(v: CivView, activity: crate::simulation::civilian::RoutineActivity, is_day: bool) -> CivView {
    let h = v.health;
    let so = v.social;
    match activity {
        crate::simulation::civilian::RoutineActivity::Work => CivView {
            health: CivilianHealth { stress: metric(h.stress + 1), sleep_debt: metric(h.sleep_debt + 1), ..h },
            social: SocialTies { strain: if v.job.satisfaction < 45 { metric(so.strain + 1) } else { so.strain }, ..so },
            ..v
        },
        crate::simulation::civilian::RoutineActivity::School => CivView {
            health: CivilianHealth { stress: metric(h.stress + 1), sleep_debt: metric(h.sleep_debt + 1), ..h },
            social: SocialTies {
                strain: if v.education.attendance < 45 { metric(so.strain + 1) } else { so.strain },
                ..so
            },
            ..v
        },
        crate::simulation::civilian::RoutineActivity::Hobby => CivView {
            health: CivilianHealth { stress: metric(h.stress - 2), sleep_debt: metric(h.sleep_debt - 1), ..h },
            social: SocialTies { support: metric(so.support + 1), ..so },
            ..v
        },
        crate::simulation::civilian::RoutineActivity::Social => CivView {
            health: CivilianHealth { stress: metric(h.stress - 1), ..h },
            social: SocialTies { support: metric(so.support + 1), strain: metric(so.strain - 1), ..so },
            ..v
        },
        crate::simulation::civilian::RoutineActivity::Rest => CivView {
            health: CivilianHealth {
                sleep_debt: metric(h.sleep_debt - 2),
                stress: metric(h.stress - 1),
                fitness: if is_day && h.fitness < 60 { metric(h.fitness + 1) } else { h.fitness },
                ..h
            },
            ..v
        },
        crate::simulation::civilian::RoutineActivity::Errands => CivView {
            health: CivilianHealth { stress: metric(h.stress + 1), ..h },
            ..v
        },
    }
}

fn apply_routine_activity(state: &mut CivilianState, activity: crate::simulation::civilian::RoutineActivity, is_day: bool)
    requires
        civ_wf(old(state)@),
    ensures
        changed_to(*old(state), *final(state), activity_applied(old(state)@, activity, is_day)),
        civ_wf(final(state)@),
{
    match activity {
        crate::simulation::civilian::RoutineActivity::Work => {
            state.health.stress = clamp_metric(state.health.stress + 1);
            state.health.sleep_debt = clamp_metric(state.health.sleep_debt + 1);
            if state.job.satisfaction < 45 {
                state.social.strain = clamp_metric(state.social.strain + 1);
            }
        },
        crate::simulation::civilian::RoutineActivity::School => {
            state.health.stress = clamp_metric(state.health.stress + 1);
            state.health.sleep_debt = clamp_metric(state.health.sleep_debt + 1);
            if state.education.attendance < 45 {
                state.social.strain = clamp_metric(state.social.strain + 1);
            }
        },
        crate::simulation::civilian::RoutineActivity::Hobby => {
            state.health.stress = clamp_metric(state.health.stress - 2);
            state.health.sleep_debt = clamp_metric(state.health.sleep_debt - 1);
            state.social.support = clamp_metric(state.social.support + 1);
        },
        crate::simulation::civilian::RoutineActivity::Social => {
            state.health.stress = clamp_metric(state.health.stress - 1);
            state.social.support = clamp_metric(state.social.support + 1);
            state.social.strain = clamp_metric(state.social.strain - 1);
        },
        crate::simulation::civilian::RoutineActivity::Rest => {
            state.health.sleep_debt = clamp_metric(state.health.sleep_debt - 2);
            state.health.stress = clamp_metric(state.health.stress - 1);
            if is_day && state.health.fitness < 60 {
                state.health.fitness = clamp_metric(state.health.fitness + 1);
            }
        },
        crate::simulation::civilian::RoutineActivity::Errands => {
            state.health.stress = clamp_metric(state.health.stress + 1);
        },
    }
}

/// `x` limited to `lo..=hi`.
pub open spec fn clamped(x: int, lo: int, hi: int) -> int {
    if x < lo {
        lo
    } else if x > hi {
        hi
    } else {
        x
    }
}

/// A shift at work: experience grows with the job (more full-time), a happy and
/// stable job, support and little strain, at least one point; satisfaction and then
/// stability follow support, strain and part-time ease.
pub open spec fn shift_worked(v: CivView) -> CivView {
    let base: int = match v.job_status {
        JobStatus::Employed => 4,
        JobStatus::PartTime => 2,
        JobStatus::Unemployed => 0,
    };
    if base == 0 {
        v
    } else {
        let satisfaction_bonus = clamped(tdiv(v.job.satisfaction - 50, 15), -2, 3);
        let stability_bonus = clamped(tdiv(v.job.stability - 50, 20), -1, 2);
        let support_bonus: int = if v.social.support > 60 { 1 } else { 0 };
        let strain_penalty: int = if v.social.strain > 60 { -2 } else { 0 };
        let gain0 = base + satisfaction_bonus + stability_bonus + support_bonus + strain_penalty;
        let gain = if gain0 >= 1 { gain0 } else { 1 };
        let sd: int = (if v.social.support > 55 { 1int } else { 0int }) - (if v.social.strain > 55 { 2int } else { 0int }) + (
        if v.job_status == JobStatus::PartTime {
            1int
        } else {
            0int
        });
        let satisfaction = metric(v.job.satisfaction + sd);
        let td: int = (if satisfaction > 60 { 1int } else { 0int }) - (if v.social.strain > 65 { 1int } else { 0int });
        CivView {
            career_xp: crate::simulation::civilian::progress_clamped(v.career_xp + gain),
            job: CivilianJob { satisfaction, stability: metric(v.job.stability + td), ..v.job },
            ..v
        }
    }
}

fn record_work_shift(state: &mut CivilianState)
    requires
        civ_wf(old(state)@),
    ensures
        changed_to(*old(state), *final(state), shift_worked(old(state)@)),
{
    let base_xp: i32 = match state.job_status {
        JobStatus::Employed => 4,
        JobStatus::PartTime => 2,
        JobStatus::Unemployed => 0,
    };
    if base_xp == 0 {
        return;
    }
    let sb = (state.job.satisfaction - 50) / 15;
    let satisfaction_bonus: i32 = if sb < -2 { -2 } else if sb > 3 { 3 } else { sb };
    let tb = (state.job.stability - 50) / 20;
    let stability_bonus: i32 = if tb < -1 { -1 } else if tb > 2 { 2 } else { tb };
    let support_bonus: i32 = if state.social.support > 60 { 1 } else { 0 };
    let strain_penalty: i32 = if state.social.strain > 60 { -2 } else { 0 };
    let gain0 = base_xp + satisfaction_bonus + stability_bonus + support_bonus + strain_penalty;
    let xp_gain: i32 = if gain0 >= 1 { gain0 } else { 1 };
    state.career_xp = crate::simulation::civilian::clamp_progress(state.career_xp + xp_gain);
    let mut satisfaction_delta: i32 = 0;
    if state.social.support > 55 {
        satisfaction_delta = satisfaction_delta + 1;
    }
    if state.social.strain > 55 {
        satisfaction_delta = satisfaction_delta - 2;
    }
    if state.job_status == JobStatus::PartTime {
        satisfaction_delta = satisfaction_delta + 1;
    }
    state.job.satisfaction = clamp_metric(state.job.satisfaction + satisfaction_delta);
    let mut stability_delta: i32 = 0;
    if state.job.satisfaction > 60 {
        stability_delta = stability_delta + 1;
    }
    if state.social.strain > 65 {
        stability_delta = stability_delta - 1;
    }
    state.job.stability = clamp_metric(state.job.stability + stability_delta);
}

/// A school day: attendance grows (less when tired), progress grows with attendance
/// (at least one point), a credit is earned, the risk of dropping out moves with
/// attendance, stress and sleep, and a finished level moves on.
pub open spec fn school_attended(v: CivView) -> CivView {
    let e = v.education;
    let attendance = metric(e.attendance + (if v.health.sleep_debt > 12 { 1int } else { 2int }));
    let pg0 = 2 + tdiv(attendance - 50, 25);
    let progress = metric(e.progress + (if pg0 >= 1 { pg0 } else { 1 }));
    let credits: i32 = if e.credits < i32::MAX { (e.credits + 1) as i32 } else { i32::MAX };
    let dd: int = (if attendance < 40 { 2int } else { 0int }) + (if attendance < 25 { 2int } else { 0int }) + (if v.health.stress
        > 70 {
        1int
    } else {
        0int
    }) + (if v.health.sleep_debt > 18 { 1int } else { 0int }) - (if attendance > 65 { 2int } else { 0int }) - (if attendance
        > 80 {
        2int
    } else {
        0int
    });
    let e1 = crate::simulation::civilian::EducationTrack {
        attendance,
        progress,
        credits,
        dropout_risk: metric(e.dropout_risk + dd),
        ..e
    };
    CivView { education: crate::simulation::civilian::life::education_advanced(e1), ..v }
}

fn record_school_session(state: &mut CivilianState)
    requires
        civ_wf(old(state)@),
    ensures
        changed_to(*old(state), *final(state), school_attended(old(state)@)),
{
    let attendance_gain: i32 = if state.health.sleep_debt > 12 { 1 } else { 2 };
    state.education.attendance = clamp_metric(state.education.attendance + attendance_gain);
    let pg0 = 2 + (state.education.attendance - 50) / 25;
    let progress_gain: i32 = if pg0 >= 1 { pg0 } else { 1 };
    state.education.progress = clamp_metric(state.education.progress + progress_gain);
    state.education.credits = if state.education.credits < i32::MAX { state.education.credits + 1 } else { i32::MAX };
    let mut dropout_delta: i32 = 0;
    if state.education.attendance < 40 {
        dropout_delta = dropout_delta + 2;
    }
    if state.education.attendance < 25 {
        dropout_delta = dropout_delta + 2;
    }
    if state.health.stress > 70 {
        dropout_delta = dropout_delta + 1;
    }
    if state.health.sleep_debt > 18 {
        dropout_delta = dropout_delta + 1;
    }
    if state.education.attendance > 65 {
        dropout_delta = dropout_delta - 2;
    }
    if state.education.attendance > 80 {
        dropout_delta = dropout_delta - 2;
    }
    state.education.dropout_risk = clamp_metric(state.education.dropout_risk + dropout_delta);
    crate::simulation::civilian::life::advance_education_if_ready(state);
}

/// The contact seen least recently; the first of several.
pub open spec fn least_recent_contact(cs: Seq<ContactView>) -> Option<int>
    decreases cs.len(),
{
    if cs.len() == 0 {
        None
    } else {
        match least_recent_contact(cs.drop_last()) {
            None => Some(cs.len() - 1),
            Some(i) => if cs.last().last_interaction_day < cs[i].last_interaction_day {
                Some(cs.len() - 1)
            } else {
                Some(i)
            },
        }
    }
}

proof fn lemma_least_recent_in_range(cs: Seq<ContactView>)
    ensures
        match least_recent_contact(cs) {
            Some(i) => 0 <= i < cs.len(),
            None => cs.len() == 0,
        },
    decreases cs.len(),
{
    if cs.len() > 0 {
        lemma_least_recent_in_range(cs.drop_last());
    }
}

/// The storylet for meeting a contact: by relation, when the civilian is old enough
/// for romance or rivalry or has a job for colleagues; a check-in otherwise.
pub open spec fn contact_event(v: CivView, c: ContactView) -> Seq<char> {
    match c.relation_type {
        RelationType::Family => "civilian_contact_family"@,
        RelationType::Mentor => "civilian_contact_mentor"@,
        RelationType::Romance => if v.life.age_years >= 16 {
            "civilian_contact_romance"@
        } else {
            "civilian_contact_checkin"@
        },
        RelationType::Rival => if v.life.age_years >= 15 {
            "civilian_contact_rival"@
        } else {
            "civilian_contact_checkin"@
        },
        RelationType::Colleague => if v.job_status == JobStatus::Employed || v.job_status == JobStatus::PartTime {
            "civilian_contact_colleague"@
        } else {
            "civilian_contact_checkin"@
        },
        RelationType::Peer => "civilian_contact_checkin"@,
    }
}

fn event_for_contact(state: &CivilianState, c: &crate::simulation::civilian::Contact) -> (id: &'static str)
    ensures
        id@ == contact_event(state@, c@),
{
    match c.relation_type {
        RelationType::Family => "civilian_contact_family",
        RelationType::Mentor => "civilian_contact_mentor",
        RelationType::Romance => if state.life.age_years >= 16 {
            "civilian_contact_romance"
        } else {
            "civilian_contact_checkin"
        },
        RelationType::Rival => if state.life.age_years >= 15 {
            "civilian_contact_rival"
        } else {
            "civilian_contact_checkin"
        },
        RelationType::Colleague => match state.job_status {
            JobStatus::Employed | JobStatus::PartTime => "civilian_contact_colleague",
            JobStatus::Unemployed => "civilian_contact_checkin",
        },
        RelationType::Peer => "civilian_contact_checkin",
    }
}

/// Some contact has this relation.
pub open spec fn has_relation(cs: Seq<ContactView>, t: RelationType) -> bool {
    exists|i: int| 0 <= i < cs.len() && #[trigger] cs[i].relation_type == t
}

fn has_relation_type(state: &CivilianState, t: RelationType) -> (b: bool)
    ensures
        b == has_relation(state@.contacts, t),
{
    let ghost cs = state@.contacts;
    let mut i: usize = 0;
    while i < state.contacts.len()
        invariant
            cs == contact_views(state.contacts@),
            i <= cs.len(),
            forall|j: int| 0 <= j < i ==> #[trigger] cs[j].relation_type != t,
        decreases cs.len() - i,
    {
        assert(cs[i as int].relation_type == state.contacts@[i as int].relation_type);
        if state.contacts[i].relation_type == t {
            return true;
        }
        i = i + 1;
    }
    false
}

/// The social event of the evening: meeting the contact seen least recently, or
/// without contacts the first relationship the civilian's life calls for: family
/// from twelve, a mentor for a student or a promoted worker, colleagues for the
/// employed, romance from seventeen and a rival for the promoted from eighteen.
pub open spec fn relationship_event(v: CivView) -> Option<(Seq<char>, Option<Seq<char>>)> {
    let cs = v.contacts;
    let age = v.life.age_years;
    match least_recent_contact(cs) {
        Some(i) => Some((contact_event(v, cs[i]), Some(cs[i].name))),
        None => if age >= 12 && !has_relation(cs, RelationType::Family) {
            Some(("civilian_family_obligation"@, None))
        } else if !has_relation(cs, RelationType::Mentor) && (v.education.level
            == crate::simulation::civilian::EducationLevel::Secondary || v.education.level
            == crate::simulation::civilian::EducationLevel::Tertiary || v.education.level
            == crate::simulation::civilian::EducationLevel::Graduate || v.job.level >= 2) {
            Some(("civilian_mentor_session"@, None))
        } else if (v.job_status == JobStatus::Employed || v.job_status == JobStatus::PartTime) && !has_relation(
            cs,
            RelationType::Colleague,
        ) {
            Some(("civilian_colleague_project"@, None))
        } else if age >= 17 && !has_relation(cs, RelationType::Romance) {
            Some(("civilian_romance_date"@, None))
        } else if age >= 18 && v.job.level >= 2 && !has_relation(cs, RelationType::Rival) {
            Some(("civilian_rival_runin"@, None))
        } else {
            None
        },
    }
}

/// The position of the contact seen least recently; the first of several.
fn pick_contact_for_event(state: &CivilianState) -> (r: Option<usize>)
    ensures
        match r {
            Some(b) => least_recent_contact(state@.contacts) == Some(b as int) && b < state.contacts@.len(),
            None => least_recent_contact(state@.contacts) is None,
        },
{
    let ghost cs = state@.contacts;
    let mut best: Option<usize> = None;
    let mut i: usize = 0;
    assert(cs.take(0) =~= Seq::<ContactView>::empty());
    while i < state.contacts.len()
        invariant
            cs == contact_views(state.contacts@),
            i <= cs.len(),
            match best {
                Some(b) => least_recent_contact(cs.take(i as int)) == Some(b as int) && b < i,
                None => least_recent_contact(cs.take(i as int)) is None && i == 0,
            },
        decreases cs.len() - i,
    {
        assert(cs.take(i + 1).drop_last() =~= cs.take(i as int));
        assert(cs.take(i + 1).last() == cs[i as int]);
        match best {
            Some(b) => {
                assert(cs.take(i as int)[b as int] == cs[b as int]);
                if state.contacts[i].last_interaction_day < state.contacts[b].last_interaction_day {
                    best = Some(i);
                }
            },
            None => {
                best = Some(i);
            },
        }
        i = i + 1;
    }
    assert(cs.take(cs.len() as int) =~= cs);
    best
}

fn choose_relationship_event(state: &CivilianState) -> (r: Option<(&'static str, Option<String>)>)
    ensures
        match relationship_event(state@) {
            Some((id, contact)) => r matches Some(p) && p.0@ == id && opt_view(p.1) == contact,
            None => r is None,
        },
{
    let best = pick_contact_for_event(state);
    proof {
        lemma_least_recent_in_range(state@.contacts);
    }
    if let Some(b) = best {
        assert(state@.contacts[b as int] == state.contacts@[b as int]@);
        let c = &state.contacts[b];
        let event_id = event_for_contact(state, c);
        return Some((event_id, Some(c.name.clone())));
    }
    let age = state.life.age_years;
    if age >= 12 && !has_relation_type(state, RelationType::Family) {
        return Some(("civilian_family_obligation", None));
    }
    let studied = match state.education.level {
        crate::simulation::civilian::EducationLevel::Secondary
        | crate::simulation::civilian::EducationLevel::Tertiary
        | crate::simulation::civilian::EducationLevel::Graduate => true,
        _ => false,
    };
    if !has_relation_type(state, RelationType::Mentor) && (studied || state.job.level >= 2) {
        return Some(("civilian_mentor_session", None));
    }
    let working = match state.job_status {
        JobStatus::Employed | JobStatus::PartTime => true,
        JobStatus::Unemployed => false,
    };
    if working && !has_relation_type(state, RelationType::Colleague) {
        return Some(("civilian_colleague_project", None));
    }
    if age >= 17 && !has_relation_type(state, RelationType::Romance) {
        return Some(("civilian_romance_date", None));
    }
    if age >= 18 && state.job.level >= 2 && !has_relation_type(state, RelationType::Rival) {
        return Some(("civilian_rival_runin", None));
    }
    None
}

/// The first part of a new day: the date is noted, birthdays pass, the routine is
/// rebuilt, age and the day's wear take their toll, and the risk of dying is
/// updated and a death recorded.
pub open spec fn day_begun(v: CivView, time: GameTime) -> CivView {
    let v1 = aged(CivView { last_day: time.day, ..v }, time.day);
    let v2 = CivView { routine: routine_blocks(v1.job_status, v1.education, v1.life), ..v1 };
    let v3 = daily_health(age_declined(v2, time.day));
    death_checked(CivView { life: LifeState { mortality_risk: mortality_risk_of(v3), ..v3.life }, ..v3 }, time.day)
}

/// Then the rent follows the home and comes a day closer, queueing the rent when
/// due, and a crime opportunity is queued when tempting.
pub open spec fn rent_counted(v4: CivView, time: GameTime) -> CivView {
    let v5 = CivView {
        finances: CivilianFinances { rent: v4.housing.rent, rent_due_in: (v4.finances.rent_due_in - 1) as i32, ..v4.finances },
        ..v4
    };
    let v6 = if v5.finances.rent_due_in <= 0 { queued(v5, "civilian_rent_due"@, time.tick, None) } else { v5 };
    if crime_tempts(v6) {
        queued(v6, "civilian_crime_quick_hit"@, time.tick, None)
    } else {
        v6
    }
}

/// The first part of a new day, both steps.
pub open spec fn day_started(v: CivView, time: GameTime) -> CivView {
    rent_counted(day_begun(v, time), time)
}

/// The rest of a new day: the home and the social web settle, the tier and network
/// rewards follow, the mistake risk is updated, and a job offer comes when due.
pub open spec fn day_settled(v: CivView, time: GameTime) -> CivView {
    let v1 = social_updated(housing_updated(v, time.tick));
    let v2 = CivView { civilian_tier: crate::simulation::civilian::life::tier_for(v1), ..v1 };
    let v3 = CivView {
        network_rewards: crate::simulation::civilian::life::network_rewards_for(v2.social_web, v2.civilian_tier),
        ..v2
    };
    let v4 = CivView { mistake_risk: mistake_risk_of(v3), ..v3 };
    if job_offer_due(v4, time.day) {
        CivView { last_job_offer_day: time.day, ..queued(v4, "civilian_job_offer"@, time.tick, None) }
    } else {
        v4
    }
}

/// The age after the day's birthdays stays where the mortality arithmetic fits, and
/// the rent countdown can go one lower.
pub open spec fn day_fits(v: CivView, day: u32) -> bool {
    &&& mortality_age_fits(aged(v, day).life.age_years)
    &&& v.finances.rent_due_in > i32::MIN
}

fn begin_day(state: &mut CivilianState, time: &GameTime)
    requires
        civ_wf(old(state)@),
        time.day < u32::MAX,
        day_fits(old(state)@, time.day),
    ensures
        changed_to(*old(state), *final(state), day_begun(old(state)@, *time)),
        civ_wf(final(state)@),
        final(state).finances.rent_due_in == old(state).finances.rent_due_in,
{
    state.last_day = time.day;
    update_age_and_life_stage(state, time.day);
    crate::simulation::civilian::life::update_routine_schedule(state);
    apply_age_decline(state, time.day);
    apply_daily_health(state);
    update_mortality_risk(state);
    check_for_death(state, time.day);
}

fn count_rent(state: &mut CivilianState, time: &GameTime)
    requires
        civ_wf(old(state)@),
        old(state).finances.rent_due_in > i32::MIN,
    ensures
        changed_to(*old(state), *final(state), rent_counted(old(state)@, *time)),
        civ_wf(final(state)@),
{
    crate::simulation::civilian::life::sync_housing_rent(state);
    state.finances.rent_due_in = state.finances.rent_due_in - 1;
    if state.finances.rent_due_in <= 0 {
        queue_event(state, "civilian_rent_due", time.tick);
    }
    if should_queue_crime_opportunity(state) {
        queue_event(state, "civilian_crime_quick_hit", time.tick);
    }
}

fn start_day(state: &mut CivilianState, time: &GameTime)
    requires
        civ_wf(old(state)@),
        time.day < u32::MAX,
        day_fits(old(state)@, time.day),
    ensures
        changed_to(*old(state), *final(state), day_started(old(state)@, *time)),
        civ_wf(final(state)@),
{
    begin_day(state, time);
    count_rent(state, time);
}

fn settle_day(state: &mut CivilianState, time: &GameTime)
    requires
        civ_wf(old(state)@),
    ensures
        changed_to(*old(state), *final(state), day_settled(old(state)@, *time)),
        civ_wf(final(state)@),
{
    update_housing_state(state, time.tick);
    update_social_web(state);
    proof {
        assert(crate::simulation::civilian::life::web_in_range(state.social_web));
    }
    crate::simulation::civilian::life::update_civilian_tier(state);
    crate::simulation::civilian::life::update_network_rewards(state);
    update_mistake_risk(state);
    if should_queue_job_offer(state, time.day) {
        queue_event(state, "civilian_job_offer", time.tick);
        state.last_job_offer_day = time.day;
    }
}

/// A work shift at its first hour, once a day, for the employed: the shift is
/// queued and worked, and a promotion checked.
pub open spec fn work_done(v: CivView, time: GameTime) -> CivView {
    match earliest_start(v.routine, crate::simulation::civilian::RoutineActivity::Work) {
        Some(start) => if (v.job_status == JobStatus::Employed || v.job_status == JobStatus::PartTime) && time.hour == start
            && v.last_work_day != time.day {
            crate::simulation::civilian::life::career_progressed(
                shift_worked(queued(CivView { last_work_day: time.day, ..v }, "civilian_work_shift"@, time.tick, None)),
                time.day,
            )
        } else {
            v
        },
        None => v,
    }
}

/// A school day at the first school hour, once a day, for the enrolled.
pub open spec fn school_done(v: CivView, time: GameTime) -> CivView {
    if v.education.is_enrolled {
        match earliest_start(v.routine, crate::simulation::civilian::RoutineActivity::School) {
            Some(start) => if time.hour == start && v.education.last_school_day != time.day {
                let q = queued(v, "civilian_school_day"@, time.tick, None);
                school_attended(
                    CivView {
                        education: crate::simulation::civilian::EducationTrack { last_school_day: time.day, ..q.education },
                        ..q
                    },
                )
            } else {
                v
            },
            None => v,
        }
    } else {
        v
    }
}

/// A hobby session at the first hobby hour, once a day.
pub open spec fn hobby_done(v: CivView, time: GameTime) -> CivView {
    match earliest_start(v.routine, crate::simulation::civilian::RoutineActivity::Hobby) {
        Some(start) => if time.hour == start && v.last_hobby_day != time.day {
            queued(CivView { last_hobby_day: time.day, ..v }, "civilian_hobby_session"@, time.tick, None)
        } else {
            v
        },
        None => v,
    }
}

/// The evening's social event at the first social hour (seven in the evening by
/// default), once a day: a relationship event, or a check-in when support is low
/// or strain high.
pub open spec fn social_done(v: CivView, time: GameTime) -> CivView {
    let hour: u8 = match earliest_start(v.routine, crate::simulation::civilian::RoutineActivity::Social) {
        Some(s) => s,
        None => 19,
    };
    if time.hour == hour && v.last_relationship_day != time.day {
        let v1 = CivView { last_relationship_day: time.day, ..v };
        match relationship_event(v1) {
            Some((id, contact)) => queued(v1, id, time.tick, contact),
            None => if v1.social.support < 60 || v1.social.strain > 15 {
                queued(v1, "civilian_relationship_checkin"@, time.tick, None)
            } else {
                v1
            },
        }
    } else {
        v
    }
}

/// A health check-in at eight in the evening, once a day, when stress or lack of
/// sleep runs high.
pub open spec fn health_checked(v: CivView, time: GameTime) -> CivView {
    if (v.health.stress >= 65 || v.health.sleep_debt >= 16) && time.hour == 20 && v.last_health_day != time.day {
        queued(CivView { last_health_day: time.day, ..v }, "civilian_health_checkin"@, time.tick, None)
    } else {
        v
    }
}

/// The hour's routine activity and a death check, then work and school.
pub open spec fn hour_begun(v: CivView, time: GameTime) -> CivView {
    let v1 = death_checked(
        activity_applied(v, crate::simulation::civilian::routine::activity_for_hour(v.routine, time.hour), time.is_day),
        time.day,
    );
    school_done(work_done(v1, time), time)
}

/// Then hobby, social life and health as their hours come.
pub open spec fn hour_ended(v: CivView, time: GameTime) -> CivView {
    health_checked(social_done(hobby_done(v, time), time), time)
}

/// An hour of the day: the routine's activity, a death check, then work, school,
/// hobby, social life and health as their hours come.
pub open spec fn hour_lived(v: CivView, time: GameTime) -> CivView {
    hour_ended(hour_begun(v, time), time)
}

/// What an hour does to a civilian life: on a new day the day's changes first, then
/// the hour's.
pub open spec fn ticked(v: CivView, time: GameTime) -> CivView {
    let v1 = if time.day != v.last_day { day_settled(day_started(v, time), time) } else { v };
    hour_lived(v1, time)
}

fn work_shift(state: &mut CivilianState, time: &GameTime)
    requires
        civ_wf(old(state)@),
    ensures
        changed_to(*old(state), *final(state), work_done(old(state)@, *time)),
        civ_wf(final(state)@),
{
    if let Some(start_hour) = state.routine.first_hour_for(crate::simulation::civilian::RoutineActivity::Work) {
        let working = match state.job_status {
            JobStatus::Employed | JobStatus::PartTime => true,
            JobStatus::Unemployed => false,
        };
        if working && time.hour == start_hour && state.last_work_day != time.day {
            state.last_work_day = time.day;
            queue_event(state, "civilian_work_shift", time.tick);
            record_work_shift(state);
            crate::simulation::civilian::life::apply_career_progression(state, time.day);
        }
    }
}

fn school_day(state: &mut CivilianState, time: &GameTime)
    requires
        civ_wf(old(state)@),
    ensures
        changed_to(*old(state), *final(state), school_done(old(state)@, *time)),
        civ_wf(final(state)@),
{
    if state.education.is_enrolled {
        if let Some(start_hour) = state.routine.first_hour_for(crate::simulation::civilian::RoutineActivity::School) {
            if time.hour == start_hour && state.education.last_school_day != time.day {
                queue_event(state, "civilian_school_day", time.tick);
                state.education.last_school_day = time.day;
                record_school_session(state);
            }
        }
    }
}

fn hobby_and_health(state: &mut CivilianState, time: &GameTime)
    ensures
        changed_to(*old(state), *final(state), hobby_done(old(state)@, *time)),
{
    if let Some(start_hour) = state.routine.first_hour_for(crate::simulation::civilian::RoutineActivity::Hobby) {
        if time.hour == start_hour && state.last_hobby_day != time.day {
            state.last_hobby_day = time.day;
            queue_event(state, "civilian_hobby_session", time.tick);
        }
    }
}

fn social_evening(state: &mut CivilianState, time: &GameTime)
    ensures
        changed_to(*old(state), *final(state), social_done(old(state)@, *time)),
{
    let social_hour: u8 = match state.routine.first_hour_for(crate::simulation::civilian::RoutineActivity::Social) {
        Some(h) => h,
        None => 19,
    };
    if time.hour == social_hour && state.last_relationship_day != time.day {
        state.last_relationship_day = time.day;
        match choose_relationship_event(state) {
            Some((event_id, contact_name)) => {
                queue_event_with_contact(state, event_id, time.tick, contact_name);
            },
            None => {
                if state.social.support < 60 || state.social.strain > 15 {
                    queue_event(state, "civilian_relationship_checkin", time.tick);
                }
            },
        }
    }
}

fn health_checkin(state: &mut CivilianState, time: &GameTime)
    ensures
        changed_to(*old(state), *final(state), health_checked(old(state)@, *time)),
{
    if (state.health.stress >= 65 || state.health.sleep_debt >= 16) && time.hour == 20 && state.last_health_day != time.day {
        state.last_health_day = time.day;
        queue_event(state, "civilian_health_checkin", time.tick);
    }
}

fn begin_hour(state: &mut CivilianState, time: &GameTime)
    requires
        civ_wf(old(state)@),
    ensures
        changed_to(*old(state), *final(state), hour_begun(old(state)@, *time)),
        civ_wf(final(state)@),
{
    let activity = state.routine.activity_at(time.hour);
    apply_routine_activity(state, activity, time.is_day);
    check_for_death(state, time.day);
    work_shift(state, time);
    school_day(state, time);
}

fn end_hour(state: &mut CivilianState, time: &GameTime)
    requires
        civ_wf(old(state)@),
    ensures
        changed_to(*old(state), *final(state), hour_ended(old(state)@, *time)),
        civ_wf(final(state)@),
{
    hobby_and_health(state, time);
    social_evening(state, time);
    health_checkin(state, time);
}

/// An hour of civilian life, as `ticked` describes.
pub fn tick_civilian_life(state: &mut CivilianState, time: &GameTime)
    requires
        civ_wf(old(state)@),
        time.day < u32::MAX,
        time.day != old(state).last_day ==> day_fits(old(state)@, time.day),
    ensures
        changed_to(*old(state), *final(state), ticked(old(state)@, *time)),
        civ_wf(final(state)@),
        events_kept(old(state)@.pending_events, final(state)@.pending_events),
        storylets_unique(old(state)@.pending_events) ==> storylets_unique(final(state)@.pending_events),
        old(state)@.pending_death is Some ==> final(state)@.pending_death == old(state)@.pending_death,
        time.day == old(state).last_day ==> final(state)@.life.age_years == old(state)@.life.age_years
            && final(state)@.finances.rent_due_in == old(state)@.finances.rent_due_in,
        time.day != old(state).last_day ==> final(state).last_day == time.day
            && final(state)@.finances.rent_due_in == old(state)@.finances.rent_due_in - 1,
{
    proof {
        law_tick_keeps_events(state@, *time);
        law_tick_day_counters(state@, *time);
    }
    if time.day != state.last_day {
        start_day(state, time);
        settle_day(state, time);
    }
    begin_hour(state, time);
    end_hour(state, time);
}

/// No two pending events share a storylet.
pub open spec fn storylets_unique(es: Seq<EventView>) -> bool {
    forall|i: int, j: int| 0 <= i < j < es.len() ==> #[trigger] es[i].storylet_id != #[trigger] es[j].storylet_id
}

/// Queueing an event never puts a storylet in the queue twice.
pub proof fn law_queue_keeps_storylets_unique(v: CivView, id: Seq<char>, tick: u64, contact: Option<Seq<char>>)
    requires
        storylets_unique(v.pending_events),
    ensures
        storylets_unique(queued(v, id, tick, contact).pending_events),
        has_pending(queued(v, id, tick, contact).pending_events, id),
{
    let es = v.pending_events;
    if !has_pending(es, id) {
        let es2 = es.push(EventView { storylet_id: id, created_tick: tick, contact_name: contact });
        assert(es2[es.len() as int].storylet_id == id);
        assert forall|i: int, j: int| 0 <= i < j < es2.len() implies #[trigger] es2[i].storylet_id != #[trigger] es2[j].storylet_id by {
            if j == es.len() {
                assert(es2[i] == es[i]);
            } else {
                assert(es2[i] == es[i] && es2[j] == es[j]);
            }
        }
    }
}


/// The pending events `after` begin with those of `before`, in order.
pub open spec fn events_kept(before: Seq<EventView>, after: Seq<EventView>) -> bool {
    &&& before.len() <= after.len()
    &&& forall|i: int| 0 <= i < before.len() ==> #[trigger] after[i] == before[i]
}

/// Queueing keeps what was pending, in order, and never puts a storylet in twice.
pub proof fn lemma_queued_keeps(v: CivView, id: Seq<char>, tick: u64, contact: Option<Seq<char>>)
    ensures
        events_kept(v.pending_events, queued(v, id, tick, contact).pending_events),
        storylets_unique(v.pending_events) ==> storylets_unique(queued(v, id, tick, contact).pending_events),
{
    if storylets_unique(v.pending_events) {
        law_queue_keeps_storylets_unique(v, id, tick, contact);
    }
}

/// From `a` to `b` the pending events are kept, in order, no storylet comes to wait
/// twice, and a recorded death stays recorded.
pub open spec fn events_step(a: CivView, b: CivView) -> bool {
    &&& events_kept(a.pending_events, b.pending_events)
    &&& storylets_unique(a.pending_events) ==> storylets_unique(b.pending_events)
    &&& a.pending_death is Some ==> b.pending_death == a.pending_death
}

proof fn lemma_events_step_trans(a: CivView, b: CivView, c: CivView)
    requires
        events_step(a, b),
        events_step(b, c),
    ensures
        events_step(a, c),
{
    assert forall|i: int| 0 <= i < a.pending_events.len() implies #[trigger] c.pending_events[i] == a.pending_events[i] by {
        assert(b.pending_events[i] == a.pending_events[i]);
    }
}

proof fn lemma_queued_step(v: CivView, id: Seq<char>, tick: u64, contact: Option<Seq<char>>)
    ensures
        events_step(v, queued(v, id, tick, contact)),
{
    lemma_queued_keeps(v, id, tick, contact);
}

proof fn lemma_day_started_step(v: CivView, time: GameTime)
    ensures
        events_step(v, day_started(v, time)),
{
    let b = day_begun(v, time);
    assert(events_step(v, b));
    let v5 = CivView {
        finances: CivilianFinances { rent: b.housing.rent, rent_due_in: (b.finances.rent_due_in - 1) as i32, ..b.finances },
        ..b
    };
    assert(events_step(b, v5));
    lemma_events_step_trans(v, b, v5);
    let v6 = if v5.finances.rent_due_in <= 0 { queued(v5, "civilian_rent_due"@, time.tick, None) } else { v5 };
    lemma_queued_step(v5, "civilian_rent_due"@, time.tick, None);
    lemma_events_step_trans(v, v5, v6);
    lemma_queued_step(v6, "civilian_crime_quick_hit"@, time.tick, None);
    lemma_events_step_trans(v, v6, day_started(v, time));
}

proof fn lemma_day_settled_step(v: CivView, time: GameTime)
    ensures
        events_step(v, day_settled(v, time)),
{
    let h = housing_updated(v, time.tick);
    let hh = v.housing;
    let cooldown = if hh.relocation_cooldown > 0 { (hh.relocation_cooldown - 1) as i32 } else { hh.relocation_cooldown };
    let overdue = v.finances.rent_due_in <= 0;
    let stability = if overdue {
        metric(hh.stability - (if v.finances.cash < hh.rent { 4int } else { 2int }))
    } else if v.finances.rent_due_in > 7 && hh.stability < 82 {
        metric(hh.stability + 1)
    } else {
        hh.stability
    };
    let strain = if overdue { metric(v.social.strain + 1) } else { v.social.strain };
    let v1 = CivView {
        housing: crate::simulation::civilian::HousingView { relocation_cooldown: cooldown, stability, ..hh },
        social: SocialTies { strain, ..v.social },
        ..v
    };
    assert(events_step(v, v1));
    lemma_queued_step(v1, "civilian_relocation_offer"@, time.tick, None);
    lemma_events_step_trans(v, v1, h);
    let so = social_updated(h);
    assert(events_step(h, so));
    lemma_events_step_trans(v, h, so);
    let v2 = CivView { civilian_tier: crate::simulation::civilian::life::tier_for(so), ..so };
    let v3 = CivView {
        network_rewards: crate::simulation::civilian::life::network_rewards_for(v2.social_web, v2.civilian_tier),
        ..v2
    };
    let v4 = CivView { mistake_risk: mistake_risk_of(v3), ..v3 };
    assert(events_step(so, v4));
    lemma_events_step_trans(v, so, v4);
    lemma_queued_step(v4, "civilian_job_offer"@, time.tick, None);
    lemma_events_step_trans(v, v4, day_settled(v, time));
}

proof fn lemma_hour_begun_step(v: CivView, time: GameTime)
    ensures
        events_step(v, hour_begun(v, time)),
{
    let a = activity_applied(v, crate::simulation::civilian::routine::activity_for_hour(v.routine, time.hour), time.is_day);
    let v1 = death_checked(a, time.day);
    assert(events_step(v, v1));
    let w = work_done(v1, time);
    match earliest_start(v1.routine, crate::simulation::civilian::RoutineActivity::Work) {
        Some(start) => {
            let q = queued(CivView { last_work_day: time.day, ..v1 }, "civilian_work_shift"@, time.tick, None);
            lemma_queued_step(CivView { last_work_day: time.day, ..v1 }, "civilian_work_shift"@, time.tick, None);
            assert(events_step(v1, CivView { last_work_day: time.day, ..v1 }));
            lemma_events_step_trans(v1, CivView { last_work_day: time.day, ..v1 }, q);
            let sw = shift_worked(q);
            assert(events_step(q, sw));
            lemma_events_step_trans(v1, q, sw);
            let cp = crate::simulation::civilian::life::career_progressed(sw, time.day);
            assert(events_step(sw, cp));
            lemma_events_step_trans(v1, sw, cp);
        },
        None => {},
    }
    assert(events_step(v1, w));
    lemma_events_step_trans(v, v1, w);
    let sc = school_done(w, time);
    if w.education.is_enrolled {
        let q = queued(w, "civilian_school_day"@, time.tick, None);
        lemma_queued_step(w, "civilian_school_day"@, time.tick, None);
        let q2 = CivView {
            education: crate::simulation::civilian::EducationTrack { last_school_day: time.day, ..q.education },
            ..q
        };
        assert(events_step(q, q2));
        lemma_events_step_trans(w, q, q2);
        assert(events_step(q2, school_attended(q2)));
        lemma_events_step_trans(w, q2, school_attended(q2));
    }
    assert(events_step(w, sc));
    lemma_events_step_trans(v, w, sc);
}

proof fn lemma_hour_ended_step(v: CivView, time: GameTime)
    ensures
        events_step(v, hour_ended(v, time)),
{
    let hb = hobby_done(v, time);
    lemma_queued_step(CivView { last_hobby_day: time.day, ..v }, "civilian_hobby_session"@, time.tick, None);
    assert(events_step(v, CivView { last_hobby_day: time.day, ..v }));
    lemma_events_step_trans(v, CivView { last_hobby_day: time.day, ..v }, queued(CivView { last_hobby_day: time.day, ..v }, "civilian_hobby_session"@, time.tick, None));
    assert(events_step(v, hb));
    let sd = social_done(hb, time);
    let v1 = CivView { last_relationship_day: time.day, ..hb };
    assert(events_step(hb, v1));
    match relationship_event(v1) {
        Some((id, contact)) => {
            lemma_queued_step(v1, id, time.tick, contact);
            lemma_events_step_trans(hb, v1, queued(v1, id, time.tick, contact));
        },
        None => {
            lemma_queued_step(v1, "civilian_relationship_checkin"@, time.tick, None);
            lemma_events_step_trans(hb, v1, queued(v1, "civilian_relationship_checkin"@, time.tick, None));
        },
    }
    assert(events_step(hb, sd));
    lemma_events_step_trans(v, hb, sd);
    let hc = health_checked(sd, time);
    lemma_queued_step(CivView { last_health_day: time.day, ..sd }, "civilian_health_checkin"@, time.tick, None);
    assert(events_step(sd, CivView { last_health_day: time.day, ..sd }));
    lemma_events_step_trans(sd, CivView { last_health_day: time.day, ..sd }, queued(CivView { last_health_day: time.day, ..sd }, "civilian_health_checkin"@, time.tick, None));
    assert(events_step(sd, hc));
    lemma_events_step_trans(v, sd, hc);
}

/// A tick keeps the events that were pending, in order, and adds none for a storylet
/// already waiting; it keeps a recorded death. Within the same day it leaves the age and
/// the rent countdown alone; on a new day it notes the day and brings the rent a day
/// closer.
pub proof fn law_tick_keeps_events(v: CivView, time: GameTime)
    ensures
        events_kept(v.pending_events, ticked(v, time).pending_events),
        storylets_unique(v.pending_events) ==> storylets_unique(ticked(v, time).pending_events),
        v.pending_death is Some ==> ticked(v, time).pending_death == v.pending_death,
{
    let v1 = if time.day != v.last_day { day_settled(day_started(v, time), time) } else { v };
    if time.day != v.last_day {
        lemma_day_started_step(v, time);
        lemma_day_settled_step(day_started(v, time), time);
        lemma_events_step_trans(v, day_started(v, time), v1);
    }
    lemma_hour_begun_step(v1, time);
    lemma_hour_ended_step(hour_begun(v1, time), time);
    lemma_events_step_trans(v1, hour_begun(v1, time), ticked(v, time));
    lemma_events_step_trans(v, v1, ticked(v, time));
}

/// What an hour leaves of the day's counters: the day noted, the age and the rent
/// countdown.
proof fn lemma_hour_counters(v: CivView, time: GameTime)
    ensures
        hour_lived(v, time).last_day == v.last_day,
        hour_lived(v, time).life.age_years == v.life.age_years,
        hour_lived(v, time).finances.rent_due_in == v.finances.rent_due_in,
{
    let a = activity_applied(v, crate::simulation::civilian::routine::activity_for_hour(v.routine, time.hour), time.is_day);
    let v1 = death_checked(a, time.day);
    assert(v1.finances.rent_due_in == v.finances.rent_due_in && v1.life.age_years == v.life.age_years);
    let w = work_done(v1, time);
    assert(w.finances.rent_due_in == v.finances.rent_due_in && w.life.age_years == v.life.age_years);
    let sc = school_done(w, time);
    assert(sc.finances.rent_due_in == v.finances.rent_due_in && sc.life.age_years == v.life.age_years);
}

/// Within the same day a tick leaves the age and the rent countdown alone; on a new day
/// it notes the day and brings the rent a day closer.
pub proof fn law_tick_day_counters(v: CivView, time: GameTime)
    requires
        time.day != v.last_day ==> day_fits(v, time.day),
    ensures
        time.day == v.last_day ==> ticked(v, time).life.age_years == v.life.age_years
            && ticked(v, time).finances.rent_due_in == v.finances.rent_due_in,
        time.day != v.last_day ==> ticked(v, time).last_day == time.day
            && ticked(v, time).finances.rent_due_in == v.finances.rent_due_in - 1,
{
    let v1 = if time.day != v.last_day { day_settled(day_started(v, time), time) } else { v };
    lemma_hour_counters(v1, time);
    if time.day != v.last_day {
        let b = day_begun(v, time);
        assert(b.last_day == time.day);
        let r = day_started(v, time);
        assert(r.last_day == time.day && r.finances.rent_due_in == b.finances.rent_due_in - 1);
        assert(v1.last_day == time.day && v1.finances.rent_due_in == r.finances.rent_due_in);
    }
}
} // verus!

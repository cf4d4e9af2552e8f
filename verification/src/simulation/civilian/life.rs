use vstd::prelude::*;

use crate::simulation::civilian::career::{
    career_model, career_wage, level_cap, max_job_level, model_of, promotion_threshold, threshold_for, wage_for,
};
use crate::simulation::civilian::routine::{build_routine_schedule, routine_blocks};
use crate::simulation::civilian::{
    civ_wf, clamp_metric, clamp_progress, contact_views, in_metric, metric, progress_clamped, same_records,
    stage_for_age, CivView, CivilianRewards, CivilianState, CivilianTier, ContactDomain, ContactView,
    EducationLevel, EducationTrack, JobStatus, LifeStage, LifeState, SocialWeb, MAX_JOB_LEVEL, PART_TIME_LEVEL_CAP, PROMOTION_COOLDOWN_DAYS,
};

verus! {

/// Division rounding toward zero, as Rust divides integers.
pub open spec fn tdiv(a: int, b: int) -> int {
    if a >= 0 {
        a / b
    } else {
        -((-a) / b)
    }
}

/// `after` differs from `before` only in its view, which is `v`.
pub open spec fn changed_to(before: CivilianState, after: CivilianState, v: CivView) -> bool {
    after@ == v && same_records(before, after)
}

/// The job level kept within what the status allows, and the wage it pays.
pub open spec fn compensation_synced(v: CivView) -> CivView {
    let cap = level_cap(v.job_status);
    let level: i32 = if v.job.level < 0 { 0 } else if v.job.level > cap { cap } else { v.job.level };
    CivView {
        job: crate::simulation::civilian::CivilianJob { level, ..v.job },
        finances: crate::simulation::civilian::CivilianFinances {
            wage: wage_for(v.job.role, level, v.job_status),
            ..v.finances
        },
        ..v
    }
}

pub proof fn lemma_wf_compensation(v: CivView)
    requires
        civ_wf(v),
    ensures
        civ_wf(compensation_synced(v)),
{
    let w = compensation_synced(v);
    assert(w.contacts == v.contacts);
}

pub fn sync_career_compensation(state: &mut CivilianState)
    ensures
        changed_to(*old(state), *final(state), compensation_synced(old(state)@)),
{
    let cap = max_job_level(state.job_status);
    let level: i32 = if state.job.level < 0 {
        0
    } else if state.job.level > cap {
        cap
    } else {
        state.job.level
    };
    state.job.level = level;
    state.finances.wage = career_wage(state.job.role, level, state.job_status);
}

/// The rewards a promotion to `level` brings: more income, and from level three on
/// access, from four intel, from five favours.
pub open spec fn promotion_rewards(r: CivilianRewards, level: i32) -> CivilianRewards {
    CivilianRewards {
        income_boost: metric(r.income_boost + 1),
        access: if level >= 3 { metric(r.access + 1) } else { r.access },
        intel: if level >= 4 { metric(r.intel + 1) } else { r.intel },
        favors: if level >= 5 { metric(r.favors + 1) } else { r.favors },
        ..r
    }
}

pub fn apply_promotion_rewards(state: &mut CivilianState)
    requires
        civ_wf(old(state)@),
    ensures
        changed_to(
            *old(state),
            *final(state),
            CivView { rewards: promotion_rewards(old(state).rewards, old(state).job.level), ..old(state)@ },
        ),
{
    state.rewards.income_boost = clamp_metric(state.rewards.income_boost + 1);
    if state.job.level >= 3 {
        state.rewards.access = clamp_metric(state.rewards.access + 1);
    }
    if state.job.level >= 4 {
        state.rewards.intel = clamp_metric(state.rewards.intel + 1);
    }
    if state.job.level >= 5 {
        state.rewards.favors = clamp_metric(state.rewards.favors + 1);
    }
}

/// A promotion is due: employed below the level cap, past the cooldown, and with the
/// experience the level asks for.
pub open spec fn promotion_due(v: CivView, day: u32) -> bool {
    let cooldown_end = if v.last_promotion_day + 5 <= u32::MAX { v.last_promotion_day + 5 } else { u32::MAX as int };
    &&& v.job_status != JobStatus::Unemployed
    &&& v.job.level < level_cap(v.job_status)
    &&& day >= cooldown_end
    &&& v.career_xp >= threshold_for(v.job.level)
}

/// The state after a promotion check on `day`: when one is due, the experience is
/// spent, the level rises, satisfaction, stability and career reputation grow, the
/// promotion rewards come in and the pay follows.
pub open spec fn career_progressed(v: CivView, day: u32) -> CivView {
    if promotion_due(v, day) {
        let level = (v.job.level + 1) as i32;
        let promoted = CivView {
            career_xp: progress_clamped(v.career_xp - threshold_for(v.job.level)),
            job: crate::simulation::civilian::CivilianJob {
                level,
                satisfaction: metric(v.job.satisfaction + 4),
                stability: metric(v.job.stability + 3),
                ..v.job
            },
            last_promotion_day: day,
            reputation: crate::simulation::civilian::ReputationTrack {
                career: metric(v.reputation.career + model_of(v.job.role).reputation_step),
                ..v.reputation
            },
            rewards: promotion_rewards(v.rewards, level),
            ..v
        };
        compensation_synced(promoted)
    } else {
        v
    }
}

/// A promotion never lifts a job above what its status allows: part-time work stops at
/// `PART_TIME_LEVEL_CAP` and full-time work at `MAX_JOB_LEVEL`, whatever the experience;
/// a job already at its cap stays at its level.
pub proof fn law_promotion_capped(v: CivView, day: u32)
    ensures
        career_progressed(v, day).job_status == v.job_status,
        v.job_status == JobStatus::PartTime && v.job.level <= PART_TIME_LEVEL_CAP ==> career_progressed(v, day).job.level
            <= PART_TIME_LEVEL_CAP,
        v.job_status == JobStatus::Employed && v.job.level <= MAX_JOB_LEVEL ==> career_progressed(v, day).job.level
            <= MAX_JOB_LEVEL,
        v.job_status == JobStatus::PartTime && v.job.level >= PART_TIME_LEVEL_CAP ==> career_progressed(v, day).job.level
            == v.job.level,
        v.job_status == JobStatus::Employed && v.job.level >= MAX_JOB_LEVEL ==> career_progressed(v, day).job.level
            == v.job.level,
{
}

pub fn apply_career_progression(state: &mut CivilianState, day: u32)
    requires
        civ_wf(old(state)@),
    ensures
        changed_to(*old(state), *final(state), career_progressed(old(state)@, day)),
        civ_wf(final(state)@),
{
    let ghost cs0 = state@.contacts;
    if let JobStatus::Unemployed = state.job_status {
        return;
    }
    let cap = max_job_level(state.job_status);
    if state.job.level >= cap {
        return;
    }
    let cooldown_end: u32 = if state.last_promotion_day as u64 + PROMOTION_COOLDOWN_DAYS as u64 <= u32::MAX as u64 {
        state.last_promotion_day + PROMOTION_COOLDOWN_DAYS
    } else {
        u32::MAX
    };
    if day < cooldown_end {
        return;
    }
    let threshold = promotion_threshold(state.job.level);
    if state.career_xp < threshold {
        return;
    }
    state.career_xp = clamp_progress(state.career_xp - threshold);
    state.job.level = state.job.level + 1;
    state.last_promotion_day = day;
    state.job.satisfaction = clamp_metric(state.job.satisfaction + 4);
    state.job.stability = clamp_metric(state.job.stability + 3);
    state.reputation.career = clamp_metric(state.reputation.career + career_model(state.job.role).reputation_step);
    apply_promotion_rewards(state);
    assert(state@.contacts == cs0);
    assert(cs0 == old(state)@.contacts);
    assert(forall|i: int| #![trigger cs0[i]] 0 <= i < cs0.len() ==> in_metric(cs0[i].bond) && in_metric(cs0[i].influence));
    assert(forall|i: int| #![trigger state@.contacts[i]] 0 <= i < state@.contacts.len() ==> in_metric(state@.contacts[i].bond) && in_metric(state@.contacts[i].influence));
    assert(civ_wf(state@));
    proof {
        lemma_wf_compensation(state@);
    }
    sync_career_compensation(state);
}

/// The weight the contacts of one circle carry: each counts its influence and half
/// its bond.
pub open spec fn circle_weight(cs: Seq<ContactView>, d: ContactDomain) -> int
    decreases cs.len(),
{
    if cs.len() == 0 {
        0
    } else {
        let c = cs.last();
        circle_weight(cs.drop_last(), d) + if c.domain == d {
            c.influence + tdiv(c.bond as int, 2)
        } else {
            0
        }
    }
}

/// A circle's raw weight on the web's `0..=100` scale.
pub open spec fn web_score(score: int) -> i32 {
    let q = tdiv(score, 4);
    if q < 0 {
        0
    } else if q > 100 {
        100
    } else {
        q as i32
    }
}

fn normalize_web_score(score: i32) -> (r: i32)
    ensures
        r == web_score(score as int),
{
    let q = score / 4;
    if q < 0 {
        0
    } else if q > 100 {
        100
    } else {
        q
    }
}

/// The social web: each circle weighs its contacts and the matching reputation
/// (twice over); the underground weighs half the obligations, at most fifty.
pub open spec fn web_for(v: CivView) -> SocialWeb {
    let half_obligation = tdiv(v.social.obligation as int, 2);
    let under = if half_obligation < 0 { 0 } else if half_obligation > 50 { 50 } else { half_obligation };
    SocialWeb {
        professional: web_score(circle_weight(v.contacts, ContactDomain::Professional) + v.reputation.career * 2),
        community: web_score(circle_weight(v.contacts, ContactDomain::Community) + v.reputation.community * 2),
        media: web_score(circle_weight(v.contacts, ContactDomain::Media) + v.reputation.media * 2),
        underground: web_score(circle_weight(v.contacts, ContactDomain::Underground) + under),
    }
}

#[verifier::rlimit(30)]
pub fn rebuild_social_web(state: &mut CivilianState)
    requires
        civ_wf(old(state)@),
    ensures
        changed_to(*old(state), *final(state), CivView { social_web: web_for(old(state)@), ..old(state)@ }),
{
    let ghost cs = state@.contacts;
    assert(civ_wf(state@));
    let mut professional: i32 = 0;
    let mut community: i32 = 0;
    let mut media: i32 = 0;
    let mut underground: i32 = 0;
    let mut i: usize = 0;
    assert(cs.take(0) =~= Seq::<ContactView>::empty());
    while i < state.contacts.len()
        invariant
            cs == contact_views(state.contacts@),
            forall|j: int| #![trigger cs[j]] 0 <= j < cs.len() ==> in_metric(cs[j].bond) && in_metric(cs[j].influence),
            i <= cs.len(),
            professional == circle_weight(cs.take(i as int), ContactDomain::Professional),
            community == circle_weight(cs.take(i as int), ContactDomain::Community),
            media == circle_weight(cs.take(i as int), ContactDomain::Media),
            underground == circle_weight(cs.take(i as int), ContactDomain::Underground),
            0 <= professional <= 150 * i,
            0 <= community <= 150 * i,
            0 <= media <= 150 * i,
            0 <= underground <= 150 * i,
            cs.len() <= 10_000_000,
        decreases cs.len() - i,
    {
        let ghost pre = cs.take(i as int);
        let ghost next = cs.take(i + 1);
        assert(next.drop_last() =~= pre);
        assert(next.last() == cs[i as int]);
        assert(cs[i as int] == state.contacts@[i as int]@);
        assert(in_metric(cs[i as int].bond) && in_metric(cs[i as int].influence));
        let contact = &state.contacts[i];
        let weight = contact.influence + contact.bond / 2;
        match contact.domain {
            ContactDomain::Professional => professional = professional + weight,
            ContactDomain::Community => community = community + weight,
            ContactDomain::Media => media = media + weight,
            ContactDomain::Underground => underground = underground + weight,
        }
        i = i + 1;
    }
    assert(cs.take(cs.len() as int) =~= cs);
    professional = professional + state.reputation.career * 2;
    community = community + state.reputation.community * 2;
    media = media + state.reputation.media * 2;
    let half_obligation = state.social.obligation / 2;
    let under: i32 = if half_obligation < 0 {
        0
    } else if half_obligation > 50 {
        50
    } else {
        half_obligation
    };
    underground = underground + under;
    state.social_web.professional = normalize_web_score(professional);
    state.social_web.community = normalize_web_score(community);
    state.social_web.media = normalize_web_score(media);
    state.social_web.underground = normalize_web_score(underground);
}

/// The standing a civilian's network gives: the web's average, three per contact up
/// to twelve contacts, and four per job level.
pub open spec fn tier_total(v: CivView) -> int {
    let base = tdiv(
        v.social_web.professional + v.social_web.community + v.social_web.media + v.social_web.underground,
        4,
    );
    let counted = if v.contacts.len() < 12 { v.contacts.len() as int } else { 12 };
    base + counted * 3 + v.job.level * 4
}

pub open spec fn tier_for(v: CivView) -> CivilianTier {
    let total = tier_total(v);
    if total >= 110 {
        CivilianTier::PowerBroker
    } else if total >= 85 {
        CivilianTier::Influential
    } else if total >= 60 {
        CivilianTier::Connected
    } else {
        CivilianTier::Local
    }
}

/// The web scores all lie within `0..=100`.
pub open spec fn web_in_range(w: SocialWeb) -> bool {
    in_metric(w.professional) && in_metric(w.community) && in_metric(w.media) && in_metric(w.underground)
}

pub fn update_civilian_tier(state: &mut CivilianState)
    requires
        civ_wf(old(state)@),
        web_in_range(old(state).social_web),
    ensures
        changed_to(*old(state), *final(state), CivView { civilian_tier: tier_for(old(state)@), ..old(state)@ }),
{
    let base = (state.social_web.professional + state.social_web.community + state.social_web.media
        + state.social_web.underground) / 4;
    let n = state.contacts.len();
    let counted: i32 = if n < 12 { n as i32 } else { 12 };
    let total = base + counted * 3 + state.job.level * 4;
    assert(contact_views(state.contacts@).len() == state.contacts@.len());
    state.civilian_tier = if total >= 110 {
        CivilianTier::PowerBroker
    } else if total >= 85 {
        CivilianTier::Influential
    } else if total >= 60 {
        CivilianTier::Connected
    } else {
        CivilianTier::Local
    };
}

/// The rewards a network gives: shares of the web's circles, and extra favours,
/// access and intel for the higher tiers.
pub open spec fn network_rewards_for(w: SocialWeb, tier: CivilianTier) -> CivilianRewards {
    let base = CivilianRewards {
        income_boost: metric(tdiv(w.professional as int, 18)),
        safehouse: metric(tdiv(w.underground as int, 16)),
        access: metric(tdiv(w.community as int, 16)),
        intel: metric(tdiv(w.media as int, 18)),
        favors: metric(tdiv(w.community + w.underground, 32)),
    };
    match tier {
        CivilianTier::Connected => CivilianRewards { favors: metric(base.favors + 1), ..base },
        CivilianTier::Influential => CivilianRewards {
            favors: metric(base.favors + 2),
            access: metric(base.access + 1),
            ..base
        },
        CivilianTier::PowerBroker => CivilianRewards {
            favors: metric(base.favors + 3),
            access: metric(base.access + 2),
            intel: metric(base.intel + 2),
            ..base
        },
        CivilianTier::Local => base,
    }
}

pub fn update_network_rewards(state: &mut CivilianState)
    requires
        web_in_range(old(state).social_web),
    ensures
        changed_to(
            *old(state),
            *final(state),
            CivView { network_rewards: network_rewards_for(old(state).social_web, old(state).civilian_tier), ..old(state)@ },
        ),
{
    let w = state.social_web;
    let mut rewards = CivilianRewards {
        income_boost: clamp_metric(w.professional / 18),
        safehouse: clamp_metric(w.underground / 16),
        access: clamp_metric(w.community / 16),
        intel: clamp_metric(w.media / 18),
        favors: clamp_metric((w.community + w.underground) / 32),
    };
    match state.civilian_tier {
        CivilianTier::Connected => {
            rewards.favors = clamp_metric(rewards.favors + 1);
        },
        CivilianTier::Influential => {
            rewards.favors = clamp_metric(rewards.favors + 2);
            rewards.access = clamp_metric(rewards.access + 1);
        },
        CivilianTier::PowerBroker => {
            rewards.favors = clamp_metric(rewards.favors + 3);
            rewards.access = clamp_metric(rewards.access + 2);
            rewards.intel = clamp_metric(rewards.intel + 2);
        },
        CivilianTier::Local => {},
    }
    state.network_rewards = rewards;
}

/// Schooling made to fit the life stage: children and teens are in primary and
/// secondary school; a young adult who did well enough moves on to tertiary study
/// and is enrolled only there; adults who did well enough graduate and leave school.
pub open spec fn education_aligned(e: EducationTrack, stage: LifeStage) -> EducationTrack {
    match stage {
        LifeStage::Child => EducationTrack { level: EducationLevel::Primary, is_enrolled: true, ..e },
        LifeStage::Teen => EducationTrack { level: EducationLevel::Secondary, is_enrolled: true, ..e },
        LifeStage::YoungAdult => {
            let e1 = if e.level == EducationLevel::Secondary && e.progress >= 60 {
                EducationTrack { level: EducationLevel::Tertiary, progress: 0, credits: 0, ..e }
            } else {
                e
            };
            EducationTrack { is_enrolled: e1.level == EducationLevel::Tertiary, ..e1 }
        },
        _ => {
            let e1 = if e.level == EducationLevel::Tertiary && e.progress >= 80 {
                EducationTrack { level: EducationLevel::Graduate, progress: 0, credits: 0, ..e }
            } else {
                e
            };
            EducationTrack { is_enrolled: false, ..e1 }
        },
    }
}

pub fn align_education_with_life_stage(state: &mut CivilianState)
    ensures
        changed_to(
            *old(state),
            *final(state),
            CivView { education: education_aligned(old(state).education, old(state).life.life_stage), ..old(state)@ },
        ),
{
    match state.life.life_stage {
        LifeStage::Child => {
            state.education.level = EducationLevel::Primary;
            state.education.is_enrolled = true;
        },
        LifeStage::Teen => {
            state.education.level = EducationLevel::Secondary;
            state.education.is_enrolled = true;
        },
        LifeStage::YoungAdult => {
            if state.education.level == EducationLevel::Secondary && state.education.progress >= 60 {
                state.education.level = EducationLevel::Tertiary;
                state.education.progress = 0;
                state.education.credits = 0;
            }
            state.education.is_enrolled = state.education.level == EducationLevel::Tertiary;
        },
        _ => {
            if state.education.level == EducationLevel::Tertiary && state.education.progress >= 80 {
                state.education.level = EducationLevel::Graduate;
                state.education.progress = 0;
                state.education.credits = 0;
            }
            state.education.is_enrolled = false;
        },
    }
}

/// A carrier of the mutant gene becomes ready for the mutation between thirteen and
/// nineteen.
pub open spec fn mutation_updated(l: LifeState) -> LifeState {
    if l.mutant_gene && !l.mutation_ready && 13 <= l.age_years <= 19 {
        LifeState { mutation_ready: true, ..l }
    } else {
        l
    }
}

pub fn update_mutation_status(state: &mut CivilianState)
    ensures
        changed_to(*old(state), *final(state), CivView { life: mutation_updated(old(state).life), ..old(state)@ }),
{
    if state.life.mutant_gene && !state.life.mutation_ready && state.life.age_years >= 13 && state.life.age_years <= 19 {
        state.life.mutation_ready = true;
    }
}

/// Finishing a level of schooling: the next level starts from nothing, and
/// graduates leave school.
pub open spec fn education_advanced(e: EducationTrack) -> EducationTrack {
    if e.progress >= 100 {
        let level = match e.level {
            EducationLevel::Primary => EducationLevel::Secondary,
            EducationLevel::Secondary => EducationLevel::Tertiary,
            _ => EducationLevel::Graduate,
        };
        EducationTrack {
            progress: 0,
            credits: 0,
            level,
            is_enrolled: if level == EducationLevel::Graduate { false } else { e.is_enrolled },
            ..e
        }
    } else {
        e
    }
}

pub fn advance_education_if_ready(state: &mut CivilianState)
    ensures
        changed_to(*old(state), *final(state), CivView { education: education_advanced(old(state).education), ..old(state)@ }),
{
    if state.education.progress >= 100 {
        state.education.progress = 0;
        state.education.credits = 0;
        state.education.level = match state.education.level {
            EducationLevel::Primary => EducationLevel::Secondary,
            EducationLevel::Secondary => EducationLevel::Tertiary,
            EducationLevel::Tertiary => EducationLevel::Graduate,
            _ => EducationLevel::Graduate,
        };
        if state.education.level == EducationLevel::Graduate {
            state.education.is_enrolled = false;
        }
    }
}

pub fn update_routine_schedule(state: &mut CivilianState)
    ensures
        changed_to(
            *old(state),
            *final(state),
            CivView { routine: routine_blocks(old(state).job_status, old(state).education, old(state).life), ..old(state)@ },
        ),
{
    state.routine = build_routine_schedule(state.job_status, &state.education, &state.life);
}

pub fn sync_housing_rent(state: &mut CivilianState)
    ensures
        changed_to(
            *old(state),
            *final(state),
            CivView {
                finances: crate::simulation::civilian::CivilianFinances { rent: old(state).housing.rent, ..old(state).finances },
                ..old(state)@
            },
        ),
{
    if state.finances.rent != state.housing.rent {
        state.finances.rent = state.housing.rent;
    }
}

} // verus!

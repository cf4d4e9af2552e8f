use vstd::prelude::*;

use crate::ledger::Ledger;
use crate::simulation::civilian::career::{career_wage, promotion_threshold, threshold_for, wage_for};
use crate::simulation::civilian::routine::{
    activity_priority, block_end, build_routine_schedule, routine_blocks,
};
use crate::simulation::civilian::{
    civ_wf, clamp_metric, contact_views, default_housing, in_metric, metric, no_rewards, rewards_combined,
    track_for_age, AutoChoicePreferences, CivView, CivilianEventSettings, CivilianFinances, CivilianHealth,
    CivilianJob, CivilianRewards, CivilianState, CivilianTier, ContactView, EducationTrack, HousingState, JobRole,
    JobStatus, LegacyRecord, LifeStage, LifeState, RelationType, ReputationTrack, RoutineActivity, RoutineBlock,
    SocialTies, SocialWeb, DEFAULT_START_AGE,
};
use crate::simulation::economy::{tier_rank, WealthTier};
use crate::text::{concat_str, copy_str, decimal, decimal_text, digit, digit_char, push_char, views};

verus! {

broadcast use vstd::string::group_string_axioms;

/// The life a new civilian starts: sixteen, in secondary school with a part-time
/// job as a journalist, living in Midtown with a little cash and no contacts.
pub open spec fn starting_view() -> CivView {
    let life = LifeState {
        age_years: 16,
        life_stage: LifeStage::Teen,
        birth_day: 1,
        mortality_risk: 0,
        mutant_gene: false,
        mutation_ready: false,
    };
    let education = track_for_age(16);
    CivView {
        life,
        job_status: JobStatus::PartTime,
        job: CivilianJob { role: JobRole::Journalist, level: 1, satisfaction: 52, stability: 48 },
        routine: routine_blocks(JobStatus::PartTime, education, life),
        education,
        health: CivilianHealth { fitness: 50, sleep_debt: 0, stress: 15, injuries: 0 },
        finances: CivilianFinances {
            cash: 120,
            debt: 0,
            rent: 80,
            rent_due_in: 5,
            wage: wage_for(JobRole::Journalist, 1, JobStatus::PartTime),
        },
        housing: crate::simulation::civilian::HousingView {
            neighborhood_id: "midtown"@,
            rent: 80,
            stability: 62,
            safety: 55,
            privacy: 50,
            relocation_cooldown: 0,
        },
        social: SocialTies { support: 55, strain: 10, obligation: 12 },
        reputation: ReputationTrack { career: 42, community: 38, media: 25 },
        rewards: no_rewards(),
        network_rewards: no_rewards(),
        social_web: SocialWeb { professional: 0, community: 0, media: 0, underground: 0 },
        civilian_tier: CivilianTier::Local,
        career_xp: 0,
        last_promotion_day: 0,
        contacts: Seq::empty(),
        last_day: 0,
        mistake_risk: 0,
        pending_death: None,
        pending_events: Seq::empty(),
        last_work_day: 0,
        last_relationship_day: 0,
        last_hobby_day: 0,
        last_health_day: 0,
        last_job_offer_day: 0,
    }
}

/// A state with no records yet: no legacy or history, default settings, and the
/// remaining day counters at zero.
pub open spec fn fresh_records(s: CivilianState) -> bool {
    &&& s.legacy@.len() == 0
    &&& s.event_settings.suppress_repeat_days == 0
    &&& s.event_settings.min_effect_magnitude == 0
    &&& s.event_settings.muted_categories@.len() == 0
    &&& s.auto_choices == (AutoChoicePreferences {
        pay_rent_if_cash_at_least: None,
        attend_school: false,
        rest_if_sleep_debt_at_least: None,
    })
    &&& s.event_history.map() == Map::<Seq<char>, u32>::empty()
    &&& s.last_mistake_day == 0 && s.last_reputation_heat_day == 0 && s.last_economy_day == 0
}

impl Default for CivilianState {
    fn default() -> (s: CivilianState)
        ensures
            s@ == starting_view(),
            fresh_records(s),
            civ_wf(s@),
    {
        let cash: i32 = 120;
        let life = LifeState::new(DEFAULT_START_AGE, 1);
        let education = EducationTrack::for_age(life.age_years);
        let job_status = if education.is_enrolled { JobStatus::PartTime } else { JobStatus::Employed };
        let housing = HousingState::default();
        let wage = career_wage(JobRole::Journalist, 1, job_status);
        let routine = build_routine_schedule(job_status, &education, &life);
        let rent = housing.rent;
        let s = CivilianState {
            life,
            job_status,
            job: CivilianJob { role: JobRole::Journalist, level: 1, satisfaction: 52, stability: 48 },
            routine,
            education,
            health: CivilianHealth::default(),
            mistake_risk: 0,
            pending_death: None,
            legacy: Vec::new(),
            finances: CivilianFinances { cash, debt: 0, rent, rent_due_in: 5, wage },
            housing,
            social: SocialTies { support: 55, strain: 10, obligation: 12 },
            reputation: ReputationTrack { career: 42, community: 38, media: 25 },
            rewards: CivilianRewards::default(),
            network_rewards: CivilianRewards::default(),
            social_web: SocialWeb::default(),
            civilian_tier: CivilianTier::default(),
            career_xp: 0,
            last_promotion_day: 0,
            contacts: Vec::new(),
            pending_events: Vec::new(),
            event_settings: CivilianEventSettings::default(),
            auto_choices: AutoChoicePreferences::default(),
            event_history: Ledger::new(),
            last_day: 0,
            last_work_day: 0,
            last_relationship_day: 0,
            last_mistake_day: 0,
            last_reputation_heat_day: 0,
            last_hobby_day: 0,
            last_health_day: 0,
            last_economy_day: 0,
            last_job_offer_day: 0,
        };
        assert(contact_views(s.contacts@) =~= Seq::<ContactView>::empty());
        assert(crate::simulation::civilian::event_views(s.pending_events@) =~= Seq::<crate::simulation::civilian::EventView>::empty());
        s
    }
}

/// The position of a wealth tier, from the poorest, as a number.
fn wealth_rank(t: WealthTier) -> (r: i32)
    ensures
        r == tier_rank(t),
{
    match t {
        WealthTier::Struggling => 0,
        WealthTier::Stable => 1,
        WealthTier::Comfortable => 2,
        WealthTier::Affluent => 3,
        WealthTier::Wealthy => 4,
        WealthTier::UltraWealthy => 5,
        WealthTier::Billionaire => 6,
    }
}

/// Rival contacts.
pub open spec fn rival_count(cs: Seq<ContactView>) -> nat
    decreases cs.len(),
{
    if cs.len() == 0 {
        0
    } else {
        rival_count(cs.drop_last()) + if cs.last().relation_type == RelationType::Rival { 1nat } else { 0nat }
    }
}

proof fn lemma_rival_count_bound(cs: Seq<ContactView>)
    ensures
        rival_count(cs) <= cs.len(),
    decreases cs.len(),
{
    if cs.len() > 0 {
        lemma_rival_count_bound(cs.drop_last());
    }
}

/// Rust's integer division by a positive divisor, rounding toward zero.
pub open spec fn tdiv(a: int, b: int) -> int {
    crate::simulation::civilian::life::tdiv(a, b)
}

/// A routine block as `08-14 School`.
pub open spec fn block_text(b: RoutineBlock) -> Seq<char> {
    padded(b.start_hour as int) + seq!['-'] + padded(block_end(b)) + seq![' '] + activity_name(b.activity)
}

/// An hour with at least two digits.
pub open spec fn padded(v: int) -> Seq<char> {
    if v < 10 {
        seq!['0'] + decimal(v)
    } else {
        decimal(v)
    }
}

/// How an activity is written.
pub open spec fn activity_name(a: RoutineActivity) -> Seq<char> {
    match a {
        RoutineActivity::Work => "Work"@,
        RoutineActivity::School => "School"@,
        RoutineActivity::Hobby => "Hobby"@,
        RoutineActivity::Social => "Social"@,
        RoutineActivity::Rest => "Rest"@,
        RoutineActivity::Errands => "Errands"@,
    }
}

fn activity_label(a: RoutineActivity) -> (s: &'static str)
    ensures
        s@ == activity_name(a),
{
    match a {
        RoutineActivity::Work => "Work",
        RoutineActivity::School => "School",
        RoutineActivity::Hobby => "Hobby",
        RoutineActivity::Social => "Social",
        RoutineActivity::Rest => "Rest",
        RoutineActivity::Errands => "Errands",
    }
}

fn padded_text(v: u8) -> (s: String)
    ensures
        s@ == padded(v as int),
{
    if v < 10 {
        let mut s = String::new();
        push_char(&mut s, '0');
        let d = decimal_text(v as u64);
        s.append(d.as_str());
        s
    } else {
        decimal_text(v as u64)
    }
}

/// `s` with `b` placed after every block that starts no later, so that blocks keep
/// their order among equal start hours.
pub open spec fn insert_by_start(s: Seq<RoutineBlock>, b: RoutineBlock) -> Seq<RoutineBlock>
    decreases s.len(),
{
    if s.len() == 0 {
        seq![b]
    } else if s.last().start_hour <= b.start_hour {
        s.push(b)
    } else {
        insert_by_start(s.drop_last(), b).push(s.last())
    }
}

/// The blocks sorted by start hour, keeping the order of blocks that start together.
pub open spec fn sorted_by_start(s: Seq<RoutineBlock>) -> Seq<RoutineBlock>
    decreases s.len(),
{
    if s.len() == 0 {
        Seq::empty()
    } else {
        insert_by_start(sorted_by_start(s.drop_last()), s.last())
    }
}

proof fn lemma_insert_len(s: Seq<RoutineBlock>, b: RoutineBlock)
    ensures
        insert_by_start(s, b).len() == s.len() + 1,
    decreases s.len(),
{
    if s.len() > 0 && s.last().start_hour > b.start_hour {
        lemma_insert_len(s.drop_last(), b);
    }
}

fn insert_block(sorted: &mut Vec<RoutineBlock>, b: RoutineBlock)
    ensures
        final(sorted)@ == insert_by_start(old(sorted)@, b),
    decreases old(sorted)@.len(),
{
    let n = sorted.len();
    if n == 0 {
        sorted.push(b);
        assert(sorted@ =~= seq![b]);
        return;
    }
    let last = sorted[n - 1];
    if last.start_hour <= b.start_hour {
        sorted.push(b);
    } else {
        let ghost before = sorted@;
        let popped = sorted.pop().unwrap();
        assert(sorted@ =~= before.drop_last());
        insert_block(sorted, b);
        sorted.push(popped);
    }
}

/// The routine, in start order, each block as `08-14 School`, joined by commas.
pub open spec fn summary_of(blocks: Seq<RoutineBlock>) -> Seq<char> {
    if blocks.len() == 0 {
        "none"@
    } else {
        joined_blocks(sorted_by_start(blocks))
    }
}

/// Block texts joined by `, `.
pub open spec fn joined_blocks(s: Seq<RoutineBlock>) -> Seq<char>
    decreases s.len(),
{
    if s.len() == 0 {
        Seq::empty()
    } else if s.len() == 1 {
        block_text(s[0])
    } else {
        joined_blocks(s.drop_last()) + ", "@ + block_text(s.last())
    }
}

/// A mark of the life, when it applies.
pub open spec fn mark(applies: bool, text: Seq<char>) -> Seq<Seq<char>> {
    if applies {
        seq![text]
    } else {
        Seq::empty()
    }
}

/// The achievements a life is remembered for: a high career level, local influence
/// or power, great wealth, a respected career, standing in the community, media
/// fame and a wide circle; a quiet life when there is none.
pub open spec fn achievements_of(v: CivView, wealth_tier: WealthTier) -> Seq<Seq<char>> {
    let all = mark(v.job.level >= 4, "Career level "@ + decimal(v.job.level as int))
        + mark(v.civilian_tier == CivilianTier::Influential, "Local influence"@)
        + mark(v.civilian_tier == CivilianTier::PowerBroker, "Power broker"@)
        + mark(tier_rank(wealth_tier) >= 4, "Wealth "@ + crate::simulation::economy::tier_name(wealth_tier))
        + mark(v.reputation.career >= 70, "Respected professional"@)
        + mark(v.reputation.community >= 70, "Community pillar"@)
        + mark(v.reputation.media >= 70, "Media figure"@)
        + mark(v.contacts.len() >= 6, "Wide social web"@);
    if all.len() == 0 {
        seq!["Quiet life"@]
    } else {
        all
    }
}

/// Two legacy records say the same.
pub open spec fn legacy_matches(a: LegacyRecord, b: LegacyRecord) -> bool {
    &&& a.day == b.day && a.age_years == b.age_years && a.life_stage == b.life_stage
    &&& a.alignment@ == b.alignment@ && a.wealth_tier == b.wealth_tier && a.career_role == b.career_role
    &&& a.career_level == b.career_level && a.reputation == b.reputation
    &&& views(a.achievements@) == views(b.achievements@) && a.death_reason@ == b.death_reason@
}

fn push_text(out: &mut Vec<String>, s: String)
    ensures
        views(final(out)@) == views(old(out)@).push(s@),
{
    let ghost before = views(out@);
    out.push(s);
    assert(views(out@) =~= before.push(s@));
}

fn add_mark(out: &mut Vec<String>, applies: bool, text: String)
    ensures
        views(final(out)@) == views(old(out)@) + mark(applies, text@),
{
    let ghost before = views(out@);
    if applies {
        out.push(text);
        assert(views(out@) =~= before + mark(applies, text@));
    } else {
        assert(views(out@) =~= before + mark(applies, text@));
    }
}

fn legacy_achievements(state: &CivilianState, wealth_tier: WealthTier) -> (out: Vec<String>)
    ensures
        views(out@) == achievements_of(state@, wealth_tier),
{
    let ghost v = state@;
    let mut out: Vec<String> = Vec::new();
    let level_text = if state.job.level >= 0 { decimal_text(state.job.level as u64) } else { String::new() };
    add_mark(&mut out, state.job.level >= 4, concat_str("Career level ", level_text.as_str()));
    add_mark(&mut out, state.civilian_tier == CivilianTier::Influential, copy_str("Local influence"));
    add_mark(&mut out, state.civilian_tier == CivilianTier::PowerBroker, copy_str("Power broker"));
    let label = wealth_tier.label();
    add_mark(&mut out, wealth_rank(wealth_tier) >= 4, concat_str("Wealth ", label.as_str()));
    add_mark(&mut out, state.reputation.career >= 70, copy_str("Respected professional"));
    add_mark(&mut out, state.reputation.community >= 70, copy_str("Community pillar"));
    add_mark(&mut out, state.reputation.media >= 70, copy_str("Media figure"));
    assert(contact_views(state.contacts@).len() == state.contacts@.len());
    add_mark(&mut out, state.contacts.len() >= 6, copy_str("Wide social web"));
    assert(views(out@) =~= Seq::<Seq<char>>::empty() + mark(v.job.level >= 4, "Career level "@ + decimal(v.job.level as int))
        + mark(v.civilian_tier == CivilianTier::Influential, "Local influence"@)
        + mark(v.civilian_tier == CivilianTier::PowerBroker, "Power broker"@)
        + mark(tier_rank(wealth_tier) >= 4, "Wealth "@ + crate::simulation::economy::tier_name(wealth_tier))
        + mark(v.reputation.career >= 70, "Respected professional"@)
        + mark(v.reputation.community >= 70, "Community pillar"@)
        + mark(v.reputation.media >= 70, "Media figure"@)
        + mark(v.contacts.len() >= 6, "Wide social web"@));
    if out.len() == 0 {
        push_text(&mut out, copy_str("Quiet life"));
    }
    out
}

impl CivilianState {
    /// The rewards of the civilian's own and of their network, combined.
    pub fn effective_rewards(&self) -> (r: CivilianRewards)
        requires
            civ_wf(self@),
        ensures
            r == rewards_combined(self.rewards, self.network_rewards),
    {
        self.rewards.combined(&self.network_rewards)
    }

    /// Experience and what the next promotion takes; nothing without a job.
    pub fn career_progress(&self) -> (r: (i32, i32))
        requires
            civ_wf(self@),
        ensures
            self.job_status == JobStatus::Unemployed ==> r == (0i32, 0i32),
            self.job_status != JobStatus::Unemployed ==> r.0 == self.career_xp && r.1 == threshold_for(self.job.level),
    {
        if let JobStatus::Unemployed = self.job_status {
            return (0, 0);
        }
        (self.career_xp, promotion_threshold(self.job.level))
    }

    /// The day an event was last seen, if it was.
    pub fn last_event_seen_day(&self, event_id: &str) -> (r: Option<u32>)
        ensures
            match r {
                Some(d) => self.event_history.map().contains_key(event_id@) && d == self.event_history.map()[event_id@],
                None => !self.event_history.map().contains_key(event_id@),
            },
    {
        match self.event_history.get(event_id) {
            Some(d) => Some(*d),
            None => None,
        }
    }

    /// Notes that an event was seen on a day.
    pub fn mark_event_seen(&mut self, event_id: &str, day: u32)
        ensures
            final(self).event_history.map() == old(self).event_history.map().insert(event_id@, day),
            final(self)@ == old(self)@,
    {
        self.event_history.set(copy_str(event_id), day);
    }

    pub fn public_reputation_score(&self) -> (r: i32)
        ensures
            r == self.reputation.media,
    {
        self.reputation.media
    }

    /// Favours count ten each, a third of the professional web and a quarter of the
    /// media web add to it; within `0..=100`.
    pub fn social_leverage_score(&self) -> (r: i32)
        requires
            civ_wf(self@),
        ensures
            r == metric(
                rewards_combined(self.rewards, self.network_rewards).favors * 10 + tdiv(self.social_web.professional as int, 3)
                    + tdiv(self.social_web.media as int, 4),
            ),
    {
        let rewards = self.effective_rewards();
        clamp_metric(rewards.favors * 10 + (self.social_web.professional / 3) + (self.social_web.media / 4))
    }

    /// Safehouses count twelve each, with half the support and a quarter of the
    /// privacy; within `0..=100`.
    pub fn social_protection_score(&self) -> (r: i32)
        requires
            civ_wf(self@),
        ensures
            r == metric(
                rewards_combined(self.rewards, self.network_rewards).safehouse * 12 + tdiv(self.social.support as int, 2)
                    + tdiv(self.housing.privacy as int, 4),
            ),
    {
        let rewards = self.effective_rewards();
        clamp_metric(rewards.safehouse * 12 + (self.social.support / 2) + (self.housing.privacy / 4))
    }

    /// Half of strain and obligation, ten per rival, and half of how far stability
    /// falls short of forty-five; within `0..=100`.
    pub fn social_vulnerability_score(&self) -> (r: i32)
        requires
            civ_wf(self@),
        ensures
            r == metric(
                tdiv(self.social.strain + self.social.obligation, 2) + rival_count(self@.contacts) * 10 + if self.housing.stability
                    < 45 {
                    tdiv(45 - self.housing.stability, 2)
                } else {
                    0
                },
            ),
    {
        let ghost cs = self@.contacts;
        let mut rivals: i32 = 0;
        let mut i: usize = 0;
        assert(cs.take(0) =~= Seq::<ContactView>::empty());
        while i < self.contacts.len()
            invariant
                cs == contact_views(self.contacts@),
                cs.len() <= 10_000_000,
                i <= cs.len(),
                rivals == rival_count(cs.take(i as int)),
                rivals <= i,
            decreases cs.len() - i,
        {
            assert(cs.take(i + 1).drop_last() =~= cs.take(i as int));
            assert(cs[i as int].relation_type == self.contacts@[i as int].relation_type);
            proof {
                lemma_rival_count_bound(cs.take(i as int));
            }
            if self.contacts[i].relation_type == RelationType::Rival {
                rivals = rivals + 1;
            }
            i = i + 1;
        }
        assert(cs.take(cs.len() as int) =~= cs);
        let mut base = (self.social.strain + self.social.obligation) / 2 + rivals * 10;
        if self.housing.stability < 45 {
            base = base + (45 - self.housing.stability) / 2;
        }
        clamp_metric(base)
    }

    /// Twelve per step of the wealth tier, three per access and two per favour;
    /// within `0..=100`. The wealth tier is kept by the economy and passed in.
    pub fn tech_access_score(&self, wealth_tier: WealthTier) -> (r: i32)
        requires
            civ_wf(self@),
        ensures
            r == metric(
                tier_rank(wealth_tier) * 12 + rewards_combined(self.rewards, self.network_rewards).access * 3
                    + rewards_combined(self.rewards, self.network_rewards).favors * 2,
            ),
    {
        let rewards = self.effective_rewards();
        let tier = wealth_rank(wealth_tier);
        clamp_metric(tier * 12 + rewards.access * 3 + rewards.favors * 2)
    }

    /// The routine in start order, as `00-06 Rest, 06-07 Errands, ...`, or `none`.
    pub fn routine_summary(&self) -> (s: String)
        ensures
            s@ == summary_of(self.routine.blocks@),
    {
        let blocks = &self.routine.blocks;
        if blocks.len() == 0 {
            return copy_str("none");
        }
        let mut sorted: Vec<RoutineBlock> = Vec::new();
        let mut i: usize = 0;
        assert(blocks@.take(0) =~= Seq::<RoutineBlock>::empty());
        while i < blocks.len()
            invariant
                i <= blocks@.len(),
                sorted@ == sorted_by_start(blocks@.take(i as int)),
            decreases blocks@.len() - i,
        {
            assert(blocks@.take(i + 1).drop_last() =~= blocks@.take(i as int));
            insert_block(&mut sorted, blocks[i]);
            i = i + 1;
        }
        assert(blocks@.take(blocks@.len() as int) =~= blocks@);
        let mut out = String::new();
        let mut j: usize = 0;
        assert(sorted@.take(0) =~= Seq::<RoutineBlock>::empty());
        while j < sorted.len()
            invariant
                j <= sorted@.len(),
                out@ == joined_blocks(sorted@.take(j as int)),
            decreases sorted@.len() - j,
        {
            let b = sorted[j];
            assert(sorted@.take(j + 1).drop_last() =~= sorted@.take(j as int));
            if j > 0 {
                out.append(", ");
            }
            let end: u8 = if b.start_hour as u16 + b.duration as u16 <= 255 { b.start_hour + b.duration } else { 255 };
            let start_text = padded_text(b.start_hour);
            let end_text = padded_text(end);
            out.append(start_text.as_str());
            push_char(&mut out, '-');
            out.append(end_text.as_str());
            push_char(&mut out, ' ');
            out.append(activity_label(b.activity));
            assert(out@ =~= joined_blocks(sorted@.take(j + 1)));
            j = j + 1;
        }
        assert(sorted@.take(sorted@.len() as int) =~= sorted@);
        out
    }

    /// Records how this life is remembered: its age and stage, alignment, wealth
    /// tier, career, reputation and achievements, and the reason it ended; the
    /// record is kept in the legacy and returned. The wealth tier is kept by the
    /// economy and passed in.
    pub fn record_legacy(&mut self, alignment_label: &str, reason: &str, day: u32, wealth_tier: WealthTier) -> (r: LegacyRecord)
        ensures
            r.day == day,
            r.age_years == old(self).life.age_years,
            r.life_stage == old(self).life.life_stage,
            r.alignment@ == alignment_label@,
            r.wealth_tier == wealth_tier,
            r.career_role == old(self).job.role,
            r.career_level == old(self).job.level,
            r.reputation == old(self).reputation,
            views(r.achievements@) == achievements_of(old(self)@, wealth_tier),
            r.death_reason@ == reason@,
            final(self).legacy@.len() == old(self).legacy@.len() + 1,
            forall|i: int| 0 <= i < old(self).legacy@.len() ==> #[trigger] final(self).legacy@[i] == old(self).legacy@[i],
            legacy_matches(final(self).legacy@.last(), r),
            final(self)@ == old(self)@,
    {
        let achievements = legacy_achievements(self, wealth_tier);
        let kept = legacy_achievements(self, wealth_tier);
        let record = LegacyRecord {
            day,
            age_years: self.life.age_years,
            life_stage: self.life.life_stage,
            alignment: copy_str(alignment_label),
            wealth_tier,
            career_role: self.job.role,
            career_level: self.job.level,
            reputation: self.reputation,
            achievements,
            death_reason: copy_str(reason),
        };
        let copy = LegacyRecord {
            day,
            age_years: self.life.age_years,
            life_stage: self.life.life_stage,
            alignment: copy_str(alignment_label),
            wealth_tier,
            career_role: self.job.role,
            career_level: self.job.level,
            reputation: self.reputation,
            achievements: kept,
            death_reason: copy_str(reason),
        };
        self.legacy.push(copy);
        record
    }
}

} // verus!

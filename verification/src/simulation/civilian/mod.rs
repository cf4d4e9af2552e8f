use vstd::prelude::*;

use crate::ledger::Ledger;
use crate::simulation::economy::WealthTier;
use crate::text::{copy_str, eq_ignore_ascii_case, eq_ignore_case_chars};

pub mod career;
pub mod contacts;
pub mod daily;
pub mod effects;
pub mod life;
pub mod names;
pub mod routine;
pub mod state;

verus! {

broadcast use vstd::string::group_string_axioms;

/// Days in a game year.
pub const DAYS_PER_YEAR: u32 = 336;

/// The age a new civilian life starts at.
pub const DEFAULT_START_AGE: u32 = 16;

/// Career experience never exceeds this.
pub const CAREER_XP_CAP: i32 = 250;

/// Days between promotions.
pub const PROMOTION_COOLDOWN_DAYS: u32 = 5;

/// The highest level of a full-time job.
pub const MAX_JOB_LEVEL: i32 = 6;

/// The highest level of a part-time job.
pub const PART_TIME_LEVEL_CAP: i32 = 4;

/// Days between job offers while employed.
pub const JOB_OFFER_COOLDOWN_DAYS: u32 = 14;

/// Days between job offers while unemployed.
pub const JOB_OFFER_UNEMPLOYED_COOLDOWN_DAYS: u32 = 7;

#[derive(Debug, Clone, Copy, PartialEq, Eq, Structural)]
pub enum JobStatus {
    Employed,
    PartTime,
    Unemployed,
}

#[derive(Debug, Clone, Copy, PartialEq, Eq, Structural)]
pub enum JobRole {
    Lawyer,
    Journalist,
    Chef,
    Photographer,
    Scientist,
    Artist,
    Engineer,
    Nurse,
    Teacher,
    Mechanic,
    Analyst,
    Contractor,
    Doctor,
    Firefighter,
    PoliceOfficer,
    Electrician,
    SoftwareDeveloper,
    Accountant,
    Pharmacist,
    SocialWorker,
    Architect,
    Pilot,
    Dentist,
    Paramedic,
    Plumber,
    RetailManager,
    Farmer,
}

#[derive(Debug, Clone, Copy, PartialEq, Eq, Structural)]
pub enum LifeStage {
    Child,
    Teen,
    YoungAdult,
    Adult,
    Mature,
    Elder,
}

#[derive(Debug, Clone, Copy, PartialEq, Eq, Structural)]
pub struct LifeState {
    pub age_years: u32,
    pub life_stage: LifeStage,
    pub birth_day: u32,
    pub mortality_risk: i32,
    pub mutant_gene: bool,
    pub mutation_ready: bool,
}

/// Schooling reached. `Unschooled` is the level below primary school, named "None"
/// in text.
#[derive(Debug, Clone, Copy, PartialEq, Eq, Structural)]
pub enum EducationLevel {
    Unschooled,
    Primary,
    Secondary,
    Tertiary,
    Graduate,
}

#[derive(Debug, Clone, Copy, PartialEq, Eq, Structural)]
pub struct EducationTrack {
    pub level: EducationLevel,
    pub credits: i32,
    pub attendance: i32,
    pub progress: i32,
    pub dropout_risk: i32,
    pub is_enrolled: bool,
    pub last_school_day: u32,
}

#[derive(Debug, Clone, Copy, PartialEq, Eq, Structural)]
pub enum RoutineActivity {
    Work,
    School,
    Hobby,
    Social,
    Rest,
    Errands,
}

#[derive(Debug, Clone, Copy, PartialEq, Eq, Structural)]
pub struct RoutineBlock {
    pub start_hour: u8,
    pub duration: u8,
    pub activity: RoutineActivity,
}

pub struct RoutineSchedule {
    pub blocks: Vec<RoutineBlock>,
}

#[derive(Debug, Clone, Copy, PartialEq, Eq, Structural)]
pub struct CivilianHealth {
    pub fitness: i32,
    pub sleep_debt: i32,
    pub stress: i32,
    pub injuries: i32,
}

#[derive(Debug, Clone, Copy, PartialEq, Eq, Structural)]
pub struct ReputationTrack {
    pub career: i32,
    pub community: i32,
    pub media: i32,
}

pub struct LegacyRecord {
    pub day: u32,
    pub age_years: u32,
    pub life_stage: LifeStage,
    pub alignment: String,
    pub wealth_tier: WealthTier,
    pub career_role: JobRole,
    pub career_level: i32,
    pub reputation: ReputationTrack,
    pub achievements: Vec<String>,
    pub death_reason: String,
}

pub struct DeathRecord {
    pub day: u32,
    pub age_years: u32,
    pub reason: String,
}

#[derive(Debug, Clone, Copy, PartialEq, Eq, Structural)]
pub struct CivilianJob {
    pub role: JobRole,
    pub level: i32,
    pub satisfaction: i32,
    pub stability: i32,
}

#[derive(Debug, Clone, Copy, PartialEq, Eq, Structural)]
pub struct CivilianFinances {
    pub cash: i32,
    pub debt: i32,
    pub rent: i32,
    pub rent_due_in: i32,
    pub wage: i32,
}

pub struct HousingState {
    pub neighborhood_id: String,
    pub rent: i32,
    pub stability: i32,
    pub safety: i32,
    pub privacy: i32,
    pub relocation_cooldown: i32,
}

/// A neighbourhood a civilian can live in, and what living there is like.
#[derive(Debug, Clone, Copy)]
pub struct NeighborhoodProfile {
    pub id: &'static str,
    pub label: &'static str,
    pub rent: i32,
    pub stability: i32,
    pub safety: i32,
    pub privacy: i32,
}

#[derive(Debug, Clone, Copy, PartialEq, Eq, Structural)]
pub struct SocialTies {
    pub support: i32,
    pub strain: i32,
    pub obligation: i32,
}

#[derive(Debug, Clone, Copy, PartialEq, Eq, Structural)]
pub struct CivilianRewards {
    pub income_boost: i32,
    pub safehouse: i32,
    pub access: i32,
    pub intel: i32,
    pub favors: i32,
}

#[derive(Debug, Clone, Copy, PartialEq, Eq, Structural)]
pub enum ContactDomain {
    Professional,
    Community,
    Media,
    Underground,
}

#[derive(Debug, Clone, Copy, PartialEq, Eq, Structural)]
pub struct SocialWeb {
    pub professional: i32,
    pub community: i32,
    pub media: i32,
    pub underground: i32,
}

#[derive(Debug, Clone, Copy, PartialEq, Eq, Structural)]
pub enum CivilianTier {
    Local,
    Connected,
    Influential,
    PowerBroker,
}

#[derive(Debug, Clone, Copy, PartialEq, Eq, Structural)]
pub enum RelationshipLevel {
    Stranger,
    Acquaintance,
    Friend,
    Confidant,
    Ally,
}

#[derive(Debug, Clone, Copy, PartialEq, Eq, Structural)]
pub enum RelationType {
    Family,
    Mentor,
    Rival,
    Romance,
    Colleague,
    Peer,
}

pub struct Contact {
    pub name: String,
    pub level: RelationshipLevel,
    pub domain: ContactDomain,
    pub relation_type: RelationType,
    pub bond: i32,
    pub influence: i32,
    pub last_interaction_day: u32,
}

pub struct CivilianEvent {
    pub storylet_id: String,
    pub created_tick: u64,
    pub contact_name: Option<String>,
}

#[derive(Debug, Clone, Copy, PartialEq, Eq, Hash, Structural)]
pub enum CivilianEventCategory {
    Work,
    School,
    Health,
    Housing,
    Social,
    Opportunity,
    Crime,
    Routine,
    Other,
}

pub struct CivilianEventSettings {
    pub suppress_repeat_days: u32,
    pub min_effect_magnitude: i32,
    pub muted_categories: Vec<CivilianEventCategory>,
}

#[derive(Debug, Clone, Copy, PartialEq, Eq, Structural)]
pub struct AutoChoicePreferences {
    pub pay_rent_if_cash_at_least: Option<i32>,
    pub attend_school: bool,
    pub rest_if_sleep_debt_at_least: Option<i32>,
}

/// A civilian life: age and health, schooling and work, money and housing, the
/// people around them and the events waiting for them. The money a civilian holds
/// beyond cash, debt and wage is kept by the economy, not here.
pub struct CivilianState {
    pub life: LifeState,
    pub job_status: JobStatus,
    pub job: CivilianJob,
    pub routine: RoutineSchedule,
    pub education: EducationTrack,
    pub health: CivilianHealth,
    pub mistake_risk: i32,
    pub pending_death: Option<DeathRecord>,
    pub legacy: Vec<LegacyRecord>,
    pub finances: CivilianFinances,
    pub housing: HousingState,
    pub social: SocialTies,
    pub reputation: ReputationTrack,
    pub rewards: CivilianRewards,
    pub network_rewards: CivilianRewards,
    pub social_web: SocialWeb,
    pub civilian_tier: CivilianTier,
    pub career_xp: i32,
    pub last_promotion_day: u32,
    pub contacts: Vec<Contact>,
    pub pending_events: Vec<CivilianEvent>,
    pub event_settings: CivilianEventSettings,
    pub auto_choices: AutoChoicePreferences,
    pub event_history: Ledger<u32>,
    pub last_day: u32,
    pub last_work_day: u32,
    pub last_relationship_day: u32,
    pub last_mistake_day: u32,
    pub last_reputation_heat_day: u32,
    pub last_hobby_day: u32,
    pub last_health_day: u32,
    pub last_economy_day: u32,
    pub last_job_offer_day: u32,
}

/// `value` limited to `0..=100`.
pub open spec fn metric(value: int) -> i32 {
    if value < 0 {
        0
    } else if value > 100 {
        100
    } else {
        value as i32
    }
}

pub fn clamp_metric(value: i32) -> (r: i32)
    ensures
        r == metric(value as int),
{
    if value < 0 {
        0
    } else if value > 100 {
        100
    } else {
        value
    }
}

/// `value` limited to `0..=CAREER_XP_CAP`.
pub open spec fn progress_clamped(value: int) -> i32 {
    if value < 0 {
        0
    } else if value > 250 {
        250
    } else {
        value as i32
    }
}

pub fn clamp_progress(value: i32) -> (r: i32)
    ensures
        r == progress_clamped(value as int),
{
    if value < 0 {
        0
    } else if value > CAREER_XP_CAP {
        CAREER_XP_CAP
    } else {
        value
    }
}

/// The life stage of an age in years.
pub open spec fn stage_for_age(age_years: u32) -> LifeStage {
    if age_years <= 12 {
        LifeStage::Child
    } else if age_years <= 17 {
        LifeStage::Teen
    } else if age_years <= 25 {
        LifeStage::YoungAdult
    } else if age_years <= 40 {
        LifeStage::Adult
    } else if age_years <= 60 {
        LifeStage::Mature
    } else {
        LifeStage::Elder
    }
}

pub fn life_stage_for_age(age_years: u32) -> (s: LifeStage)
    ensures
        s == stage_for_age(age_years),
{
    if age_years <= 12 {
        LifeStage::Child
    } else if age_years <= 17 {
        LifeStage::Teen
    } else if age_years <= 25 {
        LifeStage::YoungAdult
    } else if age_years <= 40 {
        LifeStage::Adult
    } else if age_years <= 60 {
        LifeStage::Mature
    } else {
        LifeStage::Elder
    }
}

impl LifeState {
    /// A life of the given age starting today, with no risk and no mutation.
    pub fn new(age_years: u32, current_day: u32) -> (l: LifeState)
        ensures
            l == (LifeState {
                age_years,
                life_stage: stage_for_age(age_years),
                birth_day: current_day,
                mortality_risk: 0,
                mutant_gene: false,
                mutation_ready: false,
            }),
    {
        let life_stage = life_stage_for_age(age_years);
        LifeState { age_years, life_stage, birth_day: current_day, mortality_risk: 0, mutant_gene: false, mutation_ready: false }
    }
}

impl Default for LifeState {
    fn default() -> (l: LifeState)
        ensures
            l == (LifeState {
                age_years: 16,
                life_stage: LifeStage::Teen,
                birth_day: 1,
                mortality_risk: 0,
                mutant_gene: false,
                mutation_ready: false,
            }),
    {
        LifeState::new(DEFAULT_START_AGE, 1)
    }
}

/// A fresh education record: at the given level and enrolment, half attendance.
pub open spec fn fresh_track(level: EducationLevel, is_enrolled: bool) -> EducationTrack {
    EducationTrack {
        level,
        credits: 0,
        attendance: 50,
        progress: 0,
        dropout_risk: 0,
        is_enrolled,
        last_school_day: 0,
    }
}

/// The schooling that fits an age: none before six, primary to ten, secondary to
/// seventeen, tertiary to twenty-two, and graduated after.
pub open spec fn track_for_age(age_years: u32) -> EducationTrack {
    if age_years < 6 {
        fresh_track(EducationLevel::Unschooled, false)
    } else if age_years < 11 {
        fresh_track(EducationLevel::Primary, true)
    } else if age_years < 18 {
        fresh_track(EducationLevel::Secondary, true)
    } else if age_years < 23 {
        fresh_track(EducationLevel::Tertiary, true)
    } else {
        fresh_track(EducationLevel::Graduate, false)
    }
}

impl Default for EducationTrack {
    fn default() -> (t: EducationTrack)
        ensures
            t == fresh_track(EducationLevel::Unschooled, false),
    {
        EducationTrack {
            level: EducationLevel::Unschooled,
            credits: 0,
            attendance: 50,
            progress: 0,
            dropout_risk: 0,
            is_enrolled: false,
            last_school_day: 0,
        }
    }
}

impl EducationTrack {
    pub fn for_age(age_years: u32) -> (t: EducationTrack)
        ensures
            t == track_for_age(age_years),
    {
        let mut track = EducationTrack::default();
        if age_years < 6 {
            track.level = EducationLevel::Unschooled;
            track.is_enrolled = false;
        } else if age_years < 11 {
            track.level = EducationLevel::Primary;
            track.is_enrolled = true;
        } else if age_years < 18 {
            track.level = EducationLevel::Secondary;
            track.is_enrolled = true;
        } else if age_years < 23 {
            track.level = EducationLevel::Tertiary;
            track.is_enrolled = true;
        } else {
            track.level = EducationLevel::Graduate;
            track.is_enrolled = false;
        }
        track
    }
}

impl Default for CivilianHealth {
    fn default() -> (h: CivilianHealth)
        ensures
            h == (CivilianHealth { fitness: 50, sleep_debt: 0, stress: 15, injuries: 0 }),
    {
        CivilianHealth { fitness: 50, sleep_debt: 0, stress: 15, injuries: 0 }
    }
}

/// The neighbourhoods, by position.
pub open spec fn neighborhood_spec(i: int) -> (Seq<char>, Seq<char>, i32, i32, i32, i32) {
    if i == 0 {
        ("midtown"@, "Midtown"@, 80, 62, 55, 50)
    } else if i == 1 {
        ("uptown"@, "Uptown"@, 120, 75, 78, 70)
    } else if i == 2 {
        ("edge"@, "Edge District"@, 60, 55, 45, 40)
    } else {
        ("harbor"@, "Harbor Ward"@, 70, 58, 50, 55)
    }
}

/// The profile matches the neighbourhood at position `i`.
pub open spec fn is_neighborhood(p: NeighborhoodProfile, i: int) -> bool {
    let (id, label, rent, stability, safety, privacy) = neighborhood_spec(i);
    p.id@ == id && p.label@ == label && p.rent == rent && p.stability == stability && p.safety == safety
        && p.privacy == privacy
}

/// The number of neighbourhoods.
pub const NEIGHBORHOOD_COUNT: usize = 4;

pub fn neighborhood_at(i: usize) -> (p: NeighborhoodProfile)
    requires
        i < 4,
    ensures
        is_neighborhood(p, i as int),
{
    if i == 0 {
        NeighborhoodProfile { id: "midtown", label: "Midtown", rent: 80, stability: 62, safety: 55, privacy: 50 }
    } else if i == 1 {
        NeighborhoodProfile { id: "uptown", label: "Uptown", rent: 120, stability: 75, safety: 78, privacy: 70 }
    } else if i == 2 {
        NeighborhoodProfile { id: "edge", label: "Edge District", rent: 60, stability: 55, safety: 45, privacy: 40 }
    } else {
        NeighborhoodProfile { id: "harbor", label: "Harbor Ward", rent: 70, stability: 58, safety: 50, privacy: 55 }
    }
}

/// The position of the first neighbourhood whose id equals `id` up to ASCII case.
pub open spec fn neighborhood_index(id: Seq<char>) -> Option<int> {
    if eq_ignore_case_chars(neighborhood_spec(0).0, id) {
        Some(0)
    } else if eq_ignore_case_chars(neighborhood_spec(1).0, id) {
        Some(1)
    } else if eq_ignore_case_chars(neighborhood_spec(2).0, id) {
        Some(2)
    } else if eq_ignore_case_chars(neighborhood_spec(3).0, id) {
        Some(3)
    } else {
        None
    }
}

pub fn neighborhood_profile(id: &str) -> (r: Option<NeighborhoodProfile>)
    ensures
        match neighborhood_index(id@) {
            Some(i) => r matches Some(p) && is_neighborhood(p, i),
            None => r is None,
        },
{
    let mut i: usize = 0;
    while i < NEIGHBORHOOD_COUNT
        invariant
            i <= 4,
            forall|j: int| 0 <= j < i ==> !eq_ignore_case_chars(#[trigger] neighborhood_spec(j).0, id@),
        decreases 4 - i,
    {
        let p = neighborhood_at(i);
        if eq_ignore_ascii_case(p.id, id) {
            return Some(p);
        }
        i = i + 1;
    }
    None
}

/// The housing a new life starts in: Midtown.
pub open spec fn default_housing(h: HousingState) -> bool {
    h.neighborhood_id@ == "midtown"@ && h.rent == 80 && h.stability == 62 && h.safety == 55 && h.privacy == 50
        && h.relocation_cooldown == 0
}

impl Default for HousingState {
    fn default() -> (h: HousingState)
        ensures
            default_housing(h),
    {
        let p = match neighborhood_profile("midtown") {
            Some(p) => p,
            None => neighborhood_at(0),
        };
        proof {
            reveal_strlit("midtown");
            assert(eq_ignore_case_chars(neighborhood_spec(0).0, "midtown"@));
        }
        HousingState {
            neighborhood_id: copy_str(p.id),
            rent: p.rent,
            stability: p.stability,
            safety: p.safety,
            privacy: p.privacy,
            relocation_cooldown: 0,
        }
    }
}

/// Two reward sets summed field by field, each sum kept within `0..=100`.
pub open spec fn rewards_combined(a: CivilianRewards, b: CivilianRewards) -> CivilianRewards {
    CivilianRewards {
        income_boost: metric(a.income_boost + b.income_boost),
        safehouse: metric(a.safehouse + b.safehouse),
        access: metric(a.access + b.access),
        intel: metric(a.intel + b.intel),
        favors: metric(a.favors + b.favors),
    }
}

/// No reward at all.
pub open spec fn no_rewards() -> CivilianRewards {
    CivilianRewards { income_boost: 0, safehouse: 0, access: 0, intel: 0, favors: 0 }
}

impl Default for CivilianRewards {
    fn default() -> (r: CivilianRewards)
        ensures
            r == no_rewards(),
    {
        CivilianRewards { income_boost: 0, safehouse: 0, access: 0, intel: 0, favors: 0 }
    }
}

impl CivilianRewards {
    pub fn combined(&self, other: &CivilianRewards) -> (r: CivilianRewards)
        requires
            i32::MIN <= self.income_boost + other.income_boost <= i32::MAX,
            i32::MIN <= self.safehouse + other.safehouse <= i32::MAX,
            i32::MIN <= self.access + other.access <= i32::MAX,
            i32::MIN <= self.intel + other.intel <= i32::MAX,
            i32::MIN <= self.favors + other.favors <= i32::MAX,
        ensures
            r == rewards_combined(*self, *other),
    {
        CivilianRewards {
            income_boost: clamp_metric(self.income_boost + other.income_boost),
            safehouse: clamp_metric(self.safehouse + other.safehouse),
            access: clamp_metric(self.access + other.access),
            intel: clamp_metric(self.intel + other.intel),
            favors: clamp_metric(self.favors + other.favors),
        }
    }

    pub fn is_empty(&self) -> (b: bool)
        ensures
            b == (*self == no_rewards()),
    {
        self.income_boost == 0 && self.safehouse == 0 && self.access == 0 && self.intel == 0 && self.favors == 0
    }
}

impl Default for SocialWeb {
    fn default() -> (w: SocialWeb)
        ensures
            w == (SocialWeb { professional: 0, community: 0, media: 0, underground: 0 }),
    {
        SocialWeb { professional: 0, community: 0, media: 0, underground: 0 }
    }
}

impl Default for CivilianTier {
    fn default() -> (t: CivilianTier)
        ensures
            t == CivilianTier::Local,
    {
        CivilianTier::Local
    }
}

impl Default for ContactDomain {
    fn default() -> (d: ContactDomain)
        ensures
            d == ContactDomain::Community,
    {
        ContactDomain::Community
    }
}

impl Default for RelationType {
    fn default() -> (t: RelationType)
        ensures
            t == RelationType::Peer,
    {
        RelationType::Peer
    }
}

impl Default for CivilianEventSettings {
    fn default() -> (s: CivilianEventSettings)
        ensures
            s.suppress_repeat_days == 0,
            s.min_effect_magnitude == 0,
            s.muted_categories@.len() == 0,
    {
        CivilianEventSettings { suppress_repeat_days: 0, min_effect_magnitude: 0, muted_categories: Vec::new() }
    }
}

impl CivilianEventSettings {
    pub fn is_muted(&self, category: CivilianEventCategory) -> (b: bool)
        ensures
            b == self.muted_categories@.contains(category),
    {
        let mut i: usize = 0;
        while i < self.muted_categories.len()
            invariant
                i <= self.muted_categories@.len(),
                forall|j: int| 0 <= j < i ==> #[trigger] self.muted_categories@[j] != category,
            decreases self.muted_categories@.len() - i,
        {
            if self.muted_categories[i] == category {
                assert(self.muted_categories@[i as int] == category);
                return true;
            }
            i = i + 1;
        }
        false
    }
}

impl Default for AutoChoicePreferences {
    fn default() -> (p: AutoChoicePreferences)
        ensures
            p == (AutoChoicePreferences {
                pay_rent_if_cash_at_least: None,
                attend_school: false,
                rest_if_sleep_debt_at_least: None,
            }),
    {
        AutoChoicePreferences { pay_rent_if_cash_at_least: None, attend_school: false, rest_if_sleep_debt_at_least: None }
    }
}


/// A contact, its name taken by value.
pub struct ContactView {
    pub name: Seq<char>,
    pub level: RelationshipLevel,
    pub domain: ContactDomain,
    pub relation_type: RelationType,
    pub bond: i32,
    pub influence: i32,
    pub last_interaction_day: u32,
}

impl View for Contact {
    type V = ContactView;

    open spec fn view(&self) -> ContactView {
        ContactView {
            name: self.name@,
            level: self.level,
            domain: self.domain,
            relation_type: self.relation_type,
            bond: self.bond,
            influence: self.influence,
            last_interaction_day: self.last_interaction_day,
        }
    }
}

/// The views of a list of contacts.
pub open spec fn contact_views(cs: Seq<Contact>) -> Seq<ContactView> {
    cs.map_values(|c: Contact| c@)
}

/// Housing, its neighbourhood taken by value.
pub struct HousingView {
    pub neighborhood_id: Seq<char>,
    pub rent: i32,
    pub stability: i32,
    pub safety: i32,
    pub privacy: i32,
    pub relocation_cooldown: i32,
}

impl View for HousingState {
    type V = HousingView;

    open spec fn view(&self) -> HousingView {
        HousingView {
            neighborhood_id: self.neighborhood_id@,
            rent: self.rent,
            stability: self.stability,
            safety: self.safety,
            privacy: self.privacy,
            relocation_cooldown: self.relocation_cooldown,
        }
    }
}

/// A pending death, its reason taken by value.
pub struct DeathView {
    pub day: u32,
    pub age_years: u32,
    pub reason: Seq<char>,
}

/// A pending event, its strings taken by value.
pub struct EventView {
    pub storylet_id: Seq<char>,
    pub created_tick: u64,
    pub contact_name: Option<Seq<char>>,
}

impl View for CivilianEvent {
    type V = EventView;

    open spec fn view(&self) -> EventView {
        EventView {
            storylet_id: self.storylet_id@,
            created_tick: self.created_tick,
            contact_name: match self.contact_name {
                Some(n) => Some(n@),
                None => None,
            },
        }
    }
}

/// The views of a list of pending events.
pub open spec fn event_views(es: Seq<CivilianEvent>) -> Seq<EventView> {
    es.map_values(|e: CivilianEvent| e@)
}

/// The view of a pending death.
pub open spec fn death_view(d: Option<DeathRecord>) -> Option<DeathView> {
    match d {
        Some(r) => Some(DeathView { day: r.day, age_years: r.age_years, reason: r.reason@ }),
        None => None,
    }
}

/// The parts of a civilian life that daily living and story effects change, taken
/// by value.
pub struct CivView {
    pub life: LifeState,
    pub job_status: JobStatus,
    pub job: CivilianJob,
    pub routine: Seq<RoutineBlock>,
    pub education: EducationTrack,
    pub health: CivilianHealth,
    pub finances: CivilianFinances,
    pub housing: HousingView,
    pub social: SocialTies,
    pub reputation: ReputationTrack,
    pub rewards: CivilianRewards,
    pub network_rewards: CivilianRewards,
    pub social_web: SocialWeb,
    pub civilian_tier: CivilianTier,
    pub career_xp: i32,
    pub last_promotion_day: u32,
    pub contacts: Seq<ContactView>,
    pub last_day: u32,
    pub mistake_risk: i32,
    pub pending_death: Option<DeathView>,
    pub pending_events: Seq<EventView>,
    pub last_work_day: u32,
    pub last_relationship_day: u32,
    pub last_hobby_day: u32,
    pub last_health_day: u32,
    pub last_job_offer_day: u32,
}

impl View for CivilianState {
    type V = CivView;

    open spec fn view(&self) -> CivView {
        CivView {
            life: self.life,
            job_status: self.job_status,
            job: self.job,
            routine: self.routine.blocks@,
            education: self.education,
            health: self.health,
            finances: self.finances,
            housing: self.housing@,
            social: self.social,
            reputation: self.reputation,
            rewards: self.rewards,
            network_rewards: self.network_rewards,
            social_web: self.social_web,
            civilian_tier: self.civilian_tier,
            career_xp: self.career_xp,
            last_promotion_day: self.last_promotion_day,
            contacts: contact_views(self.contacts@),
            last_day: self.last_day,
            mistake_risk: self.mistake_risk,
            pending_death: death_view(self.pending_death),
            pending_events: event_views(self.pending_events@),
            last_work_day: self.last_work_day,
            last_relationship_day: self.last_relationship_day,
            last_hobby_day: self.last_hobby_day,
            last_health_day: self.last_health_day,
            last_job_offer_day: self.last_job_offer_day,
        }
    }
}

/// Everything outside the view is the same in both states.
pub open spec fn same_records(a: CivilianState, b: CivilianState) -> bool {
    &&& a.legacy == b.legacy
    &&& a.event_settings == b.event_settings
    &&& a.auto_choices == b.auto_choices
    &&& a.event_history == b.event_history
    &&& a.last_mistake_day == b.last_mistake_day
    &&& a.last_reputation_heat_day == b.last_reputation_heat_day
    &&& a.last_economy_day == b.last_economy_day
}

/// A value kept within `0..=100`, as every metric is.
pub open spec fn in_metric(v: i32) -> bool {
    0 <= v <= 100
}

/// The ranges the civilian rules keep their numbers in: every metric, reward and
/// web score within `0..=100`, career experience within `0..=250`, job level within `0..=10`, and
/// contacts' bond and influence within `0..=100`; at most ten million contacts.
pub open spec fn civ_wf(v: CivView) -> bool {
    &&& 0 <= v.job.level <= 10
    &&& in_metric(v.job.satisfaction) && in_metric(v.job.stability)
    &&& in_metric(v.reputation.career) && in_metric(v.reputation.community) && in_metric(v.reputation.media)
    &&& in_metric(v.rewards.income_boost) && in_metric(v.rewards.safehouse) && in_metric(v.rewards.access)
        && in_metric(v.rewards.intel) && in_metric(v.rewards.favors)
    &&& in_metric(v.social.support) && in_metric(v.social.strain) && in_metric(v.social.obligation)
    &&& in_metric(v.health.fitness) && in_metric(v.health.sleep_debt) && in_metric(v.health.stress)
        && in_metric(v.health.injuries)
    &&& in_metric(v.education.attendance) && in_metric(v.education.progress) && in_metric(v.education.dropout_risk)
    &&& in_metric(v.housing.stability) && in_metric(v.housing.safety) && in_metric(v.housing.privacy)
    &&& in_metric(v.network_rewards.income_boost) && in_metric(v.network_rewards.safehouse)
        && in_metric(v.network_rewards.access) && in_metric(v.network_rewards.intel) && in_metric(v.network_rewards.favors)
    &&& in_metric(v.social_web.professional) && in_metric(v.social_web.community) && in_metric(v.social_web.media)
        && in_metric(v.social_web.underground)
    &&& 0 <= v.career_xp <= 250
    &&& v.contacts.len() <= 10_000_000
    &&& forall|i: int| #![trigger v.contacts[i]] 0 <= i < v.contacts.len() ==> in_metric(v.contacts[i].bond) && in_metric(v.contacts[i].influence)
}

} // verus!

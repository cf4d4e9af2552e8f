use vstd::prelude::*;

use crate::content::repository::OriginAcquisitionProfile;
use crate::rng::{fnv1a, hash_seed, lcg_step, next_u64};
use crate::rules::signature::{SignatureInstance, SignatureSpec, SignatureType};
use crate::simulation::cast::CharacterPower;
use crate::weighted::{
    all_positive, draws, lemma_prefix_monotone, lemma_total_at_least_len, lemma_total_swap_removed,
    law_draws_distinct_members, lemma_weighted_index_bracket, lemma_weights_swap_removed, scan_index, swap_removed, weight_prefix,
    weight_total, weighted_index,
};
use crate::text::{
    concat_str, contains_str, copy_str, opt_view, eq_ignore_ascii_case, eq_ignore_case_chars, push_unique, split_head,
    split_once_char, split_tail, str_eq, trim, trim_chars, views,
};

verus! {

broadcast use vstd::string::group_string_axioms;

pub struct OriginCatalog {
    pub origins: Vec<OriginDefinition>,
}

pub struct OriginPathCatalog {
    pub paths: Vec<OriginPathDefinition>,
}

pub struct OriginDefinition {
    pub id: String,
    pub label: String,
    pub class_code: String,
    pub subtype_code: String,
    pub summary: String,
    pub acquisition_hooks: Vec<OriginHook>,
    pub effects: OriginEffects,
}

pub struct OriginPathDefinition {
    pub id: String,
    pub label: String,
    pub summary: String,
    pub availability: OriginPathAvailability,
    pub stages: Vec<OriginPathStage>,
}

/// Who may be offered a path, and how likely it is to be drawn.
pub struct OriginPathAvailability {
    pub weight: u32,
    pub required_origin_ids: Vec<String>,
    pub required_origin_classes: Vec<String>,
}

pub struct OriginPathStage {
    pub id: String,
    pub label: String,
    pub summary: String,
    pub requirement: OriginStageRequirement,
    pub reward: OriginStageReward,
}

/// Progress a stage needs, and what brings it: every tick, or a matching event.
pub struct OriginStageRequirement {
    pub progress_needed: u32,
    pub progress_per_tick: u32,
    pub event_tags: Vec<String>,
    pub event_progress: u32,
}

/// What completing a stage grants. Its pressure changes are fractional and are applied
/// outside the library, looked up by the completed stage's id.
pub struct OriginStageReward {
    pub reputation_delta: i32,
    pub mutation_tags: Vec<String>,
    pub notes: Option<String>,
}

pub struct OriginHook {
    pub event_kind: String,
    pub delivery_channel: Option<String>,
    pub notes: Option<String>,
}

/// What an origin grants at the start. Its pressure changes are fractional and are
/// applied outside the library.
pub struct OriginEffects {
    pub initial_power_count: usize,
    pub initial_mutation_count: usize,
    pub mutation_tags: Vec<String>,
    pub reputation_delta: i32,
    pub signatures: Vec<OriginSignature>,
}

pub struct OriginSignature {
    pub signature_type: SignatureType,
    pub strength: i64,
    pub persistence_turns: i64,
}

pub struct OriginState {
    pub origin_id: Option<String>,
    pub origin_label: Option<String>,
    pub origin_class: Option<String>,
    pub origin_subtype: Option<String>,
    pub summary: Option<String>,
    pub powers: Vec<CharacterPower>,
    pub mutations: Vec<String>,
}

/// Progress along the origin path the player follows.
pub struct OriginQuestState {
    pub path_id: Option<String>,
    pub stage_index: usize,
    pub stage_progress: u32,
    pub completed: bool,
    pub completed_stages: Vec<String>,
    pub discovered_paths: Vec<String>,
}

impl Default for OriginQuestState {
    /// No path chosen yet.
    fn default() -> (q: OriginQuestState)
        ensures
            q.path_id is None,
            q.stage_index == 0,
            q.stage_progress == 0,
            !q.completed,
            q.completed_stages@.len() == 0,
            q.discovered_paths@.len() == 0,
    {
        OriginQuestState {
            path_id: None,
            stage_index: 0,
            stage_progress: 0,
            completed: false,
            completed_stages: Vec::new(),
            discovered_paths: Vec::new(),
        }
    }
}

impl Default for OriginPathCatalog {
    fn default() -> (c: OriginPathCatalog)
        ensures
            c.paths@.len() == 0,
    {
        OriginPathCatalog { paths: Vec::new() }
    }
}

pub struct OriginEffectReport {
    pub event_tags: Vec<String>,
    pub discoveries: Vec<String>,
}

pub struct OriginEffectApplication {
    pub rewards: Vec<OriginStageReward>,
    pub messages: Vec<String>,
}

#[derive(Debug)]
pub enum OriginError {
    Io(String),
    Parse(String),
    Repo(String),
    NotFound(String),
}

/// What moves a quest forward: the passing of a tick, or an event with a tag.
pub enum OriginAdvance<'a> {
    Tick,
    Event(&'a str),
}

/// The quest as plain values.
pub ghost struct QuestView {
    pub path_id: Option<Seq<char>>,
    pub stage_index: int,
    pub stage_progress: int,
    pub completed: bool,
    pub completed_stages: Seq<Seq<char>>,
    pub discovered_paths: Seq<Seq<char>>,
}

impl View for OriginQuestState {
    type V = QuestView;

    open spec fn view(&self) -> QuestView {
        QuestView {
            path_id: opt_view(self.path_id),
            stage_index: self.stage_index as int,
            stage_progress: self.stage_progress as int,
            completed: self.completed,
            completed_stages: views(self.completed_stages@),
            discovered_paths: views(self.discovered_paths@),
        }
    }
}

/// A reward as plain values.
pub type RewardView = (i32, Seq<Seq<char>>, Option<Seq<char>>);

pub open spec fn reward_view(r: OriginStageReward) -> RewardView {
    (r.reputation_delta, views(r.mutation_tags@), opt_view(r.notes))
}

pub open spec fn reward_views(rs: Seq<OriginStageReward>) -> Seq<RewardView> {
    rs.map_values(|r: OriginStageReward| reward_view(r))
}

/// Index of the first path at or after `start` whose id is `id`.
pub open spec fn path_position_from(paths: Seq<OriginPathDefinition>, id: Seq<char>, start: int) -> Option<int>
    decreases paths.len() - start,
{
    if start < 0 || start >= paths.len() {
        None
    } else if paths[start].id@ == id {
        Some(start)
    } else {
        path_position_from(paths, id, start + 1)
    }
}

/// Index of the first path whose id is `id`: the one a lookup by id finds.
pub open spec fn path_position(paths: Seq<OriginPathDefinition>, id: Seq<char>) -> Option<int> {
    path_position_from(paths, id, 0)
}

pub proof fn lemma_path_position_from(paths: Seq<OriginPathDefinition>, id: Seq<char>, start: int)
    requires
        0 <= start,
    ensures
        match path_position_from(paths, id, start) {
            Some(k) => start <= k < paths.len() && paths[k].id@ == id,
            None => forall|j: int| start <= j < paths.len() ==> #[trigger] paths[j].id@ != id,
        },
    decreases paths.len() - start,
{
    if start < paths.len() && paths[start].id@ != id {
        lemma_path_position_from(paths, id, start + 1);
    }
}

/// The progress a stage needs: at least one.
pub open spec fn stage_needed(stage: OriginPathStage) -> int {
    if stage.requirement.progress_needed == 0 {
        1
    } else {
        stage.requirement.progress_needed as int
    }
}

/// Whether one of `tags` equals `tag` up to ASCII case.
pub open spec fn tag_listed(tags: Seq<String>, tag: Seq<char>) -> bool {
    exists|i: int| 0 <= i < tags.len() && eq_ignore_case_chars(#[trigger] tags[i]@, tag)
}

/// The progress an advance brings to a stage: a tick brings its per-tick progress
/// (`None`), an event with a listed tag brings its event progress, at least one.
pub open spec fn advance_delta(stage: OriginPathStage, event: Option<Seq<char>>) -> int {
    match event {
        None => stage.requirement.progress_per_tick as int,
        Some(tag) => if tag_listed(stage.requirement.event_tags@, tag) {
            if stage.requirement.event_progress == 0 {
                1
            } else {
                stage.requirement.event_progress as int
            }
        } else {
            0
        },
    }
}

/// The event tag an advance carries, if it is an event.
pub open spec fn advance_event(a: OriginAdvance) -> Option<Seq<char>> {
    match a {
        OriginAdvance::Tick => None,
        OriginAdvance::Event(tag) => Some(tag@),
    }
}

/// `x` capped at `u32::MAX`.
pub open spec fn cap_u32(x: int) -> int {
    if x > u32::MAX {
        u32::MAX as int
    } else {
        x
    }
}

/// The stages of the path the quest follows, when the catalog holds it.
pub open spec fn followed_stages(q: QuestView, paths: Seq<OriginPathDefinition>) -> Option<Seq<OriginPathStage>> {
    match q.path_id {
        None => None,
        Some(id) => match path_position(paths, id) {
            None => None,
            Some(k) => Some(paths[k].stages@),
        },
    }
}

/// One advance of a quest: the quest after it, and the index of the stage it
/// completed, if it completed one. A finished quest, one without a known path, and an
/// advance that brings no progress change nothing; a quest past its last stage is
/// marked finished. Progress adds up, capped at `u32::MAX`; reaching the stage's need
/// completes the stage and starts the next one from zero.
pub open spec fn advance_quest(q: QuestView, paths: Seq<OriginPathDefinition>, event: Option<Seq<char>>) -> (QuestView, Option<int>) {
    if q.completed {
        (q, None)
    } else {
        match followed_stages(q, paths) {
            None => (q, None),
            Some(stages) => if q.stage_index >= stages.len() {
                (QuestView { completed: true, ..q }, None)
            } else {
                let stage = stages[q.stage_index];
                let delta = advance_delta(stage, event);
                if delta == 0 {
                    (q, None)
                } else {
                    let progress = cap_u32(q.stage_progress + delta);
                    if progress < stage_needed(stage) {
                        (QuestView { stage_progress: progress, ..q }, None)
                    } else {
                        (
                            QuestView {
                                stage_index: q.stage_index + 1,
                                stage_progress: 0,
                                completed: q.stage_index + 1 >= stages.len(),
                                completed_stages: q.completed_stages.push(stage.id@),
                                ..q
                            },
                            Some(q.stage_index),
                        )
                    }
                }
            },
        }
    }
}

/// The rewards one advance hands out: that of the stage it completed, if any.
pub open spec fn advance_rewards(q: QuestView, paths: Seq<OriginPathDefinition>, event: Option<Seq<char>>) -> Seq<RewardView> {
    match (advance_quest(q, paths, event).1, followed_stages(q, paths)) {
        (Some(k), Some(stages)) => seq![reward_view(stages[k].reward)],
        _ => Seq::empty(),
    }
}

impl OriginStageReward {
    /// A copy of this reward.
    pub fn duplicate(&self) -> (r: OriginStageReward)
        ensures
            reward_view(r) == reward_view(*self),
    {
        let notes = match &self.notes {
            Some(n) => Some(n.clone()),
            None => None,
        };
        let r = OriginStageReward {
            reputation_delta: self.reputation_delta,
            mutation_tags: self.mutation_tags.clone(),
            notes,
        };
        assert(views(r.mutation_tags@) =~= views(self.mutation_tags@));
        r
    }
}

impl OriginError {
    /// The error as text.
    pub fn message(&self) -> (m: String)
        ensures
            m@ == match *self {
                OriginError::Io(e) => "I/O error: "@ + e@,
                OriginError::Parse(e) => "Parse error: "@ + e@,
                OriginError::Repo(e) => "Repository error: "@ + e@,
                OriginError::NotFound(e) => "Not found: "@ + e@,
            },
    {
        match self {
            OriginError::Io(e) => concat_str("I/O error: ", e.as_str()),
            OriginError::Parse(e) => concat_str("Parse error: ", e.as_str()),
            OriginError::Repo(e) => concat_str("Repository error: ", e.as_str()),
            OriginError::NotFound(e) => concat_str("Not found: ", e.as_str()),
        }
    }
}

/// The index of the first path with id `id`.
fn find_path(catalog: &OriginPathCatalog, id: &str) -> (r: Option<usize>)
    ensures
        match r {
            Some(k) => path_position(catalog.paths@, id@) == Some(k as int),
            None => path_position(catalog.paths@, id@) is None,
        },
        r matches Some(k) ==> k < catalog.paths@.len() && catalog.paths@[k as int].id@ == id@,
{
    proof {
        lemma_path_position_from(catalog.paths@, id@, 0);
    }
    let mut i: usize = 0;
    while i < catalog.paths.len()
        invariant
            i <= catalog.paths@.len(),
            path_position_from(catalog.paths@, id@, i as int) == path_position(catalog.paths@, id@),
        decreases catalog.paths@.len() - i,
    {
        if str_eq(catalog.paths[i].id.as_str(), id) {
            return Some(i);
        }
        i = i + 1;
    }
    None
}

/// Whether one of `tags` equals `tag` up to ASCII case.
fn has_tag_ignoring_case(tags: &Vec<String>, tag: &str) -> (b: bool)
    ensures
        b == tag_listed(tags@, tag@),
{
    let mut i: usize = 0;
    while i < tags.len()
        invariant
            i <= tags@.len(),
            forall|j: int| 0 <= j < i ==> !eq_ignore_case_chars(#[trigger] tags@[j]@, tag@),
        decreases tags@.len() - i,
    {
        if eq_ignore_ascii_case(tags[i].as_str(), tag) {
            return true;
        }
        i = i + 1;
    }
    false
}

fn advance_origin_path(state: &mut OriginQuestState, catalog: &OriginPathCatalog, advance: OriginAdvance) -> (rewards: Vec<OriginStageReward>)
    ensures
        final(state)@ == advance_quest(old(state)@, catalog.paths@, advance_event(advance)).0,
        reward_views(rewards@) == advance_rewards(old(state)@, catalog.paths@, advance_event(advance)),
{
    let mut rewards: Vec<OriginStageReward> = Vec::new();
    assert(reward_views(rewards@) =~= Seq::<RewardView>::empty());
    if state.completed {
        return rewards;
    }
    let k = match &state.path_id {
        Some(id) => match find_path(catalog, id.as_str()) {
            Some(k) => k,
            None => return rewards,
        },
        None => return rewards,
    };
    let path = &catalog.paths[k];
    if state.stage_index >= path.stages.len() {
        state.completed = true;
        return rewards;
    }
    let stage = &path.stages[state.stage_index];
    let delta: u32 = match advance {
        OriginAdvance::Tick => stage.requirement.progress_per_tick,
        OriginAdvance::Event(tag) => {
            if has_tag_ignoring_case(&stage.requirement.event_tags, tag) {
                if stage.requirement.event_progress == 0 {
                    1
                } else {
                    stage.requirement.event_progress
                }
            } else {
                0
            }
        },
    };
    if delta == 0 {
        return rewards;
    }
    state.stage_progress = state.stage_progress.saturating_add(delta);
    let needed: u32 = if stage.requirement.progress_needed == 0 {
        1
    } else {
        stage.requirement.progress_needed
    };
    if state.stage_progress < needed {
        return rewards;
    }
    let ghost before = state.completed_stages@;
    state.completed_stages.push(copy_str(stage.id.as_str()));
    assert(views(state.completed_stages@) =~= views(before).push(stage.id@));
    rewards.push(stage.reward.duplicate());
    assert(reward_views(rewards@) =~= seq![reward_view(stage.reward)]);
    state.stage_index = state.stage_index + 1;
    state.stage_progress = 0;
    if state.stage_index >= path.stages.len() {
        state.completed = true;
    }
    rewards
}

/// Advances the quest by one tick and returns the rewards of a stage it completed.
pub fn tick_origin_path(state: &mut OriginQuestState, catalog: &OriginPathCatalog) -> (rewards: Vec<OriginStageReward>)
    ensures
        final(state)@ == advance_quest(old(state)@, catalog.paths@, None).0,
        reward_views(rewards@) == advance_rewards(old(state)@, catalog.paths@, None),
{
    advance_origin_path(state, catalog, OriginAdvance::Tick)
}

/// Advances the quest by an event and returns the rewards of a stage it completed.
pub fn register_origin_event(state: &mut OriginQuestState, catalog: &OriginPathCatalog, event_tag: &str) -> (rewards: Vec<OriginStageReward>)
    ensures
        final(state)@ == advance_quest(old(state)@, catalog.paths@, Some(event_tag@)).0,
        reward_views(rewards@) == advance_rewards(old(state)@, catalog.paths@, Some(event_tag@)),
{
    advance_origin_path(state, catalog, OriginAdvance::Event(event_tag))
}


/// Starts following the path `path_id` from its first stage, keeping the paths found so
/// far, and returns it; an unknown path leaves the quest as it was.
pub fn start_origin_path<'a>(state: &mut OriginQuestState, catalog: &'a OriginPathCatalog, path_id: &str) -> (r: Result<&'a OriginPathDefinition, OriginError>)
    ensures
        match path_position(catalog.paths@, path_id@) {
            None => final(state)@ == old(state)@ && (r matches Err(OriginError::NotFound(m)) && m@ == "origin path "@ + path_id@),
            Some(k) => (r matches Ok(p) && *p == catalog.paths@[k]) && final(state)@ == (QuestView {
                path_id: Some(catalog.paths@[k].id@),
                stage_index: 0,
                stage_progress: 0,
                completed: false,
                completed_stages: Seq::empty(),
                ..old(state)@
            }),
        },
{
    match find_path(catalog, path_id) {
        None => Err(OriginError::NotFound(concat_str("origin path ", path_id))),
        Some(k) => {
            let path = &catalog.paths[k];
            state.path_id = Some(copy_str(path.id.as_str()));
            state.stage_index = 0;
            state.stage_progress = 0;
            state.completed = false;
            state.completed_stages.clear();
            assert(views(state.completed_stages@) =~= Seq::<Seq<char>>::empty());
            Ok(path)
        },
    }
}

/// The stage the quest is at, when it follows a known path and has not run past its end.
pub fn current_origin_stage<'a>(state: &OriginQuestState, catalog: &'a OriginPathCatalog) -> (r: Option<&'a OriginPathStage>)
    ensures
        match followed_stages(state@, catalog.paths@) {
            Some(stages) => if state.stage_index < stages.len() {
                r matches Some(st) && *st == stages[state.stage_index as int]
            } else {
                r is None
            },
            None => r is None,
        },
{
    let k = match &state.path_id {
        Some(id) => match find_path(catalog, id.as_str()) {
            Some(k) => k,
            None => return None,
        },
        None => return None,
    };
    let path = &catalog.paths[k];
    if state.stage_index < path.stages.len() {
        Some(&path.stages[state.stage_index])
    } else {
        None
    }
}

/// A finished quest stays finished: no advance changes it or hands out a reward.
pub proof fn law_finished_quest_is_inert(q: QuestView, paths: Seq<OriginPathDefinition>, event: Option<Seq<char>>)
    requires
        q.completed,
    ensures
        advance_quest(q, paths, event).0 == q,
        advance_rewards(q, paths, event) == Seq::<RewardView>::empty(),
{
}

/// An advance never moves a quest back: the path and the discovered paths stay, the
/// stage index does not fall, the completed stages only grow at the end, and a finished
/// quest stays finished.
pub proof fn law_advance_never_goes_back(q: QuestView, paths: Seq<OriginPathDefinition>, event: Option<Seq<char>>)
    ensures
        advance_quest(q, paths, event).0.path_id == q.path_id,
        advance_quest(q, paths, event).0.discovered_paths == q.discovered_paths,
        advance_quest(q, paths, event).0.stage_index >= q.stage_index,
        q.completed_stages.is_prefix_of(advance_quest(q, paths, event).0.completed_stages),
        q.completed ==> advance_quest(q, paths, event).0.completed,
{
    let n = advance_quest(q, paths, event).0;
    if n.completed_stages.len() > q.completed_stages.len() {
        assert(n.completed_stages.take(q.completed_stages.len() as int) =~= q.completed_stages);
    } else {
        assert(n.completed_stages == q.completed_stages);
    }
}

/// Every stage an advance completes hands out its reward, and nothing else does: the
/// rewards of an advance are one per stage added to the completed list, that stage's.
pub proof fn law_reward_per_completed_stage(q: QuestView, paths: Seq<OriginPathDefinition>, event: Option<Seq<char>>)
    ensures
        advance_rewards(q, paths, event).len() == advance_quest(q, paths, event).0.completed_stages.len() - q.completed_stages.len(),
        advance_quest(q, paths, event).1 matches Some(k) ==> (followed_stages(q, paths) matches Some(stages)
            && advance_rewards(q, paths, event) == seq![reward_view(stages[k].reward)]
            && advance_quest(q, paths, event).0.completed_stages == q.completed_stages.push(stages[k].id@)),
{
}

/// A stage is completed only once its progress reaches what it needs, and the next
/// advance starts the following stage from zero.
pub proof fn law_stage_completes_at_need(q: QuestView, paths: Seq<OriginPathDefinition>, event: Option<Seq<char>>)
    ensures
        advance_quest(q, paths, event).1 matches Some(k) ==> (followed_stages(q, paths) matches Some(stages)
            && k == q.stage_index
            && cap_u32(q.stage_progress + advance_delta(stages[k], event)) >= stage_needed(stages[k])
            && advance_quest(q, paths, event).0.stage_index == k + 1
            && advance_quest(q, paths, event).0.stage_progress == 0),
{
}

/// The key of an effect line: the trimmed text before its first colon.
pub open spec fn effect_key(e: Seq<char>) -> Seq<char> {
    trim_chars(split_head(e, ':'))
}

/// The argument of an effect line: the trimmed text between its first and second
/// colon, when it has a colon.
pub open spec fn effect_arg(e: Seq<char>) -> Option<Seq<char>> {
    match split_tail(e, ':') {
        Some(rest) => Some(trim_chars(split_head(rest, ':'))),
        None => None,
    }
}

/// The non-empty arguments of the effect lines whose key is `key`, in order.
pub open spec fn effect_args(effects: Seq<Seq<char>>, key: Seq<char>) -> Seq<Seq<char>>
    decreases effects.len(),
{
    if effects.len() == 0 {
        Seq::empty()
    } else {
        let prev = effect_args(effects.drop_last(), key);
        let e = effects.last();
        match effect_arg(e) {
            Some(a) => if effect_key(e) == key && a.len() > 0 {
                prev.push(a)
            } else {
                prev
            },
            None => prev,
        }
    }
}

/// The argument of an effect line when it is non-empty.
fn effect_argument(tail: Option<&str>) -> (r: Option<String>)
    ensures
        match tail {
            Some(t) => {
                let a = trim_chars(split_head(t@, ':'));
                if a.len() > 0 {
                    r matches Some(s) && s@ == a
                } else {
                    r is None
                }
            },
            None => r is None,
        },
{
    match tail {
        Some(t) => {
            let (arg, _) = split_once_char(t, ':');
            let a = trim(arg);
            if a.unicode_len() > 0 {
                Some(copy_str(a))
            } else {
                None
            }
        },
        None => None,
    }
}

/// Reads effect lines of the form `origin.event:<tag>` and `origin.discover:<path id>`;
/// other lines, and lines without an argument, are ignored.
pub fn parse_origin_effects(effects: &[String]) -> (report: OriginEffectReport)
    ensures
        views(report.event_tags@) == effect_args(views(effects@), "origin.event"@),
        views(report.discoveries@) == effect_args(views(effects@), "origin.discover"@),
{
    proof {
        reveal_strlit("origin.event");
        reveal_strlit("origin.discover");
    }
    let mut report = OriginEffectReport { event_tags: Vec::new(), discoveries: Vec::new() };
    let ghost all = views(effects@);
    assert("origin.event"@[7] != "origin.discover"@[7]);
    assert(all.take(0) =~= Seq::<Seq<char>>::empty());
    assert(views(report.event_tags@) =~= Seq::<Seq<char>>::empty());
    assert(views(report.discoveries@) =~= Seq::<Seq<char>>::empty());
    let mut i: usize = 0;
    while i < effects.len()
        invariant
            i <= effects@.len(),
            all == views(effects@),
            views(report.event_tags@) == effect_args(all.take(i as int), "origin.event"@),
            views(report.discoveries@) == effect_args(all.take(i as int), "origin.discover"@),
            "origin.event"@ != "origin.discover"@,
        decreases effects@.len() - i,
    {
        let effect = effects[i].as_str();
        assert(all.take(i + 1).drop_last() =~= all.take(i as int));
        assert(all.take(i + 1).last() == effect@);
        let (head, tail) = split_once_char(effect, ':');
        let key = trim(head);
        let arg = effect_argument(tail);
        if str_eq(key, "origin.event") {
            if let Some(a) = arg {
                let ghost before = report.event_tags@;
                report.event_tags.push(a);
                assert(views(report.event_tags@) =~= views(before).push(a@));
            }
        } else if str_eq(key, "origin.discover") {
            if let Some(a) = arg {
                let ghost before = report.discoveries@;
                report.discoveries.push(a);
                assert(views(report.discoveries@) =~= views(before).push(a@));
            }
        }
        i = i + 1;
    }
    assert(all.take(effects@.len() as int) =~= all);
    report
}

/// Discoveries applied in turn to the discovered paths: the discovered paths after
/// them, and the messages they give. An unknown path is reported and ignored; a known
/// one is added, and reported, the first time only.
pub open spec fn discover_paths(discovered: Seq<Seq<char>>, paths: Seq<OriginPathDefinition>, ids: Seq<Seq<char>>) -> (Seq<Seq<char>>, Seq<Seq<char>>)
    decreases ids.len(),
{
    if ids.len() == 0 {
        (discovered, Seq::empty())
    } else {
        let prev = discover_paths(discovered, paths, ids.drop_last());
        let id = ids.last();
        match path_position(paths, id) {
            None => (prev.0, prev.1.push("Origin clue ignored (unknown path): "@ + id)),
            Some(k) => if prev.0.contains(paths[k].id@) {
                prev
            } else {
                (
                    prev.0.push(paths[k].id@),
                    prev.1.push("Origin path discovered: "@ + paths[k].id@ + " - "@ + paths[k].label@),
                )
            },
        }
    }
}

/// Event tags applied in turn to a quest: the quest after them, the messages for the
/// events that moved it, and the rewards they handed out.
pub open spec fn apply_events(q: QuestView, paths: Seq<OriginPathDefinition>, tags: Seq<Seq<char>>) -> (QuestView, Seq<Seq<char>>, Seq<RewardView>)
    decreases tags.len(),
{
    if tags.len() == 0 {
        (q, Seq::empty(), Seq::empty())
    } else {
        let prev = apply_events(q, paths, tags.drop_last());
        let tag = tags.last();
        let next = advance_quest(prev.0, paths, Some(tag)).0;
        let moved = next.stage_index != prev.0.stage_index || next.stage_progress != prev.0.stage_progress
            || next.completed_stages.len() != prev.0.completed_stages.len();
        (
            next,
            if moved {
                prev.1.push("Origin progress recorded: "@ + tag)
            } else {
                prev.1
            },
            prev.2 + advance_rewards(prev.0, paths, Some(tag)),
        )
    }
}

/// What a report does to a quest: its discoveries first, then, when the quest follows a
/// path, its events. The quest after it, all messages, and the rewards.
pub open spec fn apply_report(q: QuestView, paths: Seq<OriginPathDefinition>, discoveries: Seq<Seq<char>>, tags: Seq<Seq<char>>) -> (QuestView, Seq<Seq<char>>, Seq<RewardView>) {
    let found = discover_paths(q.discovered_paths, paths, discoveries);
    let q1 = QuestView { discovered_paths: found.0, ..q };
    if q.path_id is Some {
        let ev = apply_events(q1, paths, tags);
        (ev.0, found.1 + ev.1, ev.2)
    } else {
        (q1, found.1, Seq::empty())
    }
}

/// Applies parsed effects to the quest: discovered paths are recorded, and events
/// advance the path being followed.
pub fn apply_origin_effects(report: OriginEffectReport, quest: &mut OriginQuestState, catalog: &OriginPathCatalog) -> (application: OriginEffectApplication)
    ensures
        final(quest)@ == apply_report(old(quest)@, catalog.paths@, views(report.discoveries@), views(report.event_tags@)).0,
        views(application.messages@) == apply_report(old(quest)@, catalog.paths@, views(report.discoveries@), views(report.event_tags@)).1,
        reward_views(application.rewards@) == apply_report(old(quest)@, catalog.paths@, views(report.discoveries@), views(report.event_tags@)).2,
{
    proof {
        reveal_strlit("Origin clue ignored (unknown path): ");
        reveal_strlit("Origin path discovered: ");
        reveal_strlit(" - ");
        reveal_strlit("Origin progress recorded: ");
    }
    let mut application = OriginEffectApplication { rewards: Vec::new(), messages: Vec::new() };
    let ghost q0 = quest@;
    let ghost ids = views(report.discoveries@);
    let ghost paths = catalog.paths@;
    assert(ids.take(0) =~= Seq::<Seq<char>>::empty());
    assert(views(application.messages@) =~= Seq::<Seq<char>>::empty());
    let mut i: usize = 0;
    while i < report.discoveries.len()
        invariant
            i <= report.discoveries@.len(),
            ids == views(report.discoveries@),
            paths == catalog.paths@,
            quest@ == (QuestView { discovered_paths: discover_paths(q0.discovered_paths, paths, ids.take(i as int)).0, ..q0 }),
            views(application.messages@) == discover_paths(q0.discovered_paths, paths, ids.take(i as int)).1,
            application.rewards@.len() == 0,
        decreases report.discoveries@.len() - i,
    {
        let path_id = report.discoveries[i].as_str();
        assert(ids.take(i + 1).drop_last() =~= ids.take(i as int));
        assert(ids.take(i + 1).last() == path_id@);
        let ghost msgs = application.messages@;
        match find_path(catalog, path_id) {
            None => {
                let m = concat_str("Origin clue ignored (unknown path): ", path_id);
                application.messages.push(m);
                assert(views(application.messages@) =~= views(msgs).push(m@));
            },
            Some(k) => {
                let path = &catalog.paths[k];
                let ghost found = quest.discovered_paths@;
                if push_unique(&mut quest.discovered_paths, copy_str(path.id.as_str())) {
                    let mut m = concat_str("Origin path discovered: ", path.id.as_str());
                    m.append(" - ");
                    m.append(path.label.as_str());
                    application.messages.push(m);
                    assert(views(application.messages@) =~= views(msgs).push(m@));
                }
            },
        }
        i = i + 1;
    }
    assert(ids.take(ids.len() as int) =~= ids);
    if quest.path_id.is_some() {
        let ghost q1 = quest@;
        let ghost dmsgs = views(application.messages@);
        let ghost tags = views(report.event_tags@);
        assert(tags.take(0) =~= Seq::<Seq<char>>::empty());
        assert(dmsgs + Seq::<Seq<char>>::empty() =~= dmsgs);
        assert(reward_views(application.rewards@) =~= Seq::<RewardView>::empty());
        let mut j: usize = 0;
        while j < report.event_tags.len()
            invariant
                j <= report.event_tags@.len(),
                tags == views(report.event_tags@),
                paths == catalog.paths@,
                quest@ == apply_events(q1, paths, tags.take(j as int)).0,
                views(application.messages@) == dmsgs + apply_events(q1, paths, tags.take(j as int)).1,
                reward_views(application.rewards@) == apply_events(q1, paths, tags.take(j as int)).2,
            decreases report.event_tags@.len() - j,
        {
            let tag = report.event_tags[j].as_str();
            assert(tags.take(j + 1).drop_last() =~= tags.take(j as int));
            assert(tags.take(j + 1).last() == tag@);
            let before_stage = quest.stage_index;
            let before_progress = quest.stage_progress;
            let before_completed = quest.completed_stages.len();
            let ghost msgs = application.messages@;
            let ghost rw = application.rewards@;
            let mut rewards = register_origin_event(quest, catalog, tag);
            if before_stage != quest.stage_index || before_progress != quest.stage_progress
                || before_completed != quest.completed_stages.len() {
                let m = concat_str("Origin progress recorded: ", tag);
                application.messages.push(m);
                assert(views(application.messages@) =~= views(msgs).push(m@));
            }
            let ghost got = rewards@;
            application.rewards.append(&mut rewards);
            assert(reward_views(application.rewards@) =~= reward_views(rw) + reward_views(got));
            j = j + 1;
        }
        assert(tags.take(tags.len() as int) =~= tags);
    }
    application
}

/// The weight a profile is drawn with: its rarity weight, at least one.
pub open spec fn profile_weight(p: OriginAcquisitionProfile) -> int {
    if p.rarity_weight < 1 {
        1
    } else {
        p.rarity_weight as int
    }
}

/// `profile_weight` as a function value.
pub open spec fn profile_weight_fn() -> spec_fn(OriginAcquisitionProfile) -> int {
    |p: OriginAcquisitionProfile| profile_weight(p)
}

/// The draw weights of a list of profiles.
pub open spec fn profile_weights(ps: Seq<OriginAcquisitionProfile>) -> Seq<int> {
    ps.map_values(profile_weight_fn())
}

/// Draws one profile index, each profile as likely as its weight: advances the
/// generator once, reduces it modulo the total weight, and picks the profile whose
/// running sum of weights first exceeds that roll.
pub fn weighted_choice_index(profiles: &[OriginAcquisitionProfile], rng: &mut u64) -> (idx: usize)
    requires
        profiles@.len() > 0,
        weight_total(profile_weights(profiles@)) <= i64::MAX,
    ensures
        *final(rng) == lcg_step(*old(rng)),
        idx as int == weighted_index(profile_weights(profiles@), lcg_step(*old(rng)) as int % weight_total(profile_weights(profiles@))),
        idx < profiles@.len(),
        weight_prefix(profile_weights(profiles@), idx as int) <= lcg_step(*old(rng)) as int % weight_total(profile_weights(profiles@)),
        lcg_step(*old(rng)) as int % weight_total(profile_weights(profiles@)) < weight_prefix(profile_weights(profiles@), idx + 1),
{
    let ghost start = *rng;
    let ghost ws = profile_weights(profiles@);
    assert(all_positive(ws));
    proof {
        lemma_total_at_least_len(ws, ws.len() as int);
    }
    let mut total_weight: i64 = 0;
    let mut i: usize = 0;
    while i < profiles.len()
        invariant
            i <= profiles@.len(),
            ws == profile_weights(profiles@),
            all_positive(ws),
            weight_total(ws) <= i64::MAX,
            total_weight == weight_prefix(ws, i as int),
        decreases profiles@.len() - i,
    {
        proof {
            lemma_prefix_monotone(ws, i + 1, ws.len() as int);
        }
        let w = profiles[i].rarity_weight;
        total_weight = total_weight + if w < 1 { 1 } else { w };
        i = i + 1;
    }
    if total_weight <= 0 {
        let pick = (*rng as usize) % profiles.len();
        return if pick < profiles.len() - 1 { pick } else { profiles.len() - 1 };
    }
    let roll_bits = next_u64(rng) % (total_weight as u64);
    let roll: i64 = roll_bits as i64;
    proof {
        lemma_weighted_index_bracket(ws, roll as int);
    }
    let mut acc: i64 = 0;
    let mut j: usize = 0;
    while j < profiles.len()
        invariant
            j <= profiles@.len(),
            ws == profile_weights(profiles@),
            all_positive(ws),
            total_weight == weight_total(ws),
            0 <= roll < total_weight,
            *rng == lcg_step(start),
            start == *old(rng),
            roll as int == lcg_step(start) as int % total_weight as int,
            acc == weight_prefix(ws, j as int),
            acc <= roll,
            scan_index(ws, roll as int, j as int, acc as int) == weighted_index(ws, roll as int),
        decreases profiles@.len() - j,
    {
        proof {
            lemma_prefix_monotone(ws, j + 1, ws.len() as int);
        }
        let w = profiles[j].rarity_weight;
        acc = acc + if w < 1 { 1 } else { w };
        if roll < acc {
            return j;
        }
        j = j + 1;
    }
    profiles.len() - 1
}

/// The weight a path is drawn with: its availability weight, at least one.
pub open spec fn path_weight(p: OriginPathDefinition) -> int {
    if p.availability.weight < 1 {
        1
    } else {
        p.availability.weight as int
    }
}

/// The weight of the catalog path at a given index, as a function value.
pub open spec fn path_index_weight(paths: Seq<OriginPathDefinition>) -> spec_fn(usize) -> int {
    |i: usize| path_weight(paths[i as int])
}

/// The draw weights of the catalog paths at the given indices.
pub open spec fn candidate_weights(paths: Seq<OriginPathDefinition>, candidates: Seq<usize>) -> Seq<int> {
    candidates.map_values(path_index_weight(paths))
}

/// Draws one of the candidate paths (given by their catalog indices), each as likely as
/// its weight, in the way `weighted_choice_index` draws profiles; returns the position
/// in `candidates`.
fn weighted_origin_path_index(paths: &[OriginPathDefinition], candidates: &[usize], rng: &mut u64) -> (idx: usize)
    requires
        candidates@.len() > 0,
        forall|t: int| 0 <= t < candidates@.len() ==> #[trigger] candidates@[t] < paths@.len(),
        weight_total(candidate_weights(paths@, candidates@)) <= u64::MAX,
    ensures
        *final(rng) == lcg_step(*old(rng)),
        idx as int == weighted_index(candidate_weights(paths@, candidates@), lcg_step(*old(rng)) as int % weight_total(candidate_weights(paths@, candidates@))),
        idx < candidates@.len(),
{
    let ghost start = *rng;
    let ghost ws = candidate_weights(paths@, candidates@);
    assert(all_positive(ws));
    proof {
        lemma_total_at_least_len(ws, ws.len() as int);
    }
    let mut total_weight: u64 = 0;
    let mut i: usize = 0;
    while i < candidates.len()
        invariant
            i <= candidates@.len(),
            ws == candidate_weights(paths@, candidates@),
            forall|t: int| 0 <= t < candidates@.len() ==> #[trigger] candidates@[t] < paths@.len(),
            all_positive(ws),
            weight_total(ws) <= u64::MAX,
            total_weight == weight_prefix(ws, i as int),
        decreases candidates@.len() - i,
    {
        proof {
            lemma_prefix_monotone(ws, i + 1, ws.len() as int);
        }
        let w = paths[candidates[i]].availability.weight;
        total_weight = total_weight + if w < 1 { 1u64 } else { w as u64 };
        i = i + 1;
    }
    if total_weight == 0 {
        let pick = (*rng as usize) % candidates.len();
        return if pick < candidates.len() - 1 { pick } else { candidates.len() - 1 };
    }
    let roll: u64 = next_u64(rng) % total_weight;
    proof {
        lemma_weighted_index_bracket(ws, roll as int);
    }
    let mut acc: u64 = 0;
    let mut j: usize = 0;
    while j < candidates.len()
        invariant
            j <= candidates@.len(),
            ws == candidate_weights(paths@, candidates@),
            forall|t: int| 0 <= t < candidates@.len() ==> #[trigger] candidates@[t] < paths@.len(),
            all_positive(ws),
            total_weight == weight_total(ws),
            roll < total_weight,
            *rng == lcg_step(start),
            start == *old(rng),
            roll as int == lcg_step(start) as int % total_weight as int,
            acc == weight_prefix(ws, j as int),
            acc <= roll,
            scan_index(ws, roll as int, j as int, acc as int) == weighted_index(ws, roll as int),
        decreases candidates@.len() - j,
    {
        proof {
            lemma_prefix_monotone(ws, j + 1, ws.len() as int);
        }
        let w = paths[candidates[j]].availability.weight;
        acc = acc + if w < 1 { 1u64 } else { w as u64 };
        if roll < acc {
            return j;
        }
        j = j + 1;
    }
    candidates.len() - 1
}

/// Whether a path may be offered given the player's origin: a path without requirements
/// always may, and so may any path when no origin is known; otherwise the origin's id
/// or class must be among those the path lists.
pub open spec fn path_available(path: OriginPathDefinition, origin: Option<&OriginState>) -> bool {
    let a = path.availability;
    if a.required_origin_ids@.len() == 0 && a.required_origin_classes@.len() == 0 {
        true
    } else {
        match origin {
            None => true,
            Some(o) => {
                ||| (a.required_origin_ids@.len() > 0 && (o.origin_id matches Some(id)
                    && views(a.required_origin_ids@).contains(id@)))
                ||| (a.required_origin_classes@.len() > 0 && (o.origin_class matches Some(c)
                    && views(a.required_origin_classes@).contains(c@)))
            },
        }
    }
}

/// Whether a path may be offered given the player's origin.
pub fn is_path_available(path: &OriginPathDefinition, origin_state: Option<&OriginState>) -> (b: bool)
    ensures
        b == path_available(*path, origin_state),
{
    let availability = &path.availability;
    if availability.required_origin_ids.len() == 0 && availability.required_origin_classes.len() == 0 {
        return true;
    }
    let origin_state = match origin_state {
        Some(o) => o,
        None => return true,
    };
    if availability.required_origin_ids.len() > 0 {
        if let Some(id) = &origin_state.origin_id {
            if contains_str(&availability.required_origin_ids, id.as_str()) {
                return true;
            }
        }
    }
    if availability.required_origin_classes.len() > 0 {
        if let Some(class) = &origin_state.origin_class {
            if contains_str(&availability.required_origin_classes, class.as_str()) {
                return true;
            }
        }
    }
    availability.required_origin_ids.len() == 0 && availability.required_origin_classes.len() == 0
}

/// The draw weights of all catalog paths.
pub open spec fn all_path_weights(paths: Seq<OriginPathDefinition>) -> Seq<int> {
    paths.map_values(|p: OriginPathDefinition| path_weight(p))
}

/// Catalog indices, below `n`, of the paths that may be offered.
pub open spec fn available_indices(paths: Seq<OriginPathDefinition>, origin: Option<&OriginState>, n: int) -> Seq<usize>
    decreases n,
{
    if n <= 0 {
        Seq::empty()
    } else {
        let prev = available_indices(paths, origin, n - 1);
        if path_available(paths[n - 1], origin) {
            prev.push((n - 1) as usize)
        } else {
            prev
        }
    }
}

/// The generator seed path draws start from.
pub open spec fn origin_paths_seed(seed: u64) -> u64 {
    seed ^ fnv1a(vstd::utf8::encode_utf8("origin_paths"@))
}

/// The catalog indices of the paths offered: up to `count` weighted draws, without
/// replacement, among the paths that may be offered.
pub open spec fn selected_path_indices(paths: Seq<OriginPathDefinition>, origin: Option<&OriginState>, seed: u64, count: usize) -> Seq<usize> {
    let candidates = available_indices(paths, origin, paths.len() as int);
    let n = if count < candidates.len() { count as nat } else { candidates.len() };
    draws(candidates, path_index_weight(paths), origin_paths_seed(seed), n)
}

proof fn lemma_available_indices(paths: Seq<OriginPathDefinition>, origin: Option<&OriginState>, n: int)
    requires
        0 <= n <= paths.len(),
        paths.len() <= usize::MAX,
    ensures
        forall|t: int| 0 <= t < available_indices(paths, origin, n).len()
            ==> #[trigger] available_indices(paths, origin, n)[t] < n,
        weight_total(candidate_weights(paths, available_indices(paths, origin, n))) <= weight_prefix(all_path_weights(paths), n),
    decreases n,
{
    if n > 0 {
        lemma_available_indices(paths, origin, n - 1);
        let prev = available_indices(paths, origin, n - 1);
        let pw = candidate_weights(paths, prev);
        if path_available(paths[n - 1], origin) {
            let cur = prev.push((n - 1) as usize);
            assert(candidate_weights(paths, cur) =~= pw.push(path_weight(paths[n - 1])));
            lemma_total_push(pw, path_weight(paths[n - 1]));
        }
        assert(all_path_weights(paths)[n - 1] == path_weight(paths[n - 1]));
        assert(path_weight(paths[n - 1]) >= 1);
    }
}

proof fn lemma_total_push(ws: Seq<int>, w: int)
    ensures
        weight_total(ws.push(w)) == weight_total(ws) + w,
{
    crate::weighted::lemma_prefix_agrees(ws.push(w), ws, ws.len() as int);
}

/// Offers up to `count` of the paths the player may take, drawn by weight without
/// replacement, from a generator seeded with `seed`.
pub fn select_origin_paths<'a>(catalog: &'a OriginPathCatalog, origin_state: Option<&OriginState>, seed: u64, count: usize) -> (chosen: Vec<&'a OriginPathDefinition>)
    requires
        weight_total(all_path_weights(catalog.paths@)) <= u64::MAX,
    ensures
        chosen@.len() == selected_path_indices(catalog.paths@, origin_state, seed, count).len(),
        forall|t: int| 0 <= t < chosen@.len() ==> *chosen@[t] == catalog.paths@[
            #[trigger] selected_path_indices(catalog.paths@, origin_state, seed, count)[t] as int],
{
    let ghost paths = catalog.paths@;
    let ghost w = path_index_weight(paths);
    let mut candidates: Vec<usize> = Vec::new();
    let mut i: usize = 0;
    while i < catalog.paths.len()
        invariant
            i <= paths.len(),
            paths == catalog.paths@,
            candidates@ == available_indices(paths, origin_state, i as int),
        decreases paths.len() - i,
    {
        if is_path_available(&catalog.paths[i], origin_state) {
            candidates.push(i);
        }
        i = i + 1;
    }
    proof {
        lemma_available_indices(paths, origin_state, paths.len() as int);
    }
    let mut chosen: Vec<&'a OriginPathDefinition> = Vec::new();
    if candidates.len() == 0 || count == 0 {
        return chosen;
    }
    let mut rng: u64 = seed ^ hash_seed("origin_paths");
    let mut remaining: usize = if count < candidates.len() { count } else { candidates.len() };
    let ghost c0 = candidates@;
    let ghost rng0 = rng;
    let ghost n0 = remaining as nat;
    let ghost picked: Seq<usize> = Seq::empty();
    assert(picked + draws(candidates@, w, rng, remaining as nat) =~= draws(c0, w, rng0, n0));
    while remaining > 0 && candidates.len() > 0
        invariant
            paths == catalog.paths@,
            w == path_index_weight(paths),
            picked + draws(candidates@, w, rng, remaining as nat) == draws(c0, w, rng0, n0),
            chosen@.len() == picked.len(),
            forall|t: int| 0 <= t < chosen@.len() ==> *chosen@[t] == paths[#[trigger] picked[t] as int],
            forall|t: int| 0 <= t < candidates@.len() ==> #[trigger] candidates@[t] < paths.len(),
            weight_total(candidate_weights(paths, candidates@)) <= u64::MAX,
        decreases remaining,
    {
        let ghost cur = candidates@;
        let ghost before_rng = rng;
        let idx = weighted_origin_path_index(catalog.paths.as_slice(), candidates.as_slice(), &mut rng);
        let k = candidates.swap_remove(idx);
        chosen.push(&catalog.paths[k]);
        proof {
            let ws = candidate_weights(paths, cur);
            lemma_weights_swap_removed(cur, w, idx as int);
            lemma_total_swap_removed(ws, idx as int);
            assert(ws[idx as int] >= 1);
            assert(draws(cur, w, before_rng, remaining as nat) == seq![cur[idx as int]] + draws(
                candidates@, w, rng, (remaining - 1) as nat));
            assert(picked.push(k) + draws(candidates@, w, rng, (remaining - 1) as nat) =~= picked + draws(
                cur, w, before_rng, remaining as nat));
            assert forall|t: int| 0 <= t < candidates@.len() implies #[trigger] candidates@[t] < paths.len() by {
                if t == idx {
                    assert(candidates@[t] == cur.last());
                } else {
                    assert(candidates@[t] == cur[t]);
                }
            }
            picked = picked.push(k);
        }
        remaining = remaining - 1;
    }
    chosen
}

/// A power granted by an origin through one of its acquisition profiles.
pub open spec fn granted_power(p: OriginAcquisitionProfile) -> CharacterPower {
    CharacterPower { power_id: p.power_id.0, expression_id: None, acq_id: Some(p.acq_id), mastery: 0 }
}

/// The generator seed an origin's power draws start from.
pub open spec fn origin_power_seed(seed: u64, origin: OriginDefinition) -> u64 {
    seed ^ fnv1a(vstd::utf8::encode_utf8(origin.id@))
}

/// The mutations a state holds after an origin's award: the first `initial_mutation_count`
/// tags when that count is positive, else those it held; and all the origin's tags when
/// that leaves it with neither mutations nor powers.
pub open spec fn awarded_mutations(held: Seq<Seq<char>>, origin: OriginDefinition, has_powers: bool) -> Seq<Seq<char>> {
    let tags = views(origin.effects.mutation_tags@);
    let limit = origin.effects.initial_mutation_count as int;
    let first = if limit > 0 {
        tags.take(if limit < tags.len() { limit } else { tags.len() as int })
    } else {
        held
    };
    if first.len() == 0 && !has_powers {
        tags
    } else {
        first
    }
}

impl OriginState {
    /// A state for a chosen origin, with no powers or mutations yet.
    pub fn from_definition(origin: &OriginDefinition) -> (s: OriginState)
        ensures
            opt_view(s.origin_id) == Some(origin.id@),
            opt_view(s.origin_label) == Some(origin.label@),
            opt_view(s.origin_class) == Some(origin.class_code@),
            opt_view(s.origin_subtype) == Some(origin.subtype_code@),
            opt_view(s.summary) == Some(origin.summary@),
            s.powers@.len() == 0,
            s.mutations@.len() == 0,
    {
        OriginState {
            origin_id: Some(copy_str(origin.id.as_str())),
            origin_label: Some(copy_str(origin.label.as_str())),
            origin_class: Some(copy_str(origin.class_code.as_str())),
            origin_subtype: Some(copy_str(origin.subtype_code.as_str())),
            summary: Some(copy_str(origin.summary.as_str())),
            powers: Vec::new(),
            mutations: Vec::new(),
        }
    }

    /// Grants an origin's starting powers and mutations. `profiles` is what the content
    /// repository answered for the origin's class and subtype; its error is passed on.
    /// Up to `initial_power_count` powers are drawn by weight without replacement, from a
    /// generator seeded with `seed` and the origin's id.
    pub fn award_initial_powers(&mut self, origin: &OriginDefinition, profiles: Result<Vec<OriginAcquisitionProfile>, String>, seed: u64) -> (r: Result<(), OriginError>)
        requires
            profiles matches Ok(ps) ==> weight_total(profile_weights(ps@)) <= i64::MAX,
        ensures
            match profiles {
                Err(e) => *final(self) == *old(self) && (r matches Err(OriginError::Repo(m)) && m@ == e@),
                Ok(ps) => r is Ok && if ps@.len() == 0 {
                    *final(self) == *old(self)
                } else {
                    &&& final(self).powers@ == old(self).powers@ + draws(ps@, profile_weight_fn(), origin_power_seed(seed, *origin),
                        origin.effects.initial_power_count as nat).map_values(|p: OriginAcquisitionProfile| granted_power(p))
                    &&& views(final(self).mutations@) == awarded_mutations(views(old(self).mutations@), *origin, final(self).powers@.len() > 0)
                    &&& final(self).origin_id == old(self).origin_id
                    &&& final(self).origin_label == old(self).origin_label
                    &&& final(self).origin_class == old(self).origin_class
                    &&& final(self).origin_subtype == old(self).origin_subtype
                    &&& final(self).summary == old(self).summary
                },
            },
    {
        let mut profiles = match profiles {
            Ok(p) => p,
            Err(e) => return Err(OriginError::Repo(e)),
        };
        if profiles.len() == 0 {
            return Ok(());
        }
        let ghost w = profile_weight_fn();
        let ghost p0 = profiles@;
        let ghost s0 = *self;
        let mut rng: u64 = seed ^ hash_seed(origin.id.as_str());
        let mut remaining: usize = origin.effects.initial_power_count;
        let ghost rng0 = rng;
        let ghost n0 = remaining as nat;
        let ghost picked: Seq<OriginAcquisitionProfile> = Seq::empty();
        assert(picked + draws(profiles@, w, rng, remaining as nat) =~= draws(p0, w, rng0, n0));
        assert(self.powers@ =~= s0.powers@ + picked.map_values(|p: OriginAcquisitionProfile| granted_power(p)));
        while remaining > 0 && profiles.len() > 0
            invariant
                w == profile_weight_fn(),
                picked + draws(profiles@, w, rng, remaining as nat) == draws(p0, w, rng0, n0),
                self.powers@ == s0.powers@ + picked.map_values(|p: OriginAcquisitionProfile| granted_power(p)),
                weight_total(profile_weights(profiles@)) <= i64::MAX,
                self.mutations == s0.mutations,
                self.origin_id == s0.origin_id,
                self.origin_label == s0.origin_label,
                self.origin_class == s0.origin_class,
                self.origin_subtype == s0.origin_subtype,
                self.summary == s0.summary,
                remaining == 0 || profiles@.len() == 0 || picked.len() == 0 || self.powers@.len() > 0,
                picked.len() > 0 ==> self.powers@.len() > 0,
            decreases remaining,
        {
            let ghost cur = profiles@;
            let ghost before_rng = rng;
            let idx = weighted_choice_index(profiles.as_slice(), &mut rng);
            let profile = profiles.swap_remove(idx);
            let ghost before_powers = self.powers@;
            self.powers.push(CharacterPower {
                power_id: profile.power_id.0,
                expression_id: None,
                acq_id: Some(profile.acq_id),
                mastery: 0,
            });
            proof {
                let ws = profile_weights(cur);
                lemma_weights_swap_removed(cur, w, idx as int);
                lemma_total_swap_removed(ws, idx as int);
                assert(ws[idx as int] >= 1);
                assert(draws(cur, w, before_rng, remaining as nat) == seq![cur[idx as int]] + draws(
                    profiles@, w, rng, (remaining - 1) as nat));
                assert(picked.push(cur[idx as int]) + draws(profiles@, w, rng, (remaining - 1) as nat) =~= picked
                    + draws(cur, w, before_rng, remaining as nat));
                assert(self.powers@ =~= s0.powers@ + picked.push(cur[idx as int]).map_values(
                    |p: OriginAcquisitionProfile| granted_power(p)));
                picked = picked.push(cur[idx as int]);
            }
            remaining = remaining - 1;
        }
        assert(draws(profiles@, w, rng, remaining as nat) =~= Seq::<OriginAcquisitionProfile>::empty());
        assert(picked =~= draws(p0, w, rng0, n0));
        let tags = &origin.effects.mutation_tags;
        let mutation_limit = origin.effects.initial_mutation_count;
        if mutation_limit > 0 {
            let n = if mutation_limit < tags.len() { mutation_limit } else { tags.len() };
            let mut first: Vec<String> = Vec::new();
            let mut j: usize = 0;
            while j < n
                invariant
                    n <= tags@.len(),
                    j <= n,
                    views(first@) == views(tags@).take(j as int),
                decreases n - j,
            {
                let ghost before = first@;
                first.push(tags[j].clone());
                assert(views(first@) =~= views(before).push(tags@[j as int]@));
                assert(views(tags@).take(j + 1) =~= views(tags@).take(j as int).push(tags@[j as int]@));
                j = j + 1;
            }
            self.mutations = first;
        }
        if self.mutations.len() == 0 && self.powers.len() == 0 {
            self.mutations = tags.clone();
            assert(views(self.mutations@) =~= views(tags@));
        }
        Ok(())
    }
}

/// The instance of an origin signature that the origin leaves at its start.
pub open spec fn origin_signature_instance(s: OriginSignature) -> SignatureInstance {
    let spec = SignatureSpec { signature_type: s.signature_type, strength: s.strength, persistence_turns: s.persistence_turns };
    SignatureInstance { signature: spec, remaining_turns: spec.spec_persistence() }
}

/// The traces an origin leaves at its start, one per listed signature.
pub fn origin_signatures(origin: &OriginDefinition) -> (r: Vec<SignatureInstance>)
    ensures
        r@ == origin.effects.signatures@.map_values(|s: OriginSignature| origin_signature_instance(s)),
{
    let sigs = &origin.effects.signatures;
    let mut r: Vec<SignatureInstance> = Vec::new();
    let mut i: usize = 0;
    while i < sigs.len()
        invariant
            i <= sigs@.len(),
            r@ == sigs@.take(i as int).map_values(|s: OriginSignature| origin_signature_instance(s)),
        decreases sigs@.len() - i,
    {
        let sig = &sigs[i];
        let spec = SignatureSpec { signature_type: sig.signature_type, strength: sig.strength, persistence_turns: sig.persistence_turns };
        r.push(spec.to_instance());
        assert(sigs@.take(i + 1).map_values(|s: OriginSignature| origin_signature_instance(s)) =~= sigs@.take(
            i as int).map_values(|s: OriginSignature| origin_signature_instance(s)).push(origin_signature_instance(*sig)));
        i = i + 1;
    }
    assert(sigs@.take(sigs@.len() as int) =~= sigs@);
    r
}

/// The origin a seed selects: the one at `seed` modulo the number of origins.
pub fn select_origin(catalog: &OriginCatalog, seed: u64) -> (r: Option<&OriginDefinition>)
    ensures
        catalog.origins@.len() == 0 ==> r is None,
        catalog.origins@.len() > 0 ==> (r matches Some(o) && *o == catalog.origins@[(seed as usize) as int % catalog.origins@.len() as int]),
{
    if catalog.origins.len() == 0 {
        return None;
    }
    let idx = (seed as usize) % catalog.origins.len();
    Some(&catalog.origins[idx])
}

proof fn lemma_available_indices_ordered(paths: Seq<OriginPathDefinition>, origin: Option<&OriginState>, n: int)
    requires
        0 <= n <= paths.len(),
        paths.len() <= usize::MAX,
    ensures
        forall|t: int| 0 <= t < available_indices(paths, origin, n).len() ==> #[trigger] available_indices(paths, origin, n)[t] < n
            && path_available(paths[available_indices(paths, origin, n)[t] as int], origin),
        forall|a: int, b: int| 0 <= a < b < available_indices(paths, origin, n).len()
            ==> #[trigger] available_indices(paths, origin, n)[a] < #[trigger] available_indices(paths, origin, n)[b],
    decreases n,
{
    if n > 0 {
        lemma_available_indices_ordered(paths, origin, n - 1);
        let prev = available_indices(paths, origin, n - 1);
        let cur = available_indices(paths, origin, n);
        assert forall|t: int| 0 <= t < cur.len() implies #[trigger] cur[t] < n && path_available(paths[cur[t] as int], origin) by {
            if t < prev.len() {
                assert(cur[t] == prev[t]);
            }
        }
        assert forall|a: int, b: int| 0 <= a < b < cur.len() implies #[trigger] cur[a] < #[trigger] cur[b] by {
            assert(cur[a] == prev[a]);
            if b < prev.len() {
                assert(cur[b] == prev[b]);
            } else {
                assert(prev[a] < n - 1);
            }
        }
    }
}

/// The paths offered are paths the player may take, none twice, and as many as asked
/// for, or as many as may be taken when that is fewer.
pub proof fn law_offered_paths_available_and_distinct(paths: Seq<OriginPathDefinition>, origin: Option<&OriginState>, seed: u64, count: usize)
    requires
        paths.len() <= usize::MAX,
    ensures
        ({
            let offered = selected_path_indices(paths, origin, seed, count);
            let open = available_indices(paths, origin, paths.len() as int);
            &&& offered.len() == if (count as int) < open.len() { count as int } else { open.len() as int }
            &&& offered.no_duplicates()
            &&& forall|t: int| 0 <= t < offered.len() ==> (#[trigger] offered[t]) < paths.len()
                && path_available(paths[offered[t] as int], origin)
        }),
{
    let open = available_indices(paths, origin, paths.len() as int);
    lemma_available_indices_ordered(paths, origin, paths.len() as int);
    let w = path_index_weight(paths);
    assert forall|x: usize| #[trigger] w(x) >= 1 by {}
    let n: nat = if count < open.len() { count as nat } else { open.len() };
    law_draws_distinct_members(open, w, origin_paths_seed(seed), n);
    let offered = selected_path_indices(paths, origin, seed, count);
    assert forall|t: int| 0 <= t < offered.len() implies (#[trigger] offered[t]) < paths.len()
        && path_available(paths[offered[t] as int], origin) by {
        assert(offered.contains(offered[t]));
        let j = choose|j: int| 0 <= j < open.len() && open[j] == offered[t];
        assert(open[j] == offered[t]);
    }
}
} // verus!

use vstd::prelude::*;

use crate::ledger::Ledger;
use crate::rules::signature::{SignatureInstance, SignatureSpec};
use crate::simulation::city::{CityState, LocationId};
use crate::simulation::time::GameTime;
use crate::text::{concat_str, decimal, decimal_text};

verus! {

broadcast use vstd::string::group_string_axioms;

/// Days in a game year.
pub const DAYS_PER_YEAR: u32 = 336;

/// Hours between moves for a template that gives none.
pub const DEFAULT_MOVE_INTERVAL: u64 = 4;

pub struct AgentCatalog {
    pub schema_version: u32,
    pub roles: Vec<AgentRole>,
    pub templates: Vec<AgentTemplate>,
}

/// A kind of agent and the incidents it causes. `incident_rolls` is how many of the
/// hundred hourly roll values, counted from zero, set off an incident.
pub struct AgentRole {
    pub id: String,
    pub label: String,
    pub incident_rolls: u32,
    pub incident_cooldown: u64,
    pub incident_signatures: Vec<SignatureSpec>,
}

pub struct AgentTemplate {
    pub id: String,
    pub name: String,
    pub role_id: String,
    pub home_location: u32,
    pub haunt_location: u32,
    pub move_interval: u64,
    pub age_years: Option<u32>,
    pub age_min: Option<u32>,
    pub age_max: Option<u32>,
}

pub struct Agent {
    pub id: u32,
    pub name: String,
    pub role_id: String,
}

pub struct AgentGoal {
    pub description: String,
    pub target_location: LocationId,
    pub priority: u8,
    pub created_tick: u64,
}

#[derive(Debug, Clone, Copy, PartialEq, Eq, Structural)]
pub struct AgentSchedule {
    pub home_location: LocationId,
    pub haunt_location: LocationId,
    pub move_interval: u64,
    pub next_move_tick: u64,
}

pub struct AgentState {
    pub agent: Agent,
    pub goal: AgentGoal,
    pub schedule: AgentSchedule,
    pub current_location: LocationId,
    pub last_incident_tick: u64,
    pub age_years: u32,
    pub birth_day: u32,
}

/// The agent roles by id, and the agents in the city.
pub struct AgentRegistry {
    pub roles: Ledger<AgentRole>,
    pub agents: Vec<AgentState>,
}

impl Default for AgentRegistry {
    fn default() -> (r: AgentRegistry)
        ensures
            r.roles.map() == Map::<Seq<char>, AgentRole>::empty(),
            r.agents@.len() == 0,
    {
        AgentRegistry { roles: Ledger::new(), agents: Vec::new() }
    }
}

pub struct AgentEventLog(pub Vec<AgentEvent>);

impl Default for AgentEventLog {
    fn default() -> (l: AgentEventLog)
        ensures
            l.0@.len() == 0,
    {
        AgentEventLog(Vec::new())
    }
}

pub enum AgentEvent {
    EnteredLocation { agent_id: u32, location_id: LocationId },
    LeftLocation { agent_id: u32, location_id: LocationId },
    Incident {
        agent_id: u32,
        role_id: String,
        location_id: LocationId,
        signatures: Vec<SignatureInstance>,
    },
}

/// An agent event with its strings and lists taken by value.
pub enum AgentEventView {
    Entered { agent_id: u32, location_id: LocationId },
    Left { agent_id: u32, location_id: LocationId },
    Incident { agent_id: u32, role_id: Seq<char>, location_id: LocationId, signatures: Seq<SignatureInstance> },
}

impl View for AgentEvent {
    type V = AgentEventView;

    open spec fn view(&self) -> AgentEventView {
        match self {
            AgentEvent::EnteredLocation { agent_id, location_id } => AgentEventView::Entered {
                agent_id: *agent_id,
                location_id: *location_id,
            },
            AgentEvent::LeftLocation { agent_id, location_id } => AgentEventView::Left {
                agent_id: *agent_id,
                location_id: *location_id,
            },
            AgentEvent::Incident { agent_id, role_id, location_id, signatures } => AgentEventView::Incident {
                agent_id: *agent_id,
                role_id: role_id@,
                location_id: *location_id,
                signatures: signatures@,
            },
        }
    }
}

/// The views of a list of events.
pub open spec fn event_views(events: Seq<AgentEvent>) -> Seq<AgentEventView> {
    events.map_values(|e: AgentEvent| e@)
}

/// Why an agent catalog could not be loaded, with the underlying message.
#[derive(Debug)]
pub enum AgentLoadError {
    Io(String),
    Parse(String),
}

impl AgentLoadError {
    pub fn message(&self) -> (m: String)
        ensures
            m@ == match self {
                AgentLoadError::Io(e) => "I/O error: "@ + e@,
                AgentLoadError::Parse(e) => "Parse error: "@ + e@,
            },
    {
        match self {
            AgentLoadError::Io(e) => concat_str("I/O error: ", e.as_str()),
            AgentLoadError::Parse(e) => concat_str("Parse error: ", e.as_str()),
        }
    }
}

/// Agents keep to their haunt from eight to six and go home otherwise.
pub open spec fn target_for(home: LocationId, haunt: LocationId, hour: u8) -> LocationId {
    if 8 <= hour < 18 {
        haunt
    } else {
        home
    }
}

/// An agent is headed for its haunt from eight in the morning until six in the evening,
/// and for its home at every other hour.
pub proof fn law_agents_go_home_out_of_hours(home: LocationId, haunt: LocationId, hour: u8)
    ensures
        8 <= hour && hour < 18 ==> target_for(home, haunt, hour) == haunt,
        hour < 8 || hour >= 18 ==> target_for(home, haunt, hour) == home,
{
}

fn default_target_location(home: LocationId, haunt: LocationId, hour: u8) -> (r: LocationId)
    ensures
        r == target_for(home, haunt, hour),
        8 <= hour && hour < 18 ==> r == haunt,
        hour < 8 || hour >= 18 ==> r == home,
{
    if 8 <= hour && hour < 18 {
        haunt
    } else {
        home
    }
}

/// The age a template gives: its fixed age if it has one, else a point between its
/// bounds (by default 24 and 55) chosen by the seed; never under eighteen.
pub open spec fn resolved_age(t: AgentTemplate, seed: u32) -> u32 {
    match t.age_years {
        Some(a) => if a >= 18 { a } else { 18 },
        None => {
            let lo0: u32 = match t.age_min { Some(v) => v, None => 24 };
            let lo: u32 = if lo0 >= 18 { lo0 } else { 18 };
            let hi0: u32 = match t.age_max { Some(v) => v, None => 55 };
            let hi: u32 = if hi0 >= lo { hi0 } else { lo };
            if hi == lo {
                lo
            } else {
                (lo + seed % ((hi - lo) + 1) as u32) as u32
            }
        },
    }
}

fn resolve_agent_age_years(template: &AgentTemplate, seed: u32) -> (age: u32)
    ensures
        age == resolved_age(*template, seed),
        age >= 18,
{
    if let Some(age) = template.age_years {
        return if age >= 18 { age } else { 18 };
    }
    let lo0: u32 = match template.age_min {
        Some(v) => v,
        None => 24,
    };
    let min_age: u32 = if lo0 >= 18 { lo0 } else { 18 };
    let hi0: u32 = match template.age_max {
        Some(v) => v,
        None => 55,
    };
    let max_age: u32 = if hi0 >= min_age { hi0 } else { min_age };
    if max_age == min_age {
        return min_age;
    }
    let span = max_age - min_age;
    let offset = seed % (span + 1);
    min_age + offset
}

/// The day an agent's current year of life began, once its age has been placed on
/// the calendar: an agent with no birth day yet is dated back from today by its age.
pub open spec fn birth_anchor(age_years: u32, birth_day: u32, day: u32) -> u32 {
    if birth_day == 0 {
        let offset = age_years * 336;
        let off: u32 = if offset <= u32::MAX { offset as u32 } else { u32::MAX };
        if day >= off { (day - off) as u32 } else { 0 }
    } else {
        birth_day
    }
}

/// Whole years from the anchor to today.
pub open spec fn years_since(anchor: u32, day: u32) -> nat {
    if day >= anchor { ((day - anchor) / 336) as nat } else { 0 }
}

/// The birth day after ageing: the anchor moved forward by the years that passed.
pub open spec fn aged_birth_day(age_years: u32, birth_day: u32, day: u32) -> u32 {
    let anchor = birth_anchor(age_years, birth_day, day);
    (anchor + 336 * years_since(anchor, day)) as u32
}

/// The age after ageing, saturating at the largest `u32`.
pub open spec fn aged_years(age_years: u32, birth_day: u32, day: u32) -> u32 {
    let n = age_years + years_since(birth_anchor(age_years, birth_day, day), day);
    if n <= u32::MAX { n as u32 } else { u32::MAX }
}

fn update_agent_age(state: &mut AgentState, current_day: u32)
    requires
        current_day < u32::MAX,
    ensures
        final(state).age_years == aged_years(old(state).age_years, old(state).birth_day, current_day),
        final(state).birth_day == aged_birth_day(old(state).age_years, old(state).birth_day, current_day),
        final(state).agent == old(state).agent,
        final(state).goal == old(state).goal,
        final(state).schedule == old(state).schedule,
        final(state).current_location == old(state).current_location,
        final(state).last_incident_tick == old(state).last_incident_tick,
{
    if state.birth_day == 0 {
        let age: u64 = state.age_years as u64;
        assert(age * 336 <= 0xffff_ffff * 336) by (nonlinear_arith)
            requires
                age <= 0xffff_ffff,
        ;
        let wide: u64 = age * DAYS_PER_YEAR as u64;
        let offset: u32 = if wide <= u32::MAX as u64 { wide as u32 } else { u32::MAX };
        state.birth_day = current_day.saturating_sub(offset);
    }
    let ghost anchor = state.birth_day;
    let ghost age0 = state.age_years;
    let ghost k: nat = 0;
    assert(anchor == birth_anchor(old(state).age_years, old(state).birth_day, current_day));
    while current_day >= state.birth_day.saturating_add(DAYS_PER_YEAR)
        invariant
            current_day < u32::MAX,
            state.birth_day == anchor + 336 * k,
            state.birth_day <= current_day || k == 0,
            age0 + k <= u32::MAX ==> state.age_years == age0 + k,
            age0 + k > u32::MAX ==> state.age_years == u32::MAX,
            state.agent == old(state).agent,
            state.goal == old(state).goal,
            state.schedule == old(state).schedule,
            state.current_location == old(state).current_location,
            state.last_incident_tick == old(state).last_incident_tick,
        decreases current_day - state.birth_day,
    {
        state.birth_day = state.birth_day.saturating_add(DAYS_PER_YEAR);
        state.age_years = state.age_years.saturating_add(1);
        proof {
            k = k + 1;
        }
    }
    proof {
        if current_day >= anchor {
            assert(anchor + 336 * k <= current_day < anchor + 336 * (k + 1));
            assert(k == (current_day - anchor) / 336) by (nonlinear_arith)
                requires
                    anchor + 336 * k <= current_day,
                    current_day < anchor + 336 * (k + 1),
                    current_day >= anchor,
            ;
        } else {
            assert(k == 0);
        }
    }
}

/// The line describing a goal set when the routine changes.
pub open spec fn heading_text(target: LocationId) -> Seq<char> {
    "Heading toward location "@ + decimal(target.0 as int)
}

/// The line describing the goal an agent starts with.
pub open spec fn routine_text(target: LocationId) -> Seq<char> {
    "Establishing routine near location "@ + decimal(target.0 as int)
}

/// Where an agent heads at this hour.
pub open spec fn agent_target(s: AgentState, time: GameTime) -> LocationId {
    target_for(s.schedule.home_location, s.schedule.haunt_location, time.hour)
}

/// The agent is away from its target and its next move is due.
pub open spec fn moves_now(s: AgentState, time: GameTime) -> bool {
    s.current_location != agent_target(s, time) && time.tick >= s.schedule.next_move_tick
}

/// Where the agent stands after this hour.
pub open spec fn location_after(s: AgentState, time: GameTime) -> LocationId {
    if moves_now(s, time) {
        agent_target(s, time)
    } else {
        s.current_location
    }
}

/// The hourly roll of an agent, in `0..100`.
pub open spec fn incident_roll(tick: u64, agent_id: u32) -> int {
    (tick + agent_id * 13) % 100
}

/// The role sets off an incident now: the roll falls among its incident rolls and
/// its cooldown (at least one hour) has passed since the last incident.
pub open spec fn incident_due(s: AgentState, role: AgentRole, time: GameTime) -> bool {
    let cooldown: u64 = if role.incident_cooldown >= 1 { role.incident_cooldown } else { 1 };
    let since: int = if time.tick >= s.last_incident_tick { time.tick - s.last_incident_tick } else { 0 };
    incident_roll(time.tick, s.agent.id) < role.incident_rolls && since >= cooldown
}

/// The traces a role's incident leaves.
pub open spec fn incident_traces(role: AgentRole) -> Seq<SignatureInstance> {
    role.incident_signatures@.map_values(|sp: SignatureSpec| SignatureInstance {
        signature: sp,
        remaining_turns: sp.spec_persistence(),
    })
}

/// The role of an agent, when the registry knows it, and an incident is due.
pub open spec fn fires(s: AgentState, roles: Map<Seq<char>, AgentRole>, time: GameTime) -> bool {
    roles.contains_key(s.agent.role_id@) && incident_due(s, roles[s.agent.role_id@], time)
}

/// The events one agent produces in an hour: leaving and entering when it moves,
/// then an incident at the place it ends up, if one is due.
pub open spec fn agent_events(s: AgentState, roles: Map<Seq<char>, AgentRole>, time: GameTime) -> Seq<AgentEventView> {
    let moved: Seq<AgentEventView> = if moves_now(s, time) {
        seq![
            AgentEventView::Left { agent_id: s.agent.id, location_id: s.current_location },
            AgentEventView::Entered { agent_id: s.agent.id, location_id: agent_target(s, time) },
        ]
    } else {
        Seq::empty()
    };
    if fires(s, roles, time) {
        let role = roles[s.agent.role_id@];
        moved.push(AgentEventView::Incident {
            agent_id: s.agent.id,
            role_id: role.id@,
            location_id: location_after(s, time),
            signatures: incident_traces(role),
        })
    } else {
        moved
    }
}

/// The events of a list of agents, agent by agent.
pub open spec fn hour_events(agents: Seq<AgentState>, roles: Map<Seq<char>, AgentRole>, time: GameTime) -> Seq<AgentEventView>
    decreases agents.len(),
{
    if agents.len() == 0 {
        Seq::empty()
    } else {
        hour_events(agents.drop_last(), roles, time) + agent_events(agents.last(), roles, time)
    }
}

/// `after` is `before` an hour later: aged, its goal set toward its target (a new
/// goal only when the target changed), moved when a move was due, and with the
/// incident clock reset when an incident fired.
pub open spec fn agent_ticked(
    before: AgentState,
    after: AgentState,
    roles: Map<Seq<char>, AgentRole>,
    time: GameTime,
) -> bool {
    let target = agent_target(before, time);
    &&& after.agent == before.agent
    &&& after.age_years == aged_years(before.age_years, before.birth_day, time.day)
    &&& after.birth_day == aged_birth_day(before.age_years, before.birth_day, time.day)
    &&& before.goal.target_location != target ==> {
        &&& after.goal.target_location == target
        &&& after.goal.description@ == heading_text(target)
        &&& after.goal.priority == 1
        &&& after.goal.created_tick == time.tick
    }
    &&& before.goal.target_location == target ==> after.goal == before.goal
    &&& after.current_location == location_after(before, time)
    &&& after.schedule == if moves_now(before, time) {
        AgentSchedule { next_move_tick: (time.tick + before.schedule.move_interval) as u64, ..before.schedule }
    } else {
        before.schedule
    }
    &&& after.last_incident_tick == if fires(before, roles, time) {
        time.tick
    } else {
        before.last_incident_tick
    }
}

/// The hour fits the counters of an agent: a due move and the roll stay within `u64`.
pub open spec fn tick_in_range(s: AgentState, roles: Map<Seq<char>, AgentRole>, time: GameTime) -> bool {
    &&& moves_now(s, time) ==> time.tick + s.schedule.move_interval <= u64::MAX
    &&& roles.contains_key(s.agent.role_id@) ==> time.tick + s.agent.id * 13 <= u64::MAX
}

fn incident_signatures(role: &AgentRole) -> (r: Vec<SignatureInstance>)
    ensures
        r@ == incident_traces(*role),
{
    let mut out: Vec<SignatureInstance> = Vec::new();
    let mut i: usize = 0;
    while i < role.incident_signatures.len()
        invariant
            i <= role.incident_signatures@.len(),
            out@ == incident_traces(*role).take(i as int),
        decreases role.incident_signatures@.len() - i,
    {
        out.push(role.incident_signatures[i].to_instance());
        assert(out@ =~= incident_traces(*role).take(i + 1));
        i = i + 1;
    }
    assert(incident_traces(*role).take(i as int) =~= incident_traces(*role));
    out
}

fn tick_agent(state: &mut AgentState, roles: &Ledger<AgentRole>, time: &GameTime, events: &mut Vec<AgentEvent>)
    requires
        time.day < u32::MAX,
        tick_in_range(*old(state), roles.map(), *time),
    ensures
        agent_ticked(*old(state), *final(state), roles.map(), *time),
        event_views(final(events)@) == event_views(old(events)@) + agent_events(*old(state), roles.map(), *time),
{
    let ghost before = *state;
    update_agent_age(state, time.day);
    let target_location = default_target_location(
        state.schedule.home_location,
        state.schedule.haunt_location,
        time.hour,
    );
    if state.goal.target_location != target_location {
        state.goal = AgentGoal {
            description: concat_str("Heading toward location ", decimal_text(target_location.0 as u64).as_str()),
            target_location,
            priority: 1,
            created_tick: time.tick,
        };
    }
    let ghost ev0 = event_views(events@);
    if state.current_location != target_location && time.tick >= state.schedule.next_move_tick {
        events.push(AgentEvent::LeftLocation { agent_id: state.agent.id, location_id: state.current_location });
        state.current_location = target_location;
        events.push(AgentEvent::EnteredLocation { agent_id: state.agent.id, location_id: state.current_location });
        state.schedule.next_move_tick = time.tick + state.schedule.move_interval;
    }
    let ghost ev1 = event_views(events@);
    assert(ev1 =~= ev0 + (if moves_now(before, *time) {
        seq![
            AgentEventView::Left { agent_id: before.agent.id, location_id: before.current_location },
            AgentEventView::Entered { agent_id: before.agent.id, location_id: agent_target(before, *time) },
        ]
    } else {
        Seq::<AgentEventView>::empty()
    }));
    if let Some(role) = roles.get(state.agent.role_id.as_str()) {
        let cooldown: u64 = if role.incident_cooldown >= 1 { role.incident_cooldown } else { 1 };
        let since_last: u64 = time.tick.saturating_sub(state.last_incident_tick);
        let roll: u64 = (time.tick + state.agent.id as u64 * 13) % 100;
        if roll < role.incident_rolls as u64 && since_last >= cooldown {
            let signatures = incident_signatures(role);
            events.push(AgentEvent::Incident {
                agent_id: state.agent.id,
                role_id: role.id.clone(),
                location_id: state.current_location,
                signatures,
            });
            state.last_incident_tick = time.tick;
            assert(event_views(events@) =~= ev1.push(event_views(events@).last()));
        }
    }
}

/// One hour for every agent: each ages, sets its goal, moves when due and may cause
/// an incident; the log holds this hour's events only.
pub fn tick_agents(registry: &mut AgentRegistry, _city: &CityState, time: &GameTime, events: &mut AgentEventLog)
    requires
        time.day < u32::MAX,
        forall|i: int| 0 <= i < old(registry).agents@.len() ==> tick_in_range(#[trigger] old(registry).agents@[i], old(registry).roles.map(), *time),
    ensures
        final(registry).roles == old(registry).roles,
        final(registry).agents@.len() == old(registry).agents@.len(),
        forall|i: int| 0 <= i < final(registry).agents@.len() ==> agent_ticked(#[trigger] old(registry).agents@[i], final(registry).agents@[i], old(registry).roles.map(), *time),
        event_views(final(events).0@) == hour_events(old(registry).agents@, old(registry).roles.map(), *time),
{
    events.0.clear();
    let ghost start = registry.agents@;
    let ghost roles = registry.roles.map();
    let mut i: usize = 0;
    assert(start.take(0) =~= Seq::<AgentState>::empty());
    while i < registry.agents.len()
        invariant
            time.day < u32::MAX,
            roles == registry.roles.map(),
            registry.roles == old(registry).roles,
            start == old(registry).agents@,
            registry.agents@.len() == start.len(),
            i <= start.len(),
            forall|j: int| 0 <= j < start.len() ==> tick_in_range(#[trigger] start[j], roles, *time),
            forall|j: int| 0 <= j < i ==> agent_ticked(#[trigger] start[j], registry.agents@[j], roles, *time),
            forall|j: int| i <= j < start.len() ==> #[trigger] registry.agents@[j] == start[j],
            event_views(events.0@) == hour_events(start.take(i as int), roles, *time),
        decreases start.len() - i,
    {
        assert(start.take(i + 1).drop_last() =~= start.take(i as int));
        tick_agent(&mut registry.agents[i], &registry.roles, time, &mut events.0);
        i = i + 1;
    }
    assert(start.take(start.len() as int) =~= start);
}

/// The positions of the templates whose role is known, in order.
pub open spec fn placed_templates(templates: Seq<AgentTemplate>, roles: Map<Seq<char>, AgentRole>) -> Seq<int>
    decreases templates.len(),
{
    if templates.len() == 0 {
        Seq::empty()
    } else {
        let rest = placed_templates(templates.drop_last(), roles);
        if roles.contains_key(templates.last().role_id@) {
            rest.push(templates.len() - 1)
        } else {
            rest
        }
    }
}

/// The roles of a catalog by id; a later role replaces an earlier one with its id.
pub open spec fn roles_by_id(roles: Seq<AgentRole>) -> Map<Seq<char>, AgentRole>
    decreases roles.len(),
{
    if roles.len() == 0 {
        Map::empty()
    } else {
        roles_by_id(roles.drop_last()).insert(roles.last().id@, roles.last())
    }
}

/// The agent a template at position `idx` starts as.
pub open spec fn agent_from_template(s: AgentState, t: AgentTemplate, idx: int, role: AgentRole) -> bool {
    let home = LocationId(t.home_location);
    let haunt = LocationId(t.haunt_location);
    let target = target_for(home, haunt, 0);
    &&& s.agent.id == idx + 1
    &&& s.agent.name@ == t.name@
    &&& s.agent.role_id@ == role.id@
    &&& s.goal.description@ == routine_text(target)
    &&& s.goal.target_location == target
    &&& s.goal.priority == 1
    &&& s.goal.created_tick == 0
    &&& s.schedule == (AgentSchedule {
        home_location: home,
        haunt_location: haunt,
        move_interval: if t.move_interval > 0 { t.move_interval } else { DEFAULT_MOVE_INTERVAL },
        next_move_tick: 0,
    })
    &&& s.current_location == home
    &&& s.last_incident_tick == 0
    &&& s.age_years == resolved_age(t, idx as u32)
    &&& s.birth_day == 0
}

fn agent_for_template(template: &AgentTemplate, idx: usize, role: &AgentRole) -> (s: AgentState)
    requires
        idx < u32::MAX,
    ensures
        agent_from_template(s, *template, idx as int, *role),
{
    let home_location = LocationId(template.home_location);
    let haunt_location = LocationId(template.haunt_location);
    let move_interval = if template.move_interval > 0 { template.move_interval } else { DEFAULT_MOVE_INTERVAL };
    let age_years = resolve_agent_age_years(template, idx as u32);
    let target_location = default_target_location(home_location, haunt_location, 0);
    let agent = Agent { id: (idx as u32) + 1, name: template.name.clone(), role_id: role.id.clone() };
    let goal = AgentGoal {
        description: concat_str(
            "Establishing routine near location ",
            decimal_text(target_location.0 as u64).as_str(),
        ),
        target_location,
        priority: 1,
        created_tick: 0,
    };
    let schedule = AgentSchedule { home_location, haunt_location, move_interval, next_move_tick: 0 };
    AgentState {
        agent,
        goal,
        schedule,
        current_location: home_location,
        last_incident_tick: 0,
        age_years,
        birth_day: 0,
    }
}

impl AgentRegistry {
    /// The registry a catalog describes: its roles by id, and one agent for each
    /// template whose role is known, numbered by the template's position from one.
    pub fn from_catalog(catalog: AgentCatalog) -> (r: AgentRegistry)
        requires
            catalog.templates@.len() < u32::MAX,
        ensures
            r.roles.map() == roles_by_id(catalog.roles@),
            r.agents@.len() == placed_templates(catalog.templates@, r.roles.map()).len(),
            forall|k: int| 0 <= k < r.agents@.len() ==> {
                let idx = #[trigger] placed_templates(catalog.templates@, r.roles.map())[k];
                let t = catalog.templates@[idx];
                agent_from_template(r.agents@[k], t, idx, r.roles.map()[t.role_id@])
            },
    {
        let mut roles: Ledger<AgentRole> = Ledger::new();
        let mut remaining = catalog.roles;
        let ghost all_roles = remaining@;
        let total = remaining.len();
        let mut taken: usize = 0;
        assert(all_roles.take(0) =~= Seq::<AgentRole>::empty());
        assert(roles.map() =~= roles_by_id(all_roles.take(0)));
        while remaining.len() > 0
            invariant
                taken + remaining@.len() == all_roles.len(),
                all_roles.len() == total,
                remaining@ == all_roles.skip(taken as int),
                roles.map() == roles_by_id(all_roles.take(taken as int)),
            decreases remaining@.len(),
        {
            let role = remaining.remove(0);
            assert(all_roles.take(taken + 1).drop_last() =~= all_roles.take(taken as int));
            assert(role == all_roles[taken as int]);
            assert(remaining@ =~= all_roles.skip(taken + 1));
            let key = role.id.clone();
            roles.set(key, role);
            taken = taken + 1;
        }
        assert(all_roles.take(taken as int) =~= all_roles);
        let templates = &catalog.templates;
        let ghost rmap = roles.map();
        let mut agents: Vec<AgentState> = Vec::new();
        let mut i: usize = 0;
        assert(templates@.take(0) =~= Seq::<AgentTemplate>::empty());
        while i < templates.len()
            invariant
                i <= templates@.len(),
                templates@.len() < u32::MAX,
                rmap == roles.map(),
                agents@.len() == placed_templates(templates@.take(i as int), rmap).len(),
                forall|k: int| 0 <= k < agents@.len() ==> {
                    let idx = #[trigger] placed_templates(templates@.take(i as int), rmap)[k];
                    &&& 0 <= idx < i
                    &&& agent_from_template(agents@[k], templates@[idx], idx, rmap[templates@[idx].role_id@])
                },
            decreases templates@.len() - i,
        {
            let ghost pre = templates@.take(i as int);
            assert(templates@.take(i + 1).drop_last() =~= pre);
            assert(templates@.take(i + 1).last() == templates@[i as int]);
            let template = &templates[i];
            match roles.get(template.role_id.as_str()) {
                Some(role) => {
                    let s = agent_for_template(template, i, role);
                    agents.push(s);
                },
                None => {},
            }
            i = i + 1;
        }
        assert(templates@.take(templates@.len() as int) =~= templates@);
        AgentRegistry { roles, agents }
    }
}

} // verus!

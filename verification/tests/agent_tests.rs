use superhero_universe::rules::signature::{SignatureSpec, SignatureType};
use superhero_universe::simulation::agents::{
    tick_agents, AgentCatalog, AgentEvent, AgentEventLog, AgentLoadError, AgentRegistry, AgentRole, AgentTemplate,
};
use superhero_universe::simulation::city::{CityState, LocationId};
use superhero_universe::simulation::time::GameTime;

fn template(id: &str, role: &str, age: Option<u32>) -> AgentTemplate {
    AgentTemplate {
        id: id.to_string(),
        name: format!("Agent {}", id),
        role_id: role.to_string(),
        home_location: 1,
        haunt_location: 2,
        move_interval: 0,
        age_years: age,
        age_min: None,
        age_max: None,
    }
}

fn catalog() -> AgentCatalog {
    AgentCatalog {
        schema_version: 1,
        roles: vec![AgentRole {
            id: "thug".to_string(),
            label: "Thug".to_string(),
            incident_rolls: 100,
            incident_cooldown: 0,
            incident_signatures: vec![SignatureSpec {
                signature_type: SignatureType::KineticStress,
                strength: 3,
                persistence_turns: 0,
            }],
        }],
        templates: vec![template("a", "thug", Some(30)), template("b", "ghost", None), template("c", "thug", Some(12))],
    }
}

#[test]
fn registry_skips_templates_with_unknown_roles() {
    let registry = AgentRegistry::from_catalog(catalog());
    assert_eq!(registry.agents.len(), 2);
    assert_eq!(registry.agents[0].agent.id, 1);
    assert_eq!(registry.agents[1].agent.id, 3);
    assert_eq!(registry.agents[0].age_years, 30);
    assert_eq!(registry.agents[1].age_years, 18);
    assert_eq!(registry.agents[0].schedule.move_interval, 4);
    assert_eq!(registry.agents[0].goal.description, "Establishing routine near location 1");
    assert_eq!(registry.agents[0].current_location, LocationId(1));
}

#[test]
fn default_age_is_picked_between_bounds() {
    let mut cat = catalog();
    cat.templates = vec![template("x", "thug", None), template("y", "thug", None)];
    let registry = AgentRegistry::from_catalog(cat);
    assert_eq!(registry.agents[0].age_years, 24);
    assert_eq!(registry.agents[1].age_years, 25);
}

#[test]
fn agents_move_to_their_haunt_by_day_and_cause_incidents() {
    let mut registry = AgentRegistry::from_catalog(catalog());
    let city = CityState::default();
    let time = GameTime { tick: 10, day: 1, hour: 9, week: 1, month: 1, is_day: true };
    let mut events = AgentEventLog::default();
    tick_agents(&mut registry, &city, &time, &mut events);
    let a = &registry.agents[0];
    assert_eq!(a.current_location, LocationId(2));
    assert_eq!(a.schedule.next_move_tick, 14);
    assert_eq!(a.goal.description, "Heading toward location 2");
    assert_eq!(a.last_incident_tick, 10);
    assert!(matches!(events.0[0], AgentEvent::LeftLocation { agent_id: 1, location_id: LocationId(1) }));
    assert!(matches!(events.0[1], AgentEvent::EnteredLocation { agent_id: 1, location_id: LocationId(2) }));
    match &events.0[2] {
        AgentEvent::Incident { agent_id, role_id, location_id, signatures } => {
            assert_eq!(*agent_id, 1);
            assert_eq!(role_id, "thug");
            assert_eq!(*location_id, LocationId(2));
            assert_eq!(signatures.len(), 1);
            assert_eq!(signatures[0].remaining_turns, 5);
        }
        _ => panic!("expected an incident"),
    }
    assert_eq!(events.0.len(), 6);
}

#[test]
fn agents_age_with_the_calendar() {
    let mut registry = AgentRegistry::from_catalog(catalog());
    let city = CityState::default();
    let mut events = AgentEventLog::default();
    let time = GameTime { tick: 0, day: 400, hour: 2, week: 1, month: 1, is_day: false };
    tick_agents(&mut registry, &city, &time, &mut events);
    assert_eq!(registry.agents[0].birth_day, 336);
    assert_eq!(registry.agents[0].age_years, 31);
    let later = GameTime { tick: 0, day: 1000, hour: 2, week: 1, month: 1, is_day: false };
    tick_agents(&mut registry, &city, &later, &mut events);
    assert_eq!(registry.agents[0].age_years, 32);
    assert_eq!(registry.agents[0].birth_day, 672);
}

#[test]
fn load_error_messages() {
    assert_eq!(AgentLoadError::Io("missing".to_string()).message(), "I/O error: missing");
    assert_eq!(AgentLoadError::Parse("bad".to_string()).message(), "Parse error: bad");
}

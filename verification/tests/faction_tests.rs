use superhero_universe::data::civilian_events::{
    CivilianChoice, CivilianEventCatalog, CivilianEventDataError, CivilianStorylet,
};
use superhero_universe::data::cosmic_constants::{
    CosmicConstantDefinition, CosmicConstantsCatalog, CosmicConstantsError,
};
use superhero_universe::data::factions::{
    DataError, DetectionProfile, FactionDomain, FactionInstanceCatalog, FactionInstanceDefinition,
    FactionScope, FactionTypeCatalog, FactionTypeDefinition, Jurisdiction, ResponseProfile,
};

fn faction_type(id: &str, name: &str) -> FactionTypeDefinition {
    FactionTypeDefinition {
        id: id.to_string(),
        name: name.to_string(),
        domain: FactionDomain::Law,
        default_jurisdiction: Jurisdiction::Local,
        detection: DetectionProfile { signature_types: Vec::new(), heat_min: None },
        response: ResponseProfile { doctrine: Vec::new(), thresholds: Vec::new() },
        narrative_pressure: Vec::new(),
        tags: Vec::new(),
        notes: None,
    }
}

fn instance(id: &str, type_id: &str) -> FactionInstanceDefinition {
    FactionInstanceDefinition {
        id: id.to_string(),
        type_id: type_id.to_string(),
        jurisdiction: Jurisdiction::Regional,
        scope: FactionScope { location_ids: Vec::new(), location_tags: Vec::new() },
        influence: Vec::new(),
        detection_override: None,
        response_override: None,
        tags: Vec::new(),
        notes: None,
    }
}

fn fault(r: Result<(), DataError>) -> Option<String> {
    match r {
        Ok(()) => None,
        Err(DataError::Validation(m)) => Some(m),
        Err(other) => panic!("unexpected {:?}", other),
    }
}

#[test]
fn faction_catalog_rules() {
    let types = FactionTypeCatalog { schema_version: 1, faction_types: vec![faction_type("police", "Police")] };
    assert_eq!(fault(types.validate()), None);
    let twice = FactionTypeCatalog {
        schema_version: 1,
        faction_types: vec![faction_type("police", "Police"), faction_type("police", "Cops")],
    };
    assert_eq!(fault(twice.validate()).as_deref(), Some("duplicate faction type id police"));
    let nameless = FactionTypeCatalog { schema_version: 1, faction_types: vec![faction_type("mob", " ")] };
    assert_eq!(fault(nameless.validate()).as_deref(), Some("faction type mob has empty name"));
    let blank = FactionTypeCatalog { schema_version: 1, faction_types: vec![faction_type("", "X")] };
    assert_eq!(fault(blank.validate()).as_deref(), Some("faction type id cannot be empty"));

    let instances = FactionInstanceCatalog {
        schema_version: 1,
        factions: vec![instance("metro_pd", "police"), instance("rogue", "spies")],
    };
    assert_eq!(fault(instances.validate()), None);
    assert_eq!(
        fault(instances.validate_against(&types)).as_deref(),
        Some("faction instance rogue references unknown type_id spies")
    );
    let untyped = FactionInstanceCatalog { schema_version: 1, factions: vec![instance("metro_pd", "")] };
    assert_eq!(fault(untyped.validate()).as_deref(), Some("faction instance metro_pd has empty type_id"));
}

#[test]
fn event_and_constant_catalog_rules() {
    let event = |id: &str, title: &str, choices: usize| CivilianStorylet {
        id: id.to_string(),
        title: title.to_string(),
        text_stub: "stub".to_string(),
        choices: (0..choices)
            .map(|i| CivilianChoice { id: format!("c{}", i), text: "go".to_string(), effects: Vec::new() })
            .collect(),
        effects: Vec::new(),
    };
    let ok = CivilianEventCatalog { schema_version: 1, events: vec![event("rent", "Rent day", 1)] };
    assert!(ok.validate().is_ok());
    let untitled = CivilianEventCatalog { schema_version: 1, events: vec![event("rent", "", 1)] };
    match untitled.validate() {
        Err(CivilianEventDataError::Validation(m)) => assert_eq!(m, "civilian event rent missing title"),
        _ => panic!("an untitled event must be refused"),
    }

    let constant = |id: &str, label: &str| CosmicConstantDefinition {
        id: id.to_string(),
        label: label.to_string(),
        role: "keeper".to_string(),
        order: 1,
        body_count: 1,
        hive_mind: false,
        notes: Vec::new(),
    };
    let empty = CosmicConstantsCatalog { schema_version: 1, constants: Vec::new() };
    match empty.validate() {
        Err(CosmicConstantsError::Validation(m)) => assert_eq!(m, "cosmic constants cannot be empty"),
        _ => panic!("an empty list must be refused"),
    }
    let unlabeled = CosmicConstantsCatalog { schema_version: 1, constants: vec![constant("death", "")] };
    match unlabeled.validate() {
        Err(CosmicConstantsError::Validation(m)) => assert_eq!(m, "cosmic constant death missing label"),
        _ => panic!("an unlabeled constant must be refused"),
    }
    let v0 = CosmicConstantsCatalog { schema_version: 0, constants: vec![constant("death", "Death")] };
    match v0.validate() {
        Err(CosmicConstantsError::Validation(m)) => assert_eq!(m, "cosmic constants schema_version must be >= 1"),
        _ => panic!("schema version 0 must be refused"),
    }
}

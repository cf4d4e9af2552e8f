use superhero_universe::data::omni_powers::{OmniPowerCatalog, OmniPowerDefinition, OmniPowerError};
use superhero_universe::data::storylets::{
    Storylet, StoryletCatalog, StoryletCategory, StoryletChoice, StoryletDataError,
};

fn omni(id: &str, label: &str, power_name: &str) -> OmniPowerDefinition {
    OmniPowerDefinition {
        id: id.to_string(),
        label: label.to_string(),
        power_name: power_name.to_string(),
        tags: Vec::new(),
    }
}

fn omni_fault(catalog: &OmniPowerCatalog) -> Option<String> {
    match catalog.validate() {
        Ok(()) => None,
        Err(OmniPowerError::Validation(m)) => Some(m),
        Err(other) => panic!("unexpected {:?}", other),
    }
}

fn story(id: &str, text_stub: &str, choices: usize) -> Storylet {
    Storylet {
        id: id.to_string(),
        category: StoryletCategory::CivilianLife,
        preconditions: Vec::new(),
        text_stub: text_stub.to_string(),
        choices: (0..choices)
            .map(|i| StoryletChoice {
                id: format!("c{}", i),
                text: "choose".to_string(),
                effects: Vec::new(),
            })
            .collect(),
        effects: Vec::new(),
        tags: Vec::new(),
    }
}

fn storylet_fault(storylets: Vec<Storylet>) -> Option<String> {
    let catalog = StoryletCatalog { schema_version: 1, storylets };
    match catalog.validate() {
        Ok(()) => None,
        Err(StoryletDataError::Validation(m)) => Some(m),
        Err(other) => panic!("unexpected {:?}", other),
    }
}

#[test]
fn omni_catalog_rules() {
    let ok = OmniPowerCatalog { schema_version: 1, powers: vec![omni("a", "A", "Alpha")] };
    assert_eq!(omni_fault(&ok), None);
    let v0 = OmniPowerCatalog { schema_version: 0, powers: vec![omni("a", "A", "Alpha")] };
    assert_eq!(omni_fault(&v0).as_deref(), Some("omni power schema_version must be >= 1"));
    let empty = OmniPowerCatalog { schema_version: 1, powers: Vec::new() };
    assert_eq!(omni_fault(&empty).as_deref(), Some("omni power list cannot be empty"));
    let blank = OmniPowerCatalog { schema_version: 1, powers: vec![omni("  ", "A", "Alpha")] };
    assert_eq!(omni_fault(&blank).as_deref(), Some("omni power id cannot be empty"));
    let twice = OmniPowerCatalog {
        schema_version: 1,
        powers: vec![omni("a", "A", "Alpha"), omni("a", "B", "Beta")],
    };
    assert_eq!(omni_fault(&twice).as_deref(), Some("duplicate omni power id a"));
    let unlabeled = OmniPowerCatalog { schema_version: 1, powers: vec![omni("a", "", "Alpha")] };
    assert_eq!(omni_fault(&unlabeled).as_deref(), Some("omni power a missing label"));
    let unnamed = OmniPowerCatalog { schema_version: 1, powers: vec![omni("a", "A", " ")] };
    assert_eq!(omni_fault(&unnamed).as_deref(), Some("omni power a missing power_name"));
}

#[test]
fn storylet_catalog_rules() {
    assert_eq!(storylet_fault(vec![story("a", "text", 1)]), None);
    assert_eq!(
        storylet_fault(vec![story("", "text", 1)]).as_deref(),
        Some("storylet id cannot be empty")
    );
    assert_eq!(
        storylet_fault(vec![story("a", "text", 1), story("a", "text", 1)]).as_deref(),
        Some("duplicate storylet id a")
    );
    assert_eq!(
        storylet_fault(vec![story("a", " ", 1)]).as_deref(),
        Some("storylet a missing text_stub")
    );
    assert_eq!(
        storylet_fault(vec![story("a", "text", 0)]).as_deref(),
        Some("storylet a has no choices")
    );
    assert_eq!(
        StoryletDataError::Io { path: "p.json".to_string(), message: "gone".to_string() }.message(),
        "failed to read p.json: gone"
    );
}

use superhero_universe::simulation::origin::{
    apply_origin_effects, current_origin_stage, parse_origin_effects, register_origin_event,
    start_origin_path, tick_origin_path, OriginError, OriginPathAvailability, OriginPathCatalog,
    OriginPathDefinition, OriginPathStage, OriginQuestState, OriginStageRequirement,
    OriginStageReward,
};

fn stage(id: &str, needed: u32, per_tick: u32, tags: &[&str], event_progress: u32, reputation: i32) -> OriginPathStage {
    OriginPathStage {
        id: id.to_string(),
        label: id.to_uppercase(),
        summary: String::new(),
        requirement: OriginStageRequirement {
            progress_needed: needed,
            progress_per_tick: per_tick,
            event_tags: tags.iter().map(|s| s.to_string()).collect(),
            event_progress,
        },
        reward: OriginStageReward { reputation_delta: reputation, mutation_tags: Vec::new(), notes: None },
    }
}

fn catalog() -> OriginPathCatalog {
    OriginPathCatalog {
        paths: vec![OriginPathDefinition {
            id: "p1".to_string(),
            label: "Path One".to_string(),
            summary: "A first path".to_string(),
            availability: OriginPathAvailability {
                weight: 1,
                required_origin_ids: Vec::new(),
                required_origin_classes: Vec::new(),
            },
            stages: vec![stage("s1", 2, 1, &["clue"], 0, 3), stage("s2", 1, 0, &["Finale"], 5, 7)],
        }],
    }
}

#[test]
fn a_path_advances_by_ticks_and_events() {
    let cat = catalog();
    let mut quest = OriginQuestState::default();
    match start_origin_path(&mut quest, &cat, "nope") {
        Err(OriginError::NotFound(m)) => assert_eq!(m, "origin path nope"),
        _ => panic!("an unknown path must be refused"),
    }
    assert!(quest.path_id.is_none());
    assert!(start_origin_path(&mut quest, &cat, "p1").is_ok());
    assert_eq!(current_origin_stage(&quest, &cat).map(|s| s.id.clone()), Some("s1".to_string()));
    assert!(tick_origin_path(&mut quest, &cat).is_empty());
    assert_eq!(quest.stage_progress, 1);
    let rewards = tick_origin_path(&mut quest, &cat);
    assert_eq!(rewards.len(), 1);
    assert_eq!(rewards[0].reputation_delta, 3);
    assert_eq!(quest.stage_index, 1);
    assert_eq!(quest.stage_progress, 0);
    assert!(tick_origin_path(&mut quest, &cat).is_empty());
    assert!(register_origin_event(&mut quest, &cat, "clue").is_empty());
    let finale = register_origin_event(&mut quest, &cat, "finale");
    assert_eq!(finale.len(), 1);
    assert_eq!(finale[0].reputation_delta, 7);
    assert!(quest.completed);
    assert_eq!(quest.completed_stages, vec!["s1".to_string(), "s2".to_string()]);
    assert!(tick_origin_path(&mut quest, &cat).is_empty());
}

#[test]
fn story_effects_reveal_and_advance_paths() {
    let effects: Vec<String> = ["origin.event: clue ", "origin.discover:p1", "origin.discover: ", "cash:5", "origin.discover:zz"]
        .iter()
        .map(|s| s.to_string())
        .collect();
    let report = parse_origin_effects(&effects);
    assert_eq!(report.event_tags, vec!["clue".to_string()]);
    assert_eq!(report.discoveries, vec!["p1".to_string(), "zz".to_string()]);
    let cat = catalog();
    let mut quest = OriginQuestState::default();
    assert!(start_origin_path(&mut quest, &cat, "p1").is_ok());
    let applied = apply_origin_effects(report, &mut quest, &cat);
    assert_eq!(
        applied.messages,
        vec![
            "Origin path discovered: p1 - Path One".to_string(),
            "Origin clue ignored (unknown path): zz".to_string(),
            "Origin progress recorded: clue".to_string(),
        ]
    );
    assert!(applied.rewards.is_empty());
    assert_eq!(quest.stage_progress, 1);
    assert_eq!(quest.discovered_paths, vec!["p1".to_string()]);
}

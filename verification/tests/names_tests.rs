use superhero_universe::content::names::{
    name_probe_rowid, NameGender, NameLookup, NameLookupAction, NameQuery, MAX_ATTEMPTS,
};

fn run_to_end(gender: NameGender, max_rowid: i64) -> Vec<NameQuery> {
    let mut lookup = NameLookup::new(gender, max_rowid);
    let mut rng: u64 = 0;
    let mut queries = Vec::new();
    loop {
        match lookup.next_action(&mut rng) {
            NameLookupAction::Query(q) => queries.push(q),
            NameLookupAction::NotFound => return queries,
        }
        assert!(queries.len() <= 100, "a lookup must end");
    }
}

#[test]
fn probes_start_from_a_row_in_range() {
    let mut rng: u64 = 0;
    assert_eq!(name_probe_rowid(&mut rng, 10), 2);
    assert_eq!(rng, 1);
    let mut r: u64 = 77;
    for _ in 0..100 {
        let id = name_probe_rowid(&mut r, 5);
        assert!((1..=5).contains(&id));
    }
    assert_eq!(NameGender::Male.db_code(), Some("M"));
    assert_eq!(NameGender::Female.db_code(), Some("F"));
    assert_eq!(NameGender::Any.db_code(), None);
}

#[test]
fn a_gendered_lookup_widens_to_any_gender() {
    let queries = run_to_end(NameGender::Female, 10);
    let n = MAX_ATTEMPTS as usize;
    assert_eq!(queries.len(), 2 * (n + 1));
    assert_eq!(queries[0], NameQuery::AtOrAfter { rowid: 2, gender: NameGender::Female });
    for q in &queries[..n] {
        assert!(matches!(q, NameQuery::AtOrAfter { gender: NameGender::Female, .. }));
    }
    assert_eq!(queries[n], NameQuery::First { gender: NameGender::Female });
    for q in &queries[n + 1..2 * n + 1] {
        assert!(matches!(q, NameQuery::AtOrAfter { gender: NameGender::Any, .. }));
    }
    assert_eq!(queries[2 * n + 1], NameQuery::First { gender: NameGender::Any });
}

#[test]
fn an_open_lookup_makes_one_pass() {
    let queries = run_to_end(NameGender::Any, 10);
    assert_eq!(queries.len(), MAX_ATTEMPTS as usize + 1);
    assert!(run_to_end(NameGender::Male, 0).is_empty());
}

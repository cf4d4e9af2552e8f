use superhero_universe::ids::IdAllocator;

#[test]
fn ids_count_up_and_never_go_back() {
    let mut ids = IdAllocator::default();
    assert_eq!(ids.allocate(), 1);
    assert_eq!(ids.allocate(), 2);
    ids.bump_to_at_least(10);
    assert_eq!(ids.allocate(), 10);
    ids.bump_to_at_least(3);
    assert_eq!(ids.allocate(), 11);
}

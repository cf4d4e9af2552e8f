use superhero_universe::content::repository::{OriginAcquisitionProfile, PowerId};
use superhero_universe::simulation::origin::weighted_choice_index;

#[test]
fn weighted_choice_stays_in_bounds() {
    let profiles = vec![
        OriginAcquisitionProfile {
            acq_id: "a".to_string(),
            power_id: PowerId(1),
            rarity_weight: 10,
        },
        OriginAcquisitionProfile {
            acq_id: "b".to_string(),
            power_id: PowerId(2),
            rarity_weight: 1,
        },
    ];
    let mut seed = 42u64;
    let idx = weighted_choice_index(&profiles, &mut seed);
    assert!(idx < profiles.len());
}

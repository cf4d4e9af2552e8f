use superhero_universe::simulation::civilian::career::career_wage;
use superhero_universe::simulation::civilian::daily::tick_civilian_life;
use superhero_universe::simulation::civilian::effects::apply_civilian_effects;
use superhero_universe::simulation::civilian::names::{parse_bool_flag, parse_job_role, parse_life_stage};
use superhero_universe::simulation::civilian::{
    CivilianState, CivilianTier, ContactDomain, EducationLevel, EducationTrack, JobRole, JobStatus, LifeStage,
    RelationType, RelationshipLevel,
};
use superhero_universe::simulation::economy::WealthTier;
use superhero_universe::simulation::time::GameTime;

fn effects(list: &[&str]) -> Vec<String> {
    list.iter().map(|s| s.to_string()).collect()
}

#[test]
fn a_new_life_starts_in_school_with_a_part_time_job() {
    let s = CivilianState::default();
    assert_eq!(s.life.age_years, 16);
    assert_eq!(s.life.life_stage, LifeStage::Teen);
    assert_eq!(s.education.level, EducationLevel::Secondary);
    assert!(s.education.is_enrolled);
    assert_eq!(s.job_status, JobStatus::PartTime);
    assert_eq!(s.finances.wage, 49);
    assert_eq!(s.finances.rent, 80);
    assert_eq!(s.housing.neighborhood_id, "midtown");
    assert_eq!(
        s.routine_summary(),
        "00-06 Rest, 06-07 Errands, 07-08 Rest, 08-14 School, 16-20 Work, 19-21 Hobby, 21-22 Social, 22-24 Rest"
    );
}

#[test]
fn wages_follow_the_career_table() {
    assert_eq!(career_wage(JobRole::Lawyer, 3, JobStatus::Employed), 320);
    assert_eq!(career_wage(JobRole::Lawyer, 3, JobStatus::PartTime), 224);
    assert_eq!(career_wage(JobRole::Artist, 1, JobStatus::PartTime), 32);
    assert_eq!(career_wage(JobRole::Artist, -3, JobStatus::Employed), 45);
    assert_eq!(career_wage(JobRole::Doctor, 2, JobStatus::Unemployed), 0);
}

#[test]
fn words_name_values_in_any_case() {
    assert_eq!(parse_job_role("Police_Officer"), Some(JobRole::PoliceOfficer));
    assert_eq!(parse_job_role("astronaut"), None);
    assert_eq!(parse_life_stage("YoungAdult"), Some(LifeStage::YoungAdult));
    assert_eq!(parse_bool_flag(" Yes "), Some(true));
    assert_eq!(parse_bool_flag("0"), Some(false));
    assert_eq!(parse_bool_flag("maybe"), None);
    assert_eq!(EducationTrack::for_age(20).level, EducationLevel::Tertiary);
    assert_eq!(EducationTrack::for_age(3).level, EducationLevel::Unschooled);
}

#[test]
fn effects_change_the_life_and_are_noted() {
    let mut s = CivilianState::default();
    let applied = apply_civilian_effects(
        &mut s,
        &effects(&[
            "cash:+30",
            "support:500",
            "job:unemployed",
            "contact:Maya:friend:media",
            "relationship:Maya:-5",
            "wealth:100",
            "unknown:1",
        ]),
    );
    assert_eq!(
        applied,
        effects(&["cash +30", "support +500", "job -> Unemployed", "contact added Maya (Friend)", "relationship Maya -5"])
    );
    assert_eq!(s.finances.cash, 150);
    assert_eq!(s.social.support, 100);
    assert_eq!(s.job_status, JobStatus::Unemployed);
    assert_eq!(s.finances.wage, 0);
    assert_eq!(s.contacts.len(), 1);
    let maya = &s.contacts[0];
    assert_eq!(maya.level, RelationshipLevel::Friend);
    assert_eq!(maya.domain, ContactDomain::Media);
    assert_eq!(maya.relation_type, RelationType::Peer);
    assert_eq!(maya.bond, 50);
    assert_eq!(maya.influence, 10);
    assert_eq!(s.routine.blocks.len(), 7);
    assert_eq!(s.social_web.media, 21);
    assert_eq!(s.social_web.professional, 21);
    assert_eq!(s.social_web.community, 19);
    assert_eq!(s.social_web.underground, 1);
    assert_eq!(s.civilian_tier, CivilianTier::Local);
    assert_eq!(s.network_rewards.income_boost, 1);
    assert_eq!(s.network_rewards.access, 1);
}

#[test]
fn moving_house_and_growing_older() {
    let mut s = CivilianState::default();
    let applied = apply_civilian_effects(&mut s, &effects(&["housing_neighborhood: Uptown ", "age:+10"]));
    assert_eq!(applied, effects(&["housing neighborhood -> uptown (Uptown)", "age_years +10"]));
    assert_eq!(s.housing.neighborhood_id, "uptown");
    assert_eq!(s.housing.rent, 120);
    assert_eq!(s.finances.rent, 120);
    assert_eq!(s.life.age_years, 26);
    assert_eq!(s.life.life_stage, LifeStage::Adult);
    assert!(!s.education.is_enrolled);
    let applied = apply_civilian_effects(&mut s, &effects(&["housing_neighborhood:Docks"]));
    assert_eq!(applied, effects(&["housing neighborhood -> Docks"]));
    assert_eq!(s.housing.neighborhood_id, "Docks");
}

#[test]
fn a_career_change_puts_the_unemployed_back_to_work() {
    let mut s = CivilianState::default();
    apply_civilian_effects(&mut s, &effects(&["job:unemployed"]));
    let applied = apply_civilian_effects(&mut s, &effects(&["job_role:doctor"]));
    assert_eq!(applied, effects(&["job role -> Doctor", "job -> Employed"]));
    assert_eq!(s.job_status, JobStatus::Employed);
    assert_eq!(s.finances.wage, 200);
}

#[test]
fn an_hour_at_work_on_a_new_day() {
    let mut s = CivilianState::default();
    let time = GameTime { tick: 5, day: 1, hour: 16, week: 1, month: 1, is_day: true };
    tick_civilian_life(&mut s, &time);
    assert_eq!(s.last_day, 1);
    assert_eq!(s.finances.rent_due_in, 4);
    assert_eq!(s.pending_events.len(), 1);
    assert_eq!(s.pending_events[0].storylet_id, "civilian_work_shift");
    assert_eq!(s.pending_events[0].created_tick, 5);
    assert_eq!(s.last_work_day, 1);
    assert_eq!(s.career_xp, 2);
    assert_eq!(s.job.satisfaction, 53);
    assert_eq!(s.health.stress, 16);
    assert_eq!(s.health.sleep_debt, 1);
    tick_civilian_life(&mut s, &time);
    assert_eq!(s.pending_events.len(), 1);
    assert_eq!(s.career_xp, 2);
}

#[test]
fn scores_and_legacy() {
    let mut s = CivilianState::default();
    apply_civilian_effects(&mut s, &effects(&["contact:Rex:rival"]));
    assert_eq!(s.social_vulnerability_score(), 21);
    assert_eq!(s.tech_access_score(WealthTier::Wealthy), 51);
    let record = s.record_legacy("Hero", "old age", 9, WealthTier::Struggling);
    assert_eq!(record.achievements, vec!["Quiet life".to_string()]);
    assert_eq!(record.death_reason, "old age");
    assert_eq!(s.legacy.len(), 1);
    s.mark_event_seen("e1", 4);
    assert_eq!(s.last_event_seen_day("e1"), Some(4));
    assert_eq!(s.last_event_seen_day("e2"), None);
}

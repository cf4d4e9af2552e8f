use vstd::prelude::*;

use crate::simulation::civilian::{JobRole, JobStatus, MAX_JOB_LEVEL, PART_TIME_LEVEL_CAP};

verus! {

/// What a career pays at its first level, what each level adds, and how much
/// reputation a promotion brings.
#[derive(Debug, Clone, Copy, PartialEq, Eq, Structural)]
pub struct CareerModel {
    pub base_wage: i32,
    pub wage_step: i32,
    pub reputation_step: i32,
}

/// The career table.
pub open spec fn model_of(role: JobRole) -> CareerModel {
    let (b, w, r): (i32, i32, i32) = match role {
        JobRole::Lawyer => (180, 70, 4),
        JobRole::Journalist => (70, 22, 3),
        JobRole::Chef => (50, 15, 2),
        JobRole::Photographer => (60, 18, 2),
        JobRole::Scientist => (160, 60, 4),
        JobRole::Artist => (45, 14, 3),
        JobRole::Engineer => (140, 55, 3),
        JobRole::Nurse => (80, 24, 3),
        JobRole::Teacher => (75, 22, 3),
        JobRole::Mechanic => (65, 20, 2),
        JobRole::Analyst => (120, 45, 3),
        JobRole::Contractor => (110, 40, 2),
        JobRole::Doctor => (200, 75, 4),
        JobRole::Firefighter => (85, 26, 3),
        JobRole::PoliceOfficer => (90, 28, 3),
        JobRole::Electrician => (95, 30, 2),
        JobRole::SoftwareDeveloper => (150, 55, 3),
        JobRole::Accountant => (115, 38, 3),
        JobRole::Pharmacist => (140, 45, 3),
        JobRole::SocialWorker => (70, 22, 3),
        JobRole::Architect => (135, 50, 3),
        JobRole::Pilot => (170, 65, 4),
        JobRole::Dentist => (160, 55, 4),
        JobRole::Paramedic => (80, 24, 3),
        JobRole::Plumber => (85, 26, 2),
        JobRole::RetailManager => (75, 24, 2),
        JobRole::Farmer => (60, 20, 2),
    };
    CareerModel { base_wage: b, wage_step: w, reputation_step: r }
}

pub fn career_model(role: JobRole) -> (m: CareerModel)
    ensures
        m == model_of(role),
{
    match role {
        JobRole::Lawyer => CareerModel { base_wage: 180, wage_step: 70, reputation_step: 4 },
        JobRole::Journalist => CareerModel { base_wage: 70, wage_step: 22, reputation_step: 3 },
        JobRole::Chef => CareerModel { base_wage: 50, wage_step: 15, reputation_step: 2 },
        JobRole::Photographer => CareerModel { base_wage: 60, wage_step: 18, reputation_step: 2 },
        JobRole::Scientist => CareerModel { base_wage: 160, wage_step: 60, reputation_step: 4 },
        JobRole::Artist => CareerModel { base_wage: 45, wage_step: 14, reputation_step: 3 },
        JobRole::Engineer => CareerModel { base_wage: 140, wage_step: 55, reputation_step: 3 },
        JobRole::Nurse => CareerModel { base_wage: 80, wage_step: 24, reputation_step: 3 },
        JobRole::Teacher => CareerModel { base_wage: 75, wage_step: 22, reputation_step: 3 },
        JobRole::Mechanic => CareerModel { base_wage: 65, wage_step: 20, reputation_step: 2 },
        JobRole::Analyst => CareerModel { base_wage: 120, wage_step: 45, reputation_step: 3 },
        JobRole::Contractor => CareerModel { base_wage: 110, wage_step: 40, reputation_step: 2 },
        JobRole::Doctor => CareerModel { base_wage: 200, wage_step: 75, reputation_step: 4 },
        JobRole::Firefighter => CareerModel { base_wage: 85, wage_step: 26, reputation_step: 3 },
        JobRole::PoliceOfficer => CareerModel { base_wage: 90, wage_step: 28, reputation_step: 3 },
        JobRole::Electrician => CareerModel { base_wage: 95, wage_step: 30, reputation_step: 2 },
        JobRole::SoftwareDeveloper => CareerModel { base_wage: 150, wage_step: 55, reputation_step: 3 },
        JobRole::Accountant => CareerModel { base_wage: 115, wage_step: 38, reputation_step: 3 },
        JobRole::Pharmacist => CareerModel { base_wage: 140, wage_step: 45, reputation_step: 3 },
        JobRole::SocialWorker => CareerModel { base_wage: 70, wage_step: 22, reputation_step: 3 },
        JobRole::Architect => CareerModel { base_wage: 135, wage_step: 50, reputation_step: 3 },
        JobRole::Pilot => CareerModel { base_wage: 170, wage_step: 65, reputation_step: 4 },
        JobRole::Dentist => CareerModel { base_wage: 160, wage_step: 55, reputation_step: 4 },
        JobRole::Paramedic => CareerModel { base_wage: 80, wage_step: 24, reputation_step: 3 },
        JobRole::Plumber => CareerModel { base_wage: 85, wage_step: 26, reputation_step: 2 },
        JobRole::RetailManager => CareerModel { base_wage: 75, wage_step: 24, reputation_step: 2 },
        JobRole::Farmer => CareerModel { base_wage: 60, wage_step: 20, reputation_step: 2 },
    }
}

/// The full-time wage of a role at a level (levels below one pay as level one).
pub open spec fn full_wage(role: JobRole, level: i32) -> int {
    let l: int = if level >= 1 { level as int } else { 1 };
    model_of(role).base_wage + model_of(role).wage_step * (l - 1)
}

/// What a job pays: the full wage, seven tenths of it rounded half up for part-time
/// work, nothing without a job.
pub open spec fn wage_for(role: JobRole, level: i32, status: JobStatus) -> i32 {
    let w = full_wage(role, level);
    match status {
        JobStatus::Employed => w as i32,
        JobStatus::PartTime => ((7 * w + 5) / 10) as i32,
        JobStatus::Unemployed => 0,
    }
}

pub fn career_wage(role: JobRole, level: i32, status: JobStatus) -> (w: i32)
    requires
        full_wage(role, level) <= i32::MAX,
    ensures
        w == wage_for(role, level, status),
        w >= 0,
{
    let model = career_model(role);
    let l: i32 = if level >= 1 { level } else { 1 };
    assert(0 <= model.wage_step * (l - 1)) by (nonlinear_arith)
        requires
            model.wage_step >= 0,
            l >= 1,
    ;
    let full: i32 = model.base_wage + model.wage_step * (l - 1);
    match status {
        JobStatus::Employed => full,
        JobStatus::PartTime => {
            let scaled: i64 = (7 * full as i64 + 5) / 10;
            scaled as i32
        },
        JobStatus::Unemployed => 0,
    }
}

/// The highest level a job of this status reaches.
pub open spec fn level_cap(status: JobStatus) -> i32 {
    match status {
        JobStatus::Employed => 6,
        JobStatus::PartTime => 4,
        JobStatus::Unemployed => 1,
    }
}

pub fn max_job_level(status: JobStatus) -> (l: i32)
    ensures
        l == level_cap(status),
        status == JobStatus::Employed ==> l == MAX_JOB_LEVEL,
        status == JobStatus::PartTime ==> l == PART_TIME_LEVEL_CAP,
        status == JobStatus::Unemployed ==> l == 1,
{
    match status {
        JobStatus::Employed => MAX_JOB_LEVEL,
        JobStatus::PartTime => PART_TIME_LEVEL_CAP,
        JobStatus::Unemployed => 1,
    }
}

/// The experience a promotion from `level` takes: twelve plus eight per level,
/// counting levels below one as one.
pub open spec fn threshold_for(level: i32) -> int {
    let l: int = if level >= 1 { level as int } else { 1 };
    12 + l * 8
}

pub fn promotion_threshold(level: i32) -> (t: i32)
    requires
        threshold_for(level) <= i32::MAX,
    ensures
        t == threshold_for(level),
{
    let l: i32 = if level >= 1 { level } else { 1 };
    12 + l * 8
}

} // verus!

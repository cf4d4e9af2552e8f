use vstd::prelude::*;

use crate::simulation::civilian::{
    ContactDomain, EducationLevel, JobRole, JobStatus, LifeStage, RelationType, RelationshipLevel,
};
use crate::text::{lower_chars, str_eq, to_ascii_lowercase, trim, trim_chars};

verus! {

broadcast use vstd::string::group_string_axioms;

/// How a `JobStatus` is written in messages.
pub open spec fn job_status_name(v: JobStatus) -> Seq<char> {
    match v {
        JobStatus::Employed => "Employed"@,
        JobStatus::PartTime => "PartTime"@,
        JobStatus::Unemployed => "Unemployed"@,
    }
}

pub fn job_status_label(v: JobStatus) -> (s: &'static str)
    ensures
        s@ == job_status_name(v),
{
    match v {
        JobStatus::Employed => "Employed",
        JobStatus::PartTime => "PartTime",
        JobStatus::Unemployed => "Unemployed",
    }
}

/// The `JobStatus` a word names, in any ASCII case.
pub open spec fn job_status_named(v: Seq<char>) -> Option<JobStatus> {
    let l = lower_chars(v);
    if l == "employed"@ {
        Some(JobStatus::Employed)
    } else if l == "part_time"@ {
        Some(JobStatus::PartTime)
    } else if l == "unemployed"@ {
        Some(JobStatus::Unemployed)
    } else {
        None
    }
}

pub fn parse_job_status(value: &str) -> (r: Option<JobStatus>)
    ensures
        r == job_status_named(value@),
{
    let lowered = to_ascii_lowercase(value);
    let l = lowered.as_str();
    if str_eq(l, "employed") {
        Some(JobStatus::Employed)
    } else if str_eq(l, "part_time") {
        Some(JobStatus::PartTime)
    } else if str_eq(l, "unemployed") {
        Some(JobStatus::Unemployed)
    } else {
        None
    }
}

/// How a `JobRole` is written in messages.
pub open spec fn job_role_name(v: JobRole) -> Seq<char> {
    match v {
        JobRole::Lawyer => "Lawyer"@,
        JobRole::Journalist => "Journalist"@,
        JobRole::Chef => "Chef"@,
        JobRole::Photographer => "Photographer"@,
        JobRole::Scientist => "Scientist"@,
        JobRole::Artist => "Artist"@,
        JobRole::Engineer => "Engineer"@,
        JobRole::Nurse => "Nurse"@,
        JobRole::Teacher => "Teacher"@,
        JobRole::Mechanic => "Mechanic"@,
        JobRole::Analyst => "Analyst"@,
        JobRole::Contractor => "Contractor"@,
        JobRole::Doctor => "Doctor"@,
        JobRole::Firefighter => "Firefighter"@,
        JobRole::PoliceOfficer => "PoliceOfficer"@,
        JobRole::Electrician => "Electrician"@,
        JobRole::SoftwareDeveloper => "SoftwareDeveloper"@,
        JobRole::Accountant => "Accountant"@,
        JobRole::Pharmacist => "Pharmacist"@,
        JobRole::SocialWorker => "SocialWorker"@,
        JobRole::Architect => "Architect"@,
        JobRole::Pilot => "Pilot"@,
        JobRole::Dentist => "Dentist"@,
        JobRole::Paramedic => "Paramedic"@,
        JobRole::Plumber => "Plumber"@,
        JobRole::RetailManager => "RetailManager"@,
        JobRole::Farmer => "Farmer"@,
    }
}

pub fn job_role_label(v: JobRole) -> (s: &'static str)
    ensures
        s@ == job_role_name(v),
{
    match v {
        JobRole::Lawyer => "Lawyer",
        JobRole::Journalist => "Journalist",
        JobRole::Chef => "Chef",
        JobRole::Photographer => "Photographer",
        JobRole::Scientist => "Scientist",
        JobRole::Artist => "Artist",
        JobRole::Engineer => "Engineer",
        JobRole::Nurse => "Nurse",
        JobRole::Teacher => "Teacher",
        JobRole::Mechanic => "Mechanic",
        JobRole::Analyst => "Analyst",
        JobRole::Contractor => "Contractor",
        JobRole::Doctor => "Doctor",
        JobRole::Firefighter => "Firefighter",
        JobRole::PoliceOfficer => "PoliceOfficer",
        JobRole::Electrician => "Electrician",
        JobRole::SoftwareDeveloper => "SoftwareDeveloper",
        JobRole::Accountant => "Accountant",
        JobRole::Pharmacist => "Pharmacist",
        JobRole::SocialWorker => "SocialWorker",
        JobRole::Architect => "Architect",
        JobRole::Pilot => "Pilot",
        JobRole::Dentist => "Dentist",
        JobRole::Paramedic => "Paramedic",
        JobRole::Plumber => "Plumber",
        JobRole::RetailManager => "RetailManager",
        JobRole::Farmer => "Farmer",
    }
}

/// The `JobRole` a word names, in any ASCII case.
pub open spec fn job_role_named(v: Seq<char>) -> Option<JobRole> {
    let l = lower_chars(v);
    if l == "lawyer"@ {
        Some(JobRole::Lawyer)
    } else if l == "journalist"@ {
        Some(JobRole::Journalist)
    } else if l == "chef"@ {
        Some(JobRole::Chef)
    } else if l == "photographer"@ {
        Some(JobRole::Photographer)
    } else if l == "scientist"@ {
        Some(JobRole::Scientist)
    } else if l == "artist"@ {
        Some(JobRole::Artist)
    } else if l == "engineer"@ {
        Some(JobRole::Engineer)
    } else if l == "nurse"@ {
        Some(JobRole::Nurse)
    } else if l == "teacher"@ {
        Some(JobRole::Teacher)
    } else if l == "mechanic"@ {
        Some(JobRole::Mechanic)
    } else if l == "analyst"@ {
        Some(JobRole::Analyst)
    } else if l == "contractor"@ {
        Some(JobRole::Contractor)
    } else if l == "doctor"@ {
        Some(JobRole::Doctor)
    } else if l == "firefighter"@ {
        Some(JobRole::Firefighter)
    } else if l == "police_officer"@ {
        Some(JobRole::PoliceOfficer)
    } else if l == "electrician"@ {
        Some(JobRole::Electrician)
    } else if l == "software_developer"@ {
        Some(JobRole::SoftwareDeveloper)
    } else if l == "accountant"@ {
        Some(JobRole::Accountant)
    } else if l == "pharmacist"@ {
        Some(JobRole::Pharmacist)
    } else if l == "social_worker"@ {
        Some(JobRole::SocialWorker)
    } else if l == "architect"@ {
        Some(JobRole::Architect)
    } else if l == "pilot"@ {
        Some(JobRole::Pilot)
    } else if l == "dentist"@ {
        Some(JobRole::Dentist)
    } else if l == "paramedic"@ {
        Some(JobRole::Paramedic)
    } else if l == "plumber"@ {
        Some(JobRole::Plumber)
    } else if l == "retail_manager"@ {
        Some(JobRole::RetailManager)
    } else if l == "farmer"@ {
        Some(JobRole::Farmer)
    } else {
        None
    }
}

pub fn parse_job_role(value: &str) -> (r: Option<JobRole>)
    ensures
        r == job_role_named(value@),
{
    let lowered = to_ascii_lowercase(value);
    let l = lowered.as_str();
    if str_eq(l, "lawyer") {
        Some(JobRole::Lawyer)
    } else if str_eq(l, "journalist") {
        Some(JobRole::Journalist)
    } else if str_eq(l, "chef") {
        Some(JobRole::Chef)
    } else if str_eq(l, "photographer") {
        Some(JobRole::Photographer)
    } else if str_eq(l, "scientist") {
        Some(JobRole::Scientist)
    } else if str_eq(l, "artist") {
        Some(JobRole::Artist)
    } else if str_eq(l, "engineer") {
        Some(JobRole::Engineer)
    } else if str_eq(l, "nurse") {
        Some(JobRole::Nurse)
    } else if str_eq(l, "teacher") {
        Some(JobRole::Teacher)
    } else if str_eq(l, "mechanic") {
        Some(JobRole::Mechanic)
    } else if str_eq(l, "analyst") {
        Some(JobRole::Analyst)
    } else if str_eq(l, "contractor") {
        Some(JobRole::Contractor)
    } else if str_eq(l, "doctor") {
        Some(JobRole::Doctor)
    } else if str_eq(l, "firefighter") {
        Some(JobRole::Firefighter)
    } else if str_eq(l, "police_officer") {
        Some(JobRole::PoliceOfficer)
    } else if str_eq(l, "electrician") {
        Some(JobRole::Electrician)
    } else if str_eq(l, "software_developer") {
        Some(JobRole::SoftwareDeveloper)
    } else if str_eq(l, "accountant") {
        Some(JobRole::Accountant)
    } else if str_eq(l, "pharmacist") {
        Some(JobRole::Pharmacist)
    } else if str_eq(l, "social_worker") {
        Some(JobRole::SocialWorker)
    } else if str_eq(l, "architect") {
        Some(JobRole::Architect)
    } else if str_eq(l, "pilot") {
        Some(JobRole::Pilot)
    } else if str_eq(l, "dentist") {
        Some(JobRole::Dentist)
    } else if str_eq(l, "paramedic") {
        Some(JobRole::Paramedic)
    } else if str_eq(l, "plumber") {
        Some(JobRole::Plumber)
    } else if str_eq(l, "retail_manager") {
        Some(JobRole::RetailManager)
    } else if str_eq(l, "farmer") {
        Some(JobRole::Farmer)
    } else {
        None
    }
}

/// How a `LifeStage` is written in messages.
pub open spec fn life_stage_name(v: LifeStage) -> Seq<char> {
    match v {
        LifeStage::Child => "Child"@,
        LifeStage::Teen => "Teen"@,
        LifeStage::YoungAdult => "YoungAdult"@,
        LifeStage::Adult => "Adult"@,
        LifeStage::Mature => "Mature"@,
        LifeStage::Elder => "Elder"@,
    }
}

pub fn life_stage_label(v: LifeStage) -> (s: &'static str)
    ensures
        s@ == life_stage_name(v),
{
    match v {
        LifeStage::Child => "Child",
        LifeStage::Teen => "Teen",
        LifeStage::YoungAdult => "YoungAdult",
        LifeStage::Adult => "Adult",
        LifeStage::Mature => "Mature",
        LifeStage::Elder => "Elder",
    }
}

/// The `LifeStage` a word names, in any ASCII case.
pub open spec fn life_stage_named(v: Seq<char>) -> Option<LifeStage> {
    let l = lower_chars(v);
    if l == "child"@ {
        Some(LifeStage::Child)
    } else if l == "teen"@ {
        Some(LifeStage::Teen)
    } else if l == "young_adult"@ || l == "youngadult"@ {
        Some(LifeStage::YoungAdult)
    } else if l == "adult"@ {
        Some(LifeStage::Adult)
    } else if l == "mature"@ {
        Some(LifeStage::Mature)
    } else if l == "elder"@ {
        Some(LifeStage::Elder)
    } else {
        None
    }
}

pub fn parse_life_stage(value: &str) -> (r: Option<LifeStage>)
    ensures
        r == life_stage_named(value@),
{
    let lowered = to_ascii_lowercase(value);
    let l = lowered.as_str();
    if str_eq(l, "child") {
        Some(LifeStage::Child)
    } else if str_eq(l, "teen") {
        Some(LifeStage::Teen)
    } else if str_eq(l, "young_adult") || str_eq(l, "youngadult") {
        Some(LifeStage::YoungAdult)
    } else if str_eq(l, "adult") {
        Some(LifeStage::Adult)
    } else if str_eq(l, "mature") {
        Some(LifeStage::Mature)
    } else if str_eq(l, "elder") {
        Some(LifeStage::Elder)
    } else {
        None
    }
}

/// How a `EducationLevel` is written in messages.
pub open spec fn education_level_name(v: EducationLevel) -> Seq<char> {
    match v {
        EducationLevel::Unschooled => "None"@,
        EducationLevel::Primary => "Primary"@,
        EducationLevel::Secondary => "Secondary"@,
        EducationLevel::Tertiary => "Tertiary"@,
        EducationLevel::Graduate => "Graduate"@,
    }
}

pub fn education_level_label(v: EducationLevel) -> (s: &'static str)
    ensures
        s@ == education_level_name(v),
{
    match v {
        EducationLevel::Unschooled => "None",
        EducationLevel::Primary => "Primary",
        EducationLevel::Secondary => "Secondary",
        EducationLevel::Tertiary => "Tertiary",
        EducationLevel::Graduate => "Graduate",
    }
}

/// The `EducationLevel` a word names, in any ASCII case.
pub open spec fn education_level_named(v: Seq<char>) -> Option<EducationLevel> {
    let l = lower_chars(v);
    if l == "none"@ {
        Some(EducationLevel::Unschooled)
    } else if l == "primary"@ {
        Some(EducationLevel::Primary)
    } else if l == "secondary"@ {
        Some(EducationLevel::Secondary)
    } else if l == "tertiary"@ {
        Some(EducationLevel::Tertiary)
    } else if l == "graduate"@ {
        Some(EducationLevel::Graduate)
    } else {
        None
    }
}

pub fn parse_education_level(value: &str) -> (r: Option<EducationLevel>)
    ensures
        r == education_level_named(value@),
{
    let lowered = to_ascii_lowercase(value);
    let l = lowered.as_str();
    if str_eq(l, "none") {
        Some(EducationLevel::Unschooled)
    } else if str_eq(l, "primary") {
        Some(EducationLevel::Primary)
    } else if str_eq(l, "secondary") {
        Some(EducationLevel::Secondary)
    } else if str_eq(l, "tertiary") {
        Some(EducationLevel::Tertiary)
    } else if str_eq(l, "graduate") {
        Some(EducationLevel::Graduate)
    } else {
        None
    }
}

/// How a `RelationshipLevel` is written in messages.
pub open spec fn relationship_level_name(v: RelationshipLevel) -> Seq<char> {
    match v {
        RelationshipLevel::Stranger => "Stranger"@,
        RelationshipLevel::Acquaintance => "Acquaintance"@,
        RelationshipLevel::Friend => "Friend"@,
        RelationshipLevel::Confidant => "Confidant"@,
        RelationshipLevel::Ally => "Ally"@,
    }
}

pub fn relationship_level_label(v: RelationshipLevel) -> (s: &'static str)
    ensures
        s@ == relationship_level_name(v),
{
    match v {
        RelationshipLevel::Stranger => "Stranger",
        RelationshipLevel::Acquaintance => "Acquaintance",
        RelationshipLevel::Friend => "Friend",
        RelationshipLevel::Confidant => "Confidant",
        RelationshipLevel::Ally => "Ally",
    }
}

/// The `RelationshipLevel` a word names, in any ASCII case.
pub open spec fn relationship_level_named(v: Seq<char>) -> Option<RelationshipLevel> {
    let l = lower_chars(v);
    if l == "stranger"@ {
        Some(RelationshipLevel::Stranger)
    } else if l == "acquaintance"@ {
        Some(RelationshipLevel::Acquaintance)
    } else if l == "friend"@ {
        Some(RelationshipLevel::Friend)
    } else if l == "confidant"@ {
        Some(RelationshipLevel::Confidant)
    } else if l == "ally"@ {
        Some(RelationshipLevel::Ally)
    } else {
        None
    }
}

pub fn parse_relationship_level(value: &str) -> (r: Option<RelationshipLevel>)
    ensures
        r == relationship_level_named(value@),
{
    let lowered = to_ascii_lowercase(value);
    let l = lowered.as_str();
    if str_eq(l, "stranger") {
        Some(RelationshipLevel::Stranger)
    } else if str_eq(l, "acquaintance") {
        Some(RelationshipLevel::Acquaintance)
    } else if str_eq(l, "friend") {
        Some(RelationshipLevel::Friend)
    } else if str_eq(l, "confidant") {
        Some(RelationshipLevel::Confidant)
    } else if str_eq(l, "ally") {
        Some(RelationshipLevel::Ally)
    } else {
        None
    }
}

/// How a `ContactDomain` is written in messages.
pub open spec fn contact_domain_name(v: ContactDomain) -> Seq<char> {
    match v {
        ContactDomain::Professional => "Professional"@,
        ContactDomain::Community => "Community"@,
        ContactDomain::Media => "Media"@,
        ContactDomain::Underground => "Underground"@,
    }
}

pub fn contact_domain_label(v: ContactDomain) -> (s: &'static str)
    ensures
        s@ == contact_domain_name(v),
{
    match v {
        ContactDomain::Professional => "Professional",
        ContactDomain::Community => "Community",
        ContactDomain::Media => "Media",
        ContactDomain::Underground => "Underground",
    }
}

/// The `ContactDomain` a word names, in any ASCII case.
pub open spec fn contact_domain_named(v: Seq<char>) -> Option<ContactDomain> {
    let l = lower_chars(v);
    if l == "professional"@ {
        Some(ContactDomain::Professional)
    } else if l == "community"@ {
        Some(ContactDomain::Community)
    } else if l == "media"@ {
        Some(ContactDomain::Media)
    } else if l == "underground"@ {
        Some(ContactDomain::Underground)
    } else {
        None
    }
}

pub fn parse_contact_domain(value: &str) -> (r: Option<ContactDomain>)
    ensures
        r == contact_domain_named(value@),
{
    let lowered = to_ascii_lowercase(value);
    let l = lowered.as_str();
    if str_eq(l, "professional") {
        Some(ContactDomain::Professional)
    } else if str_eq(l, "community") {
        Some(ContactDomain::Community)
    } else if str_eq(l, "media") {
        Some(ContactDomain::Media)
    } else if str_eq(l, "underground") {
        Some(ContactDomain::Underground)
    } else {
        None
    }
}

/// How a `RelationType` is written in messages.
pub open spec fn relation_type_name(v: RelationType) -> Seq<char> {
    match v {
        RelationType::Family => "Family"@,
        RelationType::Mentor => "Mentor"@,
        RelationType::Rival => "Rival"@,
        RelationType::Romance => "Romance"@,
        RelationType::Colleague => "Colleague"@,
        RelationType::Peer => "Peer"@,
    }
}

pub fn relation_type_label(v: RelationType) -> (s: &'static str)
    ensures
        s@ == relation_type_name(v),
{
    match v {
        RelationType::Family => "Family",
        RelationType::Mentor => "Mentor",
        RelationType::Rival => "Rival",
        RelationType::Romance => "Romance",
        RelationType::Colleague => "Colleague",
        RelationType::Peer => "Peer",
    }
}

/// The `RelationType` a word names, in any ASCII case.
pub open spec fn relation_type_named(v: Seq<char>) -> Option<RelationType> {
    let l = lower_chars(v);
    if l == "family"@ {
        Some(RelationType::Family)
    } else if l == "mentor"@ {
        Some(RelationType::Mentor)
    } else if l == "rival"@ {
        Some(RelationType::Rival)
    } else if l == "romance"@ || l == "romantic"@ {
        Some(RelationType::Romance)
    } else if l == "colleague"@ || l == "coworker"@ {
        Some(RelationType::Colleague)
    } else if l == "peer"@ || l == "friend"@ {
        Some(RelationType::Peer)
    } else {
        None
    }
}

pub fn parse_relation_type(value: &str) -> (r: Option<RelationType>)
    ensures
        r == relation_type_named(value@),
{
    let lowered = to_ascii_lowercase(value);
    let l = lowered.as_str();
    if str_eq(l, "family") {
        Some(RelationType::Family)
    } else if str_eq(l, "mentor") {
        Some(RelationType::Mentor)
    } else if str_eq(l, "rival") {
        Some(RelationType::Rival)
    } else if str_eq(l, "romance") || str_eq(l, "romantic") {
        Some(RelationType::Romance)
    } else if str_eq(l, "colleague") || str_eq(l, "coworker") {
        Some(RelationType::Colleague)
    } else if str_eq(l, "peer") || str_eq(l, "friend") {
        Some(RelationType::Peer)
    } else {
        None
    }
}

/// The flag a word names: "true", "yes" or "1", "false", "no" or "0", in any ASCII
/// case and with surrounding whitespace.
pub open spec fn flag_named(v: Seq<char>) -> Option<bool> {
    let l = lower_chars(trim_chars(v));
    if l == "true"@ || l == "yes"@ || l == "1"@ {
        Some(true)
    } else if l == "false"@ || l == "no"@ || l == "0"@ {
        Some(false)
    } else {
        None
    }
}

pub fn parse_bool_flag(value: &str) -> (r: Option<bool>)
    ensures
        r == flag_named(value@),
{
    let lowered = to_ascii_lowercase(trim(value));
    let l = lowered.as_str();
    if str_eq(l, "true") || str_eq(l, "yes") || str_eq(l, "1") {
        Some(true)
    } else if str_eq(l, "false") || str_eq(l, "no") || str_eq(l, "0") {
        Some(false)
    } else {
        None
    }
}

/// How a flag is written in messages.
pub open spec fn flag_text(b: bool) -> Seq<char> {
    if b { "true"@ } else { "false"@ }
}

pub fn flag_label(b: bool) -> (s: &'static str)
    ensures
        s@ == flag_text(b),
{
    if b { "true" } else { "false" }
}

} // verus!

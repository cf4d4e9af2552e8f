use vstd::prelude::*;

verus! {

/// The basic name of an entity.
pub struct Name(pub String);

/// The mundane life of an entity.
pub struct CivilianIdentity {
    pub job_title: String,
    pub salary: u32,
    pub suspicion_meter: u8,
}

/// The alter ego.
pub struct SuperIdentity {
    pub hero_name: String,
    pub is_masked: bool,
    pub reputation: i32,
}

} // verus!

use vstd::prelude::*;

verus! {

/// Row id of a power in the content database.
#[derive(Debug, Clone, Copy, PartialEq, Eq, Hash, Structural)]
pub struct PowerId(pub i64);

/// Identifier of one expression of a power.
#[derive(Debug, Clone, PartialEq, Eq, Hash)]
pub struct ExpressionId(pub String);

#[derive(Debug, Clone)]
pub struct PowerInfo {
    pub id: PowerId,
    pub name: String,
    pub overview: Option<String>,
    pub description: Option<String>,
    pub text_short: Option<String>,
    pub text_mechanical: Option<String>,
}

#[derive(Debug, Clone, Copy)]
pub struct PowerStats {
    pub power_count: i64,
    pub expression_count: i64,
    pub acquisition_count: i64,
}

/// One way an origin can grant a power, with its relative weight.
#[derive(Debug, Clone)]
pub struct OriginAcquisitionProfile {
    pub acq_id: String,
    pub power_id: PowerId,
    pub rarity_weight: i64,
}

/// The content store that powers are drawn from. Its answers come from outside the
/// library; what is built on them holds whatever they are.
pub trait PowerRepository {
    /// Ids of the powers that carry any of `tags_any`, all of `tags_all` and none of
    /// `tags_none`.
    fn power_ids_by_tags(&self, tags_any: &[String], tags_all: &[String], tags_none: &[String]) -> Result<Vec<PowerId>, String>;

    /// The tags of a power.
    fn power_tags(&self, power_id: PowerId) -> Result<Vec<String>, String>;

    /// The profiles through which an origin class and subtype can grant powers.
    fn acquisition_profiles_for_origin(&self, origin_class: &str, origin_subtype: &str) -> Result<Vec<OriginAcquisitionProfile>, String>;
}

} // verus!

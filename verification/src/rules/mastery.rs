use vstd::prelude::*;

verus! {

/// How refined a character's control over one expression has become.
#[derive(Debug, Clone, Copy, PartialEq, Eq, Structural)]
pub enum MasteryStage {
    Raw,
    Controlled,
    Precise,
    Silent,
    Iconic,
}

/// The stage reached after `uses` recorded uses of an expression.
pub open spec fn spec_stage_from_uses(uses: u32) -> MasteryStage {
    if uses >= 40 {
        MasteryStage::Iconic
    } else if uses >= 24 {
        MasteryStage::Silent
    } else if uses >= 12 {
        MasteryStage::Precise
    } else if uses >= 5 {
        MasteryStage::Controlled
    } else {
        MasteryStage::Raw
    }
}

pub fn stage_from_uses(uses: u32) -> (stage: MasteryStage)
    ensures
        stage == spec_stage_from_uses(uses),
{
    if uses >= 40 {
        MasteryStage::Iconic
    } else if uses >= 24 {
        MasteryStage::Silent
    } else if uses >= 12 {
        MasteryStage::Precise
    } else if uses >= 5 {
        MasteryStage::Controlled
    } else {
        MasteryStage::Raw
    }
}


/// The position of a stage in the progression, from raw (0) to iconic (4).
pub open spec fn stage_rank(stage: MasteryStage) -> int {
    match stage {
        MasteryStage::Raw => 0,
        MasteryStage::Controlled => 1,
        MasteryStage::Precise => 2,
        MasteryStage::Silent => 3,
        MasteryStage::Iconic => 4,
    }
}

/// More uses never lower the mastery stage.
pub proof fn law_stage_monotone(a: u32, b: u32)
    requires
        a <= b,
    ensures
        stage_rank(spec_stage_from_uses(a)) <= stage_rank(spec_stage_from_uses(b)),
{
}

} // verus!

use vstd::prelude::*;

use crate::rules::expression::ParseEnumError;
use crate::text::{copy_str, str_eq};

verus! {

broadcast use vstd::string::group_string_axioms;

#[derive(Debug, Clone, Copy, PartialEq, Eq, Structural)]
pub enum CostType {
    Stamina,
    Focus,
    Resource,
    Cooldown,
    Risk,
}

/// One cost of using an expression. The chance attached to a risk cost is a
/// floating-point number and is carried beside this record by the caller.
#[derive(Debug, Clone)]
pub struct CostSpec {
    pub cost_type: CostType,
    pub value: Option<i64>,
    pub risk_type: Option<String>,
}

/// The code each cost type is written as in content files.
pub open spec fn cost_type_code(t: CostType) -> Seq<char> {
    match t {
        CostType::Stamina => "STAMINA"@,
        CostType::Focus => "FOCUS"@,
        CostType::Resource => "RESOURCE"@,
        CostType::Cooldown => "COOLDOWN"@,
        CostType::Risk => "RISK"@,
    }
}

impl CostType {
    /// Reads a cost type from its content-file code.
    pub fn parse(s: &str) -> (r: Result<CostType, ParseEnumError>)
        ensures
            match r {
                Ok(t) => cost_type_code(t) == s@,
                Err(e) => e.value@ == s@ && forall|t: CostType| cost_type_code(t) != s@,
            },
    {
        proof {
            reveal_strlit("STAMINA");
            reveal_strlit("FOCUS");
            reveal_strlit("RESOURCE");
            reveal_strlit("COOLDOWN");
            reveal_strlit("RISK");
        }
        if str_eq(s, "STAMINA") {
            Ok(CostType::Stamina)
        } else if str_eq(s, "FOCUS") {
            Ok(CostType::Focus)
        } else if str_eq(s, "RESOURCE") {
            Ok(CostType::Resource)
        } else if str_eq(s, "COOLDOWN") {
            Ok(CostType::Cooldown)
        } else if str_eq(s, "RISK") {
            Ok(CostType::Risk)
        } else {
            Err(ParseEnumError { value: copy_str(s) })
        }
    }
}

impl std::str::FromStr for CostType {
    type Err = ParseEnumError;

    fn from_str(s: &str) -> Result<CostType, ParseEnumError> {
        CostType::parse(s)
    }
}

} // verus!

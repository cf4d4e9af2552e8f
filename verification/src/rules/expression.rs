use vstd::prelude::*;

use crate::content::repository::{ExpressionId, PowerId};
use crate::rules::cost::CostSpec;
use crate::rules::signature::SignatureSpec;
use crate::text::{copy_str, str_eq};

verus! {

broadcast use vstd::string::group_string_axioms;

#[derive(Debug, Clone, Copy, PartialEq, Eq, Structural)]
pub enum ExpressionForm {
    Beam,
    Projectile,
    Touch,
    Aura,
    Zone,
    Construct,
    Summon,
    Passive,
    Movement,
    Sense,
}

#[derive(Debug, Clone, Copy, PartialEq, Eq, Structural)]
pub enum Delivery {
    Instant,
    Channeled,
    Toggled,
    Charged,
    Triggered,
}

#[derive(Debug, Clone, Copy, PartialEq, Eq, Structural)]
pub enum Scale {
    Street,
    Block,
    District,
    City,
    Regional,
    Global,
    Cosmic,
}

#[derive(Debug, Clone)]
pub struct ExpressionText {
    pub ui_name: String,
    pub tooltip_short: String,
}

#[derive(Debug, Clone, Copy, PartialEq, Eq, Structural)]
pub struct Constraints {
    pub requires_contact: bool,
    pub requires_los: bool,
    pub range_m: Option<i64>,
    pub radius_m: Option<i64>,
    pub cooldown: Option<i64>,
    pub duration_turns: Option<i64>,
}

impl Constraints {
    /// Constraints from the fields found in a constraints document; the two
    /// flags default to `false` when absent.
    pub fn from_fields(
        requires_contact: Option<bool>,
        requires_los: Option<bool>,
        range_m: Option<i64>,
        radius_m: Option<i64>,
        cooldown: Option<i64>,
        duration_turns: Option<i64>,
    ) -> (c: Constraints)
        ensures
            c.requires_contact == (requires_contact == Some(true)),
            c.requires_los == (requires_los == Some(true)),
            c.range_m == range_m,
            c.radius_m == radius_m,
            c.cooldown == cooldown,
            c.duration_turns == duration_turns,
    {
        Constraints {
            requires_contact: match requires_contact {
                Some(b) => b,
                None => false,
            },
            requires_los: match requires_los {
                Some(b) => b,
                None => false,
            },
            range_m,
            radius_m,
            cooldown,
            duration_turns,
        }
    }
}

/// The fields a constraints document holds, as serde_json reads its text: nothing when the
/// text is not JSON; else `requires_contact` and `requires_los` as booleans and `range_m`,
/// `radius_m`, `cooldown` and `duration_turns` as integers, each `None` where the field is
/// absent or of another kind.
pub uninterp spec fn constraint_fields(raw: Seq<char>) -> Option<(Option<bool>, Option<bool>, Option<i64>, Option<i64>, Option<i64>, Option<i64>)>;

/// Parses `raw` with `serde_json::from_str` into a `serde_json::Value` and reads each field
/// with `Value::get` and `Value::as_bool` or `Value::as_i64`. Claimed: the fields are
/// `constraint_fields` of the text, and an error comes exactly where that is nothing. The
/// error's message is serde_json's and is left unsaid.
#[verifier::external_body]
fn read_constraint_fields(raw: &str) -> (r: Result<
    (Option<bool>, Option<bool>, Option<i64>, Option<i64>, Option<i64>, Option<i64>),
    String,
>)
    ensures
        match r {
            Ok(f) => constraint_fields(raw@) == Some(f),
            Err(_) => constraint_fields(raw@) is None,
        },
{
    match serde_json::from_str::<serde_json::Value>(raw) {
        Err(e) => Err(e.to_string()),
        Ok(json) => Ok((
            json.get("requires_contact").and_then(serde_json::Value::as_bool),
            json.get("requires_los").and_then(serde_json::Value::as_bool),
            json.get("range_m").and_then(serde_json::Value::as_i64),
            json.get("radius_m").and_then(serde_json::Value::as_i64),
            json.get("cooldown").and_then(serde_json::Value::as_i64),
            json.get("duration_turns").and_then(serde_json::Value::as_i64),
        )),
    }
}

/// The constraints a constraints document gives: its fields through `from_fields`. Text
/// that is not JSON is refused with serde_json's message.
pub fn constraints_from_json(raw: &str) -> (r: Result<Constraints, String>)
    ensures
        r is Ok <==> constraint_fields(raw@) is Some,
        r matches Ok(c) ==> (constraint_fields(raw@) matches Some(f) && c.requires_contact == (f.0 == Some(true))
            && c.requires_los == (f.1 == Some(true)) && c.range_m == f.2 && c.radius_m == f.3 && c.cooldown == f.4
            && c.duration_turns == f.5),
{
    match read_constraint_fields(raw) {
        Err(e) => Err(e),
        Ok((contact, los, range, radius, cooldown, duration)) => Ok(
            Constraints::from_fields(contact, los, range, radius, cooldown, duration),
        ),
    }
}

#[derive(Debug, Clone)]
pub struct ExpressionDef {
    pub id: ExpressionId,
    pub power_id: PowerId,
    pub form: ExpressionForm,
    pub delivery: Delivery,
    pub scale: Scale,
    pub constraints: Constraints,
    pub text: ExpressionText,
    pub costs: Vec<CostSpec>,
    pub signatures: Vec<SignatureSpec>,
}

#[derive(Debug)]
pub enum ExpressionError {
    MissingCosts(ExpressionId),
    MissingSignatures(ExpressionId),
}

impl ExpressionError {
    /// The message the error is shown with.
    pub fn message(&self) -> (m: String)
        ensures
            match self {
                ExpressionError::MissingCosts(id) => m@ == "expression "@ + id.0@ + " missing costs"@,
                ExpressionError::MissingSignatures(id) => m@ == "expression "@ + id.0@
                    + " missing signatures"@,
            },
    {
        let mut m = copy_str("expression ");
        match self {
            ExpressionError::MissingCosts(id) => {
                m.append(id.0.as_str());
                m.append(" missing costs");
            },
            ExpressionError::MissingSignatures(id) => {
                m.append(id.0.as_str());
                m.append(" missing signatures");
            },
        }
        m
    }
}

impl ExpressionDef {
    /// Every expression but a passive one must have costs and signatures.
    pub fn validate_defaults(&self) -> (r: Result<(), ExpressionError>)
        ensures
            match r {
                Ok(()) => self.form == ExpressionForm::Passive || (self.costs@.len() > 0
                    && self.signatures@.len() > 0),
                Err(ExpressionError::MissingCosts(id)) => self.form != ExpressionForm::Passive
                    && self.costs@.len() == 0 && id == self.id,
                Err(ExpressionError::MissingSignatures(id)) => self.form
                    != ExpressionForm::Passive && self.costs@.len() > 0 && self.signatures@.len()
                    == 0 && id == self.id,
            },
    {
        let passive = match self.form {
            ExpressionForm::Passive => true,
            _ => false,
        };
        if !passive && self.costs.len() == 0 {
            return Err(ExpressionError::MissingCosts(ExpressionId(self.id.0.clone())));
        }
        if !passive && self.signatures.len() == 0 {
            return Err(ExpressionError::MissingSignatures(ExpressionId(self.id.0.clone())));
        }
        Ok(())
    }
}

/// A content code that names no variant of the enum it was read for.
#[derive(Debug)]
pub struct ParseEnumError {
    pub value: String,
}

impl ParseEnumError {
    /// The message the error is shown with.
    pub fn message(&self) -> (m: String)
        ensures
            m@ == "unknown enum value: "@ + self.value@,
    {
        let mut m = copy_str("unknown enum value: ");
        m.append(self.value.as_str());
        m
    }
}

/// The code each expression form is written as in content files.
pub open spec fn expression_form_code(f: ExpressionForm) -> Seq<char> {
    match f {
        ExpressionForm::Beam => "BEAM"@,
        ExpressionForm::Projectile => "PROJECTILE"@,
        ExpressionForm::Touch => "TOUCH"@,
        ExpressionForm::Aura => "AURA"@,
        ExpressionForm::Zone => "ZONE"@,
        ExpressionForm::Construct => "CONSTRUCT"@,
        ExpressionForm::Summon => "SUMMON"@,
        ExpressionForm::Passive => "PASSIVE"@,
        ExpressionForm::Movement => "MOVEMENT"@,
        ExpressionForm::Sense => "SENSE"@,
    }
}

/// The code each delivery is written as in content files.
pub open spec fn delivery_code(d: Delivery) -> Seq<char> {
    match d {
        Delivery::Instant => "INSTANT"@,
        Delivery::Channeled => "CHANNELED"@,
        Delivery::Toggled => "TOGGLED"@,
        Delivery::Charged => "CHARGED"@,
        Delivery::Triggered => "TRIGGERED"@,
    }
}

/// The code each scale is written as in content files.
pub open spec fn scale_code(s: Scale) -> Seq<char> {
    match s {
        Scale::Street => "STREET"@,
        Scale::Block => "BLOCK"@,
        Scale::District => "DISTRICT"@,
        Scale::City => "CITY"@,
        Scale::Regional => "REGIONAL"@,
        Scale::Global => "GLOBAL"@,
        Scale::Cosmic => "COSMIC"@,
    }
}

impl ExpressionForm {
    pub fn parse(s: &str) -> (r: Result<ExpressionForm, ParseEnumError>)
        ensures
            match r {
                Ok(t) => expression_form_code(t) == s@,
                Err(e) => e.value@ == s@ && forall|t: ExpressionForm| expression_form_code(t) != s@,
            },
    {
        proof {
            reveal_strlit("BEAM");
            reveal_strlit("PROJECTILE");
            reveal_strlit("TOUCH");
            reveal_strlit("AURA");
            reveal_strlit("ZONE");
            reveal_strlit("CONSTRUCT");
            reveal_strlit("SUMMON");
            reveal_strlit("PASSIVE");
            reveal_strlit("MOVEMENT");
            reveal_strlit("SENSE");
        }
        if str_eq(s, "BEAM") {
            Ok(ExpressionForm::Beam)
        } else if str_eq(s, "PROJECTILE") {
            Ok(ExpressionForm::Projectile)
        } else if str_eq(s, "TOUCH") {
            Ok(ExpressionForm::Touch)
        } else if str_eq(s, "AURA") {
            Ok(ExpressionForm::Aura)
        } else if str_eq(s, "ZONE") {
            Ok(ExpressionForm::Zone)
        } else if str_eq(s, "CONSTRUCT") {
            Ok(ExpressionForm::Construct)
        } else if str_eq(s, "SUMMON") {
            Ok(ExpressionForm::Summon)
        } else if str_eq(s, "PASSIVE") {
            Ok(ExpressionForm::Passive)
        } else if str_eq(s, "MOVEMENT") {
            Ok(ExpressionForm::Movement)
        } else if str_eq(s, "SENSE") {
            Ok(ExpressionForm::Sense)
        } else {
            Err(ParseEnumError { value: copy_str(s) })
        }
    }
}

impl Delivery {
    pub fn parse(s: &str) -> (r: Result<Delivery, ParseEnumError>)
        ensures
            match r {
                Ok(t) => delivery_code(t) == s@,
                Err(e) => e.value@ == s@ && forall|t: Delivery| delivery_code(t) != s@,
            },
    {
        proof {
            reveal_strlit("INSTANT");
            reveal_strlit("CHANNELED");
            reveal_strlit("TOGGLED");
            reveal_strlit("CHARGED");
            reveal_strlit("TRIGGERED");
        }
        if str_eq(s, "INSTANT") {
            Ok(Delivery::Instant)
        } else if str_eq(s, "CHANNELED") {
            Ok(Delivery::Channeled)
        } else if str_eq(s, "TOGGLED") {
            Ok(Delivery::Toggled)
        } else if str_eq(s, "CHARGED") {
            Ok(Delivery::Charged)
        } else if str_eq(s, "TRIGGERED") {
            Ok(Delivery::Triggered)
        } else {
            Err(ParseEnumError { value: copy_str(s) })
        }
    }
}

impl Scale {
    pub fn parse(s: &str) -> (r: Result<Scale, ParseEnumError>)
        ensures
            match r {
                Ok(t) => scale_code(t) == s@,
                Err(e) => e.value@ == s@ && forall|t: Scale| scale_code(t) != s@,
            },
    {
        proof {
            reveal_strlit("STREET");
            reveal_strlit("BLOCK");
            reveal_strlit("DISTRICT");
            reveal_strlit("CITY");
            reveal_strlit("REGIONAL");
            reveal_strlit("GLOBAL");
            reveal_strlit("COSMIC");
        }
        if str_eq(s, "STREET") {
            Ok(Scale::Street)
        } else if str_eq(s, "BLOCK") {
            Ok(Scale::Block)
        } else if str_eq(s, "DISTRICT") {
            Ok(Scale::District)
        } else if str_eq(s, "CITY") {
            Ok(Scale::City)
        } else if str_eq(s, "REGIONAL") {
            Ok(Scale::Regional)
        } else if str_eq(s, "GLOBAL") {
            Ok(Scale::Global)
        } else if str_eq(s, "COSMIC") {
            Ok(Scale::Cosmic)
        } else {
            Err(ParseEnumError { value: copy_str(s) })
        }
    }
}

impl std::str::FromStr for ExpressionForm {
    type Err = ParseEnumError;

    fn from_str(s: &str) -> Result<ExpressionForm, ParseEnumError> {
        ExpressionForm::parse(s)
    }
}

impl std::str::FromStr for Delivery {
    type Err = ParseEnumError;

    fn from_str(s: &str) -> Result<Delivery, ParseEnumError> {
        Delivery::parse(s)
    }
}

impl std::str::FromStr for Scale {
    type Err = ParseEnumError;

    fn from_str(s: &str) -> Result<Scale, ParseEnumError> {
        Scale::parse(s)
    }
}

} // verus!

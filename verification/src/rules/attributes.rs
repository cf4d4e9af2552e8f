use vstd::prelude::*;

verus! {

#[derive(Debug, Clone, Copy, PartialEq, Eq, Hash, Structural)]
pub enum AttributeKind {
    Strength,
    Agility,
    Endurance,
    Intellect,
    Will,
    Charisma,
}

#[derive(Debug, Clone, Copy, PartialEq, Eq, Structural)]
pub struct Attributes {
    pub strength: i32,
    pub agility: i32,
    pub endurance: i32,
    pub intellect: i32,
    pub will: i32,
    pub charisma: i32,
}

#[derive(Debug, Clone, Copy, PartialEq, Eq, Structural)]
pub struct AttributeCaps {
    pub min: i32,
    pub max: i32,
}

/// Integer division rounding toward zero, as Rust's `/` does.
pub open spec fn div_toward_zero(a: int, b: int) -> int
    recommends
        b > 0,
{
    if a >= 0 {
        a / b
    } else {
        -((-a) / b)
    }
}

/// `value.clamp(lo, hi)` for `lo <= hi`.
pub open spec fn clamp_int(value: int, lo: int, hi: int) -> int {
    if value < lo {
        lo
    } else if value > hi {
        hi
    } else {
        value
    }
}

pub fn clamp_i32(value: i32, lo: i32, hi: i32) -> (r: i32)
    requires
        lo <= hi,
    ensures
        r == clamp_int(value as int, lo as int, hi as int),
{
    if value < lo {
        lo
    } else if value > hi {
        hi
    } else {
        value
    }
}

impl Attributes {
    /// The value of one attribute.
    pub open spec fn spec_get(self, kind: AttributeKind) -> i32 {
        match kind {
            AttributeKind::Strength => self.strength,
            AttributeKind::Agility => self.agility,
            AttributeKind::Endurance => self.endurance,
            AttributeKind::Intellect => self.intellect,
            AttributeKind::Will => self.will,
            AttributeKind::Charisma => self.charisma,
        }
    }

    /// The sum of all six attributes.
    pub open spec fn total(self) -> int {
        self.strength + self.agility + self.endurance + self.intellect + self.will + self.charisma
    }

    /// Every attribute at 50.
    pub fn default() -> (a: Attributes)
        ensures
            forall|k: AttributeKind| a.spec_get(k) == 50,
    {
        Attributes {
            strength: 50,
            agility: 50,
            endurance: 50,
            intellect: 50,
            will: 50,
            charisma: 50,
        }
    }

    pub fn get(&self, kind: AttributeKind) -> (v: i32)
        ensures
            v == self.spec_get(kind),
    {
        match kind {
            AttributeKind::Strength => self.strength,
            AttributeKind::Agility => self.agility,
            AttributeKind::Endurance => self.endurance,
            AttributeKind::Intellect => self.intellect,
            AttributeKind::Will => self.will,
            AttributeKind::Charisma => self.charisma,
        }
    }

    /// The mean of the six attributes, rounded toward zero.
    pub fn average(&self) -> (v: i32)
        requires
            i32::MIN <= self.total() <= i32::MAX,
        ensures
            v == div_toward_zero(self.total(), 6),
    {
        let sum: i64 = self.strength as i64 + self.agility as i64 + self.endurance as i64
            + self.intellect as i64 + self.will as i64 + self.charisma as i64;
        let r: i64 = if sum >= 0 {
            sum / 6
        } else {
            -((-sum) / 6)
        };
        r as i32
    }

    /// Every attribute clamped into `[caps.min, caps.max]`.
    pub fn clamp(self, caps: AttributeCaps) -> (a: Attributes)
        requires
            caps.min <= caps.max,
        ensures
            forall|k: AttributeKind|
                a.spec_get(k) == clamp_int(self.spec_get(k) as int, caps.min as int, caps.max as int),
    {
        Attributes {
            strength: clamp_i32(self.strength, caps.min, caps.max),
            agility: clamp_i32(self.agility, caps.min, caps.max),
            endurance: clamp_i32(self.endurance, caps.min, caps.max),
            intellect: clamp_i32(self.intellect, caps.min, caps.max),
            will: clamp_i32(self.will, caps.min, caps.max),
            charisma: clamp_i32(self.charisma, caps.min, caps.max),
        }
    }
}

/// Clamping twice with the same caps is the same as clamping once, and a clamped
/// attribute lies within the caps.
pub proof fn law_clamp_idempotent(a: Attributes, caps: AttributeCaps, k: AttributeKind)
    requires
        caps.min <= caps.max,
    ensures
        clamp_int(clamp_int(a.spec_get(k) as int, caps.min as int, caps.max as int), caps.min as int, caps.max as int)
            == clamp_int(a.spec_get(k) as int, caps.min as int, caps.max as int),
        caps.min <= clamp_int(a.spec_get(k) as int, caps.min as int, caps.max as int) <= caps.max,
{
}

} // verus!

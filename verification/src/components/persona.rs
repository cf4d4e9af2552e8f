use vstd::prelude::*;

use crate::simulation::city::LocationTag;
use crate::text::{copy_str, str_eq};

verus! {

broadcast use vstd::string::group_string_axioms;

/// The identities a character can present, the one presented, and the first tick at
/// which it may switch.
pub struct PersonaStack {
    pub personas: Vec<Persona>,
    pub active_persona_id: String,
    pub next_switch_tick: u64,
}

pub struct Persona {
    pub persona_id: String,
    pub persona_type: PersonaType,
    pub label: String,
    pub location_rules: LocationRules,
    pub allowed_actions: Vec<PersonaAction>,
    pub visibility: VisibilityProfile,
    pub risk_modifiers: RiskModifiers,
    pub suspicion: PersonaSuspicion,
}

#[derive(Debug, Clone, Copy, PartialEq, Eq, Structural)]
pub enum PersonaType {
    Civilian,
    Masked,
}

#[derive(Debug, Clone, Copy, PartialEq, Eq, Structural)]
pub enum PersonaAction {
    Work,
    Social,
    Patrol,
    PowerUse,
    Combat,
    Investigate,
    Rest,
    SwitchPersona,
}

/// Where a persona may appear: among the allowed tags (anywhere when there are none),
/// never among the restricted ones.
pub struct LocationRules {
    pub allowed_tags: Vec<LocationTag>,
    pub restricted_tags: Vec<LocationTag>,
}

#[derive(Debug, Clone, Copy, PartialEq, Eq, Structural)]
pub struct VisibilityProfile {
    pub public_visibility: u8,
    pub surveillance_visibility: u8,
    pub witness_visibility: u8,
}

/// Factors on the suspicion a persona draws, in hundredths: 100 leaves it unchanged.
#[derive(Debug, Clone, Copy, PartialEq, Eq, Structural)]
pub struct RiskModifiers {
    pub public_suspicion: u16,
    pub civilian_suspicion: u16,
    pub wanted_level: u16,
    pub exposure_risk: u16,
}

/// Suspicion levels, each within 0 to 100.
#[derive(Debug, Clone, Copy, PartialEq, Eq, Structural)]
pub struct PersonaSuspicion {
    pub public_suspicion: u8,
    pub civilian_suspicion: u8,
    pub wanted_level: u8,
    pub exposure_risk: u8,
}

#[derive(Debug, Clone, Copy, PartialEq, Eq, Structural)]
pub enum Alignment {
    Neutral,
    Hero,
    Vigilante,
    Villain,
}

#[derive(Debug, Clone, Copy, PartialEq, Eq, Structural)]
pub struct SuspicionDelta {
    pub public_suspicion: i32,
    pub civilian_suspicion: i32,
    pub wanted_level: i32,
    pub exposure_risk: i32,
}

/// Index of the first persona at or after `i` with the given id.
pub open spec fn persona_position_from(ps: Seq<Persona>, id: Seq<char>, i: int) -> Option<int>
    decreases ps.len() - i,
{
    if i < 0 || i >= ps.len() {
        None
    } else if ps[i].persona_id@ == id {
        Some(i)
    } else {
        persona_position_from(ps, id, i + 1)
    }
}

/// Whether a persona may appear at a location with these tags.
pub open spec fn may_appear(rules: LocationRules, tags: Seq<LocationTag>) -> bool {
    &&& !(exists|i: int| 0 <= i < rules.restricted_tags@.len() && tags.contains(#[trigger] rules.restricted_tags@[i]))
    &&& (rules.allowed_tags@.len() == 0 || exists|i: int| 0 <= i < rules.allowed_tags@.len() && tags.contains(
        #[trigger] rules.allowed_tags@[i],
    ))
}

fn tag_in(tags: &[LocationTag], tag: LocationTag) -> (b: bool)
    ensures
        b == tags@.contains(tag),
{
    let mut i: usize = 0;
    while i < tags.len()
        invariant
            i <= tags@.len(),
            forall|j: int| 0 <= j < i ==> tags@[j] != tag,
        decreases tags@.len() - i,
    {
        if tags[i] == tag {
            return true;
        }
        i = i + 1;
    }
    false
}

impl PersonaStack {
    fn persona_index(&self, persona_id: &str) -> (r: Option<usize>)
        ensures
            match r {
                Some(k) => persona_position_from(self.personas@, persona_id@, 0) == Some(k as int) && k < self.personas@.len(),
                None => persona_position_from(self.personas@, persona_id@, 0) is None,
            },
    {
        let mut i: usize = 0;
        while i < self.personas.len()
            invariant
                i <= self.personas@.len(),
                persona_position_from(self.personas@, persona_id@, i as int) == persona_position_from(
                    self.personas@, persona_id@, 0),
            decreases self.personas@.len() - i,
        {
            if str_eq(self.personas[i].persona_id.as_str(), persona_id) {
                return Some(i);
            }
            i = i + 1;
        }
        None
    }

    /// The persona presented.
    pub fn active_persona(&self) -> (r: Option<&Persona>)
        ensures
            match persona_position_from(self.personas@, self.active_persona_id@, 0) {
                Some(k) => r matches Some(p) && *p == self.personas@[k],
                None => r is None,
            },
    {
        match self.persona_index(self.active_persona_id.as_str()) {
            Some(k) => Some(&self.personas[k]),
            None => None,
        }
    }

    /// The persona presented, to change.
    pub fn active_persona_mut(&mut self) -> (r: Option<&mut Persona>)
        ensures
            match persona_position_from(old(self).personas@, old(self).active_persona_id@, 0) {
                Some(k) => r matches Some(p) && *p == old(self).personas@[k]
                    && final(self).personas@ == old(self).personas@.update(k, *final(p))
                    && final(self).active_persona_id == old(self).active_persona_id
                    && final(self).next_switch_tick == old(self).next_switch_tick,
                None => r is None && *final(self) == *old(self),
            },
    {
        match self.persona_index(self.active_persona_id.as_str()) {
            Some(k) => Some(&mut self.personas[k]),
            None => None,
        }
    }

    /// The persona with an id, to change.
    pub fn persona_mut(&mut self, persona_id: &str) -> (r: Option<&mut Persona>)
        ensures
            match persona_position_from(old(self).personas@, persona_id@, 0) {
                Some(k) => r matches Some(p) && *p == old(self).personas@[k]
                    && final(self).personas@ == old(self).personas@.update(k, *final(p))
                    && final(self).active_persona_id == old(self).active_persona_id
                    && final(self).next_switch_tick == old(self).next_switch_tick,
                None => r is None && *final(self) == *old(self),
            },
    {
        match self.persona_index(persona_id) {
            Some(k) => Some(&mut self.personas[k]),
            None => None,
        }
    }

    /// Whether the character may present the persona at a location with these tags.
    pub fn can_switch_to(&self, persona_id: &str, tags: &[LocationTag]) -> (b: bool)
        ensures
            b == match persona_position_from(self.personas@, persona_id@, 0) {
                Some(k) => may_appear(self.personas@[k].location_rules, tags@),
                None => false,
            },
    {
        let k = match self.persona_index(persona_id) {
            Some(k) => k,
            None => return false,
        };
        let rules = &self.personas[k].location_rules;
        let ghost pos = persona_position_from(self.personas@, persona_id@, 0);
        let mut i: usize = 0;
        while i < rules.restricted_tags.len()
            invariant
                persona_position_from(self.personas@, persona_id@, 0) == Some(k as int),
                k < self.personas@.len(),
                *rules == self.personas@[k as int].location_rules,
                i <= rules.restricted_tags@.len(),
                forall|j: int| 0 <= j < i ==> !tags@.contains(#[trigger] rules.restricted_tags@[j]),
            decreases rules.restricted_tags@.len() - i,
        {
            if tag_in(tags, rules.restricted_tags[i]) {
                assert(tags@.contains(rules.restricted_tags@[i as int]));
                return false;
            }
            i = i + 1;
        }
        if rules.allowed_tags.len() == 0 {
            return true;
        }
        let mut j: usize = 0;
        while j < rules.allowed_tags.len()
            invariant
                persona_position_from(self.personas@, persona_id@, 0) == Some(k as int),
                k < self.personas@.len(),
                *rules == self.personas@[k as int].location_rules,
                !(exists|m: int| 0 <= m < rules.restricted_tags@.len() && tags@.contains(#[trigger] rules.restricted_tags@[m])),
                rules.allowed_tags@.len() > 0,
                j <= rules.allowed_tags@.len(),
                forall|m: int| 0 <= m < j ==> !tags@.contains(#[trigger] rules.allowed_tags@[m]),
            decreases rules.allowed_tags@.len() - j,
        {
            if tag_in(tags, rules.allowed_tags[j]) {
                assert(tags@.contains(rules.allowed_tags@[j as int]));
                return true;
            }
            j = j + 1;
        }
        false
    }
}

/// The risk factors, in hundredths, that an alignment brings.
pub open spec fn alignment_risk(a: Alignment) -> RiskModifiers {
    match a {
        Alignment::Neutral => RiskModifiers { public_suspicion: 100, civilian_suspicion: 100, wanted_level: 100, exposure_risk: 100 },
        Alignment::Hero => RiskModifiers { public_suspicion: 100, civilian_suspicion: 110, wanted_level: 90, exposure_risk: 100 },
        Alignment::Vigilante => RiskModifiers { public_suspicion: 120, civilian_suspicion: 100, wanted_level: 120, exposure_risk: 110 },
        Alignment::Villain => RiskModifiers { public_suspicion: 90, civilian_suspicion: 70, wanted_level: 130, exposure_risk: 80 },
    }
}

impl Alignment {
    pub fn suspicion_multiplier(self) -> (r: RiskModifiers)
        ensures
            r == alignment_risk(self),
    {
        match self {
            Alignment::Neutral => RiskModifiers { public_suspicion: 100, civilian_suspicion: 100, wanted_level: 100, exposure_risk: 100 },
            Alignment::Hero => RiskModifiers { public_suspicion: 100, civilian_suspicion: 110, wanted_level: 90, exposure_risk: 100 },
            Alignment::Vigilante => RiskModifiers { public_suspicion: 120, civilian_suspicion: 100, wanted_level: 120, exposure_risk: 110 },
            Alignment::Villain => RiskModifiers { public_suspicion: 90, civilian_suspicion: 70, wanted_level: 130, exposure_risk: 80 },
        }
    }
}

/// No suspicion at all.
pub open spec fn no_suspicion() -> PersonaSuspicion {
    PersonaSuspicion { public_suspicion: 0, civilian_suspicion: 0, wanted_level: 0, exposure_risk: 0 }
}

/// A persona with these fields and no suspicion yet.
pub open spec fn persona_is(
    p: Persona,
    id: Seq<char>,
    kind: PersonaType,
    label: Seq<char>,
    allowed: Seq<LocationTag>,
    restricted: Seq<LocationTag>,
    actions: Seq<PersonaAction>,
    visibility: VisibilityProfile,
    risk: RiskModifiers,
) -> bool {
    &&& p.persona_id@ == id
    &&& p.persona_type == kind
    &&& p.label@ == label
    &&& p.location_rules.allowed_tags@ == allowed
    &&& p.location_rules.restricted_tags@ == restricted
    &&& p.allowed_actions@ == actions
    &&& p.visibility == visibility
    &&& p.risk_modifiers == risk
    &&& p.suspicion == no_suspicion()
}

/// The everyday persona of the hero stack, labelled `label` with risk factors `risk`.
pub open spec fn civilian_persona(p: Persona, label: Seq<char>, risk: RiskModifiers) -> bool {
    persona_is(
        p,
        "civilian"@,
        PersonaType::Civilian,
        label,
        seq![LocationTag::Public, LocationTag::Residential],
        seq![LocationTag::HighSecurity],
        seq![PersonaAction::Work, PersonaAction::Social, PersonaAction::Rest],
        VisibilityProfile { public_visibility: 40, surveillance_visibility: 30, witness_visibility: 35 },
        risk,
    )
}

/// The masked persona of the hero stack, labelled `label` with risk factors `risk`.
pub open spec fn masked_persona(p: Persona, label: Seq<char>, risk: RiskModifiers) -> bool {
    persona_is(
        p,
        "masked"@,
        PersonaType::Masked,
        label,
        seq![LocationTag::Public, LocationTag::Industrial, LocationTag::HighSecurity],
        Seq::empty(),
        seq![PersonaAction::Patrol, PersonaAction::PowerUse, PersonaAction::Combat, PersonaAction::Rest],
        VisibilityProfile { public_visibility: 65, surveillance_visibility: 70, witness_visibility: 60 },
        risk,
    )
}

fn make_persona(
    id: &str,
    kind: PersonaType,
    label: &str,
    allowed: Vec<LocationTag>,
    restricted: Vec<LocationTag>,
    actions: Vec<PersonaAction>,
    visibility: VisibilityProfile,
    risk: RiskModifiers,
) -> (p: Persona)
    ensures
        persona_is(p, id@, kind, label@, allowed@, restricted@, actions@, visibility, risk),
{
    Persona {
        persona_id: copy_str(id),
        persona_type: kind,
        label: copy_str(label),
        location_rules: LocationRules { allowed_tags: allowed, restricted_tags: restricted },
        allowed_actions: actions,
        visibility,
        risk_modifiers: risk,
        suspicion: PersonaSuspicion { public_suspicion: 0, civilian_suspicion: 0, wanted_level: 0, exposure_risk: 0 },
    }
}

/// The hero's personas: an everyday one, presented at first, and a masked one.
pub fn hero_persona_stack() -> (s: PersonaStack)
    ensures
        s.personas@.len() == 2,
        civilian_persona(s.personas@[0], "Civilian"@, RiskModifiers { public_suspicion: 80, civilian_suspicion: 110, wanted_level: 70, exposure_risk: 100 }),
        masked_persona(s.personas@[1], "Masked"@, RiskModifiers { public_suspicion: 110, civilian_suspicion: 90, wanted_level: 100, exposure_risk: 100 }),
        s.active_persona_id@ == "civilian"@,
        s.next_switch_tick == 0,
{
    let mut allowed: Vec<LocationTag> = Vec::new();
    allowed.push(LocationTag::Public);
    allowed.push(LocationTag::Residential);
    let mut restricted: Vec<LocationTag> = Vec::new();
    restricted.push(LocationTag::HighSecurity);
    let mut actions: Vec<PersonaAction> = Vec::new();
    actions.push(PersonaAction::Work);
    actions.push(PersonaAction::Social);
    actions.push(PersonaAction::Rest);
    assert(allowed@ =~= seq![LocationTag::Public, LocationTag::Residential]);
    assert(restricted@ =~= seq![LocationTag::HighSecurity]);
    assert(actions@ =~= seq![PersonaAction::Work, PersonaAction::Social, PersonaAction::Rest]);
    let civilian = make_persona(
        "civilian",
        PersonaType::Civilian,
        "Civilian",
        allowed,
        restricted,
        actions,
        VisibilityProfile { public_visibility: 40, surveillance_visibility: 30, witness_visibility: 35 },
        RiskModifiers { public_suspicion: 80, civilian_suspicion: 110, wanted_level: 70, exposure_risk: 100 },
    );
    let mut allowed: Vec<LocationTag> = Vec::new();
    allowed.push(LocationTag::Public);
    allowed.push(LocationTag::Industrial);
    allowed.push(LocationTag::HighSecurity);
    let restricted: Vec<LocationTag> = Vec::new();
    let mut actions: Vec<PersonaAction> = Vec::new();
    actions.push(PersonaAction::Patrol);
    actions.push(PersonaAction::PowerUse);
    actions.push(PersonaAction::Combat);
    actions.push(PersonaAction::Rest);
    assert(allowed@ =~= seq![LocationTag::Public, LocationTag::Industrial, LocationTag::HighSecurity]);
    assert(restricted@ =~= Seq::<LocationTag>::empty());
    assert(actions@ =~= seq![PersonaAction::Patrol, PersonaAction::PowerUse, PersonaAction::Combat, PersonaAction::Rest]);
    let masked = make_persona(
        "masked",
        PersonaType::Masked,
        "Masked",
        allowed,
        restricted,
        actions,
        VisibilityProfile { public_visibility: 65, surveillance_visibility: 70, witness_visibility: 60 },
        RiskModifiers { public_suspicion: 110, civilian_suspicion: 90, wanted_level: 100, exposure_risk: 100 },
    );
    let mut personas: Vec<Persona> = Vec::new();
    personas.push(civilian);
    personas.push(masked);
    PersonaStack { personas, active_persona_id: copy_str("civilian"), next_switch_tick: 0 }
}

/// The vigilante's personas: the hero's, the everyday one plain, the masked one
/// labelled `Vigilante` and more wanted.
pub fn vigilante_persona_stack() -> (s: PersonaStack)
    ensures
        s.personas@.len() == 2,
        civilian_persona(s.personas@[0], "Civilian"@, RiskModifiers { public_suspicion: 100, civilian_suspicion: 110, wanted_level: 90, exposure_risk: 100 }),
        masked_persona(s.personas@[1], "Vigilante"@, RiskModifiers { public_suspicion: 120, civilian_suspicion: 90, wanted_level: 130, exposure_risk: 100 }),
        s.active_persona_id@ == "civilian"@,
        s.next_switch_tick == 0,
{
    let mut stack = hero_persona_stack();
    let mut i: usize = 0;
    while i < stack.personas.len()
        invariant
            stack.personas@.len() == 2,
            i <= 2,
            i > 0 ==> civilian_persona(stack.personas@[0], "Civilian"@, RiskModifiers { public_suspicion: 100, civilian_suspicion: 110, wanted_level: 90, exposure_risk: 100 }),
            i <= 0 ==> civilian_persona(stack.personas@[0], "Civilian"@, RiskModifiers { public_suspicion: 80, civilian_suspicion: 110, wanted_level: 70, exposure_risk: 100 }),
            i > 1 ==> masked_persona(stack.personas@[1], "Vigilante"@, RiskModifiers { public_suspicion: 120, civilian_suspicion: 90, wanted_level: 130, exposure_risk: 100 }),
            i <= 1 ==> masked_persona(stack.personas@[1], "Masked"@, RiskModifiers { public_suspicion: 110, civilian_suspicion: 90, wanted_level: 100, exposure_risk: 100 }),
            stack.active_persona_id@ == "civilian"@,
            stack.next_switch_tick == 0,
        decreases 2 - i,
    {
        match stack.personas[i].persona_type {
            PersonaType::Civilian => {
                stack.personas[i].risk_modifiers.public_suspicion = 100;
                stack.personas[i].risk_modifiers.civilian_suspicion = 110;
                stack.personas[i].risk_modifiers.wanted_level = 90;
                stack.personas[i].label = copy_str("Civilian");
            },
            PersonaType::Masked => {
                stack.personas[i].risk_modifiers.public_suspicion = 120;
                stack.personas[i].risk_modifiers.wanted_level = 130;
                stack.personas[i].label = copy_str("Vigilante");
            },
        }
        i = i + 1;
    }
    stack
}

/// The villain's personas: the hero's, the masked one labelled `Villain`, more wanted
/// and less exposed.
pub fn villain_persona_stack() -> (s: PersonaStack)
    ensures
        s.personas@.len() == 2,
        civilian_persona(s.personas@[0], "Civilian"@, RiskModifiers { public_suspicion: 80, civilian_suspicion: 110, wanted_level: 70, exposure_risk: 100 }),
        masked_persona(s.personas@[1], "Villain"@, RiskModifiers { public_suspicion: 90, civilian_suspicion: 90, wanted_level: 130, exposure_risk: 80 }),
        s.active_persona_id@ == "civilian"@,
        s.next_switch_tick == 0,
{
    let mut stack = hero_persona_stack();
    let mut i: usize = 0;
    while i < stack.personas.len()
        invariant
            stack.personas@.len() == 2,
            i <= 2,
            civilian_persona(stack.personas@[0], "Civilian"@, RiskModifiers { public_suspicion: 80, civilian_suspicion: 110, wanted_level: 70, exposure_risk: 100 }),
            i > 1 ==> masked_persona(stack.personas@[1], "Villain"@, RiskModifiers { public_suspicion: 90, civilian_suspicion: 90, wanted_level: 130, exposure_risk: 80 }),
            i <= 1 ==> masked_persona(stack.personas@[1], "Masked"@, RiskModifiers { public_suspicion: 110, civilian_suspicion: 90, wanted_level: 100, exposure_risk: 100 }),
            stack.active_persona_id@ == "civilian"@,
            stack.next_switch_tick == 0,
        decreases 2 - i,
    {
        if stack.personas[i].persona_type == PersonaType::Masked {
            stack.personas[i].label = copy_str("Villain");
            stack.personas[i].risk_modifiers.public_suspicion = 90;
            stack.personas[i].risk_modifiers.wanted_level = 130;
            stack.personas[i].risk_modifiers.exposure_risk = 80;
        }
        i = i + 1;
    }
    stack
}

/// A neutral character's persona: only the everyday one, with neutral risk factors.
pub fn neutral_persona_stack() -> (s: PersonaStack)
    ensures
        s.personas@.len() == 1,
        civilian_persona(s.personas@[0], "Civilian"@, RiskModifiers { public_suspicion: 100, civilian_suspicion: 100, wanted_level: 100, exposure_risk: 100 }),
        s.active_persona_id@ == "civilian"@,
        s.next_switch_tick == 0,
{
    let mut stack = hero_persona_stack();
    let masked = stack.personas.remove(1);
    if stack.personas.len() > 0 {
        stack.personas[0].label = copy_str("Civilian");
        stack.personas[0].risk_modifiers = RiskModifiers { public_suspicion: 100, civilian_suspicion: 100, wanted_level: 100, exposure_risk: 100 };
    }
    stack.active_persona_id = copy_str("civilian");
    stack
}

/// `current + delta` held within 0 to 100.
pub open spec fn suspicion_after(current: u8, delta: i32) -> u8 {
    let next = current + delta;
    (if next < 0 { 0 } else if next > 100 { 100 } else { next }) as u8
}

fn apply_suspicion(current: u8, delta: i32) -> (r: u8)
    requires
        delta <= i32::MAX - 255,
    ensures
        r == suspicion_after(current, delta),
{
    let next: i32 = current as i32 + delta;
    let held: i32 = if next < 0 { 0 } else if next > 100 { 100 } else { next };
    held as u8
}

impl PersonaSuspicion {
    /// Shifts each level by its delta, held within 0 to 100.
    pub fn apply_delta(&mut self, delta: &SuspicionDelta)
        requires
            delta.public_suspicion <= i32::MAX - 255,
            delta.civilian_suspicion <= i32::MAX - 255,
            delta.wanted_level <= i32::MAX - 255,
            delta.exposure_risk <= i32::MAX - 255,
        ensures
            final(self).public_suspicion == suspicion_after(old(self).public_suspicion, delta.public_suspicion),
            final(self).civilian_suspicion == suspicion_after(old(self).civilian_suspicion, delta.civilian_suspicion),
            final(self).wanted_level == suspicion_after(old(self).wanted_level, delta.wanted_level),
            final(self).exposure_risk == suspicion_after(old(self).exposure_risk, delta.exposure_risk),
    {
        self.public_suspicion = apply_suspicion(self.public_suspicion, delta.public_suspicion);
        self.civilian_suspicion = apply_suspicion(self.civilian_suspicion, delta.civilian_suspicion);
        self.wanted_level = apply_suspicion(self.wanted_level, delta.wanted_level);
        self.exposure_risk = apply_suspicion(self.exposure_risk, delta.exposure_risk);
    }
}

/// Suspicion never leaves 0 to 100.
pub proof fn law_suspicion_bounded(current: u8, delta: i32)
    ensures
        suspicion_after(current, delta) <= 100,
{
}

} // verus!

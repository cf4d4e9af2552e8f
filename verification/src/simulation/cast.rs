use vstd::prelude::*;

use vstd::string::*;

use crate::text::{
    copy_str, opt_view, eq_ignore_ascii_case, eq_ignore_case_chars, insert_new, push_unique, views};

verus! {

broadcast use vstd::string::group_string_axioms;

/// Days in one game year.
pub const DAYS_PER_YEAR: u32 = 336;

/// The calendar year of the first game day.
pub const DEFAULT_START_YEAR: i32 = 2040;

/// Age from which a character may retire.
pub const RETIREMENT_AGE: i32 = 65;

/// Age from which a character always retires.
pub const MANDATORY_RETIREMENT_AGE: i32 = 75;

#[derive(Debug, Clone, Copy, PartialEq, Eq, Structural)]
pub enum ImportanceTier {
    A,
}

pub struct PersistentCharacter {
    pub character_id: String,
    pub scope_id: String,
    pub first_name: String,
    pub last_name: String,
    pub birth_year: Option<i32>,
    pub ancestry: Option<String>,
    pub nationality: Option<String>,
    pub importance_tier: ImportanceTier,
    pub created_at_tick: u64,
    pub roles: Vec<CharacterRole>,
    pub personas: Vec<CharacterPersona>,
    pub powers: Vec<CharacterPower>,
    pub relationships: Vec<CharacterRelationship>,
}

pub struct CharacterRole {
    pub role_type: String,
    pub faction_id: Option<String>,
    pub rank: Option<String>,
    pub start_tick: u64,
    pub end_tick: Option<u64>,
}

pub struct CharacterPersona {
    pub persona_id: String,
    pub persona_kind: String,
    pub label: String,
    pub is_active_default: bool,
}

pub struct CharacterPower {
    pub power_id: i64,
    pub expression_id: Option<String>,
    pub acq_id: Option<String>,
    pub mastery: i32,
}

pub struct CharacterRelationship {
    pub other_character_id: String,
    pub relation_type: String,
    pub trust: i32,
    pub fear: i32,
    pub resentment: i32,
    pub is_public: bool,
    pub start_tick: u64,
    pub end_tick: Option<u64>,
}


/// Why a character was promoted into the persistent cast.
#[derive(Debug, Clone, Copy, PartialEq, Eq, Structural)]
pub enum PromotionReason {
    Nemesis,
    FactionRole,
    NarrativeBinding,
    MediaRecognition,
    Recurrence,
    Manual,
}

pub struct PromotionCandidate {
    pub scope_id: String,
    pub first_name: String,
    pub last_name: String,
    pub role_type: String,
    pub faction_id: Option<String>,
    pub rank: Option<String>,
    pub persona_kind: Option<String>,
    pub persona_label: Option<String>,
    pub reason: PromotionReason,
}

/// What one aging pass did: who retired, who died, who was given a birth year, and
/// every character id it changed, once each.
pub struct CastAgingReport {
    pub retired: Vec<String>,
    pub deceased: Vec<String>,
    pub assigned_birth_year: Vec<String>,
    pub changed_ids: Vec<String>,
}

/// A role as plain values: type, faction, rank, start tick and end tick.
pub type RoleView = (Seq<char>, Option<Seq<char>>, Option<Seq<char>>, u64, Option<u64>);

pub open spec fn role_view(r: CharacterRole) -> RoleView {
    (r.role_type@, opt_view(r.faction_id), opt_view(r.rank), r.start_tick, r.end_tick)
}

pub open spec fn roles_view(rs: Seq<CharacterRole>) -> Seq<RoleView> {
    rs.map_values(|r: CharacterRole| role_view(r))
}

/// Copies an optional string.
pub fn copy_opt(s: &Option<String>) -> (r: Option<String>)
    ensures
        opt_view(r) == opt_view(*s),
{
    match s {
        Some(v) => Some(copy_str(v.as_str())),
        None => None,
    }
}

impl PromotionCandidate {
    /// The persistent character this candidate becomes: one open role from the given
    /// tick, and a default persona when the candidate has a persona kind, labelled with
    /// its label or else its kind.
    pub fn to_character(&self, character_id: String, created_at_tick: u64) -> (c: PersistentCharacter)
        ensures
            c.character_id == character_id,
            c.scope_id@ == self.scope_id@,
            c.first_name@ == self.first_name@,
            c.last_name@ == self.last_name@,
            c.birth_year is None,
            c.ancestry is None,
            c.nationality is None,
            c.importance_tier == ImportanceTier::A,
            c.created_at_tick == created_at_tick,
            roles_view(c.roles@) == seq![(self.role_type@, opt_view(self.faction_id), opt_view(self.rank), created_at_tick, None::<u64>)],
            match self.persona_kind {
                Some(kind) => c.personas@.len() == 1 && c.personas@[0].persona_id@ == "default"@
                    && c.personas@[0].persona_kind@ == kind@ && c.personas@[0].is_active_default
                    && c.personas@[0].label@ == match self.persona_label {
                        Some(l) => l@,
                        None => kind@,
                    },
                None => c.personas@.len() == 0,
            },
            c.powers@.len() == 0,
            c.relationships@.len() == 0,
    {
        let role = CharacterRole {
            role_type: copy_str(self.role_type.as_str()),
            faction_id: copy_opt(&self.faction_id),
            rank: copy_opt(&self.rank),
            start_tick: created_at_tick,
            end_tick: None,
        };
        let mut personas: Vec<CharacterPersona> = Vec::new();
        if let Some(kind) = &self.persona_kind {
            let label = match &self.persona_label {
                Some(l) => copy_str(l.as_str()),
                None => copy_str(kind.as_str()),
            };
            proof {
                reveal_strlit("default");
            }
            personas.push(CharacterPersona {
                persona_id: copy_str("default"),
                persona_kind: copy_str(kind.as_str()),
                label,
                is_active_default: true,
            });
        }
        let mut roles: Vec<CharacterRole> = Vec::new();
        roles.push(role);
        assert(roles_view(roles@) =~= seq![(self.role_type@, opt_view(self.faction_id), opt_view(self.rank), created_at_tick, None::<u64>)]);
        PersistentCharacter {
            character_id,
            scope_id: copy_str(self.scope_id.as_str()),
            first_name: copy_str(self.first_name.as_str()),
            last_name: copy_str(self.last_name.as_str()),
            birth_year: None,
            ancestry: None,
            nationality: None,
            importance_tier: ImportanceTier::A,
            created_at_tick,
            roles,
            personas,
            powers: Vec::new(),
            relationships: Vec::new(),
        }
    }
}

/// The calendar year of a game day: day one starts the first year.
pub open spec fn year_of_day(day: u32) -> int {
    DEFAULT_START_YEAR + (if day == 0 { 0 } else { day - 1 }) / (DAYS_PER_YEAR as int)
}

/// The calendar year of a game day.
pub fn current_year_from_day(day: u32) -> (year: i32)
    ensures
        year == year_of_day(day),
{
    let years: u32 = day.saturating_sub(1) / DAYS_PER_YEAR;
    assert(years <= 0x1_0000_0000int / 336);
    DEFAULT_START_YEAR + years as i32
}

/// One mixing round: add the byte, then multiply, both modulo 2^32.
pub open spec fn mix_step(seed: u32, byte: u8, mult: u32) -> u32 {
    vstd::wrapping::u32_specs::wrapping_mul(vstd::wrapping::u32_specs::wrapping_add(seed, byte as u32), mult)
}

/// Mixing rounds over a byte sequence, from the front.
pub open spec fn mix_fold(seed: u32, bytes: Seq<u8>, mult: u32) -> u32
    decreases bytes.len(),
{
    if bytes.len() == 0 {
        seed
    } else {
        mix_fold(mix_step(seed, bytes[0], mult), bytes.drop_first(), mult)
    }
}

proof fn lemma_mix_fold_push(seed: u32, bytes: Seq<u8>, b: u8, mult: u32)
    ensures
        mix_fold(seed, bytes.push(b), mult) == mix_step(mix_fold(seed, bytes, mult), b, mult),
    decreases bytes.len(),
{
    if bytes.len() == 0 {
        assert(bytes.push(b).drop_first() =~= Seq::<u8>::empty());
        assert(mix_fold(mix_step(seed, b, mult), Seq::<u8>::empty(), mult) == mix_step(seed, b, mult));
        assert(bytes.push(b)[0] == b);
    } else {
        assert(bytes.push(b).drop_first() =~= bytes.drop_first().push(b));
        lemma_mix_fold_push(mix_step(seed, bytes[0], mult), bytes.drop_first(), b, mult);
        assert(bytes.push(b)[0] == bytes[0]);
    }
}

/// Mixes the UTF-8 bytes of `s` into `seed`.
fn mix_bytes(seed: u32, s: &str, mult: u32) -> (r: u32)
    ensures
        r == mix_fold(seed, s.spec_bytes(), mult),
{
    let bytes = s.as_bytes();
    let mut acc: u32 = seed;
    let mut i: usize = 0;
    while i < bytes.len()
        invariant
            i <= bytes@.len(),
            bytes@ == s.spec_bytes(),
            acc == mix_fold(seed, bytes@.take(i as int), mult),
        decreases bytes@.len() - i,
    {
        let b: u8 = bytes[i];
        acc = acc.wrapping_add(b as u32).wrapping_mul(mult);
        proof {
            lemma_mix_fold_push(seed, bytes@.take(i as int), b, mult);
            assert(bytes@.take(i as int).push(b) =~= bytes@.take(i + 1));
        }
        i = i + 1;
    }
    assert(bytes@.take(i as int) =~= bytes@);
    acc
}

/// The seed a character's rolls start from: its id, first name and last name mixed in.
pub open spec fn character_seed(c: PersistentCharacter) -> u32 {
    let a = mix_fold(0, vstd::utf8::encode_utf8(c.character_id@), 1664525);
    let b = mix_fold(a, vstd::utf8::encode_utf8(c.first_name@), 1013904223);
    mix_fold(b, vstd::utf8::encode_utf8(c.last_name@), 22695477)
}

/// The seed a character's rolls start from.
pub fn stable_seed_for_character(character: &PersistentCharacter) -> (seed: u32)
    ensures
        seed == character_seed(*character),
{
    let a = mix_bytes(0, character.character_id.as_str(), 1664525);
    let b = mix_bytes(a, character.first_name.as_str(), 1013904223);
    mix_bytes(b, character.last_name.as_str(), 22695477)
}

/// A roll in `0..100` for a character, a year and a salt.
pub open spec fn character_roll(c: PersistentCharacter, year: i32, salt: u32) -> u32 {
    ((character_seed(c) ^ vstd::wrapping::u32_specs::wrapping_mul(year as u32, 2654435761u32) ^ salt) % 100) as u32
}

/// A roll in `0..100` for a character, a year and a salt.
pub fn deterministic_roll(character: &PersistentCharacter, current_year: i32, salt: u32) -> (roll: u32)
    ensures
        roll == character_roll(*character, current_year, salt),
        roll < 100,
{
    let seed = stable_seed_for_character(character);
    let mixed = seed ^ (current_year as u32).wrapping_mul(2654435761u32) ^ salt;
    mixed % 100
}

/// Whether a role of the given type, compared up to ASCII case, is still open.
pub open spec fn has_open_role(roles: Seq<CharacterRole>, role: Seq<char>) -> bool {
    exists|i: int| 0 <= i < roles.len() && (#[trigger] roles[i]).end_tick is None && eq_ignore_case_chars(roles[i].role_type@, role)
}

/// Whether the character holds an open role of the given type.
pub fn has_active_role(character: &PersistentCharacter, role: &str) -> (b: bool)
    ensures
        b == has_open_role(character.roles@, role@),
{
    let mut i: usize = 0;
    while i < character.roles.len()
        invariant
            i <= character.roles@.len(),
            forall|j: int| 0 <= j < i ==> !((#[trigger] character.roles@[j]).end_tick is None
                && eq_ignore_case_chars(character.roles@[j].role_type@, role@)),
        decreases character.roles@.len() - i,
    {
        let entry = &character.roles[i];
        if entry.end_tick.is_none() && eq_ignore_ascii_case(entry.role_type.as_str(), role) {
            return true;
        }
        i = i + 1;
    }
    false
}

/// Roles after a status change at `tick`: every open role is closed at `tick`, and a
/// new open role of the status starts then.
pub open spec fn roles_marked(roles: Seq<RoleView>, status: Seq<char>, tick: u64) -> Seq<RoleView> {
    roles.map_values(|r: RoleView| (r.0, r.1, r.2, r.3, if r.4 is None { Some(tick) } else { r.4 })).push(
        (status, None, None, tick, None),
    )
}

/// Closes every open role at `current_tick` and opens one of type `status`.
pub fn mark_character_status(character: &mut PersistentCharacter, status: &str, current_tick: u64)
    ensures
        roles_view(final(character).roles@) == roles_marked(roles_view(old(character).roles@), status@, current_tick),
        *final(character) == (PersistentCharacter { roles: final(character).roles, ..*old(character) }),
{
    let ghost before = roles_view(character.roles@);
    let mut i: usize = 0;
    while i < character.roles.len()
        invariant
            i <= character.roles@.len(),
            before.len() == character.roles@.len(),
            forall|j: int| 0 <= j < i ==> #[trigger] role_view(character.roles@[j]) == (before[j].0, before[j].1,
                before[j].2, before[j].3, if before[j].4 is None { Some(current_tick) } else { before[j].4 }),
            forall|j: int| i <= j < character.roles@.len() ==> #[trigger] role_view(character.roles@[j]) == before[j],
            *character == (PersistentCharacter { roles: character.roles, ..*old(character) }),
        decreases character.roles@.len() - i,
    {
        let ghost prev = character.roles@;
        assert(role_view(prev[i as int]) == before[i as int]);
        if character.roles[i].end_tick.is_none() {
            character.roles[i].end_tick = Some(current_tick);
        }
        assert(role_view(character.roles@[i as int]) == (before[i as int].0, before[i as int].1, before[i as int].2,
            before[i as int].3, if before[i as int].4 is None { Some(current_tick) } else { before[i as int].4 }));
        assert forall|j: int| 0 <= j < character.roles@.len() && j != i implies character.roles@[j] == prev[j] by {}
        i = i + 1;
    }
    let ghost closed = roles_view(character.roles@);
    character.roles.push(CharacterRole {
        role_type: copy_str(status),
        faction_id: None,
        rank: None,
        start_tick: current_tick,
        end_tick: None,
    });
    assert(roles_view(character.roles@) =~= roles_marked(before, status@, current_tick));
}


/// The age given to a character whose birth year is unknown: 24 to 54, by its seed.
pub open spec fn assigned_age(c: PersistentCharacter) -> int {
    24 + (character_seed(c) % 31) as int
}

/// A character's birth year: the one it has, or the current year less its assigned age.
pub open spec fn birth_year_of(c: PersistentCharacter, year: i32) -> int {
    match c.birth_year {
        Some(y) => y as int,
        None => year - assigned_age(c),
    }
}

/// `x` held within the range of `i32`.
pub open spec fn clamp_to_i32(x: int) -> int {
    if x > i32::MAX {
        i32::MAX as int
    } else if x < i32::MIN {
        i32::MIN as int
    } else {
        x
    }
}

/// Whether a character of this age retires this year: always from the mandatory age,
/// never below the retirement age, and in between on a roll below a chance that grows
/// two points a year from five, within five to thirty-five.
pub open spec fn retires(c: PersistentCharacter, year: i32, age: int) -> bool {
    if age >= MANDATORY_RETIREMENT_AGE {
        true
    } else if age < RETIREMENT_AGE {
        false
    } else {
        let base = 5 + (age - RETIREMENT_AGE) * 2;
        let chance = if base < 5 { 5 } else if base > 35 { 35 } else { base };
        character_roll(c, year, 31) < chance
    }
}

/// The yearly chance in a hundred that a character of this age dies.
pub open spec fn death_risk(age: int) -> int {
    if age <= 69 {
        0
    } else if age <= 79 {
        3
    } else if age <= 84 {
        6
    } else if age <= 89 {
        12
    } else if age <= 94 {
        25
    } else {
        45
    }
}

/// Whether a character of this age dies this year.
pub open spec fn dies(c: PersistentCharacter, year: i32, age: int) -> bool {
    death_risk(age) != 0 && character_roll(c, year, 97) < death_risk(age)
}

/// What a year of aging does to one character.
#[derive(Debug, Clone, Copy, PartialEq, Eq, Structural)]
pub enum AgingChange {
    Unchanged,
    Retired,
    Deceased,
}

/// What a year of aging does to one character: nothing to the dead; else death on its
/// roll; else retirement, unless already retired.
pub open spec fn aging_change(c: PersistentCharacter, year: i32) -> AgingChange {
    let age = clamp_to_i32(year - birth_year_of(c, year));
    if has_open_role(c.roles@, "DECEASED"@) {
        AgingChange::Unchanged
    } else if dies(c, year, age) {
        AgingChange::Deceased
    } else if !has_open_role(c.roles@, "RETIRED"@) && retires(c, year, age) {
        AgingChange::Retired
    } else {
        AgingChange::Unchanged
    }
}

/// The character `after` is `before` after a year of aging: it has a birth year, and
/// its roles record the change the year brought.
pub open spec fn aged(before: PersistentCharacter, after: PersistentCharacter, year: i32, tick: u64) -> bool {
    &&& after.birth_year == Some(birth_year_of(before, year) as i32)
    &&& roles_view(after.roles@) == match aging_change(before, year) {
        AgingChange::Unchanged => roles_view(before.roles@),
        AgingChange::Retired => roles_marked(roles_view(before.roles@), "RETIRED"@, tick),
        AgingChange::Deceased => roles_marked(roles_view(before.roles@), "DECEASED"@, tick),
    }
    &&& after == (PersistentCharacter { birth_year: after.birth_year, roles: after.roles, ..before })
}

/// Ids of the characters without a birth year, in order.
pub open spec fn unborn_ids(chars: Seq<PersistentCharacter>) -> Seq<Seq<char>>
    decreases chars.len(),
{
    if chars.len() == 0 {
        Seq::empty()
    } else {
        let prev = unborn_ids(chars.drop_last());
        if chars.last().birth_year is None {
            prev.push(chars.last().character_id@)
        } else {
            prev
        }
    }
}

/// Ids of the characters a year of aging changes in the given way, in order.
pub open spec fn ids_changed_as(chars: Seq<PersistentCharacter>, year: i32, change: AgingChange) -> Seq<Seq<char>>
    decreases chars.len(),
{
    if chars.len() == 0 {
        Seq::empty()
    } else {
        let prev = ids_changed_as(chars.drop_last(), year, change);
        if aging_change(chars.last(), year) == change {
            prev.push(chars.last().character_id@)
        } else {
            prev
        }
    }
}

/// Ids of the characters a year of aging changes in any way, each once, in the order
/// first changed.
pub open spec fn changed_character_ids(chars: Seq<PersistentCharacter>, year: i32) -> Seq<Seq<char>>
    decreases chars.len(),
{
    if chars.len() == 0 {
        Seq::empty()
    } else {
        let prev = changed_character_ids(chars.drop_last(), year);
        let c = chars.last();
        let a = if c.birth_year is None {
            insert_new(prev, c.character_id@)
        } else {
            prev
        };
        if aging_change(c, year) != AgingChange::Unchanged {
            insert_new(a, c.character_id@)
        } else {
            a
        }
    }
}

fn record_change(ids: &mut Vec<String>, id: &String)
    ensures
        views(final(ids)@) == insert_new(views(old(ids)@), id@),
{
    push_unique(ids, copy_str(id.as_str()));
}

fn push_copy(list: &mut Vec<String>, id: &String)
    ensures
        views(final(list)@) == views(old(list)@).push(id@),
{
    let ghost before = list@;
    list.push(copy_str(id.as_str()));
    assert(views(list@) =~= views(before).push(id@));
}

/// The character's birth year, assigned from its seed when it has none; an assignment is
/// recorded in the report.
pub fn ensure_birth_year(character: &mut PersistentCharacter, current_year: i32, report: &mut CastAgingReport) -> (year: i32)
    requires
        old(character).birth_year is None ==> current_year >= i32::MIN + 54,
    ensures
        year == birth_year_of(*old(character), current_year),
        *final(character) == (PersistentCharacter { birth_year: Some(year), ..*old(character) }),
        old(character).birth_year is None ==> views(final(report).assigned_birth_year@) == views(old(report).assigned_birth_year@).push(old(character).character_id@)
            && views(final(report).changed_ids@) == insert_new(views(old(report).changed_ids@), old(character).character_id@),
        old(character).birth_year is Some ==> final(report).assigned_birth_year == old(report).assigned_birth_year
            && final(report).changed_ids == old(report).changed_ids,
        final(report).retired == old(report).retired,
        final(report).deceased == old(report).deceased,
{
    if let Some(year) = character.birth_year {
        return year;
    }
    let seed = stable_seed_for_character(character);
    let age: i32 = 24 + (seed % 31) as i32;
    let birth_year = current_year - age;
    character.birth_year = Some(birth_year);
    push_copy(&mut report.assigned_birth_year, &character.character_id);
    record_change(&mut report.changed_ids, &character.character_id);
    birth_year
}

/// Every character retires at the mandatory age or older, and none below the retirement
/// age; so a year of aging leaves no living, unretired character of the mandatory age as
/// it was: it dies or retires.
pub proof fn law_mandatory_retirement(c: PersistentCharacter, year: i32, age: int)
    ensures
        age >= MANDATORY_RETIREMENT_AGE ==> retires(c, year, age),
        age < RETIREMENT_AGE ==> !retires(c, year, age),
        ({
            let a = clamp_to_i32(year - birth_year_of(c, year));
            (!has_open_role(c.roles@, "DECEASED"@) && !has_open_role(c.roles@, "RETIRED"@)
                && a >= MANDATORY_RETIREMENT_AGE) ==> aging_change(c, year) != AgingChange::Unchanged
        }),
{
}

/// Whether a character of this age retires this year.
pub fn should_mark_retired(character: &PersistentCharacter, current_year: i32, age: i32) -> (b: bool)
    ensures
        b == retires(*character, current_year, age as int),
        age >= MANDATORY_RETIREMENT_AGE ==> b,
        age < RETIREMENT_AGE ==> !b,
{
    if age >= MANDATORY_RETIREMENT_AGE {
        return true;
    }
    if age < RETIREMENT_AGE {
        return false;
    }
    let roll = deterministic_roll(character, current_year, 31);
    let base: i32 = 5 + (age - RETIREMENT_AGE) * 2;
    let chance: i32 = if base < 5 { 5 } else if base > 35 { 35 } else { base };
    roll < chance as u32
}

/// Whether a character of this age dies this year.
pub fn should_mark_deceased(character: &PersistentCharacter, current_year: i32, age: i32) -> (b: bool)
    ensures
        b == dies(*character, current_year, age as int),
{
    let risk: i32 = if age <= 69 {
        0
    } else if age <= 79 {
        3
    } else if age <= 84 {
        6
    } else if age <= 89 {
        12
    } else if age <= 94 {
        25
    } else {
        45
    };
    if risk == 0 {
        return false;
    }
    let roll = deterministic_roll(character, current_year, 97);
    roll < risk as u32
}

/// `a - b`, held within the range of `i32`.
fn saturating_sub_i32(a: i32, b: i32) -> (r: i32)
    ensures
        r == clamp_to_i32(a - b),
{
    let d: i64 = a as i64 - b as i64;
    if d > i32::MAX as i64 {
        i32::MAX
    } else if d < i32::MIN as i64 {
        i32::MIN
    } else {
        d as i32
    }
}

/// Ages the cast by a year: gives every character a birth year, and marks deaths and
/// retirements with new roles that start at `current_tick`.
pub fn tick_cast_aging(characters: &mut Vec<PersistentCharacter>, current_year: i32, current_tick: u64) -> (report: CastAgingReport)
    requires
        forall|i: int| 0 <= i < old(characters)@.len() ==> (#[trigger] old(characters)@[i]).birth_year is None
            ==> current_year >= i32::MIN + 54,
    ensures
        final(characters)@.len() == old(characters)@.len(),
        forall|i: int| 0 <= i < old(characters)@.len() ==> aged(#[trigger] old(characters)@[i], final(characters)@[i], current_year, current_tick),
        views(report.assigned_birth_year@) == unborn_ids(old(characters)@),
        views(report.retired@) == ids_changed_as(old(characters)@, current_year, AgingChange::Retired),
        views(report.deceased@) == ids_changed_as(old(characters)@, current_year, AgingChange::Deceased),
        views(report.changed_ids@) == changed_character_ids(old(characters)@, current_year),
{
    proof {
        reveal_strlit("DECEASED");
        reveal_strlit("RETIRED");
    }
    let mut report = CastAgingReport {
        retired: Vec::new(),
        deceased: Vec::new(),
        assigned_birth_year: Vec::new(),
        changed_ids: Vec::new(),
    };
    let ghost start = characters@;
    assert(start.take(0) =~= Seq::<PersistentCharacter>::empty());
    assert(views(report.retired@) =~= Seq::<Seq<char>>::empty());
    assert(views(report.deceased@) =~= Seq::<Seq<char>>::empty());
    assert(views(report.assigned_birth_year@) =~= Seq::<Seq<char>>::empty());
    assert(views(report.changed_ids@) =~= Seq::<Seq<char>>::empty());
    let mut i: usize = 0;
    while i < characters.len()
        invariant
            i <= characters@.len(),
            characters@.len() == start.len(),
            start == old(characters)@,
            forall|j: int| 0 <= j < start.len() ==> (#[trigger] start[j]).birth_year is None ==> current_year >= i32::MIN + 54,
            forall|j: int| 0 <= j < i ==> aged(#[trigger] start[j], characters@[j], current_year, current_tick),
            forall|j: int| i <= j < start.len() ==> #[trigger] characters@[j] == start[j],
            views(report.assigned_birth_year@) == unborn_ids(start.take(i as int)),
            views(report.retired@) == ids_changed_as(start.take(i as int), current_year, AgingChange::Retired),
            views(report.deceased@) == ids_changed_as(start.take(i as int), current_year, AgingChange::Deceased),
            views(report.changed_ids@) == changed_character_ids(start.take(i as int), current_year),
        decreases start.len() - i,
    {
        let ghost c0 = start[i as int];
        assert(characters@[i as int] == c0);
        assert(start.take(i + 1).drop_last() =~= start.take(i as int));
        assert(start.take(i + 1).last() == c0);
        let ghost prev = characters@;
        let character = &mut characters[i];
        let birth_year = ensure_birth_year(character, current_year, &mut report);
        let age_years = saturating_sub_i32(current_year, birth_year);
        assert(character_seed(*character) == character_seed(c0));
        assert(character.roles == c0.roles);
        if !has_active_role(character, "DECEASED") {
            if should_mark_deceased(character, current_year, age_years) {
                mark_character_status(character, "DECEASED", current_tick);
                push_copy(&mut report.deceased, &character.character_id);
                record_change(&mut report.changed_ids, &character.character_id);
            } else if !has_active_role(character, "RETIRED") && should_mark_retired(character, current_year, age_years) {
                mark_character_status(character, "RETIRED", current_tick);
                push_copy(&mut report.retired, &character.character_id);
                record_change(&mut report.changed_ids, &character.character_id);
            }
        }
        assert(aged(c0, characters@[i as int], current_year, current_tick));
        assert forall|j: int| 0 <= j < start.len() && j != i implies characters@[j] == prev[j] by {}
        i = i + 1;
    }
    assert(start.take(start.len() as int) =~= start);
    report
}

/// Death is final: a year that kills a character leaves it with an open `DECEASED` role,
/// and a character with such a role is left unchanged by every later year.
pub proof fn law_death_is_final(before: PersistentCharacter, after: PersistentCharacter, year: i32, tick: u64, later: i32)
    requires
        aged(before, after, year, tick),
        aging_change(before, year) == AgingChange::Deceased,
    ensures
        has_open_role(after.roles@, "DECEASED"@),
        aging_change(after, later) == AgingChange::Unchanged,
{
    let rb = roles_view(before.roles@);
    assert(roles_view(after.roles@) == roles_marked(rb, "DECEASED"@, tick));
    assert(roles_view(after.roles@).len() == after.roles@.len());
    assert(roles_marked(rb, "DECEASED"@, tick).len() == rb.len() + 1);
    let n = after.roles@.len() - 1;
    assert(roles_view(after.roles@)[n] == ("DECEASED"@, None::<Seq<char>>, None::<Seq<char>>, tick, None::<u64>));
    assert(role_view(after.roles@[n]) == roles_view(after.roles@)[n]);
    assert(eq_ignore_case_chars(after.roles@[n].role_type@, "DECEASED"@));
}

/// A birth year, once known, is kept.
pub proof fn law_birth_year_kept(before: PersistentCharacter, after: PersistentCharacter, year: i32, tick: u64)
    requires
        aged(before, after, year, tick),
        before.birth_year is Some,
    ensures
        after.birth_year == before.birth_year,
{
}

/// After a status change the new status is the only open role: every earlier role has
/// ended, those that were open at the change's tick.
pub proof fn law_status_change_closes_roles(roles: Seq<RoleView>, status: Seq<char>, tick: u64)
    ensures
        ({
            let after = roles_marked(roles, status, tick);
            &&& after.len() == roles.len() + 1
            &&& after.last() == (status, None::<Seq<char>>, None::<Seq<char>>, tick, None::<u64>)
            &&& forall|j: int| 0 <= j < roles.len() ==> (#[trigger] after[j]).4 is Some
                && (roles[j].4 is None ==> after[j].4 == Some(tick))
                && (roles[j].4 is Some ==> after[j].4 == roles[j].4)
        }),
{
}
} // verus!

use vstd::prelude::*;

use crate::data::alien_generation::{AlienGenerationCatalog, AlienNamingCatalog, AlienTableEntry};
use crate::rng::{fnv1a, hash_seed, lcg_step, next_u64};
use crate::simulation::cast::copy_opt;
use crate::text::{
    opt_view,
    add_tags, char_to_lower, lemma_add_tags_distinct, push_literal, char_to_upper, concat_str, copy_str, eq_ignore_ascii_case,
    eq_ignore_case_chars, insert_new, lower_char, push_char, push_unique, str_eq, trim, trim_chars,
    upper_char, views,
};

verus! {

broadcast use vstd::string::group_string_axioms;

pub struct AlienSpeciesProfile {
    pub seed: u64,
    pub species_name: String,
    pub demonym: String,
    pub homeworld: AlienHomeworldProfile,
    pub physiology: AlienPhysiologyProfile,
    pub society: AlienSocietyProfile,
    pub capabilities: AlienCapabilityProfile,
    pub weaknesses: Vec<AlienTableEntry>,
    pub tags: Vec<String>,
    pub notes: Vec<String>,
}

pub struct AlienHomeworldProfile {
    pub name: String,
    pub star_archetype: AlienTableEntry,
    pub origin: AlienTableEntry,
    pub gravity: AlienTableEntry,
    pub atmosphere: AlienTableEntry,
    pub climate: AlienTableEntry,
    pub terrain: AlienTableEntry,
}

pub struct AlienPhysiologyProfile {
    pub body_plan: AlienTableEntry,
    pub scale: AlienTableEntry,
    pub covering: AlienTableEntry,
    pub pigmentation: AlienTableEntry,
    pub feature: AlienTableEntry,
    pub senses: AlienTableEntry,
    pub locomotion: AlienTableEntry,
    pub adaptation: AlienTableEntry,
}

pub struct AlienSocietyProfile {
    pub society: AlienTableEntry,
    pub values: AlienTableEntry,
    pub technology: AlienTableEntry,
    pub interstellar_role: AlienTableEntry,
    pub governing_body: String,
}

pub struct AlienCapabilityProfile {
    pub cosmic_tier: AlienTableEntry,
    pub power_source: AlienTableEntry,
    pub signature_gift: AlienTableEntry,
    pub flight_style: AlienTableEntry,
    pub gravitic_traits: Vec<String>,
}

/// A table entry as plain values: id, highest d6, 2d6 and d66 rolls, label, detail, tags.
pub type EntryView = (Option<Seq<char>>, Option<u32>, Option<u32>, Option<u32>, Seq<char>, Option<Seq<char>>, Seq<Seq<char>>);

pub open spec fn entry_view(e: AlienTableEntry) -> EntryView {
    (opt_view(e.id), e.d6, e.d2d6, e.d66, e.label@, opt_view(e.detail), views(e.tags@))
}

/// The entry a roll falls back on when a table is empty.
pub open spec fn unknown_entry() -> EntryView {
    (None, None, None, None, "Unknown"@, None, Seq::empty())
}

impl AlienTableEntry {
    /// A copy of this entry.
    pub fn duplicate(&self) -> (r: AlienTableEntry)
        ensures
            entry_view(r) == entry_view(*self),
    {
        let r = AlienTableEntry {
            id: copy_opt(&self.id),
            d6: self.d6,
            d2d6: self.d2d6,
            d66: self.d66,
            label: copy_str(self.label.as_str()),
            detail: copy_opt(&self.detail),
            tags: self.tags.clone(),
        };
        assert(views(r.tags@) =~= views(self.tags@));
        r
    }
}

/// The die a table is rolled with.
#[derive(Debug, Clone, Copy, PartialEq, Eq, Structural)]
pub enum TableDie {
    D6,
    TwoD6,
    D66,
}

/// The highest roll of a die that an entry answers to.
pub open spec fn die_limit(e: AlienTableEntry, die: TableDie) -> Option<u32> {
    match die {
        TableDie::D6 => e.d6,
        TableDie::TwoD6 => e.d2d6,
        TableDie::D66 => e.d66,
    }
}

/// Index of the first entry at or after `i` whose limit for the die is at least `roll`.
pub open spec fn threshold_index_from(entries: Seq<AlienTableEntry>, roll: int, die: TableDie, i: int) -> Option<int>
    decreases entries.len() - i,
{
    if i < 0 || i >= entries.len() {
        None
    } else if (die_limit(entries[i], die) matches Some(m) && roll <= m) {
        Some(i)
    } else {
        threshold_index_from(entries, roll, die, i + 1)
    }
}

/// The entry a roll selects: the first whose limit reaches the roll, else the last entry,
/// else the unknown entry.
pub open spec fn table_pick(entries: Seq<AlienTableEntry>, roll: int, die: TableDie) -> EntryView {
    match threshold_index_from(entries, roll, die, 0) {
        Some(k) => entry_view(entries[k]),
        None => if entries.len() > 0 {
            entry_view(entries.last())
        } else {
            unknown_entry()
        },
    }
}

/// `x` held within `lo..=hi`.
pub open spec fn clamp_between(x: int, lo: int, hi: int) -> int {
    if x < lo {
        lo
    } else if x > hi {
        hi
    } else {
        x
    }
}

/// One six-sided die with a modifier, held within 1 to 6, and the generator after it.
pub open spec fn d6_roll(rng: u64, modifier: int) -> (int, u64) {
    let n = lcg_step(rng);
    (clamp_between((n % 6) as int + 1 + modifier, 1, 6), n)
}

/// Two six-sided dice summed with a modifier, held within 2 to 12.
pub open spec fn two_d6_roll(rng: u64, modifier: int) -> (int, u64) {
    let a = d6_roll(rng, 0);
    let b = d6_roll(a.1, 0);
    (clamp_between(a.0 + b.0 + modifier, 2, 12), b.1)
}

/// A tens die, with a modifier held within 1 to 6, and a ones die: 11 to 66.
pub open spec fn d66_roll(rng: u64, tens_mod: int) -> (int, u64) {
    let t = d6_roll(rng, 0);
    let o = d6_roll(t.1, 0);
    (clamp_between(t.0 + tens_mod, 1, 6) * 10 + o.0, o.1)
}

/// A roll of a die with a modifier.
pub open spec fn die_roll(die: TableDie, rng: u64, modifier: int) -> (int, u64) {
    match die {
        TableDie::D6 => d6_roll(rng, modifier),
        TableDie::TwoD6 => two_d6_roll(rng, modifier),
        TableDie::D66 => d66_roll(rng, modifier),
    }
}

/// A table rolled with a die: the entry it gives and the generator after it.
pub open spec fn table_roll(entries: Seq<AlienTableEntry>, die: TableDie, rng: u64, modifier: int) -> (EntryView, u64) {
    let r = die_roll(die, rng, modifier);
    (table_pick(entries, r.0, die), r.1)
}

pub fn roll_d6(rng: &mut u64, modifier: i32) -> (roll: u32)
    requires
        modifier <= i32::MAX - 6,
    ensures
        (roll as int, *final(rng)) == d6_roll(*old(rng), modifier as int),
        1 <= roll <= 6,
{
    let face: i32 = (next_u64(rng) % 6) as i32;
    let roll: i32 = face + 1 + modifier;
    let held: i32 = if roll < 1 { 1 } else if roll > 6 { 6 } else { roll };
    held as u32
}

pub fn roll_2d6(rng: &mut u64, modifier: i32) -> (roll: u32)
    requires
        modifier <= i32::MAX - 12,
    ensures
        (roll as int, *final(rng)) == two_d6_roll(*old(rng), modifier as int),
        2 <= roll <= 12,
{
    let a = roll_d6(rng, 0) as i32;
    let b = roll_d6(rng, 0) as i32;
    let roll: i32 = a + b + modifier;
    let held: i32 = if roll < 2 { 2 } else if roll > 12 { 12 } else { roll };
    held as u32
}

pub fn roll_d66(rng: &mut u64, tens_mod: i32) -> (roll: u32)
    requires
        tens_mod <= i32::MAX - 6,
    ensures
        (roll as int, *final(rng)) == d66_roll(*old(rng), tens_mod as int),
        11 <= roll <= 66,
{
    let tens: i32 = roll_d6(rng, 0) as i32 + tens_mod;
    let tens: i32 = if tens < 1 { 1 } else if tens > 6 { 6 } else { tens };
    let ones: i32 = roll_d6(rng, 0) as i32;
    (tens * 10 + ones) as u32
}

/// The entry a roll selects from a table.
pub fn select_by_threshold(entries: &[AlienTableEntry], roll: u32, die: TableDie) -> (e: AlienTableEntry)
    ensures
        entry_view(e) == table_pick(entries@, roll as int, die),
{
    let mut i: usize = 0;
    while i < entries.len()
        invariant
            i <= entries@.len(),
            threshold_index_from(entries@, roll as int, die, i as int) == threshold_index_from(entries@, roll as int, die, 0),
        decreases entries@.len() - i,
    {
        let entry = &entries[i];
        let limit = match die {
            TableDie::D6 => entry.d6,
            TableDie::TwoD6 => entry.d2d6,
            TableDie::D66 => entry.d66,
        };
        if let Some(max) = limit {
            if roll <= max {
                return entry.duplicate();
            }
        }
        i = i + 1;
    }
    if entries.len() > 0 {
        entries[entries.len() - 1].duplicate()
    } else {
        proof {
            reveal_strlit("Unknown");
        }
        let e = AlienTableEntry {
            id: None,
            d6: None,
            d2d6: None,
            d66: None,
            label: copy_str("Unknown"),
            detail: None,
            tags: Vec::new(),
        };
        assert(views(e.tags@) =~= Seq::<Seq<char>>::empty());
        e
    }
}

pub fn roll_table_d6(entries: &[AlienTableEntry], rng: &mut u64, modifier: i32) -> (e: AlienTableEntry)
    requires
        modifier <= i32::MAX - 6,
    ensures
        (entry_view(e), *final(rng)) == table_roll(entries@, TableDie::D6, *old(rng), modifier as int),
{
    let roll = roll_d6(rng, modifier);
    select_by_threshold(entries, roll, TableDie::D6)
}

pub fn roll_table_2d6(entries: &[AlienTableEntry], rng: &mut u64, modifier: i32) -> (e: AlienTableEntry)
    requires
        modifier <= i32::MAX - 12,
    ensures
        (entry_view(e), *final(rng)) == table_roll(entries@, TableDie::TwoD6, *old(rng), modifier as int),
{
    let roll = roll_2d6(rng, modifier);
    select_by_threshold(entries, roll, TableDie::TwoD6)
}

pub fn roll_table_d66(entries: &[AlienTableEntry], rng: &mut u64, tens_mod: i32) -> (e: AlienTableEntry)
    requires
        tens_mod <= i32::MAX - 6,
    ensures
        (entry_view(e), *final(rng)) == table_roll(entries@, TableDie::D66, *old(rng), tens_mod as int),
{
    let roll = roll_d66(rng, tens_mod);
    select_by_threshold(entries, roll, TableDie::D66)
}

/// A fragment drawn from a list, and the generator after it; an empty list gives the
/// empty fragment and leaves the generator as it was.
pub open spec fn fragment_pick(list: Seq<String>, rng: u64) -> (Seq<char>, u64) {
    if list.len() == 0 {
        (Seq::empty(), rng)
    } else {
        let n = lcg_step(rng);
        (list[(n as usize) as int % list.len() as int]@, n)
    }
}

pub fn pick_fragment<'a>(list: &'a [String], rng: &mut u64) -> (f: &'a str)
    ensures
        (f@, *final(rng)) == fragment_pick(list@, *old(rng)),
{
    if list.len() == 0 {
        proof {
            reveal_strlit("");
        }
        return "";
    }
    let idx = (next_u64(rng) as usize) % list.len();
    list[idx].as_str()
}

/// Two fragments joined; when the last letter of the first equals the first letter of
/// the second up to ASCII case, that letter is written once.
pub open spec fn merged(left: Seq<char>, right: Seq<char>) -> Seq<char> {
    if left.len() == 0 {
        right
    } else if right.len() == 0 {
        left
    } else if lower_char(left.last()) == lower_char(right[0]) {
        left.drop_last() + right
    } else {
        left + right
    }
}

pub fn merge_fragments(left: &str, right: &str) -> (r: String)
    ensures
        r@ == merged(left@, right@),
{
    let n = left.unicode_len();
    let m = right.unicode_len();
    if n == 0 {
        return copy_str(right);
    }
    if m == 0 {
        return copy_str(left);
    }
    let left_last = left.get_char(n - 1);
    let right_first = right.get_char(0);
    if char_to_lower(left_last) == char_to_lower(right_first) {
        let head = left.substring_char(0, n - 1);
        assert(head@ =~= left@.drop_last());
        concat_str(head, right)
    } else {
        concat_str(left, right)
    }
}

/// The text with its first character in ASCII uppercase.
pub open spec fn capitalized(s: Seq<char>) -> Seq<char> {
    if s.len() == 0 {
        s
    } else {
        seq![upper_char(s[0])] + s.drop_first()
    }
}

pub fn capitalize_first(input: &str) -> (r: String)
    ensures
        r@ == capitalized(input@),
{
    let n = input.unicode_len();
    if n == 0 {
        return String::new();
    }
    let mut out = String::new();
    push_char(&mut out, char_to_upper(input.get_char(0)));
    let rest = input.substring_char(1, n);
    out.append(rest);
    assert(out@ =~= capitalized(input@));
    out
}

/// A label as a key: ASCII lowercase, with spaces as underscores.
pub open spec fn label_key(s: Seq<char>) -> Seq<char> {
    Seq::new(s.len(), |i: int| if lower_char(s[i]) == ' ' { '_' } else { lower_char(s[i]) })
}

/// The key of an entry: its id, or else its label as a key.
pub open spec fn key_of(e: EntryView) -> Seq<char> {
    match e.0 {
        Some(id) => id,
        None => label_key(e.4),
    }
}

pub fn entry_key(entry: &AlienTableEntry) -> (k: String)
    ensures
        k@ == key_of(entry_view(*entry)),
{
    match &entry.id {
        Some(id) => copy_str(id.as_str()),
        None => {
            let label = entry.label.as_str();
            let n = label.unicode_len();
            let mut out = String::new();
            let mut i: usize = 0;
            while i < n
                invariant
                    n == label@.len(),
                    i <= n,
                    out@ == label_key(label@.take(i as int)),
                decreases n - i,
            {
                let c = char_to_lower(label.get_char(i));
                let c = if c == ' ' { '_' } else { c };
                push_char(&mut out, c);
                assert(label_key(label@.take(i + 1)) =~= label_key(label@.take(i as int)).push(c));
                i = i + 1;
            }
            assert(label@.take(n as int) =~= label@);
            out
        },
    }
}

/// Adds each of an entry's tags that is not there yet.
pub fn collect_entry_tags(tags: &mut Vec<String>, entry: &AlienTableEntry)
    ensures
        views(final(tags)@) == add_tags(views(old(tags)@), entry_view(*entry).6),
{
    add_all(tags, &entry.tags);
}

/// Adds each of `new` that is not there yet.
fn add_all(tags: &mut Vec<String>, new: &Vec<String>)
    ensures
        views(final(tags)@) == add_tags(views(old(tags)@), views(new@)),
{
    let ghost start = views(tags@);
    let ghost all = views(new@);
    assert(all.take(0) =~= Seq::<Seq<char>>::empty());
    let mut i: usize = 0;
    while i < new.len()
        invariant
            i <= new@.len(),
            all == views(new@),
            views(tags@) == add_tags(start, all.take(i as int)),
        decreases new@.len() - i,
    {
        let ghost before = views(tags@);
        push_unique(tags, copy_str(new[i].as_str()));
        assert(all.take(i + 1).drop_last() =~= all.take(i as int));
        assert(all.take(i + 1).last() == new@[i as int]@);
        assert(views(tags@) == insert_new(before, new@[i as int]@));
        i = i + 1;
    }
    assert(all.take(new@.len() as int) =~= all);
}

/// Whether one of the tags equals `tag` up to ASCII case.
pub open spec fn tagged(tags: Seq<Seq<char>>, tag: Seq<char>) -> bool {
    exists|i: int| 0 <= i < tags.len() && eq_ignore_case_chars(#[trigger] tags[i], tag)
}

pub fn has_tag(entry: &AlienTableEntry, tag: &str) -> (b: bool)
    ensures
        b == tagged(entry_view(*entry).6, tag@),
{
    let ghost tv = views(entry.tags@);
    let mut i: usize = 0;
    while i < entry.tags.len()
        invariant
            i <= entry.tags@.len(),
            tv == views(entry.tags@),
            forall|j: int| 0 <= j < i ==> !eq_ignore_case_chars(#[trigger] tv[j], tag@),
        decreases entry.tags@.len() - i,
    {
        if eq_ignore_ascii_case(entry.tags[i].as_str(), tag) {
            assert(tv[i as int] == entry.tags@[i as int]@);
            return true;
        }
        assert(tv[i as int] == entry.tags@[i as int]@);
        i = i + 1;
    }
    false
}

/// The traits a homeworld's gravity gives.
pub open spec fn gravity_traits(g: EntryView) -> Seq<Seq<char>> {
    let low = if tagged(g.6, "gravity:low"@) { seq!["lightframe"@, "longstride"@, "glide"@] } else { Seq::empty() };
    let high = if tagged(g.6, "gravity:high"@) {
        seq!["dense_muscle"@, "impact_resistant"@, "burst_flight"@]
    } else {
        Seq::empty()
    };
    let extreme = if tagged(g.6, "gravity:extreme"@) {
        seq!["massive_bone"@, "shockproof"@, "impulse_flight"@]
    } else {
        Seq::empty()
    };
    let variable = if tagged(g.6, "gravity:variable"@) { seq!["adaptive_balance"@, "vector_reflex"@] } else { Seq::empty() };
    let all = low + high + extreme + variable;
    if all.len() == 0 {
        seq!["baseline"@]
    } else {
        all
    }
}

pub fn derive_gravity_traits(gravity: &AlienTableEntry) -> (traits: Vec<String>)
    ensures
        views(traits@) == gravity_traits(entry_view(*gravity)),
{
    proof {
        reveal_strlit("lightframe");
        reveal_strlit("longstride");
        reveal_strlit("glide");
        reveal_strlit("dense_muscle");
        reveal_strlit("impact_resistant");
        reveal_strlit("burst_flight");
        reveal_strlit("massive_bone");
        reveal_strlit("shockproof");
        reveal_strlit("impulse_flight");
        reveal_strlit("adaptive_balance");
        reveal_strlit("vector_reflex");
        reveal_strlit("baseline");
    }
    let ghost g = entry_view(*gravity);
    let mut traits: Vec<String> = Vec::new();
    assert(views(traits@) =~= Seq::<Seq<char>>::empty());
    if has_tag(gravity, "gravity:low") {
        push_literal(&mut traits, "lightframe");
        push_literal(&mut traits, "longstride");
        push_literal(&mut traits, "glide");
    }
    let ghost t1 = views(traits@);
    if has_tag(gravity, "gravity:high") {
        push_literal(&mut traits, "dense_muscle");
        push_literal(&mut traits, "impact_resistant");
        push_literal(&mut traits, "burst_flight");
    }
    let ghost t2 = views(traits@);
    if has_tag(gravity, "gravity:extreme") {
        push_literal(&mut traits, "massive_bone");
        push_literal(&mut traits, "shockproof");
        push_literal(&mut traits, "impulse_flight");
    }
    let ghost t3 = views(traits@);
    if has_tag(gravity, "gravity:variable") {
        push_literal(&mut traits, "adaptive_balance");
        push_literal(&mut traits, "vector_reflex");
    }
    let ghost t4 = views(traits@);
    let ghost low = if tagged(g.6, "gravity:low"@) { seq!["lightframe"@, "longstride"@, "glide"@] } else { Seq::<Seq<char>>::empty() };
    let ghost high = if tagged(g.6, "gravity:high"@) {
        seq!["dense_muscle"@, "impact_resistant"@, "burst_flight"@]
    } else {
        Seq::<Seq<char>>::empty()
    };
    let ghost extreme = if tagged(g.6, "gravity:extreme"@) {
        seq!["massive_bone"@, "shockproof"@, "impulse_flight"@]
    } else {
        Seq::<Seq<char>>::empty()
    };
    let ghost variable = if tagged(g.6, "gravity:variable"@) { seq!["adaptive_balance"@, "vector_reflex"@] } else { Seq::<Seq<char>>::empty() };
    assert(t1 =~= low);
    assert(t2 =~= low + high);
    assert(t3 =~= low + high + extreme);
    assert(t4 =~= low + high + extreme + variable);
    if traits.len() == 0 {
        push_literal(&mut traits, "baseline");
        assert(views(traits@) =~= seq!["baseline"@]);
    }
    traits
}

/// The modifier that gravity puts on the flight-style roll.
pub open spec fn flight_modifier(g: EntryView) -> int {
    if tagged(g.6, "gravity:extreme"@) {
        2
    } else if tagged(g.6, "gravity:high"@) {
        1
    } else if tagged(g.6, "gravity:low"@) {
        -1
    } else {
        0
    }
}

pub fn flight_mod_from_gravity(gravity: &AlienTableEntry) -> (m: i32)
    ensures
        m == flight_modifier(entry_view(*gravity)),
{
    if has_tag(gravity, "gravity:extreme") {
        2
    } else if has_tag(gravity, "gravity:high") {
        1
    } else if has_tag(gravity, "gravity:low") {
        -1
    } else {
        0
    }
}

/// An entry as `label (detail)`, or its label alone.
pub open spec fn described(e: EntryView) -> Seq<char> {
    match e.5 {
        Some(d) => e.4 + " ("@ + d + ")"@,
        None => e.4,
    }
}

pub fn describe_entry(entry: &AlienTableEntry) -> (s: String)
    ensures
        s@ == described(entry_view(*entry)),
{
    match &entry.detail {
        Some(detail) => {
            let mut s = concat_str(entry.label.as_str(), " (");
            s.append(detail.as_str());
            s.append(")");
            s
        },
        None => copy_str(entry.label.as_str()),
    }
}


/// A root name: a prefix, a core and a suffix merged and capitalised.
pub open spec fn root_name(n: AlienNamingCatalog, rng: u64) -> (Seq<char>, u64) {
    let p = fragment_pick(n.root_prefixes@, rng);
    let c = fragment_pick(n.root_cores@, p.1);
    let s = fragment_pick(n.root_suffixes@, c.1);
    (capitalized(merged(merged(p.0, c.0), s.0)), s.1)
}

/// A world name: a root with a world suffix.
pub open spec fn world_name(n: AlienNamingCatalog, rng: u64, root: Seq<char>) -> (Seq<char>, u64) {
    let s = fragment_pick(n.world_suffixes@, rng);
    (capitalized(merged(root, s.0)), s.1)
}

/// A species name: a root with a species suffix.
pub open spec fn species_name_of(root: Seq<char>, suffix: Seq<char>) -> Seq<char> {
    capitalized(merged(root, suffix))
}

/// A demonym: a homeworld name with a demonym suffix.
pub open spec fn demonym_of(n: AlienNamingCatalog, rng: u64, homeworld: Seq<char>) -> (Seq<char>, u64) {
    let s = fragment_pick(n.demonym_suffixes@, rng);
    (capitalized(merged(homeworld, s.0)), s.1)
}

/// A governing body: a house prefix, a root and a house suffix, spaced and trimmed.
pub open spec fn governing_body_of(n: AlienNamingCatalog, rng: u64, root: Seq<char>) -> (Seq<char>, u64) {
    let p = fragment_pick(n.house_prefixes@, rng);
    let s = fragment_pick(n.house_suffixes@, p.1);
    (capitalized(trim_chars(p.0 + " "@ + root + " "@ + s.0)), s.1)
}

/// Species name, demonym and homeworld name as the naming style builds them.
pub open spec fn species_names(n: AlienNamingCatalog, rng: u64, style: EntryView) -> ((Seq<char>, Seq<char>, Seq<char>), u64) {
    let primary = root_name(n, rng);
    let secondary = root_name(n, primary.1);
    let home = world_name(n, secondary.1, primary.0);
    let key = key_of(style);
    let suffix = fragment_pick(n.species_suffixes@, home.1);
    if key == "homeworld_demonym"@ {
        let d = demonym_of(n, suffix.1, home.0);
        ((d.0, d.0, home.0), d.1)
    } else if key == "dual_root"@ {
        let d = demonym_of(n, suffix.1, home.0);
        ((species_name_of(secondary.0, suffix.0), d.0, home.0), d.1)
    } else if key == "cosmic_epithet"@ {
        let name = species_name_of(primary.0, suffix.0);
        ((name, name, home.0), suffix.1)
    } else {
        let d = demonym_of(n, suffix.1, home.0);
        ((species_name_of(primary.0, suffix.0), d.0, home.0), d.1)
    }
}

pub fn build_root(naming: &AlienNamingCatalog, rng: &mut u64) -> (r: String)
    ensures
        (r@, *final(rng)) == root_name(*naming, *old(rng)),
{
    let prefix = pick_fragment(naming.root_prefixes.as_slice(), rng);
    let core = pick_fragment(naming.root_cores.as_slice(), rng);
    let suffix = pick_fragment(naming.root_suffixes.as_slice(), rng);
    let first = merge_fragments(prefix, core);
    let merged = merge_fragments(first.as_str(), suffix);
    capitalize_first(merged.as_str())
}

pub fn build_world_name(naming: &AlienNamingCatalog, rng: &mut u64, root: &str) -> (r: String)
    ensures
        (r@, *final(rng)) == world_name(*naming, *old(rng), root@),
{
    let suffix = pick_fragment(naming.world_suffixes.as_slice(), rng);
    let merged = merge_fragments(root, suffix);
    capitalize_first(merged.as_str())
}

pub fn build_species_name(root: &str, suffix: &str) -> (r: String)
    ensures
        r@ == species_name_of(root@, suffix@),
{
    let merged = merge_fragments(root, suffix);
    capitalize_first(merged.as_str())
}

pub fn build_demonym(naming: &AlienNamingCatalog, rng: &mut u64, homeworld: &str) -> (r: String)
    ensures
        (r@, *final(rng)) == demonym_of(*naming, *old(rng), homeworld@),
{
    let suffix = pick_fragment(naming.demonym_suffixes.as_slice(), rng);
    let merged = merge_fragments(homeworld, suffix);
    capitalize_first(merged.as_str())
}

pub fn build_governing_body(catalog: &AlienGenerationCatalog, rng: &mut u64, root: &str) -> (r: String)
    ensures
        (r@, *final(rng)) == governing_body_of(catalog.naming, *old(rng), root@),
{
    let prefix = pick_fragment(catalog.naming.house_prefixes.as_slice(), rng);
    let suffix = pick_fragment(catalog.naming.house_suffixes.as_slice(), rng);
    let mut merged = concat_str(prefix, " ");
    merged.append(root);
    merged.append(" ");
    merged.append(suffix);
    capitalize_first(trim(merged.as_str()))
}

pub fn build_species_names(catalog: &AlienGenerationCatalog, rng: &mut u64, naming_style: &AlienTableEntry) -> (r: (String, String, String))
    ensures
        ((r.0@, r.1@, r.2@), *final(rng)) == species_names(catalog.naming, *old(rng), entry_view(*naming_style)),
{
    let root_primary = build_root(&catalog.naming, rng);
    let root_secondary = build_root(&catalog.naming, rng);
    let homeworld_name = build_world_name(&catalog.naming, rng, root_primary.as_str());
    let style_key = entry_key(naming_style);
    let species_suffix = pick_fragment(catalog.naming.species_suffixes.as_slice(), rng);
    if str_eq(style_key.as_str(), "homeworld_demonym") {
        let demonym = build_demonym(&catalog.naming, rng, homeworld_name.as_str());
        (copy_str(demonym.as_str()), demonym, homeworld_name)
    } else if str_eq(style_key.as_str(), "dual_root") {
        let species_name = build_species_name(root_secondary.as_str(), species_suffix);
        let demonym = build_demonym(&catalog.naming, rng, homeworld_name.as_str());
        (species_name, demonym, homeworld_name)
    } else if str_eq(style_key.as_str(), "cosmic_epithet") {
        let species_name = build_species_name(root_primary.as_str(), species_suffix);
        (copy_str(species_name.as_str()), species_name, homeworld_name)
    } else {
        let species_name = build_species_name(root_primary.as_str(), species_suffix);
        let demonym = build_demonym(&catalog.naming, rng, homeworld_name.as_str());
        (species_name, demonym, homeworld_name)
    }
}

/// A generated species as plain values.
pub ghost struct SpeciesView {
    pub species_name: Seq<char>,
    pub demonym: Seq<char>,
    pub homeworld_name: Seq<char>,
    pub star_archetype: EntryView,
    pub origin: EntryView,
    pub gravity: EntryView,
    pub atmosphere: EntryView,
    pub climate: EntryView,
    pub terrain: EntryView,
    pub body_plan: EntryView,
    pub scale: EntryView,
    pub covering: EntryView,
    pub pigmentation: EntryView,
    pub feature: EntryView,
    pub senses: EntryView,
    pub locomotion: EntryView,
    pub adaptation: EntryView,
    pub society: EntryView,
    pub values: EntryView,
    pub technology: EntryView,
    pub interstellar_role: EntryView,
    pub governing_body: Seq<char>,
    pub cosmic_tier: EntryView,
    pub power_source: EntryView,
    pub signature_gift: EntryView,
    pub flight_style: EntryView,
    pub gravitic_traits: Seq<Seq<char>>,
    pub weaknesses: Seq<EntryView>,
    pub tags: Seq<Seq<char>>,
    pub notes: Seq<Seq<char>>,
}

pub open spec fn species_view(p: AlienSpeciesProfile) -> SpeciesView {
    SpeciesView {
        species_name: p.species_name@,
        demonym: p.demonym@,
        homeworld_name: p.homeworld.name@,
        star_archetype: entry_view(p.homeworld.star_archetype),
        origin: entry_view(p.homeworld.origin),
        gravity: entry_view(p.homeworld.gravity),
        atmosphere: entry_view(p.homeworld.atmosphere),
        climate: entry_view(p.homeworld.climate),
        terrain: entry_view(p.homeworld.terrain),
        body_plan: entry_view(p.physiology.body_plan),
        scale: entry_view(p.physiology.scale),
        covering: entry_view(p.physiology.covering),
        pigmentation: entry_view(p.physiology.pigmentation),
        feature: entry_view(p.physiology.feature),
        senses: entry_view(p.physiology.senses),
        locomotion: entry_view(p.physiology.locomotion),
        adaptation: entry_view(p.physiology.adaptation),
        society: entry_view(p.society.society),
        values: entry_view(p.society.values),
        technology: entry_view(p.society.technology),
        interstellar_role: entry_view(p.society.interstellar_role),
        governing_body: p.society.governing_body@,
        cosmic_tier: entry_view(p.capabilities.cosmic_tier),
        power_source: entry_view(p.capabilities.power_source),
        signature_gift: entry_view(p.capabilities.signature_gift),
        flight_style: entry_view(p.capabilities.flight_style),
        gravitic_traits: views(p.capabilities.gravitic_traits@),
        weaknesses: p.weaknesses@.map_values(|e: AlienTableEntry| entry_view(e)),
        tags: views(p.tags@),
        notes: views(p.notes@),
    }
}

/// Each gravitic trait as a tag.
pub open spec fn gravitic_tags(traits: Seq<Seq<char>>) -> Seq<Seq<char>> {
    traits.map_values(|t: Seq<char>| "gravitic:"@ + t)
}

/// The generator seed species generation starts from.
pub open spec fn alien_seed(seed: u64) -> u64 {
    seed ^ fnv1a(vstd::utf8::encode_utf8("alien_generation"@))
}

/// The species a seed generates from a catalog: the naming style and names first, then
/// each trait table in turn, every roll advancing one generator; flight style is rolled
/// with the gravity's modifier; the tags are those of every rolled entry but the
/// weakness, then the gravitic traits, then the weakness's, each once.
pub open spec fn species_of(catalog: AlienGenerationCatalog, seed: u64) -> SpeciesView {
    let t = catalog.tables;
    let style = table_roll(t.naming_style@, TableDie::D6, alien_seed(seed), 0);
    let names = species_names(catalog.naming, style.1, style.0);
    let gov = governing_body_of(catalog.naming, names.1, names.0.2);
    let star = table_roll(t.star_archetype@, TableDie::D6, gov.1, 0);
    let origin = table_roll(t.origin@, TableDie::D6, star.1, 0);
    let gravity = table_roll(t.gravity@, TableDie::TwoD6, origin.1, 0);
    let atmosphere = table_roll(t.atmosphere@, TableDie::TwoD6, gravity.1, 0);
    let climate = table_roll(t.climate@, TableDie::TwoD6, atmosphere.1, 0);
    let terrain = table_roll(t.terrain@, TableDie::D66, climate.1, 0);
    let body_plan = table_roll(t.body_plan@, TableDie::D6, terrain.1, 0);
    let scale = table_roll(t.scale@, TableDie::TwoD6, body_plan.1, 0);
    let covering = table_roll(t.covering@, TableDie::D6, scale.1, 0);
    let pigmentation = table_roll(t.pigmentation@, TableDie::D6, covering.1, 0);
    let feature = table_roll(t.feature@, TableDie::D6, pigmentation.1, 0);
    let senses = table_roll(t.senses@, TableDie::D66, feature.1, 0);
    let locomotion = table_roll(t.locomotion@, TableDie::D6, senses.1, 0);
    let adaptation = table_roll(t.adaptation@, TableDie::D6, locomotion.1, 0);
    let society = table_roll(t.society@, TableDie::TwoD6, adaptation.1, 0);
    let values = table_roll(t.values@, TableDie::TwoD6, society.1, 0);
    let technology = table_roll(t.technology@, TableDie::TwoD6, values.1, 0);
    let role = table_roll(t.interstellar_role@, TableDie::D6, technology.1, 0);
    let tier = table_roll(t.cosmic_tier@, TableDie::D6, role.1, 0);
    let source = table_roll(t.power_source@, TableDie::D6, tier.1, 0);
    let gift = table_roll(t.signature_gift@, TableDie::D6, source.1, 0);
    let flight = table_roll(t.flight_style@, TableDie::D6, gift.1, flight_modifier(gravity.0));
    let traits = gravity_traits(gravity.0);
    let weakness = table_roll(t.weakness@, TableDie::D66, flight.1, 0);
    let tags = add_tags(Seq::empty(), style.0.6);
    let tags = add_tags(tags, star.0.6);
    let tags = add_tags(tags, origin.0.6);
    let tags = add_tags(tags, gravity.0.6);
    let tags = add_tags(tags, atmosphere.0.6);
    let tags = add_tags(tags, climate.0.6);
    let tags = add_tags(tags, terrain.0.6);
    let tags = add_tags(tags, body_plan.0.6);
    let tags = add_tags(tags, scale.0.6);
    let tags = add_tags(tags, covering.0.6);
    let tags = add_tags(tags, pigmentation.0.6);
    let tags = add_tags(tags, feature.0.6);
    let tags = add_tags(tags, senses.0.6);
    let tags = add_tags(tags, locomotion.0.6);
    let tags = add_tags(tags, adaptation.0.6);
    let tags = add_tags(tags, society.0.6);
    let tags = add_tags(tags, values.0.6);
    let tags = add_tags(tags, technology.0.6);
    let tags = add_tags(tags, role.0.6);
    let tags = add_tags(tags, tier.0.6);
    let tags = add_tags(tags, source.0.6);
    let tags = add_tags(tags, gift.0.6);
    let tags = add_tags(tags, flight.0.6);
    SpeciesView {
        species_name: names.0.0,
        demonym: names.0.1,
        homeworld_name: names.0.2,
        star_archetype: star.0,
        origin: origin.0,
        gravity: gravity.0,
        atmosphere: atmosphere.0,
        climate: climate.0,
        terrain: terrain.0,
        body_plan: body_plan.0,
        scale: scale.0,
        covering: covering.0,
        pigmentation: pigmentation.0,
        feature: feature.0,
        senses: senses.0,
        locomotion: locomotion.0,
        adaptation: adaptation.0,
        society: society.0,
        values: values.0,
        technology: technology.0,
        interstellar_role: role.0,
        governing_body: gov.0,
        cosmic_tier: tier.0,
        power_source: source.0,
        signature_gift: gift.0,
        flight_style: flight.0,
        gravitic_traits: traits,
        weaknesses: seq![weakness.0],
        tags: add_tags(add_tags(tags, gravitic_tags(traits)), weakness.0.6),
        notes: Seq::empty(),
    }
}

/// Adds each trait, as `gravitic:<trait>`, when not there yet.
fn add_gravitic_tags(tags: &mut Vec<String>, traits: &Vec<String>)
    ensures
        views(final(tags)@) == add_tags(views(old(tags)@), gravitic_tags(views(traits@))),
{
    let ghost start = views(tags@);
    let ghost all = gravitic_tags(views(traits@));
    assert(all.take(0) =~= Seq::<Seq<char>>::empty());
    let mut i: usize = 0;
    while i < traits.len()
        invariant
            i <= traits@.len(),
            all == gravitic_tags(views(traits@)),
            views(tags@) == add_tags(start, all.take(i as int)),
        decreases traits@.len() - i,
    {
        let tag = concat_str("gravitic:", traits[i].as_str());
        proof {
            reveal_strlit("gravitic:");
        }
        let ghost before = views(tags@);
        push_unique(tags, tag);
        assert(all.take(i + 1).drop_last() =~= all.take(i as int));
        assert(all.take(i + 1).last() == tag@);
        i = i + 1;
    }
    assert(all.take(traits@.len() as int) =~= all);
}

/// Generates a species from a catalog and a seed.
#[verifier::rlimit(40)]
pub fn generate_alien_species(catalog: &AlienGenerationCatalog, seed: u64) -> (p: AlienSpeciesProfile)
    ensures
        p.seed == seed,
        species_view(p) == species_of(*catalog, seed),
{
    let t = &catalog.tables;
    let mut rng: u64 = seed ^ hash_seed("alien_generation");
    let naming_style = roll_table_d6(t.naming_style.as_slice(), &mut rng, 0);
    let (species_name, demonym, homeworld_name) = build_species_names(catalog, &mut rng, &naming_style);
    let governing_body = build_governing_body(catalog, &mut rng, homeworld_name.as_str());
    let star_archetype = roll_table_d6(t.star_archetype.as_slice(), &mut rng, 0);
    let origin = roll_table_d6(t.origin.as_slice(), &mut rng, 0);
    let gravity = roll_table_2d6(t.gravity.as_slice(), &mut rng, 0);
    let atmosphere = roll_table_2d6(t.atmosphere.as_slice(), &mut rng, 0);
    let climate = roll_table_2d6(t.climate.as_slice(), &mut rng, 0);
    let terrain = roll_table_d66(t.terrain.as_slice(), &mut rng, 0);
    let body_plan = roll_table_d6(t.body_plan.as_slice(), &mut rng, 0);
    let scale = roll_table_2d6(t.scale.as_slice(), &mut rng, 0);
    let covering = roll_table_d6(t.covering.as_slice(), &mut rng, 0);
    let pigmentation = roll_table_d6(t.pigmentation.as_slice(), &mut rng, 0);
    let feature = roll_table_d6(t.feature.as_slice(), &mut rng, 0);
    let senses = roll_table_d66(t.senses.as_slice(), &mut rng, 0);
    let locomotion = roll_table_d6(t.locomotion.as_slice(), &mut rng, 0);
    let adaptation = roll_table_d6(t.adaptation.as_slice(), &mut rng, 0);
    let society = roll_table_2d6(t.society.as_slice(), &mut rng, 0);
    let values = roll_table_2d6(t.values.as_slice(), &mut rng, 0);
    let technology = roll_table_2d6(t.technology.as_slice(), &mut rng, 0);
    let interstellar_role = roll_table_d6(t.interstellar_role.as_slice(), &mut rng, 0);
    let cosmic_tier = roll_table_d6(t.cosmic_tier.as_slice(), &mut rng, 0);
    let power_source = roll_table_d6(t.power_source.as_slice(), &mut rng, 0);
    let signature_gift = roll_table_d6(t.signature_gift.as_slice(), &mut rng, 0);
    let flight_mod = flight_mod_from_gravity(&gravity);
    let flight_style = roll_table_d6(t.flight_style.as_slice(), &mut rng, flight_mod);
    let gravitic_traits = derive_gravity_traits(&gravity);
    let weakness = roll_table_d66(t.weakness.as_slice(), &mut rng, 0);

    let mut tags: Vec<String> = Vec::new();
    let ghost e0 = Seq::<Seq<char>>::empty();
    assert(views(tags@) =~= e0);
    collect_entry_tags(&mut tags, &naming_style);
    collect_entry_tags(&mut tags, &star_archetype);
    collect_entry_tags(&mut tags, &origin);
    collect_entry_tags(&mut tags, &gravity);
    collect_entry_tags(&mut tags, &atmosphere);
    collect_entry_tags(&mut tags, &climate);
    collect_entry_tags(&mut tags, &terrain);
    collect_entry_tags(&mut tags, &body_plan);
    collect_entry_tags(&mut tags, &scale);
    collect_entry_tags(&mut tags, &covering);
    collect_entry_tags(&mut tags, &pigmentation);
    collect_entry_tags(&mut tags, &feature);
    collect_entry_tags(&mut tags, &senses);
    collect_entry_tags(&mut tags, &locomotion);
    collect_entry_tags(&mut tags, &adaptation);
    collect_entry_tags(&mut tags, &society);
    collect_entry_tags(&mut tags, &values);
    collect_entry_tags(&mut tags, &technology);
    collect_entry_tags(&mut tags, &interstellar_role);
    collect_entry_tags(&mut tags, &cosmic_tier);
    collect_entry_tags(&mut tags, &power_source);
    collect_entry_tags(&mut tags, &signature_gift);
    collect_entry_tags(&mut tags, &flight_style);
    add_gravitic_tags(&mut tags, &gravitic_traits);
    add_all(&mut tags, &weakness.tags);

    let homeworld = AlienHomeworldProfile {
        name: homeworld_name,
        star_archetype,
        origin,
        gravity,
        atmosphere,
        climate,
        terrain,
    };
    let physiology = AlienPhysiologyProfile {
        body_plan,
        scale,
        covering,
        pigmentation,
        feature,
        senses,
        locomotion,
        adaptation,
    };
    let society_profile = AlienSocietyProfile { society, values, technology, interstellar_role, governing_body };
    let capabilities = AlienCapabilityProfile { cosmic_tier, power_source, signature_gift, flight_style, gravitic_traits };
    let mut weaknesses: Vec<AlienTableEntry> = Vec::new();
    weaknesses.push(weakness);
    let notes: Vec<String> = Vec::new();
    let p = AlienSpeciesProfile {
        seed,
        species_name,
        demonym,
        homeworld,
        physiology,
        society: society_profile,
        capabilities,
        weaknesses,
        tags,
        notes,
    };
    assert(p.weaknesses@.map_values(|e: AlienTableEntry| entry_view(e)) =~= seq![entry_view(p.weaknesses@[0])]);
    assert(views(p.notes@) =~= Seq::<Seq<char>>::empty());
    p
}


/// Items joined with a separator between them.
pub open spec fn joined(items: Seq<Seq<char>>, sep: Seq<char>) -> Seq<char>
    decreases items.len(),
{
    if items.len() == 0 {
        Seq::empty()
    } else if items.len() == 1 {
        items[0]
    } else {
        joined(items.drop_last(), sep) + sep + items.last()
    }
}

/// `items.join(sep)`.
pub fn join_strings(items: &Vec<String>, sep: &str) -> (r: String)
    ensures
        r@ == joined(views(items@), sep@),
{
    let ghost all = views(items@);
    let mut out = String::new();
    let mut i: usize = 0;
    assert(all.take(0) =~= Seq::<Seq<char>>::empty());
    while i < items.len()
        invariant
            i <= items@.len(),
            all == views(items@),
            out@ == joined(all.take(i as int), sep@),
        decreases items@.len() - i,
    {
        assert(all.take(i + 1).drop_last() =~= all.take(i as int));
        assert(all.take(i + 1).last() == items@[i as int]@);
        if i > 0 {
            out.append(sep);
        } else {
            assert(all.take(1) =~= seq![items@[0]@]);
        }
        out.append(items[i].as_str());
        i = i + 1;
    }
    assert(all.take(items@.len() as int) =~= all);
    out
}

/// The summary lines of a species, and with `detail` the lines that describe it further.
pub open spec fn profile_lines(p: SpeciesView, detail: bool) -> Seq<Seq<char>> {
    let base = seq![
        "Alien species: "@ + p.species_name + " ("@ + p.demonym + ")"@,
        "Homeworld: "@ + p.homeworld_name + " | star: "@ + p.star_archetype.4 + " | gravity: "@ + p.gravity.4
            + " | climate: "@ + p.climate.4,
        "Physiology: "@ + p.body_plan.4 + " | "@ + p.scale.4 + " | "@ + p.covering.4 + " | "@ + p.senses.4,
        "Culture: "@ + p.society.4 + " | values: "@ + p.values.4 + " | tech: "@ + p.technology.4 + " | role: "@
            + p.interstellar_role.4,
        "Capabilities: "@ + p.power_source.4 + " | gift: "@ + p.signature_gift.4 + " | flight: "@
            + p.flight_style.4 + " | tier: "@ + p.cosmic_tier.4,
    ];
    let with_weakness = if p.weaknesses.len() > 0 {
        base.push("Weakness: "@ + p.weaknesses[0].4)
    } else {
        base
    };
    let summary = if p.tags.len() > 0 {
        with_weakness.push("Tags: "@ + joined(p.tags, ", "@))
    } else {
        with_weakness
    };
    if !detail {
        summary
    } else {
        let described_lines = summary + seq![
            "Origin: "@ + described(p.origin),
            "Atmosphere: "@ + described(p.atmosphere),
            "Terrain: "@ + described(p.terrain),
            "Pigmentation: "@ + described(p.pigmentation),
            "Distinguishing feature: "@ + described(p.feature),
            "Locomotion: "@ + described(p.locomotion),
            "Adaptation: "@ + described(p.adaptation),
            "Governing body: "@ + p.governing_body,
        ];
        let with_traits = if p.gravitic_traits.len() > 0 {
            described_lines.push("Gravitic traits: "@ + joined(p.gravitic_traits, ", "@))
        } else {
            described_lines
        };
        let with_detail = if p.weaknesses.len() > 0 && p.weaknesses[0].5 is Some {
            with_traits.push("Weakness detail: "@ + p.weaknesses[0].5->0)
        } else {
            with_traits
        };
        with_detail + p.notes.map_values(|n: Seq<char>| "Note: "@ + n)
    }
}

fn push_line(lines: &mut Vec<String>, line: String)
    ensures
        views(final(lines)@) == views(old(lines)@).push(line@),
{
    let ghost before = lines@;
    lines.push(line);
    assert(views(lines@) =~= views(before).push(line@));
}

fn labelled(label: &str, value: &str) -> (r: String)
    ensures
        r@ == label@ + value@,
{
    concat_str(label, value)
}

/// The detailed profile begins with the summary and adds eight described lines, a line
/// of gravitic traits and one of weakness detail where there are any, and one line per
/// note.
pub proof fn law_detail_extends_summary(p: SpeciesView)
    ensures
        profile_lines(p, true).take(profile_lines(p, false).len() as int) == profile_lines(p, false),
        profile_lines(p, true).len() == profile_lines(p, false).len() + 8 + (if p.gravitic_traits.len() > 0 {
            1int
        } else {
            0int
        }) + (if p.weaknesses.len() > 0 && p.weaknesses[0].5 is Some {
            1int
        } else {
            0int
        }) + p.notes.len(),
{
    assert(profile_lines(p, true).take(profile_lines(p, false).len() as int) =~= profile_lines(p, false));
}

/// The lines that describe a species.
#[verifier::rlimit(40)]
pub fn format_alien_profile(profile: &AlienSpeciesProfile, detail: bool) -> (lines: Vec<String>)
    ensures
        views(lines@) == profile_lines(species_view(*profile), detail),
{
    let ghost pv = species_view(*profile);
    let mut lines: Vec<String> = Vec::new();
    let mut l = labelled("Alien species: ", profile.species_name.as_str());
    l.append(" (");
    l.append(profile.demonym.as_str());
    l.append(")");
    let ghost l0 = l@;
    lines.push(l);
    let mut l = labelled("Homeworld: ", profile.homeworld.name.as_str());
    l.append(" | star: ");
    l.append(profile.homeworld.star_archetype.label.as_str());
    l.append(" | gravity: ");
    l.append(profile.homeworld.gravity.label.as_str());
    l.append(" | climate: ");
    l.append(profile.homeworld.climate.label.as_str());
    let ghost l1 = l@;
    lines.push(l);
    let mut l = labelled("Physiology: ", profile.physiology.body_plan.label.as_str());
    l.append(" | ");
    l.append(profile.physiology.scale.label.as_str());
    l.append(" | ");
    l.append(profile.physiology.covering.label.as_str());
    l.append(" | ");
    l.append(profile.physiology.senses.label.as_str());
    let ghost l2 = l@;
    lines.push(l);
    let mut l = labelled("Culture: ", profile.society.society.label.as_str());
    l.append(" | values: ");
    l.append(profile.society.values.label.as_str());
    l.append(" | tech: ");
    l.append(profile.society.technology.label.as_str());
    l.append(" | role: ");
    l.append(profile.society.interstellar_role.label.as_str());
    let ghost l3 = l@;
    lines.push(l);
    let mut l = labelled("Capabilities: ", profile.capabilities.power_source.label.as_str());
    l.append(" | gift: ");
    l.append(profile.capabilities.signature_gift.label.as_str());
    l.append(" | flight: ");
    l.append(profile.capabilities.flight_style.label.as_str());
    l.append(" | tier: ");
    l.append(profile.capabilities.cosmic_tier.label.as_str());
    let ghost l4 = l@;
    lines.push(l);
    assert(views(lines@) =~= seq![l0, l1, l2, l3, l4]);
    if profile.weaknesses.len() > 0 {
        assert(pv.weaknesses[0] == entry_view(profile.weaknesses@[0]));
        push_line(&mut lines, labelled("Weakness: ", profile.weaknesses[0].label.as_str()));
    }
    if profile.tags.len() > 0 {
        let joined_tags = join_strings(&profile.tags, ", ");
        push_line(&mut lines, labelled("Tags: ", joined_tags.as_str()));
    }
    if detail {
        let ghost summary = views(lines@);
        let o = describe_entry(&profile.homeworld.origin);
        push_line(&mut lines, labelled("Origin: ", o.as_str()));
        let a = describe_entry(&profile.homeworld.atmosphere);
        push_line(&mut lines, labelled("Atmosphere: ", a.as_str()));
        let t = describe_entry(&profile.homeworld.terrain);
        push_line(&mut lines, labelled("Terrain: ", t.as_str()));
        let pg = describe_entry(&profile.physiology.pigmentation);
        push_line(&mut lines, labelled("Pigmentation: ", pg.as_str()));
        let f = describe_entry(&profile.physiology.feature);
        push_line(&mut lines, labelled("Distinguishing feature: ", f.as_str()));
        let lo = describe_entry(&profile.physiology.locomotion);
        push_line(&mut lines, labelled("Locomotion: ", lo.as_str()));
        let ad = describe_entry(&profile.physiology.adaptation);
        push_line(&mut lines, labelled("Adaptation: ", ad.as_str()));
        push_line(&mut lines, labelled("Governing body: ", profile.society.governing_body.as_str()));
        assert(views(lines@) =~= summary + seq![
            "Origin: "@ + described(pv.origin),
            "Atmosphere: "@ + described(pv.atmosphere),
            "Terrain: "@ + described(pv.terrain),
            "Pigmentation: "@ + described(pv.pigmentation),
            "Distinguishing feature: "@ + described(pv.feature),
            "Locomotion: "@ + described(pv.locomotion),
            "Adaptation: "@ + described(pv.adaptation),
            "Governing body: "@ + pv.governing_body,
        ]);
        if profile.capabilities.gravitic_traits.len() > 0 {
            let joined_traits = join_strings(&profile.capabilities.gravitic_traits, ", ");
            push_line(&mut lines, labelled("Gravitic traits: ", joined_traits.as_str()));
        }
        if profile.weaknesses.len() > 0 {
            assert(pv.weaknesses[0] == entry_view(profile.weaknesses@[0]));
            if let Some(d) = &profile.weaknesses[0].detail {
                push_line(&mut lines, labelled("Weakness detail: ", d.as_str()));
            }
        }
        let ghost before_notes = views(lines@);
        let mut i: usize = 0;
        while i < profile.notes.len()
            invariant
                i <= profile.notes@.len(),
                pv == species_view(*profile),
                views(lines@) == before_notes + pv.notes.take(i as int).map_values(|n: Seq<char>| "Note: "@ + n),
            decreases profile.notes@.len() - i,
        {
            push_line(&mut lines, labelled("Note: ", profile.notes[i].as_str()));
            assert(pv.notes.take(i + 1).map_values(|n: Seq<char>| "Note: "@ + n) =~= pv.notes.take(i as int).map_values(
                |n: Seq<char>| "Note: "@ + n).push("Note: "@ + profile.notes@[i as int]@));
            i = i + 1;
        }
        assert(pv.notes.take(profile.notes@.len() as int) =~= pv.notes);
    }
    lines
}

/// A species never lists a tag twice.
pub proof fn law_species_tags_distinct(catalog: AlienGenerationCatalog, seed: u64)
    ensures
        species_of(catalog, seed).tags.no_duplicates(),
{
    let t = catalog.tables;
    let style = table_roll(t.naming_style@, TableDie::D6, alien_seed(seed), 0);
    let names = species_names(catalog.naming, style.1, style.0);
    let gov = governing_body_of(catalog.naming, names.1, names.0.2);
    let star = table_roll(t.star_archetype@, TableDie::D6, gov.1, 0);
    let origin = table_roll(t.origin@, TableDie::D6, star.1, 0);
    let gravity = table_roll(t.gravity@, TableDie::TwoD6, origin.1, 0);
    let atmosphere = table_roll(t.atmosphere@, TableDie::TwoD6, gravity.1, 0);
    let climate = table_roll(t.climate@, TableDie::TwoD6, atmosphere.1, 0);
    let terrain = table_roll(t.terrain@, TableDie::D66, climate.1, 0);
    let body_plan = table_roll(t.body_plan@, TableDie::D6, terrain.1, 0);
    let scale = table_roll(t.scale@, TableDie::TwoD6, body_plan.1, 0);
    let covering = table_roll(t.covering@, TableDie::D6, scale.1, 0);
    let pigmentation = table_roll(t.pigmentation@, TableDie::D6, covering.1, 0);
    let feature = table_roll(t.feature@, TableDie::D6, pigmentation.1, 0);
    let senses = table_roll(t.senses@, TableDie::D66, feature.1, 0);
    let locomotion = table_roll(t.locomotion@, TableDie::D6, senses.1, 0);
    let adaptation = table_roll(t.adaptation@, TableDie::D6, locomotion.1, 0);
    let society = table_roll(t.society@, TableDie::TwoD6, adaptation.1, 0);
    let values = table_roll(t.values@, TableDie::TwoD6, society.1, 0);
    let technology = table_roll(t.technology@, TableDie::TwoD6, values.1, 0);
    let role = table_roll(t.interstellar_role@, TableDie::D6, technology.1, 0);
    let tier = table_roll(t.cosmic_tier@, TableDie::D6, role.1, 0);
    let source = table_roll(t.power_source@, TableDie::D6, tier.1, 0);
    let gift = table_roll(t.signature_gift@, TableDie::D6, source.1, 0);
    let flight = table_roll(t.flight_style@, TableDie::D6, gift.1, flight_modifier(gravity.0));
    let traits = gravity_traits(gravity.0);
    let weakness = table_roll(t.weakness@, TableDie::D66, flight.1, 0);
    let e = Seq::<Seq<char>>::empty();
    lemma_add_tags_distinct(e, style.0.6);
    let tags = add_tags(e, style.0.6);
    lemma_add_tags_distinct(tags, star.0.6);
    let tags = add_tags(tags, star.0.6);
    lemma_add_tags_distinct(tags, origin.0.6);
    let tags = add_tags(tags, origin.0.6);
    lemma_add_tags_distinct(tags, gravity.0.6);
    let tags = add_tags(tags, gravity.0.6);
    lemma_add_tags_distinct(tags, atmosphere.0.6);
    let tags = add_tags(tags, atmosphere.0.6);
    lemma_add_tags_distinct(tags, climate.0.6);
    let tags = add_tags(tags, climate.0.6);
    lemma_add_tags_distinct(tags, terrain.0.6);
    let tags = add_tags(tags, terrain.0.6);
    lemma_add_tags_distinct(tags, body_plan.0.6);
    let tags = add_tags(tags, body_plan.0.6);
    lemma_add_tags_distinct(tags, scale.0.6);
    let tags = add_tags(tags, scale.0.6);
    lemma_add_tags_distinct(tags, covering.0.6);
    let tags = add_tags(tags, covering.0.6);
    lemma_add_tags_distinct(tags, pigmentation.0.6);
    let tags = add_tags(tags, pigmentation.0.6);
    lemma_add_tags_distinct(tags, feature.0.6);
    let tags = add_tags(tags, feature.0.6);
    lemma_add_tags_distinct(tags, senses.0.6);
    let tags = add_tags(tags, senses.0.6);
    lemma_add_tags_distinct(tags, locomotion.0.6);
    let tags = add_tags(tags, locomotion.0.6);
    lemma_add_tags_distinct(tags, adaptation.0.6);
    let tags = add_tags(tags, adaptation.0.6);
    lemma_add_tags_distinct(tags, society.0.6);
    let tags = add_tags(tags, society.0.6);
    lemma_add_tags_distinct(tags, values.0.6);
    let tags = add_tags(tags, values.0.6);
    lemma_add_tags_distinct(tags, technology.0.6);
    let tags = add_tags(tags, technology.0.6);
    lemma_add_tags_distinct(tags, role.0.6);
    let tags = add_tags(tags, role.0.6);
    lemma_add_tags_distinct(tags, tier.0.6);
    let tags = add_tags(tags, tier.0.6);
    lemma_add_tags_distinct(tags, source.0.6);
    let tags = add_tags(tags, source.0.6);
    lemma_add_tags_distinct(tags, gift.0.6);
    let tags = add_tags(tags, gift.0.6);
    lemma_add_tags_distinct(tags, flight.0.6);
    let tags = add_tags(tags, flight.0.6);
    lemma_add_tags_distinct(tags, gravitic_tags(traits));
    let tags = add_tags(tags, gravitic_tags(traits));
    lemma_add_tags_distinct(tags, weakness.0.6);
}
} // verus!

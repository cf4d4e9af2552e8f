use vstd::prelude::*;

use crate::content::repository::{PowerId, PowerRepository};
use crate::rng::{fnv1a, hash_seed, lcg_step, next_u64};
use crate::simulation::alien::AlienSpeciesProfile;
use crate::data::omni_powers::OmniPowerCatalog;
use crate::data::omni_powers::OmniPowerDefinition;
use crate::simulation::cosmic::{
    assigned_view, may_assign, omni_fold, OmniPowerRegistry, OmniRollConfig, PowerLookup, RegistryView,
    DEFAULT_OMNI_DENOMINATOR,
};
use crate::text::{
    add_tags, concat_str, contains_str, copy_str, extend_copies, has_prefix, insert_new, lower_chars,
    push_literal, push_unique, str_eq, strip_prefix, to_ascii_lowercase, views,
};
use crate::weighted::{lemma_swap_removed_parts, swap_removed};

verus! {

broadcast use vstd::string::group_string_axioms;

pub const DEFAULT_EXPRESSION_MIN: u32 = 1;

pub const DEFAULT_EXPRESSION_MAX: u32 = 2;

/// Chance in a hundred that a parent carries the mutant gene.
pub const DEFAULT_PARENT_MUTANT_CHANCE: u32 = 2;

/// Chance in a hundred that a carrier parent has two copies of it.
pub const DEFAULT_PARENT_HOMOZYGOUS_CHANCE: u32 = 4;

/// Chance in a hundred, per mutant parent, of an omega parent.
pub const DEFAULT_OMEGA_PARENT_CHANCE: u32 = 2;

pub const DEFAULT_PARENT_POWERS_SINGLE_MIN: u32 = 1;

pub const DEFAULT_PARENT_POWERS_SINGLE_MAX: u32 = 2;

pub const DEFAULT_PARENT_POWERS_DUAL_MIN: u32 = 2;

pub const DEFAULT_PARENT_POWERS_DUAL_MAX: u32 = 4;

pub struct PowerAssignmentConfig {
    pub expression_min: u32,
    pub expression_max: u32,
    pub omni_roll: OmniRollConfig,
}

impl Default for PowerAssignmentConfig {
    fn default() -> (c: PowerAssignmentConfig)
        ensures
            c.expression_min == DEFAULT_EXPRESSION_MIN,
            c.expression_max == DEFAULT_EXPRESSION_MAX,
            c.omni_roll.denominator == DEFAULT_OMNI_DENOMINATOR,
    {
        PowerAssignmentConfig {
            expression_min: DEFAULT_EXPRESSION_MIN,
            expression_max: DEFAULT_EXPRESSION_MAX,
            omni_roll: OmniRollConfig::default(),
        }
    }
}

pub struct MutantInheritanceProfile {
    pub parent_powers: Vec<PowerId>,
    pub omega_parent: bool,
}

pub struct MutantLineageOutcome {
    pub mutant_gene: bool,
    pub inheritance: Option<MutantInheritanceProfile>,
    pub notes: Vec<String>,
}

pub struct PowerAssignmentResult {
    pub baseline: Option<PowerId>,
    pub expressions: Vec<PowerId>,
    pub omni: Vec<PowerId>,
    pub notes: Vec<String>,
}

#[derive(Debug)]
pub enum PowerAssignmentError {
    Repository(String),
    InvalidConfig(String),
}

impl PowerAssignmentError {
    /// The error as text.
    pub fn message(&self) -> (m: String)
        ensures
            m@ == match *self {
                PowerAssignmentError::Repository(e) => "repository error: "@ + e@,
                PowerAssignmentError::InvalidConfig(e) => e@,
            },
    {
        match self {
            PowerAssignmentError::Repository(e) => concat_str("repository error: ", e.as_str()),
            PowerAssignmentError::InvalidConfig(e) => copy_str(e.as_str()),
        }
    }
}

/// The message a configuration is refused with, if it is.
pub open spec fn config_fault(c: PowerAssignmentConfig) -> Option<Seq<char>> {
    if c.expression_min == 0 || c.expression_max == 0 {
        Some("expression count must be >= 1"@)
    } else if c.expression_min > c.expression_max {
        Some("expression_min cannot exceed expression_max"@)
    } else {
        None
    }
}

pub fn validate_config(config: &PowerAssignmentConfig) -> (r: Result<(), PowerAssignmentError>)
    ensures
        match config_fault(*config) {
            None => r is Ok,
            Some(m) => r matches Err(PowerAssignmentError::InvalidConfig(msg)) && msg@ == m,
        },
{
    if config.expression_min == 0 || config.expression_max == 0 {
        return Err(PowerAssignmentError::InvalidConfig(copy_str("expression count must be >= 1")));
    }
    if config.expression_min > config.expression_max {
        return Err(PowerAssignmentError::InvalidConfig(copy_str("expression_min cannot exceed expression_max")));
    }
    Ok(())
}

/// A roll in `min..=max`, and the generator after it; with no span, `min` and no draw.
pub open spec fn range_roll(rng: u64, min: u32, max: u32) -> (u32, u64) {
    if min >= max {
        (min, rng)
    } else {
        let n = lcg_step(rng);
        ((min + n as int % (max - min + 1)) as u32, n)
    }
}

pub fn roll_range(rng: &mut u64, min: u32, max: u32) -> (r: u32)
    requires
        max - min < u32::MAX,
    ensures
        (r, *final(rng)) == range_roll(*old(rng), min, max),
        min < max ==> min <= r <= max,
{
    if min >= max {
        return min;
    }
    let span: u32 = max - min + 1;
    min + (next_u64(rng) % (span as u64)) as u32
}

/// Whether a roll of 1 to 100 comes within `percent`, and the generator after it; a zero
/// chance draws nothing.
pub open spec fn percent_roll(rng: u64, percent: u32) -> (bool, u64) {
    if percent == 0 {
        (false, rng)
    } else {
        let n = lcg_step(rng);
        (n as int % 100 + 1 <= (if percent < 100 { percent as int } else { 100 }), n)
    }
}

pub fn roll_percent(rng: &mut u64, percent: u32) -> (b: bool)
    ensures
        (b, *final(rng)) == percent_roll(*old(rng), percent),
{
    if percent == 0 {
        return false;
    }
    let roll: u32 = (next_u64(rng) % 100) as u32 + 1;
    roll <= if percent < 100 { percent } else { 100 }
}

/// Lowercased values, each once, in the order first seen.
pub open spec fn deduped_lower(values: Seq<Seq<char>>) -> Seq<Seq<char>> {
    add_tags(Seq::empty(), values.map_values(|v: Seq<char>| lower_chars(v)))
}

pub fn dedupe_lowercase(values: Vec<String>) -> (r: Vec<String>)
    ensures
        views(r@) == deduped_lower(views(values@)),
{
    let ghost all = views(values@).map_values(|v: Seq<char>| lower_chars(v));
    let mut out: Vec<String> = Vec::new();
    assert(all.take(0) =~= Seq::<Seq<char>>::empty());
    assert(views(out@) =~= Seq::<Seq<char>>::empty());
    let mut i: usize = 0;
    while i < values.len()
        invariant
            i <= values@.len(),
            all == views(values@).map_values(|v: Seq<char>| lower_chars(v)),
            views(out@) == add_tags(Seq::empty(), all.take(i as int)),
        decreases values@.len() - i,
    {
        let norm = to_ascii_lowercase(values[i].as_str());
        push_unique(&mut out, norm);
        assert(all.take(i + 1).drop_last() =~= all.take(i as int));
        assert(all.take(i + 1).last() == lower_chars(values@[i as int]@));
        i = i + 1;
    }
    assert(all.take(values@.len() as int) =~= all);
    out
}

/// The power tag a species tag names: `power:x` and `tag:x` name `x`, lowercased.
pub open spec fn named_power_tag(t: Seq<char>) -> Option<Seq<char>> {
    if has_prefix(t, "power:"@) {
        Some(lower_chars(t.skip(6)))
    } else if has_prefix(t, "tag:"@) {
        Some(lower_chars(t.skip(4)))
    } else {
        None
    }
}

/// The power tags that a list of species tags names, in order.
pub open spec fn power_tags_named(tags: Seq<Seq<char>>) -> Seq<Seq<char>>
    decreases tags.len(),
{
    if tags.len() == 0 {
        Seq::empty()
    } else {
        let prev = power_tags_named(tags.drop_last());
        match named_power_tag(tags.last()) {
            Some(t) => prev.push(t),
            None => prev,
        }
    }
}

pub fn extract_power_tags(tags: &[String]) -> (out: Vec<String>)
    ensures
        views(out@) == power_tags_named(views(tags@)),
{
    proof {
        reveal_strlit("power:");
        reveal_strlit("tag:");
    }
    let ghost all = views(tags@);
    let mut out: Vec<String> = Vec::new();
    assert(all.take(0) =~= Seq::<Seq<char>>::empty());
    assert(views(out@) =~= Seq::<Seq<char>>::empty());
    let mut i: usize = 0;
    while i < tags.len()
        invariant
            i <= tags@.len(),
            all == views(tags@),
            views(out@) == power_tags_named(all.take(i as int)),
            "power:"@.len() == 6,
            "tag:"@.len() == 4,
        decreases tags@.len() - i,
    {
        assert(all.take(i + 1).drop_last() =~= all.take(i as int));
        assert(all.take(i + 1).last() == tags@[i as int]@);
        let ghost before = out@;
        match strip_prefix(tags[i].as_str(), "power:") {
            Some(value) => {
                out.push(to_ascii_lowercase(value.as_str()));
                assert(views(out@) =~= views(before).push(out@.last()@));
            },
            None => match strip_prefix(tags[i].as_str(), "tag:") {
                Some(value) => {
                    out.push(to_ascii_lowercase(value.as_str()));
                    assert(views(out@) =~= views(before).push(out@.last()@));
                },
                None => {},
            },
        }
        i = i + 1;
    }
    assert(all.take(tags@.len() as int) =~= all);
    out
}

/// The tags every mutant is drawn toward.
pub open spec fn mutant_affinity() -> Seq<Seq<char>> {
    seq!["mutation"@, "mutant"@, "genetic"@, "dna"@]
}

/// The tags kept from a mutant: apex powers always, cosmic ones unless a parent is omega.
pub open spec fn mutant_blocked(omega_parent: bool) -> Seq<Seq<char>> {
    let base = seq!["tier:apex"@, "omni"@];
    if omega_parent {
        base
    } else {
        base + seq!["cosmic"@, "tier:cosmic"@, "universal"@, "universe"@, "multiverse"@, "godlike"@]
    }
}

pub fn mutant_affinity_tags() -> (r: Vec<String>)
    ensures
        views(r@) == mutant_affinity(),
{
    let mut r: Vec<String> = Vec::new();
    assert(views(r@) =~= Seq::<Seq<char>>::empty());
    push_literal(&mut r, "mutation");
    push_literal(&mut r, "mutant");
    push_literal(&mut r, "genetic");
    push_literal(&mut r, "dna");
    assert(views(r@) =~= mutant_affinity());
    r
}

pub fn mutant_blocked_tags(omega_parent: bool) -> (r: Vec<String>)
    ensures
        views(r@) == mutant_blocked(omega_parent),
{
    let mut r: Vec<String> = Vec::new();
    assert(views(r@) =~= Seq::<Seq<char>>::empty());
    push_literal(&mut r, "tier:apex");
    push_literal(&mut r, "omni");
    if !omega_parent {
        push_literal(&mut r, "cosmic");
        push_literal(&mut r, "tier:cosmic");
        push_literal(&mut r, "universal");
        push_literal(&mut r, "universe");
        push_literal(&mut r, "multiverse");
        push_literal(&mut r, "godlike");
    }
    assert(views(r@) =~= mutant_blocked(omega_parent));
    r
}

/// How many copies of the mutant gene a parent carries.
#[derive(Debug, Clone, Copy, PartialEq, Eq, Structural)]
pub enum ParentGenotype {
    Normal,
    Hetero,
    Homo,
}

impl ParentGenotype {
    pub fn is_mutant(self) -> (b: bool)
        ensures
            b == (self != ParentGenotype::Normal),
    {
        match self {
            ParentGenotype::Normal => false,
            _ => true,
        }
    }
}

/// A parent's genotype: a carrier on a roll within the mutant chance, and then
/// homozygous on a roll within the homozygous chance.
pub open spec fn genotype_roll(rng: u64) -> (ParentGenotype, u64) {
    let carrier = percent_roll(rng, DEFAULT_PARENT_MUTANT_CHANCE);
    if !carrier.0 {
        (ParentGenotype::Normal, carrier.1)
    } else {
        let homo = percent_roll(carrier.1, DEFAULT_PARENT_HOMOZYGOUS_CHANCE);
        (if homo.0 { ParentGenotype::Homo } else { ParentGenotype::Hetero }, homo.1)
    }
}

pub fn roll_parent_genotype(rng: &mut u64) -> (g: ParentGenotype)
    ensures
        (g, *final(rng)) == genotype_roll(*old(rng)),
{
    if !roll_percent(rng, DEFAULT_PARENT_MUTANT_CHANCE) {
        return ParentGenotype::Normal;
    }
    if roll_percent(rng, DEFAULT_PARENT_HOMOZYGOUS_CHANCE) {
        ParentGenotype::Homo
    } else {
        ParentGenotype::Hetero
    }
}

/// Whether a child inherits the gene: always from a homozygous parent, on a 75% roll from
/// two carriers, on a 50% roll from one, never from none.
pub open spec fn inheritance_roll(rng: u64, a: ParentGenotype, b: ParentGenotype) -> (bool, u64) {
    if a == ParentGenotype::Homo || b == ParentGenotype::Homo {
        (true, rng)
    } else if a == ParentGenotype::Hetero && b == ParentGenotype::Hetero {
        percent_roll(rng, 75)
    } else if a == ParentGenotype::Hetero || b == ParentGenotype::Hetero {
        percent_roll(rng, 50)
    } else {
        (false, rng)
    }
}

pub fn child_inherits_mutation(rng: &mut u64, a: ParentGenotype, b: ParentGenotype) -> (inherits: bool)
    ensures
        (inherits, *final(rng)) == inheritance_roll(*old(rng), a, b),
{
    match (a, b) {
        (ParentGenotype::Homo, _) | (_, ParentGenotype::Homo) => true,
        (ParentGenotype::Hetero, ParentGenotype::Hetero) => roll_percent(rng, 75),
        (ParentGenotype::Hetero, ParentGenotype::Normal) | (ParentGenotype::Normal, ParentGenotype::Hetero) => roll_percent(rng, 50),
        _ => false,
    }
}

/// How many powers the parents pass on: one to two from one mutant parent, two to four
/// from two; an omega parent adds one, and another on a 35% roll.
pub open spec fn parent_power_count_roll(rng: u64, mutant_parent_count: u8, omega_parent: bool) -> (u32, u64) {
    let r = if mutant_parent_count >= 2 {
        range_roll(rng, DEFAULT_PARENT_POWERS_DUAL_MIN, DEFAULT_PARENT_POWERS_DUAL_MAX)
    } else {
        range_roll(rng, DEFAULT_PARENT_POWERS_SINGLE_MIN, DEFAULT_PARENT_POWERS_SINGLE_MAX)
    };
    if omega_parent {
        let extra = percent_roll(r.1, 35);
        ((r.0 + 1 + if extra.0 { 1int } else { 0int }) as u32, extra.1)
    } else {
        r
    }
}

pub fn roll_parent_power_count(rng: &mut u64, mutant_parent_count: u8, omega_parent: bool) -> (count: u32)
    ensures
        (count, *final(rng)) == parent_power_count_roll(*old(rng), mutant_parent_count, omega_parent),
        count <= 6,
{
    let (min, max) = if mutant_parent_count >= 2 {
        (DEFAULT_PARENT_POWERS_DUAL_MIN, DEFAULT_PARENT_POWERS_DUAL_MAX)
    } else {
        (DEFAULT_PARENT_POWERS_SINGLE_MIN, DEFAULT_PARENT_POWERS_SINGLE_MAX)
    };
    let mut count = roll_range(rng, min, max);
    if omega_parent {
        count = count + 1;
        if roll_percent(rng, 35) {
            count = count + 1;
        }
    }
    count
}


/// The tags of each power domain, by domain name.
pub open spec fn domain_table() -> Seq<(Seq<char>, Seq<Seq<char>>)> {
    seq![
        ("time"@, seq!["domain:time"@, "time"@, "temporal"@, "chrono"@, "chronal"@]),
        ("space"@, seq!["domain:space"@, "space"@, "teleport"@, "teleportation"@, "portal"@, "warp"@]),
        ("reality"@, seq![
            "domain:reality"@, "reality"@, "dimension"@, "dimensional"@, "universe"@, "multiverse"@,
            "omniverse"@,
        ]),
        ("divine"@, seq![
            "domain:divine"@, "divine"@, "god"@, "godlike"@, "angel"@, "demon"@, "holy"@, "sacred"@,
            "celestial"@,
        ]),
        ("psionic"@, seq![
            "domain:psionic"@, "psychic"@, "mind"@, "mental"@, "psionic"@, "telepathy"@, "telekinesis"@,
        ]),
        ("energy"@, seq![
            "domain:energy"@, "energy"@, "light"@, "fire"@, "heat"@, "electricity"@, "electric"@,
            "radiation"@, "plasma"@,
        ]),
    ]
}

pub open spec fn domain_view(d: Seq<(String, Vec<String>)>) -> Seq<(Seq<char>, Seq<Seq<char>>)> {
    d.map_values(|p: (String, Vec<String>)| (p.0@, views(p.1@)))
}

fn domain_entry(name: &str, tags: Vec<String>) -> (r: (String, Vec<String>))
    ensures
        r.0@ == name@,
        r.1@ == tags@,
{
    (copy_str(name), tags)
}

/// The power domains and their tags.
pub fn domain_power_tags() -> (r: Vec<(String, Vec<String>)>)
    ensures
        domain_view(r@) == domain_table(),
{
    let mut r: Vec<(String, Vec<String>)> = Vec::new();
    let mut t: Vec<String> = Vec::new();
    assert(views(t@) =~= Seq::<Seq<char>>::empty());
    push_literal(&mut t, "domain:time");
    push_literal(&mut t, "time");
    push_literal(&mut t, "temporal");
    push_literal(&mut t, "chrono");
    push_literal(&mut t, "chronal");
    assert(views(t@) =~= seq!["domain:time"@, "time"@, "temporal"@, "chrono"@, "chronal"@]);
    let ghost v0 = views(t@);
    r.push(domain_entry("time", t));
    let mut t: Vec<String> = Vec::new();
    assert(views(t@) =~= Seq::<Seq<char>>::empty());
    push_literal(&mut t, "domain:space");
    push_literal(&mut t, "space");
    push_literal(&mut t, "teleport");
    push_literal(&mut t, "teleportation");
    push_literal(&mut t, "portal");
    push_literal(&mut t, "warp");
    assert(views(t@) =~= seq!["domain:space"@, "space"@, "teleport"@, "teleportation"@, "portal"@, "warp"@]);
    let ghost v1 = views(t@);
    r.push(domain_entry("space", t));
    let mut t: Vec<String> = Vec::new();
    assert(views(t@) =~= Seq::<Seq<char>>::empty());
    push_literal(&mut t, "domain:reality");
    push_literal(&mut t, "reality");
    push_literal(&mut t, "dimension");
    push_literal(&mut t, "dimensional");
    push_literal(&mut t, "universe");
    push_literal(&mut t, "multiverse");
    push_literal(&mut t, "omniverse");
    assert(views(t@) =~= seq!["domain:reality"@, "reality"@, "dimension"@, "dimensional"@, "universe"@, "multiverse"@, "omniverse"@]);
    let ghost v2 = views(t@);
    r.push(domain_entry("reality", t));
    let mut t: Vec<String> = Vec::new();
    assert(views(t@) =~= Seq::<Seq<char>>::empty());
    push_literal(&mut t, "domain:divine");
    push_literal(&mut t, "divine");
    push_literal(&mut t, "god");
    push_literal(&mut t, "godlike");
    push_literal(&mut t, "angel");
    push_literal(&mut t, "demon");
    push_literal(&mut t, "holy");
    push_literal(&mut t, "sacred");
    push_literal(&mut t, "celestial");
    assert(views(t@) =~= seq!["domain:divine"@, "divine"@, "god"@, "godlike"@, "angel"@, "demon"@, "holy"@, "sacred"@, "celestial"@]);
    let ghost v3 = views(t@);
    r.push(domain_entry("divine", t));
    let mut t: Vec<String> = Vec::new();
    assert(views(t@) =~= Seq::<Seq<char>>::empty());
    push_literal(&mut t, "domain:psionic");
    push_literal(&mut t, "psychic");
    push_literal(&mut t, "mind");
    push_literal(&mut t, "mental");
    push_literal(&mut t, "psionic");
    push_literal(&mut t, "telepathy");
    push_literal(&mut t, "telekinesis");
    assert(views(t@) =~= seq!["domain:psionic"@, "psychic"@, "mind"@, "mental"@, "psionic"@, "telepathy"@, "telekinesis"@]);
    let ghost v4 = views(t@);
    r.push(domain_entry("psionic", t));
    let mut t: Vec<String> = Vec::new();
    assert(views(t@) =~= Seq::<Seq<char>>::empty());
    push_literal(&mut t, "domain:energy");
    push_literal(&mut t, "energy");
    push_literal(&mut t, "light");
    push_literal(&mut t, "fire");
    push_literal(&mut t, "heat");
    push_literal(&mut t, "electricity");
    push_literal(&mut t, "electric");
    push_literal(&mut t, "radiation");
    push_literal(&mut t, "plasma");
    assert(views(t@) =~= seq!["domain:energy"@, "energy"@, "light"@, "fire"@, "heat"@, "electricity"@, "electric"@, "radiation"@, "plasma"@]);
    let ghost v5 = views(t@);
    r.push(domain_entry("energy", t));
    assert(domain_view(r@) =~= seq![("time"@, v0), ("space"@, v1), ("reality"@, v2), ("divine"@, v3), ("psionic"@, v4), ("energy"@, v5)]);
    assert(domain_view(r@) =~= domain_table());
    r
}

/// The tags a species is drawn toward and kept from.
pub struct PowerAffinity {
    pub baseline_tags: Vec<String>,
    pub affinity_tags: Vec<String>,
    pub blocked_tags: Vec<String>,
    pub notes: Vec<String>,
}

/// The power tags one lowercased species trait tag draws toward.
pub open spec fn trait_affinity(t: Seq<char>) -> Seq<Seq<char>> {
    if t == "gravity:low"@ {
        seq!["speed"@, "flight"@]
    } else if t == "gravity:high"@ {
        seq!["strength"@, "durability"@]
    } else if t == "gravity:extreme"@ {
        seq!["strength"@, "durability"@, "density"@]
    } else if t == "gravity:variable"@ {
        seq!["gravity"@]
    } else if t == "phys:strengthened"@ {
        seq!["strength"@, "powerful"@, "durability"@]
    } else if t == "phys:massive"@ {
        seq!["strength"@, "durability"@, "density"@]
    } else if t == "phys:fragile"@ {
        seq!["speed"@, "agility"@]
    } else if t == "body:lithic"@ {
        seq!["durability"@, "density"@]
    } else if t == "body:energy"@ {
        seq!["energy"@, "light"@]
    } else {
        Seq::empty()
    }
}

/// The power tags a lowercased `gravitic:` trait tag draws toward.
pub open spec fn gravitic_affinity(t: Seq<char>) -> Seq<Seq<char>> {
    if has_prefix(t, "gravitic:"@) {
        let r = t.skip(9);
        if r == "dense_muscle"@ {
            seq!["strength"@, "durability"@]
        } else if r == "impact_resistant"@ || r == "shockproof"@ {
            seq!["durability"@]
        } else if r == "lightframe"@ {
            seq!["speed"@, "flight"@]
        } else {
            seq!["gravity"@]
        }
    } else {
        Seq::empty()
    }
}

/// What a scan of a species' tags finds: the affinity tags its traits add, the power
/// domains it opens (each once), and whether it reaches the cosmic and apex tiers.
pub ghost struct TagScan {
    pub extra: Seq<Seq<char>>,
    pub domains: Seq<Seq<char>>,
    pub cosmic: bool,
    pub apex: bool,
}

pub open spec fn scan_species_tags(tags: Seq<Seq<char>>) -> TagScan
    decreases tags.len(),
{
    if tags.len() == 0 {
        TagScan { extra: Seq::empty(), domains: Seq::empty(), cosmic: false, apex: false }
    } else {
        let prev = scan_species_tags(tags.drop_last());
        let t = lower_chars(tags.last());
        TagScan {
            extra: prev.extra + trait_affinity(t) + gravitic_affinity(t),
            domains: if has_prefix(t, "domain:"@) {
                insert_new(prev.domains, t.skip(7))
            } else {
                prev.domains
            },
            cosmic: prev.cosmic || t == "tier:cosmic"@ || t == "tier:apex"@,
            apex: prev.apex || t == "tier:apex"@,
        }
    }
}

/// The tags of the domains in the table that are (`open`) or are not among `domains`,
/// in table order.
pub open spec fn domain_tags(table: Seq<(Seq<char>, Seq<Seq<char>>)>, domains: Seq<Seq<char>>, open: bool) -> Seq<Seq<char>>
    decreases table.len(),
{
    if table.len() == 0 {
        Seq::empty()
    } else {
        let prev = domain_tags(table.drop_last(), domains, open);
        if domains.contains(table.last().0) == open {
            prev + table.last().1
        } else {
            prev
        }
    }
}

/// The tags of the cosmic tier.
pub open spec fn cosmic_block() -> Seq<Seq<char>> {
    seq!["cosmic"@, "tier:cosmic"@, "tier:apex"@, "universal"@, "universe"@, "multiverse"@, "godlike"@]
}

/// The tags of the apex tier.
pub open spec fn apex_block() -> Seq<Seq<char>> {
    seq!["omni"@, "tier:apex"@]
}

/// Baseline, affinity and blocked tags as plain values.
pub type AffinityView = (Seq<Seq<char>>, Seq<Seq<char>>, Seq<Seq<char>>);

/// The affinity of a species with a signature gift's tags and species tags: the gift
/// names its baseline tags; its traits add affinities; its domains are opened and the
/// others blocked; the cosmic and apex tiers are blocked unless reached. Each list is
/// lowercased and has no repeats.
pub open spec fn alien_affinity(gift_tags: Seq<Seq<char>>, tags: Seq<Seq<char>>) -> AffinityView {
    let baseline = power_tags_named(gift_tags);
    let scan = scan_species_tags(tags);
    let affinity = baseline + scan.extra + domain_tags(domain_table(), scan.domains, true);
    let blocked = domain_tags(domain_table(), scan.domains, false) + (if scan.cosmic {
        Seq::empty()
    } else {
        cosmic_block()
    }) + (if scan.apex {
        Seq::empty()
    } else {
        apex_block()
    });
    (deduped_lower(baseline), deduped_lower(affinity), deduped_lower(blocked))
}

fn add_trait_affinity(affinity: &mut Vec<String>, t: &str)
    ensures
        views(final(affinity)@) == views(old(affinity)@) + trait_affinity(t@) + gravitic_affinity(t@),
{
    proof {
        reveal_strlit("gravitic:");
    }
    let ghost start = views(affinity@);
    if str_eq(t, "gravity:low") {
        push_literal(affinity, "speed");
        push_literal(affinity, "flight");
    } else if str_eq(t, "gravity:high") {
        push_literal(affinity, "strength");
        push_literal(affinity, "durability");
    } else if str_eq(t, "gravity:extreme") {
        push_literal(affinity, "strength");
        push_literal(affinity, "durability");
        push_literal(affinity, "density");
    } else if str_eq(t, "gravity:variable") {
        push_literal(affinity, "gravity");
    } else if str_eq(t, "phys:strengthened") {
        push_literal(affinity, "strength");
        push_literal(affinity, "powerful");
        push_literal(affinity, "durability");
    } else if str_eq(t, "phys:massive") {
        push_literal(affinity, "strength");
        push_literal(affinity, "durability");
        push_literal(affinity, "density");
    } else if str_eq(t, "phys:fragile") {
        push_literal(affinity, "speed");
        push_literal(affinity, "agility");
    } else if str_eq(t, "body:lithic") {
        push_literal(affinity, "durability");
        push_literal(affinity, "density");
    } else if str_eq(t, "body:energy") {
        push_literal(affinity, "energy");
        push_literal(affinity, "light");
    }
    assert(views(affinity@) =~= start + trait_affinity(t@));
    let ghost mid = views(affinity@);
    if let Some(trait_tag) = strip_prefix(t, "gravitic:") {
        let r = trait_tag.as_str();
        if str_eq(r, "dense_muscle") {
            push_literal(affinity, "strength");
            push_literal(affinity, "durability");
        } else if str_eq(r, "impact_resistant") || str_eq(r, "shockproof") {
            push_literal(affinity, "durability");
        } else if str_eq(r, "lightframe") {
            push_literal(affinity, "speed");
            push_literal(affinity, "flight");
        } else {
            push_literal(affinity, "gravity");
        }
    }
    assert(views(affinity@) =~= mid + gravitic_affinity(t@));
}

/// The tags a species is drawn toward and kept from, from its signature gift and tags.
pub fn derive_alien_affinity(profile: &AlienSpeciesProfile) -> (a: PowerAffinity)
    ensures
        (views(a.baseline_tags@), views(a.affinity_tags@), views(a.blocked_tags@)) == alien_affinity(
            views(profile.capabilities.signature_gift.tags@),
            views(profile.tags@),
        ),
        a.notes@.len() == 0,
{
    proof {
        reveal_strlit("domain:");
    }
    let baseline = extract_power_tags(profile.capabilities.signature_gift.tags.as_slice());
    let mut affinity: Vec<String> = Vec::new();
    assert(views(affinity@) =~= Seq::<Seq<char>>::empty());
    extend_copies(&mut affinity, &baseline);
    let mut domains: Vec<String> = Vec::new();
    let mut has_cosmic = false;
    let mut has_apex = false;
    let ghost all = views(profile.tags@);
    let ghost base = views(baseline@);
    assert(all.take(0) =~= Seq::<Seq<char>>::empty());
    assert(views(domains@) =~= Seq::<Seq<char>>::empty());
    assert(base + Seq::<Seq<char>>::empty() =~= base);
    let mut i: usize = 0;
    while i < profile.tags.len()
        invariant
            i <= profile.tags@.len(),
            all == views(profile.tags@),
            base == views(baseline@),
            "domain:"@.len() == 7,
            views(affinity@) == base + scan_species_tags(all.take(i as int)).extra,
            views(domains@) == scan_species_tags(all.take(i as int)).domains,
            has_cosmic == scan_species_tags(all.take(i as int)).cosmic,
            has_apex == scan_species_tags(all.take(i as int)).apex,
        decreases profile.tags@.len() - i,
    {
        assert(all.take(i + 1).drop_last() =~= all.take(i as int));
        assert(all.take(i + 1).last() == profile.tags@[i as int]@);
        let tag = to_ascii_lowercase(profile.tags[i].as_str());
        if let Some(domain) = strip_prefix(tag.as_str(), "domain:") {
            push_unique(&mut domains, domain);
        }
        if str_eq(tag.as_str(), "tier:cosmic") {
            has_cosmic = true;
        }
        if str_eq(tag.as_str(), "tier:apex") {
            has_cosmic = true;
            has_apex = true;
        }
        let ghost before = views(affinity@);
        add_trait_affinity(&mut affinity, tag.as_str());
        assert(views(affinity@) =~= base + scan_species_tags(all.take(i + 1)).extra);
        i = i + 1;
    }
    assert(all.take(profile.tags@.len() as int) =~= all);
    let ghost scan = scan_species_tags(all);
    let table = domain_power_tags();
    let mut blocked: Vec<String> = Vec::new();
    let ghost tv = domain_table();
    let ghost aff0 = views(affinity@);
    assert(tv.take(0) =~= Seq::<(Seq<char>, Seq<Seq<char>>)>::empty());
    assert(views(blocked@) =~= Seq::<Seq<char>>::empty());
    assert(aff0 + Seq::<Seq<char>>::empty() =~= aff0);
    let mut j: usize = 0;
    while j < table.len()
        invariant
            j <= table@.len(),
            domain_view(table@) == tv,
            tv == domain_table(),
            views(domains@) == scan.domains,
            views(affinity@) == aff0 + domain_tags(tv.take(j as int), scan.domains, true),
            views(blocked@) == domain_tags(tv.take(j as int), scan.domains, false),
        decreases table@.len() - j,
    {
        assert(tv.take(j + 1).drop_last() =~= tv.take(j as int));
        assert(tv.take(j + 1).last() == tv[j as int]);
        assert(tv[j as int] == (table@[j as int].0@, views(table@[j as int].1@)));
        let entry = &table[j];
        if contains_str(&domains, entry.0.as_str()) {
            extend_copies(&mut affinity, &entry.1);
            assert(views(affinity@) =~= aff0 + domain_tags(tv.take(j + 1), scan.domains, true));
        } else {
            extend_copies(&mut blocked, &entry.1);
            assert(views(blocked@) =~= domain_tags(tv.take(j + 1), scan.domains, false));
        }
        j = j + 1;
    }
    assert(tv.take(table@.len() as int) =~= tv);
    let ghost b0 = views(blocked@);
    if !has_cosmic {
        push_literal(&mut blocked, "cosmic");
        push_literal(&mut blocked, "tier:cosmic");
        push_literal(&mut blocked, "tier:apex");
        push_literal(&mut blocked, "universal");
        push_literal(&mut blocked, "universe");
        push_literal(&mut blocked, "multiverse");
        push_literal(&mut blocked, "godlike");
    }
    assert(views(blocked@) =~= b0 + (if scan.cosmic { Seq::<Seq<char>>::empty() } else { cosmic_block() }));
    let ghost b1 = views(blocked@);
    if !has_apex {
        push_literal(&mut blocked, "omni");
        push_literal(&mut blocked, "tier:apex");
    }
    assert(views(blocked@) =~= b1 + (if scan.apex { Seq::<Seq<char>>::empty() } else { apex_block() }));
    PowerAffinity {
        baseline_tags: dedupe_lowercase(baseline),
        affinity_tags: dedupe_lowercase(affinity),
        blocked_tags: dedupe_lowercase(blocked),
        notes: Vec::new(),
    }
}

/// A candidate drawn uniformly by the generator, and the generator after it; no
/// candidates give nothing and draw nothing.
pub open spec fn power_choice(candidates: Seq<PowerId>, rng: u64) -> (Option<PowerId>, u64) {
    if candidates.len() == 0 {
        (None, rng)
    } else {
        let n = lcg_step(rng);
        (Some(candidates[(n as usize) as int % candidates.len() as int]), n)
    }
}

pub fn choose_power(candidates: &Vec<PowerId>, rng: &mut u64) -> (p: Option<PowerId>)
    ensures
        (p, *final(rng)) == power_choice(candidates@, *old(rng)),
{
    if candidates.len() == 0 {
        return None;
    }
    let idx = (next_u64(rng) as usize) % candidates.len();
    Some(candidates[idx])
}

/// Draws a power carrying one of `tags_any` and none of `tags_none`; with no tags to
/// look for there is none, and the repository is not asked.
pub fn pick_power<R: PowerRepository>(repo: &R, tags_any: &Vec<String>, tags_none: &Vec<String>, rng: &mut u64) -> (r: Result<Option<PowerId>, PowerAssignmentError>)
    ensures
        tags_any@.len() == 0 ==> r == Ok::<Option<PowerId>, PowerAssignmentError>(None) && *final(rng) == *old(rng),
        r is Err ==> (r matches Err(PowerAssignmentError::Repository(_))) && *final(rng) == *old(rng),
        r matches Ok(p) ==> exists|c: Seq<PowerId>| (p, *final(rng)) == power_choice(c, *old(rng)),
{
    if tags_any.len() == 0 {
        assert(power_choice(Seq::<PowerId>::empty(), *rng) == (None::<PowerId>, *rng));
        return Ok(None);
    }
    let none: Vec<String> = Vec::new();
    match repo.power_ids_by_tags(tags_any.as_slice(), none.as_slice(), tags_none.as_slice()) {
        Err(e) => Err(PowerAssignmentError::Repository(e)),
        Ok(candidates) => {
            let p = choose_power(&candidates, rng);
            Ok(p)
        },
    }
}

/// The candidates that are not yet selected, in order.
pub open spec fn unselected(candidates: Seq<PowerId>, selected: Seq<PowerId>) -> Seq<PowerId> {
    candidates.filter(|p: PowerId| !selected.contains(p))
}

/// Draws without replacement from `candidates`, uniformly, until `remaining` new powers
/// are taken or none are left; a draw already selected is dropped. The powers taken, the
/// selection after, and the generator after.
pub open spec fn expression_draws(candidates: Seq<PowerId>, selected: Seq<PowerId>, rng: u64, remaining: nat) -> (Seq<PowerId>, Seq<PowerId>, u64)
    decreases candidates.len(),
{
    if remaining == 0 || candidates.len() == 0 {
        (Seq::empty(), selected, rng)
    } else {
        let n = lcg_step(rng);
        let k = (n as usize) as int % candidates.len() as int;
        let p = candidates[k];
        let rest = swap_removed(candidates, k);
        if selected.contains(p) {
            expression_draws(rest, selected, n, remaining)
        } else {
            let r = expression_draws(rest, selected.push(p), n, (remaining - 1) as nat);
            (seq![p] + r.0, r.1, r.2)
        }
    }
}

/// The expression powers drawn from candidates: up to `count` of those not yet
/// selected, each added to the selection.
pub open spec fn expression_choice(candidates: Seq<PowerId>, selected: Seq<PowerId>, rng: u64, count: u32) -> (Seq<PowerId>, Seq<PowerId>, u64) {
    let open = unselected(candidates, selected);
    let n: nat = if (count as int) < open.len() { count as nat } else { open.len() };
    expression_draws(open, selected, rng, n)
}

fn is_selected(selected: &Vec<PowerId>, p: PowerId) -> (b: bool)
    ensures
        b == selected@.contains(p),
{
    let mut i: usize = 0;
    while i < selected.len()
        invariant
            i <= selected@.len(),
            forall|j: int| 0 <= j < i ==> selected@[j] != p,
        decreases selected@.len() - i,
    {
        if selected[i] == p {
            return true;
        }
        i = i + 1;
    }
    false
}

/// Draws up to `count` powers from `candidates` that are not in `selected`, adding each
/// to it.
pub fn choose_expression_powers(candidates: Vec<PowerId>, rng: &mut u64, count: u32, selected: &mut Vec<PowerId>) -> (out: Vec<PowerId>)
    ensures
        (out@, final(selected)@, *final(rng)) == expression_choice(candidates@, old(selected)@, *old(rng), count),
{
    let ghost sel0 = selected@;
    let mut open: Vec<PowerId> = Vec::new();
    let mut i: usize = 0;
    proof {
        reveal(Seq::filter);
    }
    assert(candidates@.take(0).filter(|p: PowerId| !sel0.contains(p)) =~= Seq::<PowerId>::empty());
    while i < candidates.len()
        invariant
            i <= candidates@.len(),
            selected@ == sel0,
            open@ == candidates@.take(i as int).filter(|p: PowerId| !sel0.contains(p)),
        decreases candidates@.len() - i,
    {
        proof {
            assert(candidates@.take(i as int).push(candidates@[i as int]) =~= candidates@.take(i + 1));
            candidates@.take(i as int).lemma_filter_push(candidates@[i as int], |p: PowerId| !sel0.contains(p));
        }
        if !is_selected(selected, candidates[i]) {
            open.push(candidates[i]);
        }
        i = i + 1;
    }
    assert(candidates@.take(candidates@.len() as int) =~= candidates@);
    let mut out: Vec<PowerId> = Vec::new();
    let mut remaining: u32 = if (count as usize) < open.len() { count } else { open.len() as u32 };
    let ghost target = expression_draws(open@, sel0, *rng, remaining as nat);
    let ghost taken: Seq<PowerId> = Seq::empty();
    assert(taken + target.0 =~= target.0);
    while remaining > 0 && open.len() > 0
        invariant
            taken + expression_draws(open@, selected@, *rng, remaining as nat).0 == target.0,
            expression_draws(open@, selected@, *rng, remaining as nat).1 == target.1,
            expression_draws(open@, selected@, *rng, remaining as nat).2 == target.2,
            out@ == taken,
        decreases open@.len(),
    {
        let ghost cur = open@;
        let ghost before_rng = *rng;
        let ghost before_sel = selected@;
        let idx = (next_u64(rng) as usize) % open.len();
        let power = open.swap_remove(idx);
        if !is_selected(selected, power) {
            selected.push(power);
            out.push(power);
            proof {
                assert(taken.push(power) + expression_draws(open@, selected@, *rng, (remaining - 1) as nat).0 =~= taken
                    + expression_draws(cur, before_sel, before_rng, remaining as nat).0);
                taken = taken.push(power);
            }
            remaining = remaining - 1;
        }
    }
    assert(expression_draws(open@, selected@, *rng, remaining as nat).0 =~= Seq::<PowerId>::empty());
    assert(taken =~= target.0);
    out
}

/// Draws up to `count` expression powers carrying one of `tags_any` and none of
/// `tags_none` that are not in `selected`, adding each to it; a zero count asks nothing.
pub fn pick_expression_powers<R: PowerRepository>(
    repo: &R,
    tags_any: &Vec<String>,
    tags_none: &Vec<String>,
    rng: &mut u64,
    count: u32,
    selected: &mut Vec<PowerId>,
) -> (r: Result<Vec<PowerId>, PowerAssignmentError>)
    ensures
        count == 0 ==> (r matches Ok(v) && v@.len() == 0) && *final(rng) == *old(rng) && final(selected)@ == old(selected)@,
        r is Err ==> (r matches Err(PowerAssignmentError::Repository(_))) && *final(rng) == *old(rng)
            && final(selected)@ == old(selected)@,
        r matches Ok(v) ==> exists|c: Seq<PowerId>| (v@, final(selected)@, *final(rng)) == expression_choice(c, old(selected)@, *old(rng), count),
{
    if count == 0 {
        let v: Vec<PowerId> = Vec::new();
        assert(expression_choice(Seq::<PowerId>::empty(), selected@, *rng, count) == (v@, selected@, *rng));
        return Ok(v);
    }
    let none: Vec<String> = Vec::new();
    match repo.power_ids_by_tags(tags_any.as_slice(), none.as_slice(), tags_none.as_slice()) {
        Err(e) => Err(PowerAssignmentError::Repository(e)),
        Ok(candidates) => {
            let ghost c = candidates@;
            let out = choose_expression_powers(candidates, rng, count, selected);
            Ok(out)
        },
    }
}

/// Expression draws take only powers not selected before, none twice, and add them all
/// to the selection.
pub proof fn law_expression_draws_fresh(candidates: Seq<PowerId>, selected: Seq<PowerId>, rng: u64, remaining: nat)
    ensures
        ({
            let r = expression_draws(candidates, selected, rng, remaining);
            &&& r.0.no_duplicates()
            &&& forall|p: PowerId| #[trigger] r.0.contains(p) ==> !selected.contains(p) && r.1.contains(p)
            &&& forall|p: PowerId| selected.contains(p) ==> #[trigger] r.1.contains(p)
            &&& r.0.len() <= remaining
        }),
    decreases candidates.len(),
{
    if remaining == 0 || candidates.len() == 0 {
    } else {
        let n = lcg_step(rng);
        let k = (n as usize) as int % candidates.len() as int;
        let p = candidates[k];
        let rest = swap_removed(candidates, k);
        if selected.contains(p) {
            law_expression_draws_fresh(rest, selected, n, remaining);
        } else {
            let sel2 = selected.push(p);
            law_expression_draws_fresh(rest, sel2, n, (remaining - 1) as nat);
            let r = expression_draws(rest, sel2, n, (remaining - 1) as nat);
            let all = seq![p] + r.0;
            assert forall|q: PowerId| selected.contains(q) implies #[trigger] r.1.contains(q) by {
                let j = choose|j: int| 0 <= j < selected.len() && selected[j] == q;
                assert(sel2[j] == q);
                assert(sel2.contains(q));
            }
            assert(sel2[selected.len() as int] == p);
            assert(sel2.contains(p));
            assert(!r.0.contains(p));
            assert forall|q: PowerId| #[trigger] all.contains(q) implies !selected.contains(q) && r.1.contains(q) by {
                let j = choose|j: int| 0 <= j < all.len() && all[j] == q;
                if j > 0 {
                    assert(r.0[j - 1] == q);
                    assert(r.0.contains(q));
                    if selected.contains(q) {
                        let i = choose|i: int| 0 <= i < selected.len() && selected[i] == q;
                        assert(sel2[i] == q);
                        assert(sel2.contains(q));
                    }
                }
            }
            assert forall|a: int, b: int| 0 <= a < all.len() && 0 <= b < all.len() && a != b implies all[a] != all[b] by {
                if a == 0 && b > 0 {
                    assert(all[b] == r.0[b - 1]);
                    assert(r.0.contains(all[b]));
                } else if b == 0 && a > 0 {
                    assert(all[a] == r.0[a - 1]);
                    assert(r.0.contains(all[a]));
                } else if a > 0 && b > 0 {
                    assert(all[a] == r.0[a - 1]);
                    assert(all[b] == r.0[b - 1]);
                }
            }
        }
    }
}

/// `s` with `p` added at the end unless it is there already.
pub open spec fn insert_power(s: Seq<PowerId>, p: PowerId) -> Seq<PowerId> {
    if s.contains(p) {
        s
    } else {
        s.push(p)
    }
}

/// `s` with each of `ps` added in turn, skipping those already present.
pub open spec fn insert_powers(s: Seq<PowerId>, ps: Seq<PowerId>) -> Seq<PowerId>
    decreases ps.len(),
{
    if ps.len() == 0 {
        s
    } else {
        insert_power(insert_powers(s, ps.drop_last()), ps.last())
    }
}

fn add_power(set: &mut Vec<PowerId>, p: PowerId)
    ensures
        final(set)@ == insert_power(old(set)@, p),
{
    if !is_selected(set, p) {
        set.push(p);
    }
}

fn add_powers(set: &mut Vec<PowerId>, ps: &[PowerId])
    ensures
        final(set)@ == insert_powers(old(set)@, ps@),
{
    let ghost start = set@;
    let mut i: usize = 0;
    assert(ps@.take(0) =~= Seq::<PowerId>::empty());
    while i < ps.len()
        invariant
            i <= ps@.len(),
            set@ == insert_powers(start, ps@.take(i as int)),
        decreases ps@.len() - i,
    {
        add_power(set, ps[i]);
        assert(ps@.take(i + 1).drop_last() =~= ps@.take(i as int));
        i = i + 1;
    }
    assert(ps@.take(ps@.len() as int) =~= ps@);
}

/// Adding powers keeps what was there.
pub proof fn lemma_insert_powers_keeps(s: Seq<PowerId>, ps: Seq<PowerId>, p: PowerId)
    requires
        s.contains(p),
    ensures
        insert_powers(s, ps).contains(p),
    decreases ps.len(),
{
    if ps.len() > 0 {
        lemma_insert_powers_keeps(s, ps.drop_last(), p);
        let prev = insert_powers(s, ps.drop_last());
        if !prev.contains(ps.last()) {
            let j = choose|j: int| 0 <= j < prev.len() && prev[j] == p;
            assert(prev.push(ps.last())[j] == p);
        }
    }
}

/// The tier of a mutant: 7 with an omni power or an apex tag, 6 with a cosmic tag or an
/// omega parent, else by the number of distinct powers: none 0, one or two 1, then one
/// more per power up to 5.
pub open spec fn mutant_tier(power_count: int, tags: Seq<Seq<char>>, has_omni: bool, omega_parent: bool) -> u8 {
    if has_omni || tags.contains("tier:apex"@) || tags.contains("omni"@) {
        7
    } else if tags.contains("tier:cosmic"@) || tags.contains("cosmic"@) {
        6
    } else if omega_parent {
        6
    } else if power_count == 0 {
        0
    } else if power_count <= 2 {
        1
    } else if power_count == 3 {
        2
    } else if power_count == 4 {
        3
    } else if power_count == 5 {
        4
    } else {
        5
    }
}

/// The tier of a mutant, from its distinct powers' count and their lowercased tags.
pub fn tier_for_powers(power_count: usize, tags: &Vec<String>, has_omni: bool, omega_parent: bool) -> (tier: u8)
    ensures
        tier == mutant_tier(power_count as int, views(tags@), has_omni, omega_parent),
{
    if has_omni || contains_str(tags, "tier:apex") || contains_str(tags, "omni") {
        return 7;
    }
    if contains_str(tags, "tier:cosmic") || contains_str(tags, "cosmic") {
        return 6;
    }
    if omega_parent {
        return 6;
    }
    if power_count == 0 {
        0
    } else if power_count <= 2 {
        1
    } else if power_count == 3 {
        2
    } else if power_count == 4 {
        3
    } else if power_count == 5 {
        4
    } else {
        5
    }
}

/// The distinct powers of a mutant: its baseline, expressions and omni powers.
pub open spec fn mutant_powers(baseline: Option<PowerId>, expressions: Seq<PowerId>, omni: Seq<PowerId>) -> Seq<PowerId> {
    let start = match baseline {
        Some(b) => seq![b],
        None => Seq::empty(),
    };
    insert_powers(insert_powers(start, expressions), omni)
}

/// The tier of a mutant with these powers whose tags are `tags`.
pub open spec fn mutant_tier_with(baseline: Option<PowerId>, expressions: Seq<PowerId>, omni: Seq<PowerId>, omega_parent: bool, tags: Seq<Seq<char>>) -> u8 {
    mutant_tier(mutant_powers(baseline, expressions, omni).len() as int, tags, omni.len() > 0, omega_parent)
}

/// Each tag list as a list of plain strings.
pub open spec fn lists_view(lists: Seq<Vec<String>>) -> Seq<Seq<Seq<char>>> {
    lists.map_values(|l: Vec<String>| views(l@))
}

/// All the tags of the lists, in order, ASCII-lowercased.
pub open spec fn lowered_tags(lists: Seq<Seq<Seq<char>>>) -> Seq<Seq<char>>
    decreases lists.len(),
{
    if lists.len() == 0 {
        Seq::empty()
    } else {
        lowered_tags(lists.drop_last()) + lists.last().map_values(|t: Seq<char>| lower_chars(t))
    }
}

/// The distinct powers of a mutant, baseline first.
fn distinct_powers(baseline: Option<PowerId>, expressions: &[PowerId], omni: &[PowerId]) -> (powers: Vec<PowerId>)
    ensures
        powers@ == mutant_powers(baseline, expressions@, omni@),
{
    let mut powers: Vec<PowerId> = Vec::new();
    if let Some(id) = baseline {
        powers.push(id);
    }
    assert(powers@ =~= match baseline {
        Some(b) => seq![b],
        None => Seq::<PowerId>::empty(),
    });
    add_powers(&mut powers, expressions);
    add_powers(&mut powers, omni);
    powers
}

/// All the tags of the lists, in order, ASCII-lowercased.
pub fn lowered_tag_list(tag_lists: &Vec<Vec<String>>) -> (tags: Vec<String>)
    ensures
        views(tags@) == lowered_tags(lists_view(tag_lists@)),
{
    let mut tags: Vec<String> = Vec::new();
    let ghost lv = lists_view(tag_lists@);
    assert(lv.take(0) =~= Seq::<Seq<Seq<char>>>::empty());
    assert(views(tags@) =~= Seq::<Seq<char>>::empty());
    let mut i: usize = 0;
    while i < tag_lists.len()
        invariant
            i <= tag_lists@.len(),
            lv == lists_view(tag_lists@),
            views(tags@) == lowered_tags(lv.take(i as int)),
        decreases tag_lists@.len() - i,
    {
        let list = &tag_lists[i];
        let ghost before = views(tags@);
        let mut j: usize = 0;
        while j < list.len()
            invariant
                j <= list@.len(),
                *list == tag_lists@[i as int],
                views(tags@) == before + views(list@).take(j as int).map_values(|t: Seq<char>| lower_chars(t)),
            decreases list@.len() - j,
        {
            let ghost mid = views(tags@);
            let low = to_ascii_lowercase(list[j].as_str());
            tags.push(low);
            assert(views(tags@) =~= mid.push(low@));
            assert(views(list@).take(j + 1).map_values(|t: Seq<char>| lower_chars(t)) =~= views(list@).take(j as int).map_values(|t: Seq<char>| lower_chars(t)).push(lower_chars(list@[j as int]@)));
            j = j + 1;
        }
        assert(views(list@).take(list@.len() as int) =~= views(list@));
        assert(lv.take(i + 1).drop_last() =~= lv.take(i as int));
        assert(lv.take(i + 1).last() == views(list@));
        i = i + 1;
    }
    assert(lv.take(tag_lists@.len() as int) =~= lv);
    tags
}

/// The tier of a mutant from the tag lists of its distinct powers: the tags are
/// lowercased and the tier follows `mutant_tier`.
pub fn tier_from_tag_lists(
    baseline: Option<PowerId>,
    expressions: &[PowerId],
    omni: &[PowerId],
    omega_parent: bool,
    tag_lists: &Vec<Vec<String>>,
) -> (t: u8)
    ensures
        t == mutant_tier_with(baseline, expressions@, omni@, omega_parent, lowered_tags(lists_view(tag_lists@))),
{
    let powers = distinct_powers(baseline, expressions, omni);
    let tags = lowered_tag_list(tag_lists);
    tier_for_powers(powers.len(), &tags, omni.len() > 0, omega_parent)
}

/// Classifies a mutant by its powers, asking the repository for each distinct power's
/// tags (one list per power); a repository error is passed on.
pub fn classify_mutant_tier<R: PowerRepository>(
    repo: &R,
    baseline: Option<PowerId>,
    expressions: &[PowerId],
    omni: &[PowerId],
    omega_parent: bool,
) -> (r: Result<u8, PowerAssignmentError>)
    ensures
        r is Err ==> r matches Err(PowerAssignmentError::Repository(_)),
        mutant_powers(baseline, expressions@, omni@).len() == 0 ==> (r matches Ok(t) && t == mutant_tier_with(
            baseline,
            expressions@,
            omni@,
            omega_parent,
            Seq::empty(),
        )),
        r matches Ok(t) ==> exists|lists: Seq<Seq<Seq<char>>>| lists.len() == mutant_powers(baseline, expressions@, omni@).len()
            && t == #[trigger] mutant_tier_with(baseline, expressions@, omni@, omega_parent, lowered_tags(lists)),
{
    let powers = distinct_powers(baseline, expressions, omni);
    let mut lists: Vec<Vec<String>> = Vec::new();
    let mut i: usize = 0;
    while i < powers.len()
        invariant
            i <= powers@.len(),
            lists@.len() == i,
            powers@ == mutant_powers(baseline, expressions@, omni@),
        decreases powers@.len() - i,
    {
        match repo.power_tags(powers[i]) {
            Err(e) => return Err(PowerAssignmentError::Repository(e)),
            Ok(power_tags) => {
                lists.push(power_tags);
            },
        }
        i = i + 1;
    }
    let tier = tier_from_tag_lists(baseline, expressions, omni, omega_parent, &lists);
    assert(lists_view(lists@).len() == mutant_powers(baseline, expressions@, omni@).len());
    if powers.len() == 0 {
        assert(lists@.len() == 0);
        assert(lists_view(lists@) =~= Seq::<Seq<Seq<char>>>::empty());
        assert(lowered_tags(Seq::<Seq<Seq<char>>>::empty()) =~= Seq::<Seq<char>>::empty());
        assert(tier == mutant_tier_with(baseline, expressions@, omni@, omega_parent, Seq::empty()));
    }
    Ok(tier)
}

/// The powers an expression choice takes are new to the selection, none twice, and at
/// most as many as asked for.
pub proof fn lemma_expression_choice_fresh(candidates: Seq<PowerId>, selected: Seq<PowerId>, rng: u64, count: u32)
    ensures
        ({
            let r = expression_choice(candidates, selected, rng, count);
            &&& r.0.no_duplicates()
            &&& forall|p: PowerId| #[trigger] r.0.contains(p) ==> !selected.contains(p) && r.1.contains(p)
            &&& forall|p: PowerId| selected.contains(p) ==> #[trigger] r.1.contains(p)
            &&& r.0.len() <= count
        }),
{
    let open = unselected(candidates, selected);
    let n: nat = if (count as int) < open.len() { count as nat } else { open.len() };
    law_expression_draws_fresh(open, selected, rng, n);
}

/// The generator seed a purpose's draws start from: the seed with the purpose's hash.
pub open spec fn purpose_seed(seed: u64, purpose: Seq<char>) -> u64 {
    seed ^ fnv1a(vstd::utf8::encode_utf8(purpose))
}

fn omni_ids(assigned: &Vec<crate::simulation::cosmic::OmniPowerSelection>) -> (ids: Vec<PowerId>)
    ensures
        ids@ == assigned@.map_values(|a: crate::simulation::cosmic::OmniPowerSelection| a.power_id),
{
    let mut ids: Vec<PowerId> = Vec::new();
    let mut i: usize = 0;
    while i < assigned.len()
        invariant
            i <= assigned@.len(),
            ids@ == assigned@.take(i as int).map_values(|a: crate::simulation::cosmic::OmniPowerSelection| a.power_id),
        decreases assigned@.len() - i,
    {
        ids.push(assigned[i].power_id);
        assert(assigned@.take(i + 1).map_values(|a: crate::simulation::cosmic::OmniPowerSelection| a.power_id)
            =~= ids@);
        i = i + 1;
    }
    assert(assigned@.take(assigned@.len() as int) =~= assigned@);
    ids
}

fn move_notes(notes: &mut Vec<String>, more: &Vec<String>)
    ensures
        views(final(notes)@) == views(old(notes)@) + views(more@),
{
    extend_copies(notes, more);
}

/// What the omni rolls give when they start from the generator state `rng`: the registry
/// after them and, when they succeed, the ids of the powers granted, in order.
pub open spec fn omni_outcome(
    reg: RegistryView,
    rng: u64,
    powers: Seq<OmniPowerDefinition>,
    lookups: Seq<PowerLookup>,
    holder: Seq<char>,
    universe: Seq<char>,
    denominator: u64,
) -> (RegistryView, Option<Seq<PowerId>>) {
    if denominator == 0 {
        (reg, None)
    } else if !may_assign(reg, holder, universe) {
        (reg, Some(Seq::empty()))
    } else {
        let o = omni_fold((reg, rng, Seq::empty(), Seq::empty(), None), powers, lookups, powers.len() as int, holder, universe, denominator);
        match o.4 {
            Some(_) => (o.0, None),
            None => (o.0, Some(o.2.map_values(|a: (Seq<char>, PowerId)| a.1))),
        }
    }
}

/// The registry and the ids an omni assignment left, as `assign_omni_powers` states
/// them, are the outcome of the rolls from the generator state it started with.
proof fn lemma_omni_outcome(
    reg: RegistryView,
    rng: u64,
    powers: Seq<OmniPowerDefinition>,
    lookups: Seq<PowerLookup>,
    holder: Seq<char>,
    universe: Seq<char>,
    denominator: u64,
    reg_after: RegistryView,
    assigned: Seq<crate::simulation::cosmic::OmniPowerSelection>,
    ids: Seq<PowerId>,
)
    requires
        ids == assigned.map_values(|a: crate::simulation::cosmic::OmniPowerSelection| a.power_id),
        denominator != 0,
        !may_assign(reg, holder, universe) ==> assigned.len() == 0 && reg_after == reg,
        may_assign(reg, holder, universe) ==> {
            let o = omni_fold((reg, rng, Seq::empty(), Seq::empty(), None), powers, lookups, powers.len() as int, holder, universe, denominator);
            &&& reg_after == o.0
            &&& o.4 is None
            &&& assigned_view(assigned) == o.2
        },
    ensures
        omni_outcome(reg, rng, powers, lookups, holder, universe, denominator) == (reg_after, Some(ids)),
{
    if may_assign(reg, holder, universe) {
        let o = omni_fold((reg, rng, Seq::empty(), Seq::empty(), None), powers, lookups, powers.len() as int, holder, universe, denominator);
        assert(o.2.map_values(|a: (Seq<char>, PowerId)| a.1) =~= ids);
    } else {
        assert(ids =~= Seq::<PowerId>::empty());
    }
}

/// An alien's baseline and expression powers, and the generator after them: the baseline
/// is drawn from `gift_candidates`, or failing that from `affinity_candidates`; then a
/// count in the configured range is rolled and that many expression powers are drawn from
/// `expression_candidates`, none already selected.
pub open spec fn alien_draws(
    seed: u64,
    config: PowerAssignmentConfig,
    gift_candidates: Seq<PowerId>,
    affinity_candidates: Seq<PowerId>,
    expression_candidates: Seq<PowerId>,
) -> (Option<PowerId>, Seq<PowerId>, u64) {
    let first = power_choice(gift_candidates, purpose_seed(seed, "alien_power_assignment"@));
    let b = if first.0 is Some {
        first
    } else {
        power_choice(affinity_candidates, first.1)
    };
    let start = match b.0 {
        Some(p) => seq![p],
        None => Seq::empty(),
    };
    let t = range_roll(b.1, config.expression_min, config.expression_max);
    let e = expression_choice(expression_candidates, start, t.1, t.0);
    (b.0, e.0, e.2)
}

/// What an alien's draws give, whatever candidates the repository offers: the count rolled
/// lies in the configured range; the expression powers are new, none twice, not the
/// baseline, at most that count, and exactly that many when the candidates other than the
/// baseline, none repeated, suffice.
pub proof fn law_alien_draws(
    seed: u64,
    config: PowerAssignmentConfig,
    gift_candidates: Seq<PowerId>,
    affinity_candidates: Seq<PowerId>,
    expression_candidates: Seq<PowerId>,
)
    requires
        config_fault(config) is None,
    ensures
        ({
            let first = power_choice(gift_candidates, purpose_seed(seed, "alien_power_assignment"@));
            let b = if first.0 is Some {
                first
            } else {
                power_choice(affinity_candidates, first.1)
            };
            let start = match b.0 {
                Some(p) => seq![p],
                None => Seq::<PowerId>::empty(),
            };
            let t = range_roll(b.1, config.expression_min, config.expression_max);
            let d = alien_draws(seed, config, gift_candidates, affinity_candidates, expression_candidates);
            let open = unselected(expression_candidates, start);
            &&& d.0 == b.0
            &&& config.expression_min <= t.0 <= config.expression_max
            &&& d.1.no_duplicates()
            &&& forall|q: PowerId| #[trigger] d.1.contains(q) ==> d.0 != Some(q)
            &&& d.1.len() <= t.0
            &&& open.no_duplicates() ==> d.1.len() == (if (t.0 as int) < open.len() { t.0 as int } else { open.len() as int })
        }),
{
    let first = power_choice(gift_candidates, purpose_seed(seed, "alien_power_assignment"@));
    let b = if first.0 is Some {
        first
    } else {
        power_choice(affinity_candidates, first.1)
    };
    let start = match b.0 {
        Some(p) => seq![p],
        None => Seq::<PowerId>::empty(),
    };
    let t = range_roll(b.1, config.expression_min, config.expression_max);
    lemma_expression_choice_fresh(expression_candidates, start, t.1, t.0);
    if let Some(q) = b.0 {
        assert(start[0] == q);
        assert(start.contains(q));
    }
    if unselected(expression_candidates, start).no_duplicates() {
        lemma_expression_choice_count(expression_candidates, start, t.1, t.0);
    }
}

/// Assigns an alien its powers: a baseline drawn from its gift's tags, or failing that
/// its affinity tags; then expression powers from its affinity tags, none repeated; then
/// rolls for omni powers (`omni_lookups[i]` is the repository's answer for the power
/// named by `omni_catalog.powers[i]`). Repository errors are passed on. For a valid
/// configuration the count rolled is at least one, so the repository is always asked for
/// expression candidates, even when the alien has no tags: its answer decides every outcome
/// past the configuration check.
pub fn assign_alien_powers<R: PowerRepository>(
    repo: &R,
    profile: &AlienSpeciesProfile,
    omni_catalog: &OmniPowerCatalog,
    omni_lookups: &Vec<PowerLookup>,
    omni_registry: &mut OmniPowerRegistry,
    holder_id: &str,
    universe_id: &str,
    seed: u64,
    config: PowerAssignmentConfig,
) -> (r: Result<PowerAssignmentResult, PowerAssignmentError>)
    requires
        omni_lookups@.len() == omni_catalog.powers@.len(),
    ensures
        config_fault(config) matches Some(m) ==> (r matches Err(PowerAssignmentError::InvalidConfig(msg)) && msg@ == m)
            && final(omni_registry).view_registry() == old(omni_registry).view_registry(),
        r matches Err(PowerAssignmentError::InvalidConfig(_)) ==> config_fault(config) is Some,
        config_fault(config) is None && config.omni_roll.denominator == 0 ==> r matches Err(
            PowerAssignmentError::Repository(_),
        ),
        r matches Ok(res) ==> exists|gc: Seq<PowerId>, ac: Seq<PowerId>, ec: Seq<PowerId>| ({
            let d = #[trigger] alien_draws(seed, config, gc, ac, ec);
            &&& d.0 == res.baseline
            &&& d.1 == res.expressions@
            &&& omni_outcome(old(omni_registry).view_registry(), d.2, omni_catalog.powers@, omni_lookups@, holder_id@,
                universe_id@, config.omni_roll.denominator) == (final(omni_registry).view_registry(), Some(res.omni@))
        }),
        r matches Ok(res) ==> res.expressions@.no_duplicates()
            && (res.baseline matches Some(b) ==> !res.expressions@.contains(b))
            && res.expressions@.len() <= config.expression_max
            && (res.baseline is None ==> views(res.notes@).len() > 0
                && views(res.notes@)[0] == "No baseline power found for species tags."@),
{
    match validate_config(&config) {
        Err(e) => return Err(e),
        Ok(()) => {},
    }
    proof {
        reveal_strlit("alien_power_assignment");
    }
    let mut rng: u64 = seed ^ hash_seed("alien_power_assignment");
    let affinity = derive_alien_affinity(profile);
    let mut notes: Vec<String> = Vec::new();
    move_notes(&mut notes, &affinity.notes);
    let gift_candidates = if affinity.baseline_tags.len() > 0 {
        match query_candidates(repo, &affinity.baseline_tags, &affinity.blocked_tags) {
            Err(e) => return Err(e),
            Ok(c) => c,
        }
    } else {
        Vec::new()
    };
    let ghost gc = gift_candidates@;
    let mut baseline = choose_power(&gift_candidates, &mut rng);
    let affinity_candidates = if baseline.is_none() && affinity.affinity_tags.len() > 0 {
        match query_candidates(repo, &affinity.affinity_tags, &affinity.blocked_tags) {
            Err(e) => return Err(e),
            Ok(c) => c,
        }
    } else {
        Vec::new()
    };
    let ghost ac = affinity_candidates@;
    if baseline.is_none() {
        baseline = choose_power(&affinity_candidates, &mut rng);
    }
    if baseline.is_none() {
        proof {
            reveal_strlit("No baseline power found for species tags.");
        }
        push_literal(&mut notes, "No baseline power found for species tags.");
    }
    let ghost notes_head = views(notes@);
    let mut selected: Vec<PowerId> = Vec::new();
    if let Some(id) = baseline {
        selected.push(id);
    }
    let ghost sel0 = selected@;
    let target_count = roll_range(&mut rng, config.expression_min, config.expression_max);
    let ghost rng_b = rng;
    let expression_candidates = if target_count > 0 {
        match query_candidates(repo, &affinity.affinity_tags, &affinity.blocked_tags) {
            Err(e) => return Err(e),
            Ok(c) => c,
        }
    } else {
        Vec::new()
    };
    let ghost ec = expression_candidates@;
    let expressions = choose_expression_powers(expression_candidates, &mut rng, target_count, &mut selected);
    proof {
        lemma_expression_choice_fresh(ec, sel0, rng_b, target_count);
        if let Some(b) = baseline {
            assert(sel0[0] == b);
            assert(sel0.contains(b));
        }
        assert(sel0 =~= match baseline {
            Some(p) => seq![p],
            None => Seq::<PowerId>::empty(),
        });
        let d = alien_draws(seed, config, gc, ac, ec);
        assert(d.0 == baseline && d.1 == expressions@ && d.2 == rng);
    }
    let ghost reg0 = omni_registry.view_registry();
    let ghost rng_in = rng;
    let omni_assignment = match omni_registry.assign_omni_powers(
        omni_catalog,
        omni_lookups,
        holder_id,
        universe_id,
        &mut rng,
        config.omni_roll,
    ) {
        Err(e) => return Err(PowerAssignmentError::Repository(e.message())),
        Ok(a) => a,
    };
    move_notes(&mut notes, &omni_assignment.notes);
    let omni = omni_ids(&omni_assignment.assigned);
    proof {
        lemma_omni_outcome(reg0, rng_in, omni_catalog.powers@, omni_lookups@, holder_id@, universe_id@,
            config.omni_roll.denominator, omni_registry.view_registry(), omni_assignment.assigned@, omni@);
    }
    Ok(PowerAssignmentResult { baseline, expressions, omni, notes })
}

/// Whether an omega parent turns up among `remaining` mutant parents, each on a roll
/// within the omega chance, stopping at the first; and the generator after.
pub open spec fn omega_roll(rng: u64, remaining: nat) -> (bool, u64)
    decreases remaining,
{
    if remaining == 0 {
        (false, rng)
    } else {
        let r = percent_roll(rng, DEFAULT_OMEGA_PARENT_CHANCE);
        if r.0 {
            (true, r.1)
        } else {
            omega_roll(r.1, (remaining - 1) as nat)
        }
    }
}

/// Draws the powers a child's mutant parents carry. No mutant parents carry none. An
/// omega parent is rolled for first; then the parents' powers are drawn from the mutant
/// tags, and when none is found one more draw is tried.
pub fn seed_mutant_inheritance<R: PowerRepository>(repo: &R, seed: u64, mutant_parent_count: u8) -> (r: Result<MutantInheritanceProfile, PowerAssignmentError>)
    ensures
        mutant_parent_count == 0 ==> (r matches Ok(p) && p.parent_powers@.len() == 0 && !p.omega_parent),
        r is Err ==> r matches Err(PowerAssignmentError::Repository(_)),
        mutant_parent_count > 0 ==> (r matches Ok(p) ==> p.omega_parent == omega_roll(
            purpose_seed(seed, "mutant_inheritance"@), mutant_parent_count as nat).0
            && p.parent_powers@.no_duplicates() && p.parent_powers@.len() <= 6),
{
    if mutant_parent_count == 0 {
        return Ok(MutantInheritanceProfile { parent_powers: Vec::new(), omega_parent: false });
    }
    let mut rng: u64 = seed ^ hash_seed("mutant_inheritance");
    proof {
        reveal_strlit("mutant_inheritance");
    }
    let ghost rng0 = rng;
    let mut omega_parent = false;
    let mut k: u8 = 0;
    while k < mutant_parent_count
        invariant_except_break
            k <= mutant_parent_count,
            !omega_parent,
            omega_roll(rng, (mutant_parent_count - k) as nat) == omega_roll(rng0, mutant_parent_count as nat),
        ensures
            (omega_parent, rng) == omega_roll(rng0, mutant_parent_count as nat),
        decreases mutant_parent_count - k,
    {
        let ghost before = rng;
        let hit = roll_percent(&mut rng, DEFAULT_OMEGA_PARENT_CHANCE);
        assert(omega_roll(before, (mutant_parent_count - k) as nat) == if hit {
            (true, rng)
        } else {
            omega_roll(rng, (mutant_parent_count - k - 1) as nat)
        });
        if hit {
            omega_parent = true;
            break;
        }
        k = k + 1;
    }
    let power_target = roll_parent_power_count(&mut rng, mutant_parent_count, omega_parent);
    let mut selected: Vec<PowerId> = Vec::new();
    let affinity = mutant_affinity_tags();
    let blocked = mutant_blocked_tags(omega_parent);
    let ghost rng_b = rng;
    let ghost sel0 = selected@;
    let mut parent_powers = match pick_expression_powers(repo, &affinity, &blocked, &mut rng, power_target, &mut selected) {
        Err(e) => return Err(e),
        Ok(v) => v,
    };
    proof {
        let c = choose|c: Seq<PowerId>| (parent_powers@, selected@, rng) == #[trigger] expression_choice(c, sel0, rng_b, power_target);
        lemma_expression_choice_fresh(c, sel0, rng_b, power_target);
    }
    if parent_powers.len() == 0 && power_target > 0 {
        match pick_power(repo, &affinity, &blocked, &mut rng) {
            Err(e) => return Err(e),
            Ok(Some(power)) => {
                parent_powers.push(power);
                assert(parent_powers@ =~= seq![power]);
            },
            Ok(None) => {},
        }
    }
    Ok(MutantInheritanceProfile { parent_powers, omega_parent })
}

/// The genotypes of a child's two parents and whether the child inherits the gene.
pub open spec fn lineage_rolls(seed: u64) -> (ParentGenotype, ParentGenotype, bool) {
    let a = genotype_roll(purpose_seed(seed, "mutant_lineage"@));
    let b = genotype_roll(a.1);
    let inherits = inheritance_roll(b.1, a.0, b.0);
    (a.0, b.0, inherits.0)
}

/// The number of mutant parents a lineage roll gives.
pub open spec fn mutant_parents(l: (ParentGenotype, ParentGenotype, bool)) -> int {
    (if l.0 != ParentGenotype::Normal { 1int } else { 0int }) + (if l.1 != ParentGenotype::Normal { 1int } else { 0int })
}

/// Rolls a child's mutant lineage: its parents' genotypes, whether it inherits the gene,
/// and then what its parents pass on.
pub fn roll_mutant_lineage<R: PowerRepository>(repo: &R, seed: u64) -> (r: Result<MutantLineageOutcome, PowerAssignmentError>)
    ensures
        mutant_parents(lineage_rolls(seed)) == 0 ==> (r matches Ok(o) && !o.mutant_gene && o.inheritance is None
            && views(o.notes@) == seq!["Lineage roll: no mutant parents."@]),
        mutant_parents(lineage_rolls(seed)) > 0 && !lineage_rolls(seed).2 ==> (r matches Ok(o) && !o.mutant_gene
            && o.inheritance is None && views(o.notes@) == seq!["Lineage roll: mutation not inherited."@]),
        mutant_parents(lineage_rolls(seed)) > 0 && lineage_rolls(seed).2 ==> (r is Err ==> (r matches Err(
            PowerAssignmentError::Repository(_)))) && (r matches Ok(o) ==> o.mutant_gene && (o.inheritance matches Some(h)
            && views(o.notes@) == if h.omega_parent {
                seq!["Lineage roll: omega parent detected."@]
            } else {
                Seq::empty()
            })),
{
    let mut rng: u64 = seed ^ hash_seed("mutant_lineage");
    proof {
        reveal_strlit("mutant_lineage");
    }
    let mut notes: Vec<String> = Vec::new();
    assert(views(notes@) =~= Seq::<Seq<char>>::empty());
    let parent_a = roll_parent_genotype(&mut rng);
    let parent_b = roll_parent_genotype(&mut rng);
    let mutant_parents: u8 = (if parent_a.is_mutant() { 1u8 } else { 0u8 }) + (if parent_b.is_mutant() { 1u8 } else { 0u8 });
    if mutant_parents == 0 {
        push_literal(&mut notes, "Lineage roll: no mutant parents.");
        assert(views(notes@) =~= seq!["Lineage roll: no mutant parents."@]);
        return Ok(MutantLineageOutcome { mutant_gene: false, inheritance: None, notes });
    }
    let mutant_gene = child_inherits_mutation(&mut rng, parent_a, parent_b);
    if !mutant_gene {
        push_literal(&mut notes, "Lineage roll: mutation not inherited.");
        assert(views(notes@) =~= seq!["Lineage roll: mutation not inherited."@]);
        return Ok(MutantLineageOutcome { mutant_gene: false, inheritance: None, notes });
    }
    let inheritance = match seed_mutant_inheritance(repo, seed, mutant_parents) {
        Err(e) => return Err(e),
        Ok(i) => i,
    };
    if inheritance.omega_parent {
        push_literal(&mut notes, "Lineage roll: omega parent detected.");
        assert(views(notes@) =~= seq!["Lineage roll: omega parent detected."@]);
    }
    Ok(MutantLineageOutcome { mutant_gene: true, inheritance: Some(inheritance), notes })
}

/// The parent powers a child inherits, each on a roll within `chance`, in order; and the
/// generator after.
pub open spec fn inherited_powers(rng: u64, parents: Seq<PowerId>, chance: u32) -> (Seq<PowerId>, u64)
    decreases parents.len(),
{
    if parents.len() == 0 {
        (Seq::empty(), rng)
    } else {
        let prev = inherited_powers(rng, parents.drop_last(), chance);
        let r = percent_roll(prev.1, chance);
        (if r.0 { prev.0.push(parents.last()) } else { prev.0 }, r.1)
    }
}

/// The parent powers a mutant child inherits from its lineage, if it has one, and the
/// generator after those rolls.
pub open spec fn mutant_inheritance_rolls(seed: u64, inheritance: Option<MutantInheritanceProfile>) -> (Seq<PowerId>, u64) {
    let rng = purpose_seed(seed, "mutant_power_assignment"@);
    match inheritance {
        Some(h) => inherited_powers(rng, h.parent_powers@, if h.omega_parent { 70 } else { 50 }),
        None => (Seq::empty(), rng),
    }
}

/// The powers a mutant child inherits from its lineage, if it has one.
pub open spec fn mutant_inherited(seed: u64, inheritance: Option<MutantInheritanceProfile>) -> Seq<PowerId> {
    mutant_inheritance_rolls(seed, inheritance).0
}

/// Whether a lineage has an omega parent.
pub open spec fn has_omega_parent(inheritance: Option<MutantInheritanceProfile>) -> bool {
    inheritance matches Some(h) && h.omega_parent
}

/// The most expression powers a mutant's roll can ask for: the configured maximum, two
/// more for an omega parent.
pub open spec fn mutant_count_cap(config: PowerAssignmentConfig, inheritance: Option<MutantInheritanceProfile>) -> int {
    config.expression_max + (if has_omega_parent(inheritance) { 2int } else { 0int })
}

/// A mutant's baseline: its first inherited power, else one drawn from `candidates`; and
/// the generator after.
pub open spec fn mutant_baseline(inherited: Seq<PowerId>, rng: u64, candidates: Seq<PowerId>) -> (Option<PowerId>, u64) {
    if inherited.len() > 0 {
        (Some(inherited[0]), rng)
    } else {
        power_choice(candidates, rng)
    }
}

/// The number of expression powers a mutant's roll asks for: one in the configured range,
/// with an omega parent one more and, on a quarter of rolls, one more again; and the
/// generator after.
pub open spec fn mutant_target(rng: u64, config: PowerAssignmentConfig, omega: bool) -> (int, u64) {
    let r = range_roll(rng, config.expression_min, config.expression_max);
    if omega {
        let again = percent_roll(r.1, 25);
        (r.0 + 1 + (if again.0 { 1int } else { 0int }), again.1)
    } else {
        (r.0 as int, r.1)
    }
}

/// What is settled before a mutant's expression draws: its baseline, the powers then
/// selected (the baseline, then the inherited ones), how many expression powers are still
/// wanted beyond the inherited ones, and the generator after.
pub open spec fn mutant_plan(
    inherited: Seq<PowerId>,
    rng: u64,
    config: PowerAssignmentConfig,
    omega: bool,
    candidates: Seq<PowerId>,
) -> (Option<PowerId>, Seq<PowerId>, u32, u64) {
    let b = mutant_baseline(inherited, rng, candidates);
    let start = match b.0 {
        Some(p) => seq![p],
        None => Seq::empty(),
    };
    let t = mutant_target(b.1, config, omega);
    let held = inherited.len() as u32;
    (b.0, insert_powers(start, inherited), (if t.0 > held { t.0 - held } else { 0 }) as u32, t.1)
}

/// A mutant's baseline and expression powers (the inherited ones, then those drawn from
/// `expression_candidates`), and the generator after them; `baseline_candidates` are the
/// powers its baseline is drawn from when it inherits none.
pub open spec fn mutant_draws(
    seed: u64,
    config: PowerAssignmentConfig,
    inheritance: Option<MutantInheritanceProfile>,
    baseline_candidates: Seq<PowerId>,
    expression_candidates: Seq<PowerId>,
) -> (Option<PowerId>, Seq<PowerId>, u64) {
    let i = mutant_inheritance_rolls(seed, inheritance);
    let p = mutant_plan(i.0, i.1, config, has_omega_parent(inheritance), baseline_candidates);
    let e = expression_choice(expression_candidates, p.1, p.3, p.2);
    (p.0, i.0 + e.0, e.2)
}

/// Settles a mutant's baseline and how many expression powers it still wants: its first
/// inherited power or else a draw from `baseline_candidates`, then the count roll, less
/// the inherited powers. Returns the baseline, the powers then selected, and that count.
pub fn plan_mutant_draws(
    inherited: &Vec<PowerId>,
    rng: &mut u64,
    config: &PowerAssignmentConfig,
    omega: bool,
    baseline_candidates: &Vec<PowerId>,
) -> (r: (Option<PowerId>, Vec<PowerId>, u32))
    requires
        config_fault(*config) is None,
        omega ==> config.expression_max <= u32::MAX - 2,
    ensures
        (r.0, r.1@, r.2, *final(rng)) == mutant_plan(inherited@, *old(rng), *config, omega, baseline_candidates@),
{
    let baseline = if inherited.len() > 0 {
        Some(inherited[0])
    } else {
        choose_power(baseline_candidates, rng)
    };
    let mut selected: Vec<PowerId> = Vec::new();
    if let Some(id) = baseline {
        selected.push(id);
    }
    assert(selected@ =~= match baseline {
        Some(p) => seq![p],
        None => Seq::<PowerId>::empty(),
    });
    add_powers(&mut selected, inherited.as_slice());
    let mut target = roll_range(rng, config.expression_min, config.expression_max);
    assert(target <= config.expression_max);
    if omega {
        target = target + 1;
        if roll_percent(rng, 25) {
            target = target + 1;
        }
    }
    let wanted: u32 = target.saturating_sub(inherited.len() as u32);
    (baseline, selected, wanted)
}

/// Drawing from candidates that repeat none and hold none already selected takes as many
/// as asked, or all there are.
pub proof fn lemma_expression_draws_count(candidates: Seq<PowerId>, selected: Seq<PowerId>, rng: u64, remaining: nat)
    requires
        candidates.no_duplicates(),
        forall|p: PowerId| #[trigger] candidates.contains(p) ==> !selected.contains(p),
    ensures
        expression_draws(candidates, selected, rng, remaining).0.len() == (if remaining < candidates.len() {
            remaining
        } else {
            candidates.len()
        }),
    decreases candidates.len(),
{
    if remaining > 0 && candidates.len() > 0 {
        let n = lcg_step(rng);
        let k = (n as usize) as int % candidates.len() as int;
        let p = candidates[k];
        let rest = swap_removed(candidates, k);
        lemma_swap_removed_parts(candidates, k);
        assert(candidates.contains(p));
        assert forall|q: PowerId| #[trigger] rest.contains(q) implies !selected.push(p).contains(q) by {
            assert(candidates.contains(q));
            if selected.push(p).contains(q) {
                let j = choose|j: int| 0 <= j < selected.push(p).len() && selected.push(p)[j] == q;
                if j < selected.len() {
                    assert(selected[j] == q);
                    assert(selected.contains(q));
                }
            }
        }
        lemma_expression_draws_count(rest, selected.push(p), n, (remaining - 1) as nat);
    }
}

/// When the unselected candidates repeat none, an expression choice takes as many as asked,
/// or all of them.
pub proof fn lemma_expression_choice_count(candidates: Seq<PowerId>, selected: Seq<PowerId>, rng: u64, count: u32)
    requires
        unselected(candidates, selected).no_duplicates(),
    ensures
        expression_choice(candidates, selected, rng, count).0.len() == (if (count as int) < unselected(candidates, selected).len() {
            count as int
        } else {
            unselected(candidates, selected).len() as int
        }),
{
    let open = unselected(candidates, selected);
    assert forall|q: PowerId| #[trigger] open.contains(q) implies !selected.contains(q) by {
        let j = choose|j: int| 0 <= j < open.len() && open[j] == q;
        candidates.lemma_filter_pred(|p: PowerId| !selected.contains(p), j);
    }
    let n: nat = if (count as int) < open.len() { count as nat } else { open.len() };
    lemma_expression_draws_count(open, selected, rng, n);
}

/// What a mutant's draws give, whatever candidates the repository offers: the inherited
/// powers come first and the first of them is the baseline; the target count lies in the
/// configured range, raised by one or two with an omega parent; the powers drawn after the
/// inherited ones are new, none twice, none the baseline, at most the target less the
/// inherited ones, and exactly that many when the unselected candidates, none repeated,
/// suffice.
pub proof fn law_mutant_draws(
    seed: u64,
    config: PowerAssignmentConfig,
    inheritance: Option<MutantInheritanceProfile>,
    baseline_candidates: Seq<PowerId>,
    expression_candidates: Seq<PowerId>,
)
    requires
        config_fault(config) is None,
        has_omega_parent(inheritance) ==> config.expression_max <= u32::MAX - 2,
    ensures
        ({
            let i = mutant_inheritance_rolls(seed, inheritance);
            let b = mutant_baseline(i.0, i.1, baseline_candidates);
            let t = mutant_target(b.1, config, has_omega_parent(inheritance));
            let p = mutant_plan(i.0, i.1, config, has_omega_parent(inheritance), baseline_candidates);
            let d = mutant_draws(seed, config, inheritance, baseline_candidates, expression_candidates);
            let extra = d.1.skip(i.0.len() as int);
            let wanted = if t.0 > i.0.len() { t.0 - i.0.len() } else { 0 };
            let open = unselected(expression_candidates, p.1);
            &&& d.0 == b.0
            &&& i.0.len() > 0 ==> d.0 == Some(i.0[0])
            &&& d.1.take(i.0.len() as int) == i.0
            &&& config.expression_min + (if has_omega_parent(inheritance) { 1int } else { 0int }) <= t.0
            &&& t.0 <= mutant_count_cap(config, inheritance)
            &&& extra.no_duplicates()
            &&& forall|q: PowerId| #[trigger] extra.contains(q) ==> !i.0.contains(q) && d.0 != Some(q)
            &&& i.0.len() <= u32::MAX ==> extra.len() <= wanted
            &&& i.0.len() <= u32::MAX && open.no_duplicates() ==> extra.len() == (if wanted < open.len() {
                wanted
            } else {
                open.len() as int
            })
        }),
{
    let i = mutant_inheritance_rolls(seed, inheritance);
    let omega = has_omega_parent(inheritance);
    let b = mutant_baseline(i.0, i.1, baseline_candidates);
    let p = mutant_plan(i.0, i.1, config, omega, baseline_candidates);
    let d = mutant_draws(seed, config, inheritance, baseline_candidates, expression_candidates);
    let e = expression_choice(expression_candidates, p.1, p.3, p.2);
    let start = match b.0 {
        Some(q) => seq![q],
        None => Seq::<PowerId>::empty(),
    };
    assert(d.1.take(i.0.len() as int) =~= i.0);
    assert(d.1.skip(i.0.len() as int) =~= e.0);
    lemma_expression_choice_fresh(expression_candidates, p.1, p.3, p.2);
    assert forall|q: PowerId| i.0.contains(q) implies p.1.contains(q) by {
        lemma_insert_powers_contains(start, i.0, q);
    }
    if let Some(q) = b.0 {
        assert(start[0] == q);
        lemma_insert_powers_keeps(start, i.0, q);
    }
    if unselected(expression_candidates, p.1).no_duplicates() {
        lemma_expression_choice_count(expression_candidates, p.1, p.3, p.2);
    }
}

/// Rolls which parent powers a mutant inherits, in order, and reads each parent power's
/// tags (an empty list where they cannot be read).
fn inherit_parent_powers<R: PowerRepository>(
    repo: &R,
    rng: &mut u64,
    inheritance: &Option<MutantInheritanceProfile>,
) -> (r: (Vec<PowerId>, Vec<Vec<String>>))
    ensures
        forall|seed: u64| *old(rng) == purpose_seed(seed, "mutant_power_assignment"@) ==>
            #[trigger] mutant_inheritance_rolls(seed, *inheritance) == (r.0@, *final(rng)),
{
    let ghost rng0 = *rng;
    let mut inherited: Vec<PowerId> = Vec::new();
    let mut parent_tags: Vec<Vec<String>> = Vec::new();
    if let Some(heritage) = inheritance {
        let inherit_chance: u32 = if heritage.omega_parent { 70 } else { 50 };
        let parents = &heritage.parent_powers;
        assert(parents@.take(0) =~= Seq::<PowerId>::empty());
        let mut i: usize = 0;
        while i < parents.len()
            invariant
                i <= parents@.len(),
                (inherited@, *rng) == inherited_powers(rng0, parents@.take(i as int), inherit_chance),
            decreases parents@.len() - i,
        {
            assert(parents@.take(i + 1).drop_last() =~= parents@.take(i as int));
            assert(parents@.take(i + 1).last() == parents@[i as int]);
            let parent_power = parents[i];
            if roll_percent(rng, inherit_chance) {
                inherited.push(parent_power);
            }
            match repo.power_tags(parent_power) {
                Ok(tags) => parent_tags.push(tags),
                Err(_) => parent_tags.push(Vec::new()),
            }
            i = i + 1;
        }
        assert(parents@.take(parents@.len() as int) =~= parents@);
    }
    (inherited, parent_tags)
}

/// `mutant_draws` is the inherited powers' rolls, the plan after them and the expression
/// choice after that, put together.
proof fn lemma_mutant_draws_parts(
    seed: u64,
    config: PowerAssignmentConfig,
    inheritance: Option<MutantInheritanceProfile>,
    bc: Seq<PowerId>,
    ec: Seq<PowerId>,
    inh: Seq<PowerId>,
    rng1: u64,
    baseline: Option<PowerId>,
    sel: Seq<PowerId>,
    wanted: u32,
    rng2: u64,
    extra: Seq<PowerId>,
    sel2: Seq<PowerId>,
    rng3: u64,
)
    requires
        (inh, rng1) == mutant_inheritance_rolls(seed, inheritance),
        (baseline, sel, wanted, rng2) == mutant_plan(inh, rng1, config, has_omega_parent(inheritance), bc),
        (extra, sel2, rng3) == expression_choice(ec, sel, rng2, wanted),
    ensures
        mutant_draws(seed, config, inheritance, bc, ec) == (baseline, inh + extra, rng3),
{
}

/// The tags a mutant's powers are drawn toward: the mutant tags, then its parents' power
/// tags (one list per parent power), lowercased, each once.
pub fn mutant_affinity_with(parent_tags: &Vec<Vec<String>>) -> (r: Vec<String>)
    ensures
        views(r@) == deduped_lower(mutant_affinity() + lowered_tags(lists_view(parent_tags@))),
{
    let mut tags = mutant_affinity_tags();
    let lowered = lowered_tag_list(parent_tags);
    extend_copies(&mut tags, &lowered);
    dedupe_lowercase(tags)
}

/// The repository's powers that carry one of `tags_any` and none of `tags_none`; an
/// error is passed on.
fn query_candidates<R: PowerRepository>(repo: &R, tags_any: &Vec<String>, tags_none: &Vec<String>) -> (r: Result<
    Vec<PowerId>,
    PowerAssignmentError,
>)
    ensures
        r is Err ==> r matches Err(PowerAssignmentError::Repository(_)),
{
    let none: Vec<String> = Vec::new();
    match repo.power_ids_by_tags(tags_any.as_slice(), none.as_slice(), tags_none.as_slice()) {
        Err(e) => Err(PowerAssignmentError::Repository(e)),
        Ok(candidates) => Ok(candidates),
    }
}

/// What the law on `mutant_draws` gives of the baseline and expression powers drawn.
proof fn lemma_mutant_draws_shape(
    seed: u64,
    config: PowerAssignmentConfig,
    inheritance: Option<MutantInheritanceProfile>,
    bc: Seq<PowerId>,
    ec: Seq<PowerId>,
    baseline: Option<PowerId>,
    expressions: Seq<PowerId>,
)
    requires
        config_fault(config) is None,
        has_omega_parent(inheritance) ==> config.expression_max <= u32::MAX - 2,
        mutant_draws(seed, config, inheritance, bc, ec).0 == baseline,
        mutant_draws(seed, config, inheritance, bc, ec).1 == expressions,
    ensures
        ({
            let inherited = mutant_inherited(seed, inheritance);
            let extra = expressions.skip(inherited.len() as int);
            &&& inherited.len() <= u32::MAX ==> extra.len() <= (if inherited.len() < mutant_count_cap(config, inheritance) {
                mutant_count_cap(config, inheritance) - inherited.len()
            } else {
                0
            })
            &&& expressions.take(inherited.len() as int) == inherited
            &&& inherited.len() > 0 ==> baseline == Some(inherited[0])
            &&& extra.no_duplicates()
            &&& forall|p: PowerId| #[trigger] extra.contains(p) ==> !inherited.contains(p) && baseline != Some(p)
        }),
{
    law_mutant_draws(seed, config, inheritance, bc, ec);
}

/// Assigns a mutant its powers: it inherits each parent power on a roll (70% from an
/// omega parent, else 50%), and takes the first inherited one as its baseline, or draws
/// one from the powers the repository offers for the mutant tags and its parents' power
/// tags; then further expression powers from those, none repeated, up to a rolled count
/// (raised for an omega parent); then rolls for omni powers (`omni_lookups[i]` is the
/// repository's answer for `omni_catalog.powers[i]`). Repository errors are passed on,
/// but a parent power whose tags cannot be read only adds no tags. The repository is
/// asked for baseline candidates only when nothing is inherited, and for expression
/// candidates only when more powers are wanted; `mutant_draws` says what is drawn from
/// its answers.
pub fn assign_mutant_powers<R: PowerRepository>(
    repo: &R,
    omni_catalog: &OmniPowerCatalog,
    omni_lookups: &Vec<PowerLookup>,
    omni_registry: &mut OmniPowerRegistry,
    holder_id: &str,
    universe_id: &str,
    seed: u64,
    config: PowerAssignmentConfig,
    inheritance: Option<MutantInheritanceProfile>,
) -> (r: Result<PowerAssignmentResult, PowerAssignmentError>)
    requires
        omni_lookups@.len() == omni_catalog.powers@.len(),
        (config_fault(config) is None && has_omega_parent(inheritance)) ==> config.expression_max <= u32::MAX - 2,
    ensures
        config_fault(config) matches Some(m) ==> (r matches Err(PowerAssignmentError::InvalidConfig(msg)) && msg@ == m)
            && final(omni_registry).view_registry() == old(omni_registry).view_registry(),
        r matches Err(PowerAssignmentError::InvalidConfig(_)) ==> config_fault(config) is Some,
        config_fault(config) is None && config.omni_roll.denominator == 0 ==> r matches Err(
            PowerAssignmentError::Repository(_),
        ),
        ({
            let i = mutant_inheritance_rolls(seed, inheritance);
            let p = mutant_plan(i.0, i.1, config, has_omega_parent(inheritance), Seq::empty());
            &&& config_fault(config) is None
            &&& i.0.len() > 0
            &&& p.2 == 0
            &&& omni_outcome(old(omni_registry).view_registry(), p.3, omni_catalog.powers@, omni_lookups@, holder_id@,
                universe_id@, config.omni_roll.denominator).1 is Some
        }) ==> r is Ok,
        r matches Ok(res) ==> exists|bc: Seq<PowerId>, ec: Seq<PowerId>| ({
            let d = #[trigger] mutant_draws(seed, config, inheritance, bc, ec);
            &&& d.0 == res.baseline
            &&& d.1 == res.expressions@
            &&& omni_outcome(old(omni_registry).view_registry(), d.2, omni_catalog.powers@, omni_lookups@, holder_id@,
                universe_id@, config.omni_roll.denominator) == (final(omni_registry).view_registry(), Some(res.omni@))
        }),
        r matches Ok(res) ==> ({
            let inherited = mutant_inherited(seed, inheritance);
            let extra = res.expressions@.skip(inherited.len() as int);
            let cap = mutant_count_cap(config, inheritance);
            &&& inherited.len() <= u32::MAX ==> extra.len() <= (if inherited.len() < cap { cap - inherited.len() } else { 0 })
            &&& res.expressions@.take(inherited.len() as int) == inherited
            &&& inherited.len() > 0 ==> res.baseline == Some(inherited[0])
            &&& extra.no_duplicates()
            &&& forall|p: PowerId| #[trigger] extra.contains(p) ==> !inherited.contains(p) && res.baseline != Some(p)
            &&& res.baseline is None ==> views(res.notes@).contains("No baseline power found for mutant tags."@)
        }),
{
    match validate_config(&config) {
        Err(e) => return Err(e),
        Ok(()) => {},
    }
    proof {
        reveal_strlit("mutant_power_assignment");
    }
    let mut rng: u64 = seed ^ hash_seed("mutant_power_assignment");
    let mut notes: Vec<String> = Vec::new();
    let omega = match &inheritance {
        Some(h) => h.omega_parent,
        None => false,
    };
    let (inherited, parent_tags) = inherit_parent_powers(repo, &mut rng, &inheritance);
    if omega {
        push_literal(&mut notes, "Omega inheritance increases power count.");
    }
    let ghost inh = inherited@;
    let ghost rng1 = rng;
    let blocked_tags = dedupe_lowercase(mutant_blocked_tags(omega));
    let affinity_tags = mutant_affinity_with(&parent_tags);
    let baseline_candidates = if inherited.len() == 0 && affinity_tags.len() > 0 {
        match query_candidates(repo, &affinity_tags, &blocked_tags) {
            Err(e) => return Err(e),
            Ok(c) => c,
        }
    } else {
        Vec::new()
    };
    let ghost bc = baseline_candidates@;
    let (baseline, mut selected, wanted) = plan_mutant_draws(&inherited, &mut rng, &config, omega, &baseline_candidates);
    if baseline.is_none() {
        push_literal(&mut notes, "No baseline power found for mutant tags.");
        proof {
            reveal_strlit("No baseline power found for mutant tags.");
            assert(views(notes@).last() == "No baseline power found for mutant tags."@);
        }
    }
    let ghost notes_mid = views(notes@);
    let expression_candidates = if wanted > 0 {
        match query_candidates(repo, &affinity_tags, &blocked_tags) {
            Err(e) => return Err(e),
            Ok(c) => c,
        }
    } else {
        Vec::new()
    };
    let ghost ec = expression_candidates@;
    let ghost sel1 = selected@;
    let ghost rng3 = rng;
    let mut extra = choose_expression_powers(expression_candidates, &mut rng, wanted, &mut selected);
    let ghost ex = extra@;
    let mut expressions = inherited;
    expressions.append(&mut extra);
    proof {
        lemma_mutant_draws_parts(seed, config, inheritance, bc, ec, inh, rng1, baseline, sel1, wanted, rng3, ex,
            selected@, rng);
        assert(expressions@ =~= inh + ex);
    }
    proof {
        lemma_mutant_draws_shape(seed, config, inheritance, bc, ec, baseline, expressions@);
    }
    let ghost reg0 = omni_registry.view_registry();
    let ghost rng_in = rng;
    let omni_assignment = match omni_registry.assign_omni_powers(
        omni_catalog,
        omni_lookups,
        holder_id,
        universe_id,
        &mut rng,
        config.omni_roll,
    ) {
        Err(e) => return Err(PowerAssignmentError::Repository(e.message())),
        Ok(a) => a,
    };
    move_notes(&mut notes, &omni_assignment.notes);
    proof {
        if baseline is None {
            assert(views(notes@)[notes_mid.len() - 1] == "No baseline power found for mutant tags."@);
        }
    }
    let omni = omni_ids(&omni_assignment.assigned);
    proof {
        lemma_omni_outcome(reg0, rng_in, omni_catalog.powers@, omni_lookups@, holder_id@, universe_id@,
            config.omni_roll.denominator, omni_registry.view_registry(), omni_assignment.assigned@, omni@);
    }
    Ok(PowerAssignmentResult { baseline, expressions, omni, notes })
}

/// Whatever is added to a selection is in it afterwards.
pub proof fn lemma_insert_powers_contains(s: Seq<PowerId>, ps: Seq<PowerId>, p: PowerId)
    requires
        ps.contains(p),
    ensures
        insert_powers(s, ps).contains(p),
    decreases ps.len(),
{
    let prev = insert_powers(s, ps.drop_last());
    if ps.last() == p {
        if !prev.contains(p) {
            assert(prev.push(p)[prev.len() as int] == p);
        }
    } else {
        let j = choose|j: int| 0 <= j < ps.len() && ps[j] == p;
        assert(ps.drop_last()[j] == p);
        lemma_insert_powers_contains(s, ps.drop_last(), p);
        if !prev.contains(ps.last()) {
            let k = choose|k: int| 0 <= k < prev.len() && prev[k] == p;
            assert(prev.push(ps.last())[k] == p);
        }
    }
}
} // verus!

use vstd::prelude::*;

use crate::text::{concat_str, copy_str};

verus! {

broadcast use vstd::string::group_string_axioms;

pub struct AlienGenerationCatalog {
    pub schema_version: u32,
    pub naming: AlienNamingCatalog,
    pub tables: AlienGenerationTables,
}

/// Name fragments that species, world and house names are built from.
pub struct AlienNamingCatalog {
    pub root_prefixes: Vec<String>,
    pub root_cores: Vec<String>,
    pub root_suffixes: Vec<String>,
    pub world_suffixes: Vec<String>,
    pub species_suffixes: Vec<String>,
    pub demonym_suffixes: Vec<String>,
    pub house_prefixes: Vec<String>,
    pub house_suffixes: Vec<String>,
}

/// One roll table per trait of a species.
pub struct AlienGenerationTables {
    pub naming_style: Vec<AlienTableEntry>,
    pub star_archetype: Vec<AlienTableEntry>,
    pub origin: Vec<AlienTableEntry>,
    pub gravity: Vec<AlienTableEntry>,
    pub atmosphere: Vec<AlienTableEntry>,
    pub climate: Vec<AlienTableEntry>,
    pub terrain: Vec<AlienTableEntry>,
    pub body_plan: Vec<AlienTableEntry>,
    pub scale: Vec<AlienTableEntry>,
    pub covering: Vec<AlienTableEntry>,
    pub pigmentation: Vec<AlienTableEntry>,
    pub feature: Vec<AlienTableEntry>,
    pub senses: Vec<AlienTableEntry>,
    pub locomotion: Vec<AlienTableEntry>,
    pub adaptation: Vec<AlienTableEntry>,
    pub society: Vec<AlienTableEntry>,
    pub values: Vec<AlienTableEntry>,
    pub technology: Vec<AlienTableEntry>,
    pub interstellar_role: Vec<AlienTableEntry>,
    pub cosmic_tier: Vec<AlienTableEntry>,
    pub power_source: Vec<AlienTableEntry>,
    pub signature_gift: Vec<AlienTableEntry>,
    pub flight_style: Vec<AlienTableEntry>,
    pub weakness: Vec<AlienTableEntry>,
}

/// One row of a roll table: the highest roll of each die it answers to, and what it
/// stands for.
pub struct AlienTableEntry {
    pub id: Option<String>,
    pub d6: Option<u32>,
    pub d2d6: Option<u32>,
    pub d66: Option<u32>,
    pub label: String,
    pub detail: Option<String>,
    pub tags: Vec<String>,
}

/// Why a generation catalog could not be loaded: reading, parsing, or one of its rules.
#[derive(Debug)]
pub enum AlienGenerationError {
    Io { path: String, message: String },
    Json { path: String, message: String },
    Validation(String),
}

impl AlienGenerationError {
    /// The error as text.
    pub fn message(&self) -> (m: String)
        ensures
            m@ == match *self {
                AlienGenerationError::Io { path, message } => "failed to read "@ + path@ + ": "@ + message@,
                AlienGenerationError::Json { path, message } => "failed to parse "@ + path@ + ": "@ + message@,
                AlienGenerationError::Validation(message) => message@,
            },
    {
        match self {
            AlienGenerationError::Io { path, message } => {
                let mut m = concat_str("failed to read ", path.as_str());
                m.append(": ");
                m.append(message.as_str());
                m
            },
            AlienGenerationError::Json { path, message } => {
                let mut m = concat_str("failed to parse ", path.as_str());
                m.append(": ");
                m.append(message.as_str());
                m
            },
            AlienGenerationError::Validation(message) => copy_str(message.as_str()),
        }
    }
}

/// The tables in the order they are checked, by name and size.
pub open spec fn alien_table_sizes(t: AlienGenerationTables) -> Seq<(Seq<char>, nat)> {
    seq![
        ("naming_style"@, t.naming_style@.len()),
        ("star_archetype"@, t.star_archetype@.len()),
        ("origin"@, t.origin@.len()),
        ("gravity"@, t.gravity@.len()),
        ("atmosphere"@, t.atmosphere@.len()),
        ("climate"@, t.climate@.len()),
        ("terrain"@, t.terrain@.len()),
        ("body_plan"@, t.body_plan@.len()),
        ("scale"@, t.scale@.len()),
        ("covering"@, t.covering@.len()),
        ("pigmentation"@, t.pigmentation@.len()),
        ("feature"@, t.feature@.len()),
        ("senses"@, t.senses@.len()),
        ("locomotion"@, t.locomotion@.len()),
        ("adaptation"@, t.adaptation@.len()),
        ("society"@, t.society@.len()),
        ("values"@, t.values@.len()),
        ("technology"@, t.technology@.len()),
        ("interstellar_role"@, t.interstellar_role@.len()),
        ("cosmic_tier"@, t.cosmic_tier@.len()),
        ("power_source"@, t.power_source@.len()),
        ("signature_gift"@, t.signature_gift@.len()),
        ("flight_style"@, t.flight_style@.len()),
        ("weakness"@, t.weakness@.len()),
    ]
}

/// The name of the first empty table among the first `n`.
pub open spec fn first_empty_table(sizes: Seq<(Seq<char>, nat)>, n: int) -> Option<Seq<char>>
    decreases n,
{
    if n <= 0 {
        None
    } else {
        match first_empty_table(sizes, n - 1) {
            Some(l) => Some(l),
            None => if sizes[n - 1].1 == 0 {
                Some(sizes[n - 1].0)
            } else {
                None
            },
        }
    }
}

/// Whether one of the fragment lists a name needs is empty; the house lists may be.
pub open spec fn naming_lacks_fragments(n: AlienNamingCatalog) -> bool {
    ||| n.root_prefixes@.len() == 0
    ||| n.root_cores@.len() == 0
    ||| n.root_suffixes@.len() == 0
    ||| n.world_suffixes@.len() == 0
    ||| n.species_suffixes@.len() == 0
    ||| n.demonym_suffixes@.len() == 0
}

/// The message a catalog is rejected with, or `None` when it is valid.
pub open spec fn alien_catalog_fault(c: AlienGenerationCatalog) -> Option<Seq<char>> {
    if c.schema_version == 0 {
        Some("alien generation schema_version must be >= 1"@)
    } else if naming_lacks_fragments(c.naming) {
        Some("alien naming fragments cannot be empty"@)
    } else {
        match first_empty_table(alien_table_sizes(c.tables), 24) {
            Some(label) => Some("alien table "@ + label + " cannot be empty"@),
            None => None,
        }
    }
}

impl AlienGenerationCatalog {
    pub fn validate(&self) -> (r: Result<(), AlienGenerationError>)
        ensures
            match alien_catalog_fault(*self) {
                None => r is Ok,
                Some(m) => r matches Err(AlienGenerationError::Validation(msg)) && msg@ == m,
            },
    {
        proof {
            reveal_strlit("alien generation schema_version must be >= 1");
        }
        if self.schema_version == 0 {
            return Err(AlienGenerationError::Validation(copy_str("alien generation schema_version must be >= 1")));
        }
        match self.naming.validate() {
            Err(e) => return Err(e),
            Ok(()) => {},
        }
        self.tables.validate()
    }
}

impl AlienNamingCatalog {
    pub fn validate(&self) -> (r: Result<(), AlienGenerationError>)
        ensures
            naming_lacks_fragments(*self) ==> (r matches Err(AlienGenerationError::Validation(msg)) && msg@ == "alien naming fragments cannot be empty"@),
            !naming_lacks_fragments(*self) ==> r is Ok,
    {
        if self.root_prefixes.len() == 0 || self.root_cores.len() == 0 || self.root_suffixes.len() == 0
            || self.world_suffixes.len() == 0 || self.species_suffixes.len() == 0
            || self.demonym_suffixes.len() == 0 {
            return Err(AlienGenerationError::Validation(copy_str("alien naming fragments cannot be empty")));
        }
        Ok(())
    }
}

impl AlienGenerationTables {
    pub fn validate(&self) -> (r: Result<(), AlienGenerationError>)
        ensures
            match first_empty_table(alien_table_sizes(*self), 24) {
                None => r is Ok,
                Some(label) => r matches Err(AlienGenerationError::Validation(msg)) && msg@ == "alien table "@ + label + " cannot be empty"@,
            },
    {
        let tables: Vec<(&str, usize)> = vec![
            ("naming_style", self.naming_style.len()),
            ("star_archetype", self.star_archetype.len()),
            ("origin", self.origin.len()),
            ("gravity", self.gravity.len()),
            ("atmosphere", self.atmosphere.len()),
            ("climate", self.climate.len()),
            ("terrain", self.terrain.len()),
            ("body_plan", self.body_plan.len()),
            ("scale", self.scale.len()),
            ("covering", self.covering.len()),
            ("pigmentation", self.pigmentation.len()),
            ("feature", self.feature.len()),
            ("senses", self.senses.len()),
            ("locomotion", self.locomotion.len()),
            ("adaptation", self.adaptation.len()),
            ("society", self.society.len()),
            ("values", self.values.len()),
            ("technology", self.technology.len()),
            ("interstellar_role", self.interstellar_role.len()),
            ("cosmic_tier", self.cosmic_tier.len()),
            ("power_source", self.power_source.len()),
            ("signature_gift", self.signature_gift.len()),
            ("flight_style", self.flight_style.len()),
            ("weakness", self.weakness.len()),
        ];
        let ghost sizes = alien_table_sizes(*self);
        assert(tables@.len() == 24);
        assert forall|k: int| 0 <= k < 24 implies (#[trigger] tables@[k]).0@ == sizes[k].0 && tables@[k].1 == sizes[k].1 by {}
        let mut i: usize = 0;
        while i < tables.len()
            invariant
                i <= 24,
                tables@.len() == 24,
                sizes == alien_table_sizes(*self),
                forall|k: int| 0 <= k < 24 ==> (#[trigger] tables@[k]).0@ == sizes[k].0 && tables@[k].1 == sizes[k].1,
                first_empty_table(sizes, i as int) is None,
            decreases 24 - i,
        {
            let (label, size) = tables[i];
            if size == 0 {
                let mut m = concat_str("alien table ", label);
                m.append(" cannot be empty");
                proof {
                    lemma_first_empty_stable(sizes, i + 1, 24);
                }
                return Err(AlienGenerationError::Validation(m));
            }
            i = i + 1;
        }
        Ok(())
    }
}

proof fn lemma_first_empty_stable(sizes: Seq<(Seq<char>, nat)>, n: int, k: int)
    requires
        0 <= n <= k,
        first_empty_table(sizes, n) is Some,
    ensures
        first_empty_table(sizes, k) == first_empty_table(sizes, n),
    decreases k - n,
{
    if k > n {
        lemma_first_empty_stable(sizes, n, k - 1);
    }
}

} // verus!

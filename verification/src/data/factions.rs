use vstd::prelude::*;

use crate::data::validation::{entry_message, entry_message_text};
use crate::rules::signature::SignatureType;
use crate::text::{concat_str, copy_str, is_blank, is_blank_chars, str_eq};

verus! {

broadcast use vstd::string::group_string_axioms;

pub struct FactionTypeCatalog {
    pub schema_version: u32,
    pub faction_types: Vec<FactionTypeDefinition>,
}

pub struct FactionInstanceCatalog {
    pub schema_version: u32,
    pub factions: Vec<FactionInstanceDefinition>,
}

pub struct FactionTypeDefinition {
    pub id: String,
    pub name: String,
    pub domain: FactionDomain,
    pub default_jurisdiction: Jurisdiction,
    pub detection: DetectionProfile,
    pub response: ResponseProfile,
    pub narrative_pressure: Vec<String>,
    pub tags: Vec<String>,
    pub notes: Option<String>,
}

pub struct FactionInstanceDefinition {
    pub id: String,
    pub type_id: String,
    pub jurisdiction: Jurisdiction,
    pub scope: FactionScope,
    pub influence: Vec<LocationInfluence>,
    pub detection_override: Option<DetectionProfile>,
    pub response_override: Option<ResponseProfile>,
    pub tags: Vec<String>,
    pub notes: Option<String>,
}

pub struct FactionScope {
    pub location_ids: Vec<u32>,
    pub location_tags: Vec<LocationTag>,
}

#[derive(Debug, Clone, Copy, PartialEq, Eq, Structural)]
pub struct LocationInfluence {
    pub location_id: u32,
    pub influence: i32,
}

pub struct DetectionProfile {
    pub signature_types: Vec<SignatureType>,
    pub heat_min: Option<u32>,
}

pub struct ResponseProfile {
    pub doctrine: Vec<ResponseDoctrine>,
    pub thresholds: Vec<ResponseThreshold>,
}

pub struct ResponseThreshold {
    pub heat: u32,
    pub level: String,
    pub actions: Vec<ResponseAction>,
}

/// A response a faction takes; its parameters are carried as JSON text, which nothing
/// in the library reads.
pub struct ResponseAction {
    pub kind: String,
    pub params: String,
}

#[derive(Debug, Clone, Copy, PartialEq, Eq, Structural)]
pub enum FactionDomain {
    Law,
    Military,
    Corporate,
    Criminal,
    Occult,
    Civic,
    Cosmic,
}

#[derive(Debug, Clone, Copy, PartialEq, Eq, Structural)]
pub enum Jurisdiction {
    Local,
    Regional,
    National,
    Global,
    Planetary,
}

#[derive(Debug, Clone, Copy, PartialEq, Eq, Structural)]
pub enum ResponseDoctrine {
    Arrest,
    Suppress,
    Exploit,
    Study,
    Eliminate,
    Contain,
    Disrupt,
}

#[derive(Debug, Clone, Copy, PartialEq, Eq, Structural)]
pub enum LocationTag {
    Public,
    Residential,
    Industrial,
    HighSecurity,
}

pub struct FactionData {
    pub types: FactionTypeCatalog,
    pub instances: FactionInstanceCatalog,
}

/// Why faction data could not be loaded: reading, parsing, or one of its rules.
#[derive(Debug)]
pub enum DataError {
    Io { path: String, message: String },
    Json { path: String, message: String },
    Validation(String),
}

impl DataError {
    /// The error as text.
    pub fn message(&self) -> (m: String)
        ensures
            m@ == match *self {
                DataError::Io { path, message } => "failed to read "@ + path@ + ": "@ + message@,
                DataError::Json { path, message } => "failed to parse "@ + path@ + ": "@ + message@,
                DataError::Validation(message) => message@,
            },
    {
        match self {
            DataError::Io { path, message } => {
                let mut m = concat_str("failed to read ", path.as_str());
                m.append(": ");
                m.append(message.as_str());
                m
            },
            DataError::Json { path, message } => {
                let mut m = concat_str("failed to parse ", path.as_str());
                m.append(": ");
                m.append(message.as_str());
                m
            },
            DataError::Validation(message) => copy_str(message.as_str()),
        }
    }
}

/// Index of the first id that repeats an earlier one.
pub open spec fn first_repeat_from(ids: Seq<Seq<char>>, i: int) -> Option<int>
    decreases ids.len() - i,
{
    if i < 0 || i >= ids.len() {
        None
    } else if exists|j: int| 0 <= j < i && ids[j] == ids[i] {
        Some(i)
    } else {
        first_repeat_from(ids, i + 1)
    }
}

/// The message for the first id that repeats an earlier one, if any.
pub open spec fn duplicate_fault(label: Seq<char>, ids: Seq<Seq<char>>) -> Option<Seq<char>> {
    match first_repeat_from(ids, 0) {
        Some(k) => Some("duplicate "@ + label + " id "@ + ids[k]),
        None => None,
    }
}

/// Refuses a list of ids that repeats one, naming the first repeat.
pub fn ensure_unique_ids(label: &str, ids: &Vec<&str>) -> (r: Result<(), DataError>)
    ensures
        match duplicate_fault(label@, ids@.map_values(|s: &str| s@)) {
            None => r is Ok,
            Some(m) => r matches Err(DataError::Validation(msg)) && msg@ == m,
        },
{
    let ghost v = ids@.map_values(|s: &str| s@);
    let mut i: usize = 0;
    while i < ids.len()
        invariant
            i <= ids@.len(),
            v == ids@.map_values(|s: &str| s@),
            first_repeat_from(v, i as int) == first_repeat_from(v, 0),
        decreases ids@.len() - i,
    {
        let mut j: usize = 0;
        while j < i
            invariant
                j <= i < ids@.len(),
                v == ids@.map_values(|s: &str| s@),
                first_repeat_from(v, i as int) == first_repeat_from(v, 0),
                forall|k: int| 0 <= k < j ==> v[k] != v[i as int],
            decreases i - j,
        {
            if str_eq(ids[j], ids[i]) {
                assert(v[j as int] == v[i as int]);
                assert(exists|k: int| 0 <= k < i && v[k] == v[i as int]);
                assert(first_repeat_from(v, i as int) == Some(i as int));
                assert(v[i as int] == ids@[i as int]@);
                proof {
                    reveal_strlit("duplicate ");
                    reveal_strlit(" id ");
                }
                let mut m = concat_str("duplicate ", label);
                m.append(" id ");
                m.append(ids[i]);
                return Err(DataError::Validation(m));
            }
            j = j + 1;
        }
        assert(!(exists|k: int| 0 <= k < i && v[k] == v[i as int]));
        i = i + 1;
    }
    Ok(())
}

/// The first faction type without an id or a name, as the message for it.
pub open spec fn type_fault_from(types: Seq<FactionTypeDefinition>, i: int) -> Option<Seq<char>>
    decreases types.len() - i,
{
    if i < 0 || i >= types.len() {
        None
    } else if is_blank_chars(types[i].id@) {
        Some("faction type id cannot be empty"@)
    } else if is_blank_chars(types[i].name@) {
        Some(entry_message("faction type"@, types[i].id@, " has empty name"@))
    } else {
        type_fault_from(types, i + 1)
    }
}

/// The first faction instance without an id or a type id, as the message for it.
pub open spec fn instance_fault_from(items: Seq<FactionInstanceDefinition>, i: int) -> Option<Seq<char>>
    decreases items.len() - i,
{
    if i < 0 || i >= items.len() {
        None
    } else if is_blank_chars(items[i].id@) {
        Some("faction instance id cannot be empty"@)
    } else if is_blank_chars(items[i].type_id@) {
        Some(entry_message("faction instance"@, items[i].id@, " has empty type_id"@))
    } else {
        instance_fault_from(items, i + 1)
    }
}

fn type_ids(types: &Vec<FactionTypeDefinition>) -> (ids: Vec<&str>)
    ensures
        ids@.map_values(|s: &str| s@) == types@.map_values(|t: FactionTypeDefinition| t.id@),
{
    let mut ids: Vec<&str> = Vec::new();
    let mut i: usize = 0;
    while i < types.len()
        invariant
            i <= types@.len(),
            ids@.map_values(|s: &str| s@) == types@.take(i as int).map_values(|t: FactionTypeDefinition| t.id@),
        decreases types@.len() - i,
    {
        let ghost before = ids@;
        let id = types[i].id.as_str();
        ids.push(id);
        assert(ids@ == before.push(id));
        assert(ids@.map_values(|s: &str| s@) =~= before.map_values(|s: &str| s@).push(id@));
        assert(types@.take(i + 1).map_values(|t: FactionTypeDefinition| t.id@) =~= types@.take(i as int).map_values(|t: FactionTypeDefinition| t.id@).push(types@[i as int].id@));
        i = i + 1;
    }
    assert(types@.take(types@.len() as int) =~= types@);
    ids
}

fn instance_ids(items: &Vec<FactionInstanceDefinition>) -> (ids: Vec<&str>)
    ensures
        ids@.map_values(|s: &str| s@) == items@.map_values(|t: FactionInstanceDefinition| t.id@),
{
    let mut ids: Vec<&str> = Vec::new();
    let mut i: usize = 0;
    while i < items.len()
        invariant
            i <= items@.len(),
            ids@.map_values(|s: &str| s@) == items@.take(i as int).map_values(|t: FactionInstanceDefinition| t.id@),
        decreases items@.len() - i,
    {
        let ghost before = ids@;
        let id = items[i].id.as_str();
        ids.push(id);
        assert(ids@ == before.push(id));
        assert(ids@.map_values(|s: &str| s@) =~= before.map_values(|s: &str| s@).push(id@));
        assert(items@.take(i + 1).map_values(|t: FactionInstanceDefinition| t.id@) =~= items@.take(i as int).map_values(|t: FactionInstanceDefinition| t.id@).push(items@[i as int].id@));
        i = i + 1;
    }
    assert(items@.take(items@.len() as int) =~= items@);
    ids
}

impl FactionTypeCatalog {
    /// Refuses repeated ids first, then the first type without an id or a name.
    pub fn validate(&self) -> (r: Result<(), DataError>)
        ensures
            match duplicate_fault("faction type"@, self.faction_types@.map_values(|t: FactionTypeDefinition| t.id@)) {
                Some(m) => r matches Err(DataError::Validation(msg)) && msg@ == m,
                None => match type_fault_from(self.faction_types@, 0) {
                    None => r is Ok,
                    Some(m) => r matches Err(DataError::Validation(msg)) && msg@ == m,
                },
            },
    {
        let ids = type_ids(&self.faction_types);
        match ensure_unique_ids("faction type", &ids) {
            Err(e) => return Err(e),
            Ok(()) => {},
        }
        proof {
            reveal_strlit("faction type id cannot be empty");
            reveal_strlit(" has empty name");
        }
        let mut i: usize = 0;
        while i < self.faction_types.len()
            invariant
                i <= self.faction_types@.len(),
                type_fault_from(self.faction_types@, i as int) == type_fault_from(self.faction_types@, 0),
                duplicate_fault("faction type"@, self.faction_types@.map_values(|t: FactionTypeDefinition| t.id@)) is None,
            decreases self.faction_types@.len() - i,
        {
            let def = &self.faction_types[i];
            if is_blank(def.id.as_str()) {
                return Err(DataError::Validation(copy_str("faction type id cannot be empty")));
            }
            if is_blank(def.name.as_str()) {
                return Err(DataError::Validation(entry_message_text("faction type", def.id.as_str(), " has empty name")));
            }
            i = i + 1;
        }
        Ok(())
    }
}

/// The first instance whose type id no type has, as the message for it.
pub open spec fn unknown_type_from(items: Seq<FactionInstanceDefinition>, type_ids: Seq<Seq<char>>, i: int) -> Option<Seq<char>>
    decreases items.len() - i,
{
    if i < 0 || i >= items.len() {
        None
    } else if !type_ids.contains(items[i].type_id@) {
        Some("faction instance "@ + items[i].id@ + " references unknown type_id "@ + items[i].type_id@)
    } else {
        unknown_type_from(items, type_ids, i + 1)
    }
}

fn has_type_id(types: &Vec<FactionTypeDefinition>, id: &str) -> (b: bool)
    ensures
        b == types@.map_values(|t: FactionTypeDefinition| t.id@).contains(id@),
{
    let ghost v = types@.map_values(|t: FactionTypeDefinition| t.id@);
    let mut i: usize = 0;
    while i < types.len()
        invariant
            i <= types@.len(),
            v == types@.map_values(|t: FactionTypeDefinition| t.id@),
            forall|k: int| 0 <= k < i ==> v[k] != id@,
        decreases types@.len() - i,
    {
        if str_eq(types[i].id.as_str(), id) {
            assert(v[i as int] == id@);
            return true;
        }
        i = i + 1;
    }
    false
}

impl FactionInstanceCatalog {
    /// Refuses repeated ids first, then the first instance without an id or a type id.
    pub fn validate(&self) -> (r: Result<(), DataError>)
        ensures
            match duplicate_fault("faction instance"@, self.factions@.map_values(|t: FactionInstanceDefinition| t.id@)) {
                Some(m) => r matches Err(DataError::Validation(msg)) && msg@ == m,
                None => match instance_fault_from(self.factions@, 0) {
                    None => r is Ok,
                    Some(m) => r matches Err(DataError::Validation(msg)) && msg@ == m,
                },
            },
    {
        let ids = instance_ids(&self.factions);
        match ensure_unique_ids("faction instance", &ids) {
            Err(e) => return Err(e),
            Ok(()) => {},
        }
        proof {
            reveal_strlit("faction instance id cannot be empty");
            reveal_strlit(" has empty type_id");
        }
        let mut i: usize = 0;
        while i < self.factions.len()
            invariant
                i <= self.factions@.len(),
                instance_fault_from(self.factions@, i as int) == instance_fault_from(self.factions@, 0),
                duplicate_fault("faction instance"@, self.factions@.map_values(|t: FactionInstanceDefinition| t.id@)) is None,
            decreases self.factions@.len() - i,
        {
            let def = &self.factions[i];
            if is_blank(def.id.as_str()) {
                return Err(DataError::Validation(copy_str("faction instance id cannot be empty")));
            }
            if is_blank(def.type_id.as_str()) {
                return Err(DataError::Validation(entry_message_text("faction instance", def.id.as_str(), " has empty type_id")));
            }
            i = i + 1;
        }
        Ok(())
    }

    /// Refuses the first instance whose type is not in `types`.
    pub fn validate_against(&self, types: &FactionTypeCatalog) -> (r: Result<(), DataError>)
        ensures
            match unknown_type_from(self.factions@, types.faction_types@.map_values(|t: FactionTypeDefinition| t.id@), 0) {
                None => r is Ok,
                Some(m) => r matches Err(DataError::Validation(msg)) && msg@ == m,
            },
    {
        let ghost tv = types.faction_types@.map_values(|t: FactionTypeDefinition| t.id@);
        let mut i: usize = 0;
        while i < self.factions.len()
            invariant
                i <= self.factions@.len(),
                tv == types.faction_types@.map_values(|t: FactionTypeDefinition| t.id@),
                unknown_type_from(self.factions@, tv, i as int) == unknown_type_from(self.factions@, tv, 0),
            decreases self.factions@.len() - i,
        {
            let instance = &self.factions[i];
            if !has_type_id(&types.faction_types, instance.type_id.as_str()) {
                proof {
                    reveal_strlit("faction instance ");
                    reveal_strlit(" references unknown type_id ");
                }
                let mut m = concat_str("faction instance ", instance.id.as_str());
                m.append(" references unknown type_id ");
                m.append(instance.type_id.as_str());
                return Err(DataError::Validation(m));
            }
            i = i + 1;
        }
        Ok(())
    }
}

} // verus!

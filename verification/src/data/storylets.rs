use vstd::prelude::*;

use crate::data::validation::{check_event, entry_faults, event_fault, first_entry_fault, first_fault, CatalogEntry};
use crate::text::{concat_str, copy_str, opt_view};

verus! {

broadcast use vstd::string::group_string_axioms;

pub struct StoryletCatalog {
    pub schema_version: u32,
    pub storylets: Vec<Storylet>,
}

pub struct Storylet {
    pub id: String,
    pub category: StoryletCategory,
    pub preconditions: Vec<String>,
    pub text_stub: String,
    pub choices: Vec<StoryletChoice>,
    pub effects: Vec<String>,
    pub tags: Vec<String>,
}

pub struct StoryletChoice {
    pub id: String,
    pub text: String,
    pub effects: Vec<String>,
}

#[derive(Debug, Clone, Copy, PartialEq, Eq, Structural)]
pub enum StoryletCategory {
    CivilianLife,
    MaskedLife,
    InstitutionalPressure,
    VillainOpportunities,
}

/// Why a catalog could not be loaded: reading, parsing, or one of its rules.
#[derive(Debug)]
pub enum StoryletDataError {
    Io { path: String, message: String },
    Json { path: String, message: String },
    Validation(String),
}

impl StoryletDataError {
    /// The error as text.
    pub fn message(&self) -> (m: String)
        ensures
            m@ == match *self {
                StoryletDataError::Io { path, message } => "failed to read "@ + path@ + ": "@ + message@,
                StoryletDataError::Json { path, message } => "failed to parse "@ + path@ + ": "@ + message@,
                StoryletDataError::Validation(message) => message@,
            },
    {
        match self {
            StoryletDataError::Io { path, message } => {
                let mut m = concat_str("failed to read ", path.as_str());
                m.append(": ");
                m.append(message.as_str());
                m
            },
            StoryletDataError::Json { path, message } => {
                let mut m = concat_str("failed to parse ", path.as_str());
                m.append(": ");
                m.append(message.as_str());
                m
            },
            StoryletDataError::Validation(message) => copy_str(message.as_str()),
        }
    }
}

impl CatalogEntry for Storylet {
    open spec fn entry_id(&self) -> Seq<char> {
        self.id@
    }

    open spec fn own_fault(&self, kind: Seq<char>) -> Option<Seq<char>> {
        event_fault(kind, self.id@, None, self.text_stub@, self.choices@.len())
    }

    fn id_str(&self) -> (r: &str) {
        self.id.as_str()
    }

    fn check_own(&self, kind: &str) -> (r: Option<String>) {
        check_event(kind, self.id.as_str(), None, self.text_stub.as_str(), self.choices.len())
    }
}

impl StoryletCatalog {
    pub fn validate(&self) -> (r: Result<(), StoryletDataError>)
        ensures
            match first_fault(self.storylets@, entry_faults::<Storylet>("storylet"@), self.storylets@.len() as int) {
                None => r is Ok,
                Some(m) => r matches Err(StoryletDataError::Validation(msg)) && msg@ == m,
            },
    {
        match first_entry_fault(&self.storylets, "storylet") {
            Some(m) => Err(StoryletDataError::Validation(m)),
            None => Ok(()),
        }
    }
}

} // verus!

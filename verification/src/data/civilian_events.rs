use vstd::prelude::*;

use crate::data::validation::{check_event, entry_faults, event_fault, first_entry_fault, first_fault, CatalogEntry};
use crate::text::{concat_str, copy_str, opt_view};

verus! {

broadcast use vstd::string::group_string_axioms;

pub struct CivilianEventCatalog {
    pub schema_version: u32,
    pub events: Vec<CivilianStorylet>,
}

pub struct CivilianStorylet {
    pub id: String,
    pub title: String,
    pub text_stub: String,
    pub choices: Vec<CivilianChoice>,
    pub effects: Vec<String>,
}

pub struct CivilianChoice {
    pub id: String,
    pub text: String,
    pub effects: Vec<String>,
}

/// Why a catalog could not be loaded: reading, parsing, or one of its rules.
#[derive(Debug)]
pub enum CivilianEventDataError {
    Io { path: String, message: String },
    Json { path: String, message: String },
    Validation(String),
}

impl CivilianEventDataError {
    /// The error as text.
    pub fn message(&self) -> (m: String)
        ensures
            m@ == match *self {
                CivilianEventDataError::Io { path, message } => "failed to read "@ + path@ + ": "@ + message@,
                CivilianEventDataError::Json { path, message } => "failed to parse "@ + path@ + ": "@ + message@,
                CivilianEventDataError::Validation(message) => message@,
            },
    {
        match self {
            CivilianEventDataError::Io { path, message } => {
                let mut m = concat_str("failed to read ", path.as_str());
                m.append(": ");
                m.append(message.as_str());
                m
            },
            CivilianEventDataError::Json { path, message } => {
                let mut m = concat_str("failed to parse ", path.as_str());
                m.append(": ");
                m.append(message.as_str());
                m
            },
            CivilianEventDataError::Validation(message) => copy_str(message.as_str()),
        }
    }
}

impl CatalogEntry for CivilianStorylet {
    open spec fn entry_id(&self) -> Seq<char> {
        self.id@
    }

    open spec fn own_fault(&self, kind: Seq<char>) -> Option<Seq<char>> {
        event_fault(kind, self.id@, Some(self.title@), self.text_stub@, self.choices@.len())
    }

    fn id_str(&self) -> (r: &str) {
        self.id.as_str()
    }

    fn check_own(&self, kind: &str) -> (r: Option<String>) {
        check_event(kind, self.id.as_str(), Some(self.title.as_str()), self.text_stub.as_str(), self.choices.len())
    }
}

impl CivilianEventCatalog {
    pub fn validate(&self) -> (r: Result<(), CivilianEventDataError>)
        ensures
            match first_fault(self.events@, entry_faults::<CivilianStorylet>("civilian event"@), self.events@.len() as int) {
                None => r is Ok,
                Some(m) => r matches Err(CivilianEventDataError::Validation(msg)) && msg@ == m,
            },
    {
        match first_entry_fault(&self.events, "civilian event") {
            Some(m) => Err(CivilianEventDataError::Validation(m)),
            None => Ok(()),
        }
    }
}

} // verus!

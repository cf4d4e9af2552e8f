use vstd::prelude::*;

use crate::data::validation::{check_event, entry_faults, event_fault, first_entry_fault, first_fault, CatalogEntry};
use crate::text::{concat_str, copy_str, opt_view};

use crate::simulation::region::GlobalEscalation;

verus! {

broadcast use vstd::string::group_string_axioms;

pub struct GlobalEventCatalog {
    pub schema_version: u32,
    pub events: Vec<GlobalEventDefinition>,
}

pub struct GlobalEventDefinition {
    pub id: String,
    pub title: String,
    pub text_stub: String,
    pub min_escalation: GlobalEscalation,
    pub max_escalation: Option<GlobalEscalation>,
    pub cooldown_days: u32,
    pub choices: Vec<GlobalEventChoice>,
    pub effects: Vec<String>,
    pub tags: Vec<String>,
}

pub struct GlobalEventChoice {
    pub id: String,
    pub text: String,
    pub effects: Vec<String>,
}

/// Why a catalog could not be loaded: reading, parsing, or one of its rules.
#[derive(Debug)]
pub enum GlobalEventDataError {
    Io { path: String, message: String },
    Json { path: String, message: String },
    Validation(String),
}

impl GlobalEventDataError {
    /// The error as text.
    pub fn message(&self) -> (m: String)
        ensures
            m@ == match *self {
                GlobalEventDataError::Io { path, message } => "failed to read "@ + path@ + ": "@ + message@,
                GlobalEventDataError::Json { path, message } => "failed to parse "@ + path@ + ": "@ + message@,
                GlobalEventDataError::Validation(message) => message@,
            },
    {
        match self {
            GlobalEventDataError::Io { path, message } => {
                let mut m = concat_str("failed to read ", path.as_str());
                m.append(": ");
                m.append(message.as_str());
                m
            },
            GlobalEventDataError::Json { path, message } => {
                let mut m = concat_str("failed to parse ", path.as_str());
                m.append(": ");
                m.append(message.as_str());
                m
            },
            GlobalEventDataError::Validation(message) => copy_str(message.as_str()),
        }
    }
}

impl CatalogEntry for GlobalEventDefinition {
    open spec fn entry_id(&self) -> Seq<char> {
        self.id@
    }

    open spec fn own_fault(&self, kind: Seq<char>) -> Option<Seq<char>> {
        event_fault(kind, self.id@, Some(self.title@), self.text_stub@, self.choices@.len())
    }

    fn id_str(&self) -> (r: &str) {
        self.id.as_str()
    }

    fn check_own(&self, kind: &str) -> (r: Option<String>) {
        check_event(kind, self.id.as_str(), Some(self.title.as_str()), self.text_stub.as_str(), self.choices.len())
    }
}

impl GlobalEventCatalog {
    pub fn validate(&self) -> (r: Result<(), GlobalEventDataError>)
        ensures
            match first_fault(self.events@, entry_faults::<GlobalEventDefinition>("global event"@), self.events@.len() as int) {
                None => r is Ok,
                Some(m) => r matches Err(GlobalEventDataError::Validation(msg)) && msg@ == m,
            },
    {
        match first_entry_fault(&self.events, "global event") {
            Some(m) => Err(GlobalEventDataError::Validation(m)),
            None => Ok(()),
        }
    }
}

} // verus!

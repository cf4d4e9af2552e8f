use vstd::prelude::*;

use crate::data::validation::{check_event, entry_faults, event_fault, first_entry_fault, first_fault, CatalogEntry};
use crate::text::{concat_str, copy_str, opt_view};

verus! {

broadcast use vstd::string::group_string_axioms;

pub struct EndgameEventCatalog {
    pub schema_version: u32,
    pub events: Vec<EndgameEvent>,
}

pub struct EndgameEvent {
    pub id: String,
    pub phase: EndgamePhase,
    pub title: String,
    pub text_stub: String,
    pub choices: Vec<EndgameChoice>,
    pub effects: Vec<String>,
}

pub struct EndgameChoice {
    pub id: String,
    pub text: String,
    pub effects: Vec<String>,
}

#[derive(Debug, Clone, Copy, PartialEq, Eq, Hash, Structural)]
pub enum EndgamePhase {
    Exposed,
    Registration,
    CosmicJudgement,
    Ascension,
    Exile,
}

/// Why a catalog could not be loaded: reading, parsing, or one of its rules.
#[derive(Debug)]
pub enum EndgameEventDataError {
    Io { path: String, message: String },
    Json { path: String, message: String },
    Validation(String),
}

impl EndgameEventDataError {
    /// The error as text.
    pub fn message(&self) -> (m: String)
        ensures
            m@ == match *self {
                EndgameEventDataError::Io { path, message } => "failed to read "@ + path@ + ": "@ + message@,
                EndgameEventDataError::Json { path, message } => "failed to parse "@ + path@ + ": "@ + message@,
                EndgameEventDataError::Validation(message) => message@,
            },
    {
        match self {
            EndgameEventDataError::Io { path, message } => {
                let mut m = concat_str("failed to read ", path.as_str());
                m.append(": ");
                m.append(message.as_str());
                m
            },
            EndgameEventDataError::Json { path, message } => {
                let mut m = concat_str("failed to parse ", path.as_str());
                m.append(": ");
                m.append(message.as_str());
                m
            },
            EndgameEventDataError::Validation(message) => copy_str(message.as_str()),
        }
    }
}

impl CatalogEntry for EndgameEvent {
    open spec fn entry_id(&self) -> Seq<char> {
        self.id@
    }

    open spec fn own_fault(&self, kind: Seq<char>) -> Option<Seq<char>> {
        event_fault(kind, self.id@, Some(self.title@), self.text_stub@, self.choices@.len())
    }

    fn id_str(&self) -> (r: &str) {
        self.id.as_str()
    }

    fn check_own(&self, kind: &str) -> (r: Option<String>) {
        check_event(kind, self.id.as_str(), Some(self.title.as_str()), self.text_stub.as_str(), self.choices.len())
    }
}

impl EndgameEventCatalog {
    pub fn validate(&self) -> (r: Result<(), EndgameEventDataError>)
        ensures
            match first_fault(self.events@, entry_faults::<EndgameEvent>("endgame event"@), self.events@.len() as int) {
                None => r is Ok,
                Some(m) => r matches Err(EndgameEventDataError::Validation(msg)) && msg@ == m,
            },
    {
        match first_entry_fault(&self.events, "endgame event") {
            Some(m) => Err(EndgameEventDataError::Validation(m)),
            None => Ok(()),
        }
    }
}

} // verus!

use vstd::prelude::*;

use crate::rules::signature::SignatureType;
use crate::text::{concat_str, copy_str};

verus! {

broadcast use vstd::string::group_string_axioms;

pub struct NemesisActionCatalog {
    pub schema_version: u32,
    pub actions: Vec<NemesisActionDefinition>,
}

/// An action a nemesis can take once heat and case progress are high enough. Its
/// pressure changes are fractional and are applied outside the library.
pub struct NemesisActionDefinition {
    pub id: String,
    pub label: String,
    pub min_heat: u32,
    pub min_case_progress: u32,
    pub signature_traces: Vec<NemesisSignatureTrace>,
    pub case_progress_delta: i32,
    pub notes: Option<String>,
}

pub struct NemesisSignatureTrace {
    pub signature_type: SignatureType,
    pub strength: i64,
    pub persistence_turns: i64,
}

/// Why a catalog could not be loaded: reading, parsing.
#[derive(Debug)]
pub enum DataError {
    Io { path: String, message: String },
    Json { path: String, message: String },
}

impl DataError {
    /// The error as text.
    pub fn message(&self) -> (m: String)
        ensures
            m@ == match *self {
                DataError::Io { path, message } => "failed to read "@ + path@ + ": "@ + message@,
                DataError::Json { path, message } => "failed to parse "@ + path@ + ": "@ + message@,
            },
    {
        match self {
            DataError::Io { path, message } => {
                let mut m = concat_str("failed to read ", path.as_str());
                m.append(": ");
                m.append(message.as_str());
                m
            },
            DataError::Json { path, message } => {
                let mut m = concat_str("failed to parse ", path.as_str());
                m.append(": ");
                m.append(message.as_str());
                m
            },
        }
    }
}

} // verus!

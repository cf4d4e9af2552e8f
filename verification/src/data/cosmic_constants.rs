use vstd::prelude::*;

use crate::data::validation::{entry_faults, entry_message, entry_message_text, first_entry_fault, first_fault, CatalogEntry};
use crate::text::{concat_str, copy_str, is_blank, is_blank_chars, opt_view};

verus! {

broadcast use vstd::string::group_string_axioms;

pub struct CosmicConstantsCatalog {
    pub schema_version: u32,
    pub constants: Vec<CosmicConstantDefinition>,
}

/// One of the cosmic constants: the beings that hold the universe's order.
pub struct CosmicConstantDefinition {
    pub id: String,
    pub label: String,
    pub role: String,
    pub order: u32,
    pub body_count: u32,
    pub hive_mind: bool,
    pub notes: Vec<String>,
}

/// Why a catalog could not be loaded: reading, parsing, or one of its rules.
#[derive(Debug)]
pub enum CosmicConstantsError {
    Io { path: String, message: String },
    Json { path: String, message: String },
    Validation(String),
}

impl CosmicConstantsError {
    /// The error as text.
    pub fn message(&self) -> (m: String)
        ensures
            m@ == match *self {
                CosmicConstantsError::Io { path, message } => "failed to read "@ + path@ + ": "@ + message@,
                CosmicConstantsError::Json { path, message } => "failed to parse "@ + path@ + ": "@ + message@,
                CosmicConstantsError::Validation(message) => message@,
            },
    {
        match self {
            CosmicConstantsError::Io { path, message } => {
                let mut m = concat_str("failed to read ", path.as_str());
                m.append(": ");
                m.append(message.as_str());
                m
            },
            CosmicConstantsError::Json { path, message } => {
                let mut m = concat_str("failed to parse ", path.as_str());
                m.append(": ");
                m.append(message.as_str());
                m
            },
            CosmicConstantsError::Validation(message) => copy_str(message.as_str()),
        }
    }
}

impl CatalogEntry for CosmicConstantDefinition {
    open spec fn entry_id(&self) -> Seq<char> {
        self.id@
    }

    open spec fn own_fault(&self, kind: Seq<char>) -> Option<Seq<char>> {
        if is_blank_chars(self.label@) {
            Some(entry_message(kind, self.id@, " missing label"@))
        } else {
            None
        }
    }

    fn id_str(&self) -> (r: &str) {
        self.id.as_str()
    }

    fn check_own(&self, kind: &str) -> (r: Option<String>) {
        proof {
            reveal_strlit(" missing label");
        }
        if is_blank(self.label.as_str()) {
            Some(entry_message_text(kind, self.id.as_str(), " missing label"))
        } else {
            None
        }
    }
}

/// The message a catalog is rejected with, or `None` when it is valid.
pub open spec fn cosmic_constants_fault(c: CosmicConstantsCatalog) -> Option<Seq<char>> {
    if c.schema_version == 0 {
        Some("cosmic constants schema_version must be >= 1"@)
    } else if c.constants@.len() == 0 {
        Some("cosmic constants cannot be empty"@)
    } else {
        first_fault(c.constants@, entry_faults::<CosmicConstantDefinition>("cosmic constant"@), c.constants@.len() as int)
    }
}

impl CosmicConstantsCatalog {
    pub fn validate(&self) -> (r: Result<(), CosmicConstantsError>)
        ensures
            match cosmic_constants_fault(*self) {
                None => r is Ok,
                Some(m) => r matches Err(CosmicConstantsError::Validation(msg)) && msg@ == m,
            },
    {
        if self.schema_version == 0 {
            return Err(CosmicConstantsError::Validation(copy_str("cosmic constants schema_version must be >= 1")));
        }
        if self.constants.len() == 0 {
            return Err(CosmicConstantsError::Validation(copy_str("cosmic constants cannot be empty")));
        }
        match first_entry_fault(&self.constants, "cosmic constant") {
            Some(m) => Err(CosmicConstantsError::Validation(m)),
            None => Ok(()),
        }
    }
}

} // verus!

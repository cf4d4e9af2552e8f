use vstd::prelude::*;

use crate::data::validation::{first_fault, lemma_first_fault_at};
use crate::text::{copy_str, is_blank, is_blank_chars, str_eq};

verus! {

broadcast use vstd::string::group_string_axioms;

pub struct OmniPowerCatalog {
    pub schema_version: u32,
    pub powers: Vec<OmniPowerDefinition>,
}

pub struct OmniPowerDefinition {
    pub id: String,
    pub label: String,
    pub power_name: String,
    pub tags: Vec<String>,
}

/// Why a catalog could not be loaded: reading, parsing, or one of its rules.
#[derive(Debug)]
pub enum OmniPowerError {
    Io { path: String, message: String },
    Json { path: String, message: String },
    Validation(String),
}

/// Whether the id of entry `i` repeats that of an earlier entry.
pub open spec fn repeats_earlier_id(powers: Seq<OmniPowerDefinition>, i: int) -> bool {
    exists|j: int| 0 <= j < i && #[trigger] powers[j].id@ == powers[i].id@
}

/// The first rule that entry `i` breaks, as the message reported for it.
pub open spec fn power_fault(powers: Seq<OmniPowerDefinition>, i: int) -> Option<Seq<char>> {
    let p = powers[i];
    if is_blank_chars(p.id@) {
        Some("omni power id cannot be empty"@)
    } else if repeats_earlier_id(powers, i) {
        Some("duplicate omni power id "@ + p.id@)
    } else if is_blank_chars(p.label@) {
        Some("omni power "@ + p.id@ + " missing label"@)
    } else if is_blank_chars(p.power_name@) {
        Some("omni power "@ + p.id@ + " missing power_name"@)
    } else {
        None
    }
}

/// `power_fault` as a function value.
pub open spec fn power_faults() -> spec_fn(Seq<OmniPowerDefinition>, int) -> Option<Seq<char>> {
    |s: Seq<OmniPowerDefinition>, i: int| power_fault(s, i)
}

/// The message a catalog is rejected with, or `None` when it is valid.
pub open spec fn omni_catalog_fault(c: OmniPowerCatalog) -> Option<Seq<char>> {
    if c.schema_version == 0 {
        Some("omni power schema_version must be >= 1"@)
    } else if c.powers@.len() == 0 {
        Some("omni power list cannot be empty"@)
    } else {
        first_fault(c.powers@, power_faults(), c.powers@.len() as int)
    }
}

impl OmniPowerCatalog {
    pub fn validate(&self) -> (r: Result<(), OmniPowerError>)
        ensures
            match omni_catalog_fault(*self) {
                None => r is Ok,
                Some(m) => r matches Err(OmniPowerError::Validation(msg)) && msg@ == m,
            },
    {
        proof {
            reveal_strlit("omni power schema_version must be >= 1");
            reveal_strlit("omni power list cannot be empty");
            reveal_strlit("omni power id cannot be empty");
        }
        if self.schema_version == 0 {
            return Err(OmniPowerError::Validation(copy_str("omni power schema_version must be >= 1")));
        }
        if self.powers.len() == 0 {
            return Err(OmniPowerError::Validation(copy_str("omni power list cannot be empty")));
        }
        let mut i: usize = 0;
        while i < self.powers.len()
            invariant
                i <= self.powers@.len(),
                first_fault(self.powers@, power_faults(), i as int) is None,
                self.schema_version != 0,
                self.powers@.len() > 0,
            decreases self.powers@.len() - i,
        {
            let p = &self.powers[i];
            if is_blank(p.id.as_str()) {
                proof {
                    lemma_first_fault_at(self.powers@, power_faults(), i as int);
                }
                return Err(OmniPowerError::Validation(copy_str("omni power id cannot be empty")));
            }
            let mut j: usize = 0;
            while j < i
                invariant
                    j <= i < self.powers@.len(),
                    *p == self.powers@[i as int],
                    forall|k: int| 0 <= k < j ==> #[trigger] self.powers@[k].id@ != p.id@,
                    first_fault(self.powers@, power_faults(), i as int) is None,
                    !is_blank_chars(p.id@),
                    self.schema_version != 0,
                    self.powers@.len() > 0,
                decreases i - j,
            {
                if str_eq(self.powers[j].id.as_str(), p.id.as_str()) {
                    assert(repeats_earlier_id(self.powers@, i as int));
                    let mut m = copy_str("duplicate omni power id ");
                    m.append(p.id.as_str());
                    proof {
                        reveal_strlit("duplicate omni power id ");
                        lemma_first_fault_at(self.powers@, power_faults(), i as int);
                    }
                    return Err(OmniPowerError::Validation(m));
                }
                j = j + 1;
            }
            if is_blank(p.label.as_str()) {
                let mut m = copy_str("omni power ");
                m.append(p.id.as_str());
                m.append(" missing label");
                proof {
                    reveal_strlit("omni power ");
                    reveal_strlit(" missing label");
                    lemma_first_fault_at(self.powers@, power_faults(), i as int);
                }
                return Err(OmniPowerError::Validation(m));
            }
            if is_blank(p.power_name.as_str()) {
                let mut m = copy_str("omni power ");
                m.append(p.id.as_str());
                m.append(" missing power_name");
                proof {
                    reveal_strlit("omni power ");
                    reveal_strlit(" missing power_name");
                    lemma_first_fault_at(self.powers@, power_faults(), i as int);
                }
                return Err(OmniPowerError::Validation(m));
            }
            assert(power_fault(self.powers@, i as int) is None);
            i = i + 1;
        }
        Ok(())
    }
}

} // verus!

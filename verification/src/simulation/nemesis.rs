use vstd::prelude::*;

use crate::rules::signature::SignatureType;
use crate::simulation::city::LocationId;
use crate::text::{push_unique, views};

verus! {

/// What a nemesis has learned of the player: the traces and the power forms it has seen.
pub struct NemesisMemory {
    pub signatures: Vec<SignatureType>,
    pub forms: Vec<String>,
}

impl NemesisMemory {
    pub fn new() -> (m: NemesisMemory)
        ensures
            m.signatures@.len() == 0,
            m.forms@.len() == 0,
    {
        NemesisMemory { signatures: Vec::new(), forms: Vec::new() }
    }

    /// Remembers a trace type, once.
    pub fn record_signature(&mut self, signature: SignatureType)
        ensures
            final(self).signatures@ == if old(self).signatures@.contains(signature) {
                old(self).signatures@
            } else {
                old(self).signatures@.push(signature)
            },
            final(self).forms == old(self).forms,
    {
        let mut i: usize = 0;
        while i < self.signatures.len()
            invariant
                i <= self.signatures@.len(),
                forall|j: int| 0 <= j < i ==> self.signatures@[j] != signature,
            decreases self.signatures@.len() - i,
        {
            if self.signatures[i] == signature {
                return;
            }
            i = i + 1;
        }
        self.signatures.push(signature);
    }

    /// Remembers a power form, once.
    pub fn record_form(&mut self, form: String)
        ensures
            views(final(self).forms@) == if views(old(self).forms@).contains(form@) {
                views(old(self).forms@)
            } else {
                views(old(self).forms@).push(form@)
            },
            final(self).signatures == old(self).signatures,
    {
        push_unique(&mut self.forms, form);
    }
}

pub struct NemesisCandidate {
    pub faction_id: String,
    pub location_id: LocationId,
    pub heat: i32,
    pub case_progress: u32,
    pub memory: NemesisMemory,
    pub adaptation_level: u8,
    pub is_nemesis: bool,
    pub last_action_tick: u64,
}

#[derive(Debug, Clone, Copy, PartialEq, Eq, Structural)]
pub struct NemesisAdaptationThreshold {
    pub level: u8,
    pub min_heat: i32,
    pub min_case_progress: u32,
    pub cooldown: u64,
}

/// The factions that may become the player's nemesis, and what each level of adaptation
/// asks.
pub struct NemesisState {
    pub candidates: Vec<NemesisCandidate>,
    pub thresholds: Vec<NemesisAdaptationThreshold>,
}

impl Default for NemesisState {
    fn default() -> (s: NemesisState)
        ensures
            s.candidates@.len() == 0,
            s.thresholds@ == seq![
                NemesisAdaptationThreshold { level: 1, min_heat: 35, min_case_progress: 25, cooldown: 3 },
                NemesisAdaptationThreshold { level: 2, min_heat: 55, min_case_progress: 60, cooldown: 2 },
                NemesisAdaptationThreshold { level: 3, min_heat: 75, min_case_progress: 85, cooldown: 1 },
            ],
    {
        let mut thresholds: Vec<NemesisAdaptationThreshold> = Vec::new();
        thresholds.push(NemesisAdaptationThreshold { level: 1, min_heat: 35, min_case_progress: 25, cooldown: 3 });
        thresholds.push(NemesisAdaptationThreshold { level: 2, min_heat: 55, min_case_progress: 60, cooldown: 2 });
        thresholds.push(NemesisAdaptationThreshold { level: 3, min_heat: 75, min_case_progress: 85, cooldown: 1 });
        NemesisState { candidates: Vec::new(), thresholds }
    }
}

} // verus!

use vstd::prelude::*;

use crate::rules::expression::ParseEnumError;
use crate::text::{copy_str, str_eq};

verus! {

broadcast use vstd::string::group_string_axioms;

/// The kinds of trace a power use can leave behind.
#[derive(Debug, Clone, Copy, PartialEq, Eq, Hash, Structural)]
pub enum SignatureType {
    VisualAnomaly,
    EmSpike,
    ThermalBloom,
    AcousticShock,
    ChemicalResidue,
    PsychicEcho,
    RadiationTrace,
    BioMarker,
    DimensionalResidue,
    GraviticDisturbance,
    ArcaneResonance,
    CausalImprint,
    KineticStress,
}

#[derive(Debug, Clone, Copy, PartialEq, Eq, Structural)]
pub struct SignatureSpec {
    pub signature_type: SignatureType,
    pub strength: i64,
    pub persistence_turns: i64,
}

#[derive(Debug, Clone, Copy, PartialEq, Eq, Structural)]
pub struct SignatureInstance {
    pub signature: SignatureSpec,
    pub remaining_turns: i64,
}

/// Turns a trace lasts when its specification gives no positive persistence.
pub const DEFAULT_SIGNATURE_PERSISTENCE: i64 = 5;

/// The code each signature type is written as in content files.
pub open spec fn signature_type_code(t: SignatureType) -> Seq<char> {
    match t {
        SignatureType::VisualAnomaly => "VISUAL_ANOMALY"@,
        SignatureType::EmSpike => "EM_SPIKE"@,
        SignatureType::ThermalBloom => "THERMAL_BLOOM"@,
        SignatureType::AcousticShock => "ACOUSTIC_SHOCK"@,
        SignatureType::ChemicalResidue => "CHEMICAL_RESIDUE"@,
        SignatureType::PsychicEcho => "PSYCHIC_ECHO"@,
        SignatureType::RadiationTrace => "RADIATION_TRACE"@,
        SignatureType::BioMarker => "BIO_MARKER"@,
        SignatureType::DimensionalResidue => "DIMENSIONAL_RESIDUE"@,
        SignatureType::GraviticDisturbance => "GRAVITIC_DISTURBANCE"@,
        SignatureType::ArcaneResonance => "ARCANE_RESONANCE"@,
        SignatureType::CausalImprint => "CAUSAL_IMPRINT"@,
        SignatureType::KineticStress => "KINETIC_STRESS"@,
    }
}

impl SignatureSpec {
    /// The number of turns an emitted trace of this specification lasts.
    pub open spec fn spec_persistence(self) -> i64 {
        if self.persistence_turns > 0 {
            self.persistence_turns
        } else {
            DEFAULT_SIGNATURE_PERSISTENCE
        }
    }

    /// A live trace of this specification.
    pub fn to_instance(&self) -> (inst: SignatureInstance)
        ensures
            inst.signature == *self,
            inst.remaining_turns == self.spec_persistence(),
            inst.remaining_turns > 0,
    {
        let remaining_turns = if self.persistence_turns > 0 {
            self.persistence_turns
        } else {
            DEFAULT_SIGNATURE_PERSISTENCE
        };
        SignatureInstance { signature: *self, remaining_turns }
    }
}

impl SignatureType {
    /// Reads a signature type from its content-file code.
    pub fn parse(s: &str) -> (r: Result<SignatureType, ParseEnumError>)
        ensures
            match r {
                Ok(t) => signature_type_code(t) == s@,
                Err(e) => e.value@ == s@ && forall|t: SignatureType| signature_type_code(t) != s@,
            },
    {
        proof {
            reveal_strlit("VISUAL_ANOMALY");
            reveal_strlit("EM_SPIKE");
            reveal_strlit("THERMAL_BLOOM");
            reveal_strlit("ACOUSTIC_SHOCK");
            reveal_strlit("CHEMICAL_RESIDUE");
            reveal_strlit("PSYCHIC_ECHO");
            reveal_strlit("RADIATION_TRACE");
            reveal_strlit("BIO_MARKER");
            reveal_strlit("DIMENSIONAL_RESIDUE");
            reveal_strlit("GRAVITIC_DISTURBANCE");
            reveal_strlit("ARCANE_RESONANCE");
            reveal_strlit("CAUSAL_IMPRINT");
            reveal_strlit("KINETIC_STRESS");
        }
        if str_eq(s, "VISUAL_ANOMALY") {
            Ok(SignatureType::VisualAnomaly)
        } else if str_eq(s, "EM_SPIKE") {
            Ok(SignatureType::EmSpike)
        } else if str_eq(s, "THERMAL_BLOOM") {
            Ok(SignatureType::ThermalBloom)
        } else if str_eq(s, "ACOUSTIC_SHOCK") {
            Ok(SignatureType::AcousticShock)
        } else if str_eq(s, "CHEMICAL_RESIDUE") {
            Ok(SignatureType::ChemicalResidue)
        } else if str_eq(s, "PSYCHIC_ECHO") {
            Ok(SignatureType::PsychicEcho)
        } else if str_eq(s, "RADIATION_TRACE") {
            Ok(SignatureType::RadiationTrace)
        } else if str_eq(s, "BIO_MARKER") {
            Ok(SignatureType::BioMarker)
        } else if str_eq(s, "DIMENSIONAL_RESIDUE") {
            Ok(SignatureType::DimensionalResidue)
        } else if str_eq(s, "GRAVITIC_DISTURBANCE") {
            Ok(SignatureType::GraviticDisturbance)
        } else if str_eq(s, "ARCANE_RESONANCE") {
            Ok(SignatureType::ArcaneResonance)
        } else if str_eq(s, "CAUSAL_IMPRINT") {
            Ok(SignatureType::CausalImprint)
        } else if str_eq(s, "KINETIC_STRESS") {
            Ok(SignatureType::KineticStress)
        } else {
            Err(ParseEnumError { value: copy_str(s) })
        }
    }
}

impl std::str::FromStr for SignatureType {
    type Err = ParseEnumError;

    fn from_str(s: &str) -> Result<SignatureType, ParseEnumError> {
        SignatureType::parse(s)
    }
}

} // verus!

use vstd::prelude::*;

use crate::rules::signature::{SignatureInstance, SignatureType};
use crate::simulation::city::{CityState, LocationId, LocationState, LocationTag};

verus! {

/// Which identity a piece of evidence points at.
#[derive(Debug, Clone, Copy, PartialEq, Eq, Structural)]
pub enum PersonaHint {
    Civilian,
    Masked,
    Unknown,
}

pub struct IdentityEvidenceItem {
    pub evidence_id: u32,
    pub location_id: LocationId,
    pub time_tick: u64,
    pub signatures: Vec<SignatureType>,
    pub witness_count: u32,
    pub visual_quality: u8,
    pub suspect_features: Vec<String>,
    pub persona_hint: PersonaHint,
}

/// The evidence gathered about who the player is, and the last id handed out.
pub struct IdentityEvidenceStore {
    pub items: Vec<IdentityEvidenceItem>,
    next_id: u32,
}

#[derive(Debug, Clone, Copy, PartialEq, Eq, Structural)]
pub struct IdentityEvidenceModifiers {
    pub witness_bonus: u32,
    pub visual_bonus: i32,
}

impl IdentityEvidenceStore {
    pub fn new() -> (s: IdentityEvidenceStore)
        ensures
            s.item_list().len() == 0,
            s.last_id() == 0,
    {
        IdentityEvidenceStore { items: Vec::new(), next_id: 0 }
    }

    /// The last evidence id handed out.
    pub closed spec fn last_id(self) -> u32 {
        self.next_id
    }

    /// The evidence, as a sequence.
    pub closed spec fn item_list(self) -> Seq<IdentityEvidenceItem> {
        self.items@
    }

    /// Records a piece of evidence under the next id and returns that id.
    pub fn record(
        &mut self,
        location_id: LocationId,
        time_tick: u64,
        signatures: Vec<SignatureType>,
        witness_count: u32,
        visual_quality: u8,
        persona_hint: PersonaHint,
        suspect_features: Vec<String>,
    ) -> (evidence_id: u32)
        requires
            old(self).last_id() < u32::MAX,
        ensures
            evidence_id == old(self).last_id() + 1,
            final(self).last_id() == evidence_id,
            final(self).item_list() == old(self).item_list().push(IdentityEvidenceItem {
                evidence_id,
                location_id,
                time_tick,
                signatures,
                witness_count,
                visual_quality,
                suspect_features,
                persona_hint,
            }),
    {
        let evidence_id = self.next_id + 1;
        self.next_id = evidence_id;
        self.items.push(IdentityEvidenceItem {
            evidence_id,
            location_id,
            time_tick,
            signatures,
            witness_count,
            visual_quality,
            suspect_features,
            persona_hint,
        });
        evidence_id
    }
}

/// The surveillance level of the first location with the id and whether it is public;
/// an unknown location reads as unwatched and public.
pub open spec fn location_reading_from(locs: Seq<LocationState>, id: LocationId, i: int) -> (i32, bool)
    decreases locs.len() - i,
{
    if i < 0 || i >= locs.len() {
        (0, true)
    } else if locs[i].id == id {
        (locs[i].surveillance_level, locs[i].tags@.contains(LocationTag::Public))
    } else {
        location_reading_from(locs, id, i + 1)
    }
}

/// How many witnesses saw a use: none in private, else at least one plus the bonus,
/// saturating.
pub open spec fn witness_reading(public: bool, witnesses: u32, m: IdentityEvidenceModifiers) -> int {
    if public {
        let w = if witnesses >= 1 { witnesses as int } else { 1 };
        if w + m.witness_bonus > u32::MAX { u32::MAX as int } else { w + m.witness_bonus }
    } else {
        0
    }
}

/// How clearly the user was seen: surveillance plus ten per witness plus the bonus,
/// held within 0..=100.
pub open spec fn visual_reading(surveillance: int, witness_count: int, m: IdentityEvidenceModifiers) -> int {
    let v = surveillance + witness_count * 10 + m.visual_bonus;
    if v < 0 {
        0
    } else if v > 100 {
        100
    } else {
        v
    }
}

/// The modifiers in force: those given, or none.
pub open spec fn modifiers_or_none(m: Option<IdentityEvidenceModifiers>) -> IdentityEvidenceModifiers {
    match m {
        Some(x) => x,
        None => IdentityEvidenceModifiers { witness_bonus: 0, visual_bonus: 0 },
    }
}

/// The sum for the visual quality stays within `i32`, as it is computed there.
pub open spec fn visual_sum_fits(surveillance: int, witness_count: int, m: IdentityEvidenceModifiers) -> bool {
    &&& witness_count <= i32::MAX
    &&& i32::MIN <= witness_count * 10 <= i32::MAX
    &&& i32::MIN <= surveillance + witness_count * 10 <= i32::MAX
    &&& i32::MIN <= surveillance + witness_count * 10 + m.visual_bonus <= i32::MAX
}

fn location_reading(city: &CityState, id: LocationId) -> (r: (i32, bool))
    ensures
        r == location_reading_from(city.locations@, id, 0),
{
    let mut i: usize = 0;
    while i < city.locations.len()
        invariant
            i <= city.locations@.len(),
            location_reading_from(city.locations@, id, 0) == location_reading_from(city.locations@, id, i as int),
        decreases city.locations@.len() - i,
    {
        let loc = &city.locations[i];
        if loc.id == id {
            let mut public = false;
            let mut j: usize = 0;
            while j < loc.tags.len()
                invariant
                    j <= loc.tags@.len(),
                    public == (exists|k: int| 0 <= k < j && loc.tags@[k] == LocationTag::Public),
                decreases loc.tags@.len() - j,
            {
                if loc.tags[j] == LocationTag::Public {
                    public = true;
                }
                j = j + 1;
            }
            assert(public == loc.tags@.contains(LocationTag::Public));
            return (loc.surveillance_level, public);
        }
        i = i + 1;
    }
    (0, true)
}

/// Records one piece of identity evidence per signature of a use at a location: the
/// witnesses (none in private) and how clearly the user was seen come from the
/// location's surveillance and the modifiers.
pub fn record_identity_evidence(
    identity: &mut IdentityEvidenceStore,
    city: &CityState,
    location_id: LocationId,
    turn: u64,
    signatures: &[SignatureInstance],
    witnesses: u32,
    persona_hint: PersonaHint,
    modifiers: Option<IdentityEvidenceModifiers>,
)
    requires
        old(identity).last_id() + signatures@.len() <= u32::MAX,
        ({
            let (surveillance, public) = location_reading_from(city.locations@, location_id, 0);
            let m = modifiers_or_none(modifiers);
            visual_sum_fits(surveillance as int, witness_reading(public, witnesses, m), m)
        }),
    ensures
        ({
            let (surveillance, public) = location_reading_from(city.locations@, location_id, 0);
            let m = modifiers_or_none(modifiers);
            let w = witness_reading(public, witnesses, m);
            let q = visual_reading(surveillance as int, w, m);
            let n = old(identity).item_list().len();
            &&& final(identity).last_id() == old(identity).last_id() + signatures@.len()
            &&& final(identity).item_list().len() == n + signatures@.len()
            &&& final(identity).item_list().subrange(0, n as int) == old(identity).item_list()
            &&& forall|i: int| 0 <= i < signatures@.len() ==> {
                let item = #[trigger] final(identity).item_list()[n + i];
                &&& item.evidence_id == old(identity).last_id() + 1 + i
                &&& item.location_id == location_id
                &&& item.time_tick == turn
                &&& item.signatures@ == seq![signatures@[i].signature.signature_type]
                &&& item.witness_count == w
                &&& item.visual_quality == q
                &&& item.suspect_features@.len() == 0
                &&& item.persona_hint == persona_hint
            }
        }),
{
    let (surveillance, public) = location_reading(city, location_id);
    let m = match modifiers {
        Some(x) => x,
        None => IdentityEvidenceModifiers { witness_bonus: 0, visual_bonus: 0 },
    };
    let witness_count: u32 = if public {
        let base: u32 = if witnesses >= 1 { witnesses } else { 1 };
        base.saturating_add(m.witness_bonus)
    } else {
        0
    };
    let raw: i32 = surveillance + (witness_count as i32) * 10 + m.visual_bonus;
    let visual_quality: u8 = if raw < 0 {
        0
    } else if raw > 100 {
        100
    } else {
        raw as u8
    };
    let ghost n = identity.item_list().len();
    let ghost last0 = identity.last_id();
    let mut i: usize = 0;
    while i < signatures.len()
        invariant
            i <= signatures@.len(),
            last0 + signatures@.len() <= u32::MAX,
            identity.last_id() == last0 + i,
            identity.item_list().len() == n + i,
            identity.item_list().subrange(0, n as int) == old(identity).item_list(),
            n == old(identity).item_list().len(),
            last0 == old(identity).last_id(),
            forall|k: int| 0 <= k < i ==> {
                let item = #[trigger] identity.item_list()[n + k];
                &&& item.evidence_id == last0 + 1 + k
                &&& item.location_id == location_id
                &&& item.time_tick == turn
                &&& item.signatures@ == seq![signatures@[k].signature.signature_type]
                &&& item.witness_count == witness_count
                &&& item.visual_quality == visual_quality
                &&& item.suspect_features@.len() == 0
                &&& item.persona_hint == persona_hint
            },
        decreases signatures@.len() - i,
    {
        let ghost before = identity.item_list();
        let kinds: Vec<SignatureType> = vec![signatures[i].signature.signature_type];
        identity.record(location_id, turn, kinds, witness_count, visual_quality, persona_hint, Vec::new());
        assert(identity.item_list() == before.push(identity.item_list().last()));
        assert forall|k: int| 0 <= k < i + 1 implies {
            let item = #[trigger] identity.item_list()[n + k];
            &&& item.evidence_id == last0 + 1 + k
            &&& item.location_id == location_id
            &&& item.time_tick == turn
            &&& item.signatures@ == seq![signatures@[k].signature.signature_type]
            &&& item.witness_count == witness_count
            &&& item.visual_quality == visual_quality
            &&& item.suspect_features@.len() == 0
            &&& item.persona_hint == persona_hint
        } by {
            if k < i {
                assert(identity.item_list()[n + k] == before[n + k]);
            }
        }
        assert(identity.item_list().subrange(0, n as int) =~= before.subrange(0, n as int));
        i = i + 1;
    }
}

} // verus!

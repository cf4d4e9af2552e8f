use vstd::prelude::*;

use crate::rules::signature::SignatureType;
use crate::simulation::city::LocationId;
use crate::text::{concat4, decimal, decimal_text, str_eq, views};

verus! {

broadcast use vstd::string::group_string_axioms;

#[derive(Debug, Clone, Copy, PartialEq, Eq, Structural)]
pub enum CaseStatus {
    Active,
    Resolved,
}

#[derive(Debug, Clone, Copy, PartialEq, Eq, Structural)]
pub enum CaseTargetType {
    UnknownMasked,
    KnownMasked,
    CivilianLink,
}

/// A faction's investigation at a location.
pub struct Case {
    pub case_id: u32,
    pub faction_id: String,
    pub location_id: LocationId,
    pub target_type: CaseTargetType,
    pub signature_pattern: Vec<SignatureType>,
    pub progress: u32,
    pub heat_lock: bool,
    pub status: CaseStatus,
    pub milestone: u8,
    pub pressure_actions: Vec<String>,
}

/// The open and closed cases, and the last id handed out.
pub struct CaseRegistry {
    pub cases: Vec<Case>,
    next_id: u32,
}

pub struct CaseEventLog(pub Vec<String>);

/// Index of the first case at or after `i` run by a faction at a location.
pub open spec fn case_position_from(cases: Seq<Case>, faction: Seq<char>, location: LocationId, i: int) -> Option<int>
    decreases cases.len() - i,
{
    if i < 0 || i >= cases.len() {
        None
    } else if cases[i].faction_id@ == faction && cases[i].location_id == location {
        Some(i)
    } else {
        case_position_from(cases, faction, location, i + 1)
    }
}

pub proof fn lemma_case_position_from(cases: Seq<Case>, faction: Seq<char>, location: LocationId, i: int)
    requires
        0 <= i,
    ensures
        match case_position_from(cases, faction, location, i) {
            Some(k) => i <= k < cases.len() && cases[k].faction_id@ == faction && cases[k].location_id == location,
            None => forall|j: int| i <= j < cases.len() ==> !(#[trigger] cases[j].faction_id@ == faction && cases[j].location_id == location),
        },
    decreases cases.len() - i,
{
    if i < cases.len() && !(cases[i].faction_id@ == faction && cases[i].location_id == location) {
        lemma_case_position_from(cases, faction, location, i + 1);
    }
}

impl CaseRegistry {
    pub fn new() -> (r: CaseRegistry)
        ensures
            r.case_list().len() == 0,
            r.last_id() == 0,
    {
        CaseRegistry { cases: Vec::new(), next_id: 0 }
    }

    /// The last case id handed out.
    pub closed spec fn last_id(self) -> u32 {
        self.next_id
    }

    /// The cases, as a sequence.
    pub closed spec fn case_list(self) -> Seq<Case> {
        self.cases@
    }

    /// The cases, oldest first.
    pub fn case_slice(&self) -> (r: &Vec<Case>)
        ensures
            r@ == self.case_list(),
    {
        &self.cases
    }

    /// Opens an active case with the next id, no progress and no milestones, and returns
    /// its id.
    pub fn create_case(&mut self, faction_id: String, location_id: LocationId, signature_pattern: Vec<SignatureType>, heat_lock: bool) -> (case_id: u32)
        requires
            old(self).last_id() < u32::MAX,
        ensures
            case_id == old(self).last_id() + 1,
            final(self).last_id() == case_id,
            final(self).case_list().len() == old(self).case_list().len() + 1,
            final(self).case_list().drop_last() == old(self).case_list(),
            ({
                let c = final(self).case_list().last();
                &&& c.case_id == case_id
                &&& c.faction_id == faction_id
                &&& c.location_id == location_id
                &&& c.target_type == CaseTargetType::UnknownMasked
                &&& c.signature_pattern == signature_pattern
                &&& c.progress == 0
                &&& c.heat_lock == heat_lock
                &&& c.status == CaseStatus::Active
                &&& c.milestone == 0
                &&& c.pressure_actions@.len() == 0
            }),
    {
        let case_id = self.next_id + 1;
        self.next_id = case_id;
        self.cases.push(Case {
            case_id,
            faction_id,
            location_id,
            target_type: CaseTargetType::UnknownMasked,
            signature_pattern,
            progress: 0,
            heat_lock,
            status: CaseStatus::Active,
            milestone: 0,
            pressure_actions: Vec::new(),
        });
        assert(self.case_list().drop_last() =~= old(self).case_list());
        case_id
    }

    /// Index of the first case a faction runs at a location.
    pub fn find_case_index(&self, faction_id: &str, location_id: LocationId) -> (r: Option<usize>)
        ensures
            match r {
                Some(k) => case_position_from(self.case_list(), faction_id@, location_id, 0) == Some(k as int),
                None => case_position_from(self.case_list(), faction_id@, location_id, 0) is None,
            },
            r matches Some(k) ==> k < self.case_list().len(),
    {
        proof {
            lemma_case_position_from(self.case_list(), faction_id@, location_id, 0);
        }
        let mut i: usize = 0;
        while i < self.cases.len()
            invariant
                i <= self.case_list().len(),
                case_position_from(self.case_list(), faction_id@, location_id, i as int) == case_position_from(
                    self.case_list(), faction_id@, location_id, 0),
            decreases self.case_list().len() - i,
        {
            if str_eq(self.cases[i].faction_id.as_str(), faction_id) && self.cases[i].location_id == location_id {
                return Some(i);
            }
            i = i + 1;
        }
        None
    }

    /// The first case a faction runs at a location, to change.
    pub fn find_case_mut(&mut self, faction_id: &str, location_id: LocationId) -> (r: Option<&mut Case>)
        ensures
            match case_position_from(old(self).case_list(), faction_id@, location_id, 0) {
                Some(k) => r matches Some(c) && *c == old(self).case_list()[k] && final(self).case_list() == old(self).case_list().update(k, *final(c))
                    && final(self).last_id() == old(self).last_id(),
                None => r is None && *final(self) == *old(self),
            },
    {
        match self.find_case_index(faction_id, location_id) {
            Some(k) => Some(&mut self.cases[k]),
            None => None,
        }
    }

    /// Whether a faction has an active case at a location.
    pub fn has_active_case(&self, faction_id: &str, location_id: LocationId) -> (b: bool)
        ensures
            b == exists|i: int| 0 <= i < self.case_list().len() && #[trigger] self.case_list()[i].faction_id@ == faction_id@
                && self.case_list()[i].location_id == location_id && self.case_list()[i].status == CaseStatus::Active,
    {
        let mut i: usize = 0;
        while i < self.cases.len()
            invariant
                i <= self.case_list().len(),
                forall|j: int| 0 <= j < i ==> !(#[trigger] self.case_list()[j].faction_id@ == faction_id@
                    && self.case_list()[j].location_id == location_id && self.case_list()[j].status == CaseStatus::Active),
            decreases self.case_list().len() - i,
        {
            let c = &self.cases[i];
            if str_eq(c.faction_id.as_str(), faction_id) && c.location_id == location_id && c.status == CaseStatus::Active {
                return true;
            }
            i = i + 1;
        }
        false
    }

    /// Whether an active case holds the heat at a location.
    pub fn any_heat_lock(&self, location_id: LocationId) -> (b: bool)
        ensures
            b == exists|i: int| 0 <= i < self.case_list().len() && (#[trigger] self.case_list()[i]).location_id == location_id
                && self.case_list()[i].status == CaseStatus::Active && self.case_list()[i].heat_lock,
    {
        let mut i: usize = 0;
        while i < self.cases.len()
            invariant
                i <= self.case_list().len(),
                forall|j: int| 0 <= j < i ==> !((#[trigger] self.case_list()[j]).location_id == location_id
                    && self.case_list()[j].status == CaseStatus::Active && self.case_list()[j].heat_lock),
            decreases self.case_list().len() - i,
        {
            let c = &self.cases[i];
            if c.location_id == location_id && c.status == CaseStatus::Active && c.heat_lock {
                return true;
            }
            i = i + 1;
        }
        false
    }

    /// Resumes numbering after the highest case id held, or from zero.
    pub fn sync_next_id(&mut self)
        ensures
            final(self).case_list() == old(self).case_list(),
            forall|i: int| 0 <= i < final(self).case_list().len() ==> #[trigger] final(self).case_list()[i].case_id <= final(self).last_id(),
            final(self).case_list().len() == 0 ==> final(self).last_id() == 0,
            final(self).case_list().len() > 0 ==> exists|i: int| 0 <= i < final(self).case_list().len()
                && #[trigger] final(self).case_list()[i].case_id == final(self).last_id(),
    {
        let mut max_id: u32 = 0;
        let mut i: usize = 0;
        while i < self.cases.len()
            invariant
                i <= self.case_list().len(),
                forall|j: int| 0 <= j < i ==> #[trigger] self.case_list()[j].case_id <= max_id,
                i == 0 ==> max_id == 0,
                i > 0 ==> exists|j: int| 0 <= j < i && #[trigger] self.case_list()[j].case_id == max_id,
            decreases self.case_list().len() - i,
        {
            if i == 0 || self.cases[i].case_id > max_id {
                max_id = self.cases[i].case_id;
            }
            i = i + 1;
        }
        self.next_id = max_id;
    }
}

/// Once numbering is in step with the cases held, a new case never takes an id a held
/// case has.
pub proof fn law_new_case_id_fresh(cases: Seq<Case>, last_id: u32, new_id: u32)
    requires
        forall|i: int| 0 <= i < cases.len() ==> #[trigger] cases[i].case_id <= last_id,
        new_id == last_id + 1,
    ensures
        forall|i: int| 0 <= i < cases.len() ==> #[trigger] cases[i].case_id != new_id,
{
}

/// `case#<id>:<progress>` for each case at the location, in order.
pub open spec fn case_progress_lines(cases: Seq<Case>, location: LocationId) -> Seq<Seq<char>>
    decreases cases.len(),
{
    if cases.len() == 0 {
        Seq::empty()
    } else {
        let prev = case_progress_lines(cases.drop_last(), location);
        let c = cases.last();
        if c.location_id == location {
            prev.push("case#"@ + decimal(c.case_id as int) + ":"@ + decimal(c.progress as int))
        } else {
            prev
        }
    }
}

/// The progress of the cases at a location, as `case#<id>:<progress>`.
pub fn combat_case_progress_summary(cases: &CaseRegistry, location_id: LocationId) -> (r: Vec<String>)
    ensures
        views(r@) == case_progress_lines(cases.case_list(), location_id),
{
    let mut out: Vec<String> = Vec::new();
    let mut i: usize = 0;
    assert(cases.cases@.take(0) =~= Seq::<Case>::empty());
    assert(views(out@) =~= Seq::<Seq<char>>::empty());
    while i < cases.cases.len()
        invariant
            i <= cases.cases@.len(),
            cases.case_list() == cases.cases@,
            views(out@) == case_progress_lines(cases.cases@.take(i as int), location_id),
        decreases cases.cases@.len() - i,
    {
        let c = &cases.cases[i];
        assert(cases.cases@.take(i + 1).drop_last() =~= cases.cases@.take(i as int));
        assert(cases.cases@.take(i + 1).last() == cases.cases@[i as int]);
        if c.location_id == location_id {
            let id_text = decimal_text(c.case_id as u64);
            let progress_text = decimal_text(c.progress as u64);
            let line = concat4("case#", id_text.as_str(), ":", progress_text.as_str());
            let ghost before = out@;
            out.push(line);
            assert(views(out@) =~= views(before).push(line@));
        }
        i = i + 1;
    }
    assert(cases.cases@.take(cases.cases@.len() as int) =~= cases.cases@);
    out
}

} // verus!

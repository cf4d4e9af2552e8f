use vstd::prelude::*;

use crate::content::repository::PowerId;
use crate::data::omni_powers::{OmniPowerCatalog, OmniPowerDefinition};
use crate::ledger::{holds_value, without_value, Ledger};
use crate::rng::{lcg_step, next_u64};
use crate::text::{copy_str, str_eq};

verus! {

broadcast use vstd::string::group_string_axioms;

/// One roll in this many grants an unclaimed omni power by default.
pub const DEFAULT_OMNI_DENOMINATOR: u64 = 2_000_000;

/// Who holds the omni powers: each power has at most one holder, each universe
/// at most one holder, and one holder may be present in every universe.
pub struct OmniPowerRegistry {
    power_holders: Ledger<String>,
    universe_holders: Ledger<String>,
    omnipresent_holder: Option<String>,
}

pub struct OmniPowerAssignment {
    pub assigned: Vec<OmniPowerSelection>,
    pub notes: Vec<String>,
}

pub struct OmniPowerSelection {
    pub omni_id: String,
    pub power_id: PowerId,
}

#[derive(Debug, Clone, Copy, PartialEq, Eq, Structural)]
pub struct OmniRollConfig {
    pub denominator: u64,
}

impl OmniRollConfig {
    pub fn default() -> (c: OmniRollConfig)
        ensures
            c.denominator == DEFAULT_OMNI_DENOMINATOR,
    {
        OmniRollConfig { denominator: DEFAULT_OMNI_DENOMINATOR }
    }
}

#[derive(Debug)]
pub enum OmniPowerError {
    Repository(String),
    InvalidConfig(String),
}

impl OmniPowerError {
    /// The error as text.
    pub fn message(&self) -> (m: String)
        ensures
            m@ == match *self {
                OmniPowerError::Repository(e) => "repository error: "@ + e@,
                OmniPowerError::InvalidConfig(e) => e@,
            },
    {
        match self {
            OmniPowerError::Repository(e) => crate::text::concat_str("repository error: ", e.as_str()),
            OmniPowerError::InvalidConfig(e) => copy_str(e.as_str()),
        }
    }
}

/// The string values of a map, by view.
pub open spec fn view_values(m: Map<Seq<char>, String>) -> Map<Seq<char>, Seq<char>> {
    m.map_values(|v: String| v@)
}

/// Power id to holder, universe id to holder, and the omnipresent holder.
pub type RegistryView = (Map<Seq<char>, Seq<char>>, Map<Seq<char>, Seq<char>>, Option<Seq<char>>);

/// The registry after `holder` claims `omni_id` in `universe`, and whether the claim held.
pub open spec fn claim_view(r: RegistryView, omni_id: Seq<char>, holder: Seq<char>, universe: Seq<char>) -> (RegistryView, bool) {
    if r.0.contains_key(omni_id) && r.0[omni_id] != holder {
        (r, false)
    } else {
        let powers = r.0.insert(omni_id, holder);
        let universes = if r.1.contains_key(universe) {
            r.1
        } else {
            r.1.insert(universe, holder)
        };
        let omni = if omni_id == "omnipresence"@ {
            Some(holder)
        } else {
            r.2
        };
        ((powers, universes, omni), true)
    }
}

/// Whether `holder` may receive omni powers in `universe`.
pub open spec fn may_assign(r: RegistryView, holder: Seq<char>, universe: Seq<char>) -> bool {
    match r.2 {
        Some(existing) => existing == holder,
        None => !r.1.contains_key(universe) || r.1[universe] == holder,
    }
}

/// The registry after `holder` dies: it holds no power, no universe, and is no longer omnipresent.
pub open spec fn after_death(r: RegistryView, holder: Seq<char>) -> RegistryView {
    (
        Map::new(|k: Seq<char>| r.0.contains_key(k) && r.0[k] != holder, |k: Seq<char>| r.0[k]),
        Map::new(|k: Seq<char>| r.1.contains_key(k) && r.1[k] != holder, |k: Seq<char>| r.1[k]),
        if r.2 == Some(holder) {
            None
        } else {
            r.2
        },
    )
}

impl Default for OmniPowerRegistry {
    /// An empty registry: no power, universe or omnipresence claimed.
    fn default() -> (r: OmniPowerRegistry)
        ensures
            r.view_registry() == (Map::<Seq<char>, Seq<char>>::empty(), Map::<Seq<char>, Seq<char>>::empty(), None::<Seq<char>>),
    {
        OmniPowerRegistry::new()
    }
}

impl OmniPowerRegistry {
    /// The registry as maps of plain values.
    pub closed spec fn view_registry(self) -> RegistryView {
        (
            view_values(self.power_holders.map()),
            view_values(self.universe_holders.map()),
            match self.omnipresent_holder {
                Some(h) => Some(h@),
                None => None,
            },
        )
    }

    pub fn new() -> (r: OmniPowerRegistry)
        ensures
            r.view_registry() == (Map::<Seq<char>, Seq<char>>::empty(), Map::<Seq<char>, Seq<char>>::empty(), None::<Seq<char>>),
    {
        let r = OmniPowerRegistry {
            power_holders: Ledger::new(),
            universe_holders: Ledger::new(),
            omnipresent_holder: None,
        };
        assert(view_values(r.power_holders.map()) =~= Map::<Seq<char>, Seq<char>>::empty());
        assert(view_values(r.universe_holders.map()) =~= Map::<Seq<char>, Seq<char>>::empty());
        r
    }

    pub fn holder_for_universe(&self, universe_id: &str) -> (r: Option<&str>)
        ensures
            match r {
                Some(h) => self.view_registry().1.contains_key(universe_id@) && h@ == self.view_registry().1[universe_id@],
                None => !self.view_registry().1.contains_key(universe_id@),
            },
    {
        match self.universe_holders.get(universe_id) {
            Some(h) => Some(h.as_str()),
            None => None,
        }
    }

    pub fn is_power_claimed(&self, omni_id: &str) -> (b: bool)
        ensures
            b == self.view_registry().0.contains_key(omni_id@),
    {
        self.power_holders.contains(omni_id)
    }

    /// Whether `holder_id` may receive omni powers in `universe_id`.
    pub fn can_assign_in_universe(&self, holder_id: &str, universe_id: &str) -> (b: bool)
        ensures
            b == may_assign(self.view_registry(), holder_id@, universe_id@),
    {
        match &self.omnipresent_holder {
            Some(existing) => {
                return str_eq(existing.as_str(), holder_id);
            },
            None => {},
        }
        match self.universe_holders.get(universe_id) {
            None => true,
            Some(existing) => str_eq(existing.as_str(), holder_id),
        }
    }

    /// Gives `omni` to `holder_id` in `universe_id`, unless someone else holds it.
    pub fn claim_power(&mut self, omni: &OmniPowerDefinition, holder_id: &str, universe_id: &str) -> (b: bool)
        ensures
            (final(self).view_registry(), b) == claim_view(old(self).view_registry(), omni.id@, holder_id@, universe_id@),
    {
        proof {
            reveal_strlit("omnipresence");
        }
        let ghost r0 = self.view_registry();
        match self.power_holders.get(omni.id.as_str()) {
            Some(existing) => {
                if !str_eq(existing.as_str(), holder_id) {
                    return false;
                }
            },
            None => {},
        }
        let ghost ph0 = self.power_holders.map();
        self.power_holders.set(omni.id.clone(), copy_str(holder_id));
        assert(view_values(self.power_holders.map()) =~= view_values(ph0).insert(omni.id@, holder_id@));
        if !self.universe_holders.contains(universe_id) {
            let ghost uh0 = self.universe_holders.map();
            self.universe_holders.set(copy_str(universe_id), copy_str(holder_id));
            assert(view_values(self.universe_holders.map()) =~= view_values(uh0).insert(universe_id@, holder_id@));
        }
        if str_eq(omni.id.as_str(), "omnipresence") {
            self.omnipresent_holder = Some(copy_str(holder_id));
        }
        true
    }

    /// Forgets a dead holder: its powers and universes become free again.
    pub fn mark_holder_dead(&mut self, holder_id: &str)
        ensures
            final(self).view_registry() == after_death(old(self).view_registry(), holder_id@),
    {
        let ghost r0 = self.view_registry();
        let ghost ph0 = self.power_holders.map();
        let ghost uh0 = self.universe_holders.map();
        self.power_holders.remove_value(holder_id);
        self.universe_holders.remove_value(holder_id);
        let clear = match &self.omnipresent_holder {
            Some(id) => str_eq(id.as_str(), holder_id),
            None => false,
        };
        if clear {
            self.omnipresent_holder = None;
        }
        assert(view_values(without_value(ph0, holder_id@)) =~= after_death(r0, holder_id@).0);
        assert(view_values(without_value(uh0, holder_id@)) =~= after_death(r0, holder_id@).1);
    }

    /// The powers `holder_id` holds, each once.
    pub fn powers_for_holder(&self, holder_id: &str) -> (r: Vec<String>)
        ensures
            holds_exactly(self.view_registry(), holder_id@, r@),
    {
        self.power_holders.names_with_value(holder_id)
    }

    /// Everyone who holds at least one omni power, each once.
    pub fn holder_ids(&self) -> (r: Vec<String>)
        ensures
            forall|a: int| 0 <= a < r@.len() ==> is_holder(self.view_registry(), #[trigger] r@[a]@),
            forall|h: Seq<char>| is_holder(self.view_registry(), h) ==> exists|a: int| 0 <= a < r@.len() && #[trigger] r@[a]@ == h,
            forall|a: int, b: int| 0 <= a < b < r@.len() ==> #[trigger] r@[a]@ != #[trigger] r@[b]@,
    {
        let r = self.power_holders.distinct_values();
        proof {
            let m = self.power_holders.map();
            assert forall|a: int| 0 <= a < r@.len() implies is_holder(self.view_registry(), #[trigger] r@[a]@) by {
                assert(holds_value(m, r@[a]@));
                let k = choose|k: Seq<char>| m.contains_key(k) && #[trigger] m[k]@ == r@[a]@;
                assert(self.view_registry().0.contains_key(k) && self.view_registry().0[k] == r@[a]@);
            }
            assert forall|h: Seq<char>| is_holder(self.view_registry(), h) implies exists|a: int| 0 <= a < r@.len() && #[trigger] r@[a]@ == h by {
                let p = choose|p: Seq<char>| #[trigger] self.view_registry().0.contains_key(p) && self.view_registry().0[p] == h;
                assert(m.contains_key(p));
            }
        }
        r
    }

    /// Each holder with the powers it holds.
    pub fn holder_powers(&self) -> (r: Vec<(String, Vec<String>)>)
        ensures
            forall|a: int| 0 <= a < r@.len() ==> is_holder(self.view_registry(), (#[trigger] r@[a]).0@),
            forall|h: Seq<char>| is_holder(self.view_registry(), h) ==> exists|a: int| 0 <= a < r@.len() && (#[trigger] r@[a]).0@ == h,
            forall|a: int| 0 <= a < r@.len() ==> holds_exactly(self.view_registry(), (#[trigger] r@[a]).0@, r@[a].1@),
    {
        let ids = self.holder_ids();
        let mut out: Vec<(String, Vec<String>)> = Vec::new();
        let mut i: usize = 0;
        while i < ids.len()
            invariant
                i <= ids@.len(),
                out@.len() == i,
                forall|a: int| 0 <= a < i ==> (#[trigger] out@[a]).0@ == ids@[a]@ && holds_exactly(self.view_registry(), ids@[a]@, out@[a].1@),
            decreases ids@.len() - i,
        {
            let powers = self.powers_for_holder(ids[i].as_str());
            out.push((ids[i].clone(), powers));
            i = i + 1;
        }
        proof {
            assert forall|h: Seq<char>| is_holder(self.view_registry(), h) implies exists|a: int| 0 <= a < out@.len() && (#[trigger] out@[a]).0@ == h by {
                let a = choose|a: int| 0 <= a < ids@.len() && #[trigger] ids@[a]@ == h;
                assert(out@[a].0@ == h);
            }
        }
        out
    }

    /// Each universe with its holder.
    pub fn universe_holders(&self) -> (r: Vec<(String, String)>)
        ensures
            forall|a: int| 0 <= a < r@.len() ==> self.view_registry().1.contains_key((#[trigger] r@[a]).0@)
                && self.view_registry().1[r@[a].0@] == r@[a].1@,
            forall|u: Seq<char>| self.view_registry().1.contains_key(u) ==> exists|a: int| 0 <= a < r@.len() && (#[trigger] r@[a]).0@ == u,
            forall|a: int, b: int| 0 <= a < b < r@.len() ==> (#[trigger] r@[a]).0@ != (#[trigger] r@[b]).0@,
    {
        self.universe_holders.pairs()
    }
}

/// What the content database answered when asked for the power named by one catalog entry.
pub type PowerLookup = Result<Option<PowerId>, String>;

/// Registry, generator state, granted powers, notes, and the repository error that stopped the run.
pub type AssignView = (RegistryView, u64, Seq<(Seq<char>, PowerId)>, Seq<Seq<char>>, Option<Seq<char>>);

/// One catalog entry's turn: an unclaimed power is rolled for and, on a hit,
/// granted, noted as missing, or the run stops on the repository's error.
pub open spec fn omni_step(
    o: AssignView,
    omni: OmniPowerDefinition,
    lookup: PowerLookup,
    holder: Seq<char>,
    universe: Seq<char>,
    denominator: u64,
) -> AssignView {
    if o.4 is Some || o.0.0.contains_key(omni.id@) {
        o
    } else {
        let rng = lcg_step(o.1);
        if rng % denominator == 0 {
            match lookup {
                Ok(Some(pid)) => {
                    let (reg, ok) = claim_view(o.0, omni.id@, holder, universe);
                    (reg, rng, if ok { o.2.push((omni.id@, pid)) } else { o.2 }, o.3, None)
                },
                Ok(None) => (o.0, rng, o.2, o.3.push("Omni power "@ + omni.power_name@ + " missing from DB."@), None),
                Err(msg) => (o.0, rng, o.2, o.3, Some(msg@)),
            }
        } else {
            (o.0, rng, o.2, o.3, None)
        }
    }
}

/// The first `n` catalog entries taken in turn.
#[verifier::opaque]
pub open spec fn omni_fold(
    start: AssignView,
    powers: Seq<OmniPowerDefinition>,
    lookups: Seq<PowerLookup>,
    n: int,
    holder: Seq<char>,
    universe: Seq<char>,
    denominator: u64,
) -> AssignView
    decreases n,
{
    if n <= 0 {
        start
    } else {
        omni_step(
            omni_fold(start, powers, lookups, n - 1, holder, universe, denominator),
            powers[n - 1],
            lookups[n - 1],
            holder,
            universe,
            denominator,
        )
    }
}

/// The granted powers of an assignment, as plain values.
pub open spec fn assigned_view(a: Seq<OmniPowerSelection>) -> Seq<(Seq<char>, PowerId)> {
    a.map_values(|s: OmniPowerSelection| (s.omni_id@, s.power_id))
}

/// The notes of an assignment, as plain values.
pub open spec fn notes_view(n: Seq<String>) -> Seq<Seq<char>> {
    n.map_values(|s: String| s@)
}

/// Rolls one chance in `denom`.
pub fn roll_denominator(rng: &mut u64, denom: u64) -> (hit: bool)
    requires
        denom > 0,
    ensures
        *final(rng) == lcg_step(*old(rng)),
        hit == (lcg_step(*old(rng)) % denom == 0),
{
    next_u64(rng) % denom == 0
}

impl OmniPowerRegistry {
    /// One catalog entry's turn of `assign_omni_powers`; returns the repository
    /// error that stops the run, if any.
    fn assign_one(
        &mut self,
        omni: &OmniPowerDefinition,
        lookup: &PowerLookup,
        holder_id: &str,
        universe_id: &str,
        rng: &mut u64,
        denominator: u64,
        assigned: &mut Vec<OmniPowerSelection>,
        notes: &mut Vec<String>,
    ) -> (stop: Option<String>)
        requires
            denominator != 0,
        ensures
            ({
                let next = omni_step(
                    (old(self).view_registry(), *old(rng), assigned_view(old(assigned)@), notes_view(old(notes)@), None),
                    *omni, *lookup, holder_id@, universe_id@, denominator);
                &&& final(self).view_registry() == next.0
                &&& *final(rng) == next.1
                &&& match next.4 {
                    Some(m) => stop matches Some(e) && e@ == m,
                    None => stop is None && assigned_view(final(assigned)@) == next.2 && notes_view(final(notes)@) == next.3,
                }
            }),
    {
        if self.power_holders.contains(omni.id.as_str()) {
            return None;
        }
        if !roll_denominator(rng, denominator) {
            return None;
        }
        match lookup {
            Ok(Some(power_id)) => {
                let ghost a0 = assigned_view(assigned@);
                if self.claim_power(omni, holder_id, universe_id) {
                    assigned.push(OmniPowerSelection { omni_id: omni.id.clone(), power_id: *power_id });
                    assert(assigned_view(assigned@) =~= a0.push((omni.id@, *power_id)));
                }
                None
            },
            Ok(None) => {
                let ghost n0 = notes_view(notes@);
                let mut note = copy_str("Omni power ");
                note.append(omni.power_name.as_str());
                note.append(" missing from DB.");
                notes.push(note);
                assert(notes_view(notes@) =~= n0.push("Omni power "@ + omni.power_name@ + " missing from DB."@));
                None
            },
            Err(err) => Some(err.clone()),
        }
    }

    /// Rolls for every unclaimed omni power on behalf of `holder_id` in
    /// `universe_id`; `lookups[i]` is the repository's answer for the power
    /// named by `catalog.powers[i]`.
    pub fn assign_omni_powers(
        &mut self,
        catalog: &OmniPowerCatalog,
        lookups: &Vec<PowerLookup>,
        holder_id: &str,
        universe_id: &str,
        rng: &mut u64,
        config: OmniRollConfig,
    ) -> (r: Result<OmniPowerAssignment, OmniPowerError>)
        requires
            lookups@.len() == catalog.powers@.len(),
        ensures
            config.denominator == 0 ==> (r matches Err(OmniPowerError::InvalidConfig(m))
                && m@ == "omni roll denominator must be > 0"@) && final(self).view_registry()
                == old(self).view_registry() && *final(rng) == *old(rng),
            config.denominator != 0 && !may_assign(old(self).view_registry(), holder_id@, universe_id@)
                ==> (r matches Ok(a) && a.assigned@.len() == 0 && notes_view(a.notes@) == seq![
                "Universe "@ + universe_id@ + " already has a different omni holder."@])
                && final(self).view_registry() == old(self).view_registry() && *final(rng) == *old(rng),
            config.denominator != 0 && may_assign(old(self).view_registry(), holder_id@, universe_id@) ==> {
                let o = omni_fold(
                    (old(self).view_registry(), *old(rng), Seq::empty(), Seq::empty(), None),
                    catalog.powers@,
                    lookups@,
                    catalog.powers@.len() as int,
                    holder_id@,
                    universe_id@,
                    config.denominator,
                );
                &&& final(self).view_registry() == o.0
                &&& *final(rng) == o.1
                &&& match o.4 {
                    Some(msg) => r matches Err(OmniPowerError::Repository(m)) && m@ == msg,
                    None => r matches Ok(a) && assigned_view(a.assigned@) == o.2 && notes_view(a.notes@) == o.3,
                }
            },
    {
        proof {
            reveal_strlit("omni roll denominator must be > 0");
        }
        if config.denominator == 0 {
            return Err(OmniPowerError::InvalidConfig(copy_str("omni roll denominator must be > 0")));
        }
        if !self.can_assign_in_universe(holder_id, universe_id) {
            let mut note = copy_str("Universe ");
            note.append(universe_id);
            note.append(" already has a different omni holder.");
            let mut notes: Vec<String> = Vec::new();
            notes.push(note);
            assert(notes_view(notes@) =~= seq!["Universe "@ + universe_id@ + " already has a different omni holder."@]);
            return Ok(OmniPowerAssignment { assigned: Vec::new(), notes });
        }
        let ghost start: AssignView = (self.view_registry(), *rng, Seq::empty(), Seq::empty(), None);
        let mut assigned: Vec<OmniPowerSelection> = Vec::new();
        let mut notes: Vec<String> = Vec::new();
        let mut i: usize = 0;
        proof {
            lemma_omni_fold_next(start, catalog.powers@, lookups@, 0, holder_id@, universe_id@, config.denominator);
            assert(assigned_view(assigned@) =~= Seq::empty());
            assert(notes_view(notes@) =~= Seq::empty());
        }
        while i < catalog.powers.len()
            invariant
                i <= catalog.powers@.len(),
                lookups@.len() == catalog.powers@.len(),
                config.denominator != 0,
                may_assign(old(self).view_registry(), holder_id@, universe_id@),
                start == (old(self).view_registry(), *old(rng), Seq::<(Seq<char>, PowerId)>::empty(), Seq::<Seq<char>>::empty(), None::<Seq<char>>),
                omni_fold(start, catalog.powers@, lookups@, i as int, holder_id@, universe_id@, config.denominator).0 == self.view_registry(),
                omni_fold(start, catalog.powers@, lookups@, i as int, holder_id@, universe_id@, config.denominator).1 == *rng,
                omni_fold(start, catalog.powers@, lookups@, i as int, holder_id@, universe_id@, config.denominator).2 == assigned_view(assigned@),
                omni_fold(start, catalog.powers@, lookups@, i as int, holder_id@, universe_id@, config.denominator).3 == notes_view(notes@),
                omni_fold(start, catalog.powers@, lookups@, i as int, holder_id@, universe_id@, config.denominator).4 is None,
            decreases catalog.powers@.len() - i,
        {
            let omni = &catalog.powers[i];
            proof {
                lemma_omni_fold_next(start, catalog.powers@, lookups@, i as int, holder_id@, universe_id@, config.denominator);
            }
            let stop = self.assign_one(omni, &lookups[i], holder_id, universe_id, rng, config.denominator, &mut assigned, &mut notes);
            match stop {
                Some(err) => {
                    proof {
                        lemma_omni_fold_stops(start, catalog.powers@, lookups@, i + 1, catalog.powers@.len() as int, holder_id@, universe_id@, config.denominator);
                    }
                    return Err(OmniPowerError::Repository(err));
                },
                None => {},
            }
            i = i + 1;
        }
        Ok(OmniPowerAssignment { assigned, notes })
    }
}

/// Taking one more entry is one more step.
pub proof fn lemma_omni_fold_next(
    start: AssignView,
    powers: Seq<OmniPowerDefinition>,
    lookups: Seq<PowerLookup>,
    n: int,
    holder: Seq<char>,
    universe: Seq<char>,
    denominator: u64,
)
    requires
        0 <= n,
    ensures
        omni_fold(start, powers, lookups, n + 1, holder, universe, denominator) == omni_step(
            omni_fold(start, powers, lookups, n, holder, universe, denominator),
            powers[n],
            lookups[n],
            holder,
            universe,
            denominator,
        ),
        omni_fold(start, powers, lookups, 0, holder, universe, denominator) == start,
{
    reveal(omni_fold);
}

/// Once the run has stopped on an error, later entries change nothing.
pub proof fn lemma_omni_fold_stops(
    start: AssignView,
    powers: Seq<OmniPowerDefinition>,
    lookups: Seq<PowerLookup>,
    n: int,
    k: int,
    holder: Seq<char>,
    universe: Seq<char>,
    denominator: u64,
)
    requires
        0 <= n <= k,
        omni_fold(start, powers, lookups, n, holder, universe, denominator).4 is Some,
    ensures
        omni_fold(start, powers, lookups, k, holder, universe, denominator) == omni_fold(start, powers, lookups, n, holder, universe, denominator),
    decreases k - n,
{
    if k > n {
        lemma_omni_fold_stops(start, powers, lookups, n, k - 1, holder, universe, denominator);
        lemma_omni_fold_next(start, powers, lookups, k - 1, holder, universe, denominator);
    }
}

/// `holder` holds at least one omni power.
pub open spec fn is_holder(r: RegistryView, holder: Seq<char>) -> bool {
    exists|p: Seq<char>| #[trigger] r.0.contains_key(p) && r.0[p] == holder
}

/// `powers` lists, each once, exactly the powers `holder` holds.
pub open spec fn holds_exactly(r: RegistryView, holder: Seq<char>, powers: Seq<String>) -> bool {
    &&& forall|a: int| 0 <= a < powers.len() ==> r.0.contains_key(#[trigger] powers[a]@) && r.0[powers[a]@] == holder
    &&& forall|p: Seq<char>| r.0.contains_key(p) && r.0[p] == holder ==> exists|a: int| 0 <= a < powers.len() && #[trigger] powers[a]@ == p
    &&& forall|a: int, b: int| 0 <= a < b < powers.len() ==> #[trigger] powers[a]@ != #[trigger] powers[b]@
}


/// Two lists of exactly the powers a holder holds name the same powers; so what
/// `powers_for_holder` lists is what `holder_powers` pairs with that holder, and one who
/// holds nothing gets an empty list.
pub proof fn law_holder_lists_agree(r: RegistryView, holder: Seq<char>, a: Seq<String>, b: Seq<String>)
    requires
        holds_exactly(r, holder, a),
        holds_exactly(r, holder, b),
    ensures
        forall|i: int| 0 <= i < a.len() ==> exists|j: int| 0 <= j < b.len() && #[trigger] b[j]@ == (#[trigger] a[i])@,
        !is_holder(r, holder) ==> a.len() == 0,
{
    assert forall|i: int| 0 <= i < a.len() implies exists|j: int| 0 <= j < b.len() && #[trigger] b[j]@ == (#[trigger] a[i])@ by {
        assert(r.0.contains_key(a[i]@) && r.0[a[i]@] == holder);
    }
    if a.len() > 0 {
        assert(r.0.contains_key(a[0]@));
    }
}

/// A claim never takes a power away from another holder: it fails and changes nothing.
pub proof fn law_claim_never_steals(r: RegistryView, omni_id: Seq<char>, holder: Seq<char>, universe: Seq<char>)
    requires
        r.0.contains_key(omni_id),
        r.0[omni_id] != holder,
    ensures
        claim_view(r, omni_id, holder, universe) == (r, false),
{
}

/// After a successful claim the power is held by the claimant, and the
/// universe keeps the holder it had (or gets the claimant if it had none).
pub proof fn law_claim_then_held(r: RegistryView, omni_id: Seq<char>, holder: Seq<char>, universe: Seq<char>)
    requires
        claim_view(r, omni_id, holder, universe).1,
    ensures
        claim_view(r, omni_id, holder, universe).0.0[omni_id] == holder,
        r.1.contains_key(universe) ==> claim_view(r, omni_id, holder, universe).0.1[universe] == r.1[universe],
        !r.1.contains_key(universe) ==> claim_view(r, omni_id, holder, universe).0.1[universe] == holder,
        forall|p: Seq<char>| #[trigger] r.0.contains_key(p) && p != omni_id ==> claim_view(r, omni_id, holder, universe).0.0[p] == r.0[p],
{
}

/// A dead holder holds no power and no universe and is no longer omnipresent,
/// while every other holder keeps what it had.
pub proof fn law_dead_holder_holds_nothing(r: RegistryView, holder: Seq<char>)
    ensures
        !is_holder(after_death(r, holder), holder),
        forall|u: Seq<char>| #[trigger] after_death(r, holder).1.contains_key(u) ==> after_death(r, holder).1[u] != holder,
        after_death(r, holder).2 != Some(holder),
        forall|p: Seq<char>| #[trigger] r.0.contains_key(p) && r.0[p] != holder ==> after_death(r, holder).0.contains_key(p)
            && after_death(r, holder).0[p] == r.0[p],
{
}

/// Whoever holds the omnipresence power may receive powers in every universe,
/// and nobody else may while it lives.
pub proof fn law_omnipresence_dominates(r: RegistryView, holder: Seq<char>, universe: Seq<char>, other: Seq<char>)
    requires
        r.2 == Some(holder),
        other != holder,
    ensures
        may_assign(r, holder, universe),
        !may_assign(r, other, universe),
{
}

} // verus!

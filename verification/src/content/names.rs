use vstd::prelude::*;

use crate::rng::{lcg_step, next_u64};

verus! {

broadcast use vstd::string::group_string_axioms;

/// Attempts at a random row before falling back to the first matching row.
pub const MAX_ATTEMPTS: u32 = 6;

#[derive(Debug, Clone, Copy, PartialEq, Eq, Structural)]
pub enum NameGender {
    Male,
    Female,
    Any,
}

impl NameGender {
    /// The value of the `gender` column that this gender selects, if it narrows the search.
    pub fn db_code(self) -> (code: Option<&'static str>)
        ensures
            match self {
                NameGender::Male => code matches Some(c) && c@ == "M"@,
                NameGender::Female => code matches Some(c) && c@ == "F"@,
                NameGender::Any => code is None,
            },
    {
        match self {
            NameGender::Male => Some("M"),
            NameGender::Female => Some("F"),
            NameGender::Any => None,
        }
    }
}

/// The row id a random name lookup starts from: `next % max_rowid + 1`.
pub open spec fn probe_rowid_for(state: u64, max_rowid: i64) -> i64 {
    (lcg_step(state) % (max_rowid as u64) + 1) as i64
}

/// Advances the generator and picks the row id a random name lookup starts from,
/// somewhere in `1..=max_rowid`.
pub fn name_probe_rowid(rng: &mut u64, max_rowid: i64) -> (rowid: i64)
    requires
        max_rowid > 0,
    ensures
        *final(rng) == lcg_step(*old(rng)),
        rowid == probe_rowid_for(*old(rng), max_rowid),
        1 <= rowid <= max_rowid,
{
    let v = next_u64(rng);
    let m: u64 = max_rowid as u64;
    let r: u64 = v % m;
    (r + 1) as i64
}

/// A query for a name in a name table.
#[derive(Debug, Clone, Copy, PartialEq, Eq, Structural)]
pub enum NameQuery {
    /// The first name at or after `rowid`, of `gender` unless it is `Any`.
    AtOrAfter { rowid: i64, gender: NameGender },
    /// The first name in the table, of `gender` unless it is `Any`.
    First { gender: NameGender },
}

/// What a name lookup asks for next.
#[derive(Debug, Clone, Copy, PartialEq, Eq, Structural)]
pub enum NameLookupAction {
    Query(NameQuery),
    /// Every query came back empty: the table has no such name.
    NotFound,
}

/// A random name lookup in one table: up to `MAX_ATTEMPTS` random probes and then the
/// first matching row, for the asked gender and then, if that finds nothing, for any.
#[derive(Debug, Clone, Copy, PartialEq, Eq, Structural)]
pub struct NameLookup {
    pub gender: NameGender,
    pub max_rowid: i64,
    /// Whether the search has widened to any gender.
    pub widened: bool,
    /// Queries made in the current pass.
    pub attempts: u32,
}

/// The gender the current pass searches for.
pub open spec fn searched_gender(l: NameLookup) -> NameGender {
    if l.widened {
        NameGender::Any
    } else {
        l.gender
    }
}

/// The lookup's next step once the previous query found nothing: the state after it,
/// the action, and the generator after it.
pub open spec fn lookup_step(l: NameLookup, rng: u64) -> (NameLookup, NameLookupAction, u64) {
    if l.max_rowid <= 0 {
        (l, NameLookupAction::NotFound, rng)
    } else if l.attempts < MAX_ATTEMPTS {
        (
            NameLookup { attempts: (l.attempts + 1) as u32, ..l },
            NameLookupAction::Query(NameQuery::AtOrAfter { rowid: probe_rowid_for(rng, l.max_rowid), gender: searched_gender(l) }),
            lcg_step(rng),
        )
    } else if l.attempts == MAX_ATTEMPTS {
        (
            NameLookup { attempts: (l.attempts + 1) as u32, ..l },
            NameLookupAction::Query(NameQuery::First { gender: searched_gender(l) }),
            rng,
        )
    } else if !l.widened && l.gender != NameGender::Any {
        (
            NameLookup { widened: true, attempts: 1, ..l },
            NameLookupAction::Query(NameQuery::AtOrAfter { rowid: probe_rowid_for(rng, l.max_rowid), gender: NameGender::Any }),
            lcg_step(rng),
        )
    } else {
        (l, NameLookupAction::NotFound, rng)
    }
}

/// How many more queries the lookup can make before it gives up.
pub open spec fn queries_left(l: NameLookup) -> int {
    if l.max_rowid <= 0 {
        0
    } else {
        (if l.attempts <= MAX_ATTEMPTS { MAX_ATTEMPTS + 1 - l.attempts } else { 0int })
            + (if !l.widened && l.gender != NameGender::Any { MAX_ATTEMPTS + 1 } else { 0int })
    }
}

impl NameLookup {
    /// A lookup that has made no query yet.
    pub fn new(gender: NameGender, max_rowid: i64) -> (l: NameLookup)
        ensures
            l == (NameLookup { gender, max_rowid, widened: false, attempts: 0 }),
    {
        NameLookup { gender, max_rowid, widened: false, attempts: 0 }
    }

    /// The next query to make, called at the start and after each query that found
    /// nothing.
    pub fn next_action(&mut self, rng: &mut u64) -> (a: NameLookupAction)
        ensures
            (*final(self), a, *final(rng)) == lookup_step(*old(self), *old(rng)),
    {
        if self.max_rowid <= 0 {
            return NameLookupAction::NotFound;
        }
        let searched = if self.widened {
            NameGender::Any
        } else {
            self.gender
        };
        if self.attempts < MAX_ATTEMPTS {
            self.attempts = self.attempts + 1;
            let rowid = name_probe_rowid(rng, self.max_rowid);
            NameLookupAction::Query(NameQuery::AtOrAfter { rowid, gender: searched })
        } else if self.attempts == MAX_ATTEMPTS {
            self.attempts = self.attempts + 1;
            NameLookupAction::Query(NameQuery::First { gender: searched })
        } else if !self.widened && self.gender != NameGender::Any {
            self.widened = true;
            self.attempts = 1;
            let rowid = name_probe_rowid(rng, self.max_rowid);
            NameLookupAction::Query(NameQuery::AtOrAfter { rowid, gender: NameGender::Any })
        } else {
            NameLookupAction::NotFound
        }
    }
}

/// A lookup always ends: each query spends one of the queries left, it gives up exactly
/// when none are left, and a new lookup has at most two passes of queries.
pub proof fn law_lookup_ends(l: NameLookup, rng: u64, gender: NameGender, max_rowid: i64)
    ensures
        queries_left(l) >= 0,
        (lookup_step(l, rng).1 is NotFound) <==> queries_left(l) == 0,
        lookup_step(l, rng).1 is Query ==> queries_left(lookup_step(l, rng).0) == queries_left(l) - 1,
        queries_left(NameLookup { gender, max_rowid, widened: false, attempts: 0 }) <= 2 * (MAX_ATTEMPTS + 1),
{
}

} // verus!

use vstd::prelude::*;

use crate::components::persona::Alignment;
use crate::data::storylets::{Storylet, StoryletCategory};
use crate::text::{
    copy_str, eq_ignore_ascii_case, eq_ignore_case_chars, has_prefix, parse_i32, parsed_i32,
    split_whitespace, str_eq, strip_prefix, trim, trim_chars, words_of,
};

verus! {

broadcast use vstd::string::group_string_axioms;

/// The storylets on offer to each alignment.
pub struct StoryletLibrary {
    pub hero: Vec<Storylet>,
    pub vigilante: Vec<Storylet>,
    pub villain: Vec<Storylet>,
}

impl Default for StoryletLibrary {
    fn default() -> (l: StoryletLibrary)
        ensures
            l.hero@.len() == 0,
            l.vigilante@.len() == 0,
            l.villain@.len() == 0,
    {
        StoryletLibrary { hero: Vec::new(), vigilante: Vec::new(), villain: Vec::new() }
    }
}

impl StoryletLibrary {
    /// The storylets a character of this alignment draws from; neutral characters
    /// draw from the hero list.
    pub fn for_alignment(&self, alignment: Alignment) -> (r: &[Storylet])
        ensures
            r@ == match alignment {
                Alignment::Neutral | Alignment::Hero => self.hero@,
                Alignment::Vigilante => self.vigilante@,
                Alignment::Villain => self.villain@,
            },
    {
        match alignment {
            Alignment::Neutral => self.hero.as_slice(),
            Alignment::Hero => self.hero.as_slice(),
            Alignment::Vigilante => self.vigilante.as_slice(),
            Alignment::Villain => self.villain.as_slice(),
        }
    }
}

/// Some tag reads "punctuation", in any case.
pub open spec fn has_punctuation_tag(tags: Seq<String>) -> bool {
    exists|i: int| 0 <= i < tags.len() && eq_ignore_case_chars(#[trigger] tags[i]@, "punctuation"@)
}

/// A storylet that breaks up the main line: tagged as punctuation, or about civilian
/// or masked life.
pub open spec fn punctuation_storylet(s: Storylet) -> bool {
    has_punctuation_tag(s.tags@) || s.category == StoryletCategory::CivilianLife
        || s.category == StoryletCategory::MaskedLife
}

pub fn is_punctuation_storylet(storylet: &Storylet) -> (b: bool)
    ensures
        b == punctuation_storylet(*storylet),
{
    let mut i: usize = 0;
    while i < storylet.tags.len()
        invariant
            i <= storylet.tags@.len(),
            forall|j: int| 0 <= j < i ==> !eq_ignore_case_chars(#[trigger] storylet.tags@[j]@, "punctuation"@),
        decreases storylet.tags@.len() - i,
    {
        if eq_ignore_ascii_case(storylet.tags[i].as_str(), "punctuation") {
            return true;
        }
        i = i + 1;
    }
    match storylet.category {
        StoryletCategory::CivilianLife => true,
        StoryletCategory::MaskedLife => true,
        _ => false,
    }
}

/// A comparison operator of the precondition language.
pub open spec fn is_comparison(op: Seq<char>) -> bool {
    op == ">="@ || op == "<="@ || op == ">"@ || op == "<"@ || op == "=="@ || op == "!="@
}

/// The quantity a precondition compares against a number, as in `heat >= 40`:
/// exactly three words, a left side other than `alignment` or `persona`, a
/// comparison, and an `i32` on the right. Boolean conditions name no quantity.
pub open spec fn threshold_key_of(condition: Seq<char>) -> Option<Seq<char>> {
    let cond = trim_chars(condition);
    let parts = words_of(cond);
    if cond.len() == 0 {
        None
    } else if cond == "time.is_day"@ || cond == "time.is_night"@ || cond == "signatures.visible"@ {
        None
    } else if parts.len() != 3 {
        None
    } else if parts[0] == "alignment"@ || parts[0] == "persona"@ {
        None
    } else if !is_comparison(parts[1]) {
        None
    } else if parsed_i32(parts[2]) is None {
        None
    } else {
        Some(parts[0])
    }
}

fn threshold_key(condition: &str) -> (r: Option<String>)
    ensures
        match r {
            Some(k) => threshold_key_of(condition@) == Some(k@),
            None => threshold_key_of(condition@) is None,
        },
{
    let cond = trim(condition);
    if cond.unicode_len() == 0 {
        return None;
    }
    if str_eq(cond, "time.is_day") || str_eq(cond, "time.is_night") || str_eq(cond, "signatures.visible") {
        return None;
    }
    let parts = split_whitespace(cond);
    if parts.len() != 3 {
        return None;
    }
    assert(parts@[0]@ == words_of(cond@)[0]);
    assert(parts@[1]@ == words_of(cond@)[1]);
    assert(parts@[2]@ == words_of(cond@)[2]);
    let left = parts[0].as_str();
    let op = parts[1].as_str();
    let right = parts[2].as_str();
    if str_eq(left, "alignment") || str_eq(left, "persona") {
        return None;
    }
    if !(str_eq(op, ">=") || str_eq(op, "<=") || str_eq(op, ">") || str_eq(op, "<") || str_eq(op, "==")
        || str_eq(op, "!=")) {
        return None;
    }
    if parse_i32(right).is_none() {
        return None;
    }
    Some(copy_str(left))
}

fn condition_has_threshold(condition: &str) -> (b: bool)
    ensures
        b == threshold_key_of(condition@) is Some,
{
    threshold_key(condition).is_some()
}

/// Some precondition compares a quantity against a number.
pub open spec fn has_threshold(s: Storylet) -> bool {
    exists|i: int| 0 <= i < s.preconditions@.len() && #[trigger] threshold_key_of(s.preconditions@[i]@) is Some
}

pub fn storylet_has_thresholds(storylet: &Storylet) -> (b: bool)
    ensures
        b == has_threshold(*storylet),
{
    let mut i: usize = 0;
    while i < storylet.preconditions.len()
        invariant
            i <= storylet.preconditions@.len(),
            forall|j: int| 0 <= j < i ==> #[trigger] threshold_key_of(storylet.preconditions@[j]@) is None,
        decreases storylet.preconditions@.len() - i,
    {
        if condition_has_threshold(storylet.preconditions[i].as_str()) {
            return true;
        }
        i = i + 1;
    }
    false
}

/// The quantities the preconditions compare, in precondition order, one per
/// threshold condition.
pub open spec fn threshold_keys(conditions: Seq<String>) -> Seq<Seq<char>>
    decreases conditions.len(),
{
    if conditions.len() == 0 {
        Seq::empty()
    } else {
        let rest = threshold_keys(conditions.drop_last());
        match threshold_key_of(conditions.last()@) {
            Some(k) => rest.push(k),
            None => rest,
        }
    }
}

pub fn storylet_threshold_keys(storylet: &Storylet) -> (r: Vec<String>)
    ensures
        r@.map_values(|k: String| k@) == threshold_keys(storylet.preconditions@),
{
    let conditions = &storylet.preconditions;
    let mut out: Vec<String> = Vec::new();
    let mut i: usize = 0;
    assert(conditions@.take(0) =~= Seq::<String>::empty());
    while i < conditions.len()
        invariant
            i <= conditions@.len(),
            out@.map_values(|k: String| k@) == threshold_keys(conditions@.take(i as int)),
        decreases conditions@.len() - i,
    {
        assert(conditions@.take(i + 1).drop_last() =~= conditions@.take(i as int));
        let ghost before = out@;
        match threshold_key(conditions[i].as_str()) {
            Some(k) => {
                out.push(k);
                assert(out@.map_values(|k: String| k@) =~= before.map_values(|k: String| k@).push(
                    out@[before.len() as int]@,
                ));
            },
            None => {},
        }
        i = i + 1;
    }
    assert(conditions@.take(conditions@.len() as int) =~= conditions@);
    out
}

/// A precondition that reads a storylet flag or the endgame state.
pub open spec fn is_state_gate(condition: Seq<char>) -> bool {
    has_prefix(trim_chars(condition), "flag."@) || has_prefix(trim_chars(condition), "endgame.state"@)
}

/// Some precondition is a state gate.
pub open spec fn has_state_gate(s: Storylet) -> bool {
    exists|i: int| 0 <= i < s.preconditions@.len() && #[trigger] is_state_gate(s.preconditions@[i]@)
}

fn storylet_has_state_gate(storylet: &Storylet) -> (b: bool)
    ensures
        b == has_state_gate(*storylet),
{
    let mut i: usize = 0;
    while i < storylet.preconditions.len()
        invariant
            i <= storylet.preconditions@.len(),
            forall|j: int| 0 <= j < i ==> !#[trigger] is_state_gate(storylet.preconditions@[j]@),
        decreases storylet.preconditions@.len() - i,
    {
        let cond = trim(storylet.preconditions[i].as_str());
        if strip_prefix(cond, "flag.").is_some() || strip_prefix(cond, "endgame.state").is_some() {
            assert(is_state_gate(storylet.preconditions@[i as int]@));
            return true;
        }
        i = i + 1;
    }
    false
}

/// A storylet is gated when it carries tags, threshold conditions or state gates.
pub open spec fn has_gate_requirements(s: Storylet) -> bool {
    s.tags@.len() > 0 || has_threshold(s) || has_state_gate(s)
}

pub fn storylet_has_gate_requirements(storylet: &Storylet) -> (b: bool)
    ensures
        b == has_gate_requirements(*storylet),
{
    storylet.tags.len() != 0 || storylet_has_thresholds(storylet) || storylet_has_state_gate(storylet)
}

} // verus!

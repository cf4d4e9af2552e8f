use vstd::prelude::*;

use crate::text::{concat_str, copy_str, is_blank, is_blank_chars, opt_view, str_eq};

verus! {

broadcast use vstd::string::group_string_axioms;

/// The first fault among the first `n` items, where `fault(items, i)` gives the
/// message for item `i`, if it breaks a rule.
pub open spec fn first_fault<T>(
    items: Seq<T>,
    fault: spec_fn(Seq<T>, int) -> Option<Seq<char>>,
    n: int,
) -> Option<Seq<char>>
    decreases n,
{
    if n <= 0 {
        None
    } else {
        match first_fault(items, fault, n - 1) {
            Some(m) => Some(m),
            None => fault(items, n - 1),
        }
    }
}

/// Once a fault is found among the first `n` items it stays the first fault.
pub proof fn lemma_first_fault_stable<T>(
    items: Seq<T>,
    fault: spec_fn(Seq<T>, int) -> Option<Seq<char>>,
    n: int,
    k: int,
)
    requires
        0 <= n <= k,
        first_fault(items, fault, n) is Some,
    ensures
        first_fault(items, fault, k) == first_fault(items, fault, n),
    decreases k - n,
{
    if k > n {
        lemma_first_fault_stable(items, fault, n, k - 1);
    }
}

/// A fault at item `i` after a clean prefix is the first fault of the whole list.
pub proof fn lemma_first_fault_at<T>(
    items: Seq<T>,
    fault: spec_fn(Seq<T>, int) -> Option<Seq<char>>,
    i: int,
)
    requires
        0 <= i < items.len(),
        first_fault(items, fault, i) is None,
        fault(items, i) is Some,
    ensures
        first_fault(items, fault, items.len() as int) == fault(items, i),
{
    lemma_first_fault_stable(items, fault, i + 1, items.len() as int);
}


/// An entry of a content catalog, known by an id.
pub trait CatalogEntry {
    spec fn entry_id(&self) -> Seq<char>;

    /// The first rule, other than those on its id, that the entry breaks, as the message
    /// for it; `kind` names the entries in messages.
    spec fn own_fault(&self, kind: Seq<char>) -> Option<Seq<char>>;

    fn id_str(&self) -> (r: &str)
        ensures
            r@ == self.entry_id(),
    ;

    fn check_own(&self, kind: &str) -> (r: Option<String>)
        ensures
            opt_view(r) == self.own_fault(kind@),
    ;
}

/// Whether entry `i` has the id of an earlier entry.
pub open spec fn id_repeated<T: CatalogEntry>(items: Seq<T>, i: int) -> bool {
    exists|j: int| 0 <= j < i && #[trigger] items[j].entry_id() == items[i].entry_id()
}

/// The first rule entry `i` breaks: a blank id, a repeated id, then its own rules.
pub open spec fn entry_fault<T: CatalogEntry>(kind: Seq<char>, items: Seq<T>, i: int) -> Option<Seq<char>> {
    if is_blank_chars(items[i].entry_id()) {
        Some(kind + " id cannot be empty"@)
    } else if id_repeated(items, i) {
        Some("duplicate "@ + kind + " id "@ + items[i].entry_id())
    } else {
        items[i].own_fault(kind)
    }
}

/// `entry_fault` for entries named `kind`, as a function value.
pub open spec fn entry_faults<T: CatalogEntry>(kind: Seq<char>) -> spec_fn(Seq<T>, int) -> Option<Seq<char>> {
    |s: Seq<T>, i: int| entry_fault(kind, s, i)
}

/// The message for the first entry that breaks a rule, checking entries in order.
pub fn first_entry_fault<T: CatalogEntry>(items: &Vec<T>, kind: &str) -> (r: Option<String>)
    ensures
        opt_view(r) == first_fault(items@, entry_faults::<T>(kind@), items@.len() as int),
{
    proof {
        reveal_strlit(" id cannot be empty");
        reveal_strlit("duplicate ");
        reveal_strlit(" id ");
    }
    let mut i: usize = 0;
    while i < items.len()
        invariant
            i <= items@.len(),
            first_fault(items@, entry_faults::<T>(kind@), i as int) is None,
        decreases items@.len() - i,
    {
        let id = items[i].id_str();
        if is_blank(id) {
            proof {
                lemma_first_fault_at(items@, entry_faults::<T>(kind@), i as int);
            }
            return Some(concat_str(kind, " id cannot be empty"));
        }
        let mut j: usize = 0;
        while j < i
            invariant
                j <= i < items@.len(),
                id@ == items@[i as int].entry_id(),
                forall|k: int| 0 <= k < j ==> #[trigger] items@[k].entry_id() != id@,
                first_fault(items@, entry_faults::<T>(kind@), i as int) is None,
                !is_blank_chars(id@),
            decreases i - j,
        {
            if str_eq(items[j].id_str(), id) {
                assert(id_repeated(items@, i as int));
                let mut m = concat_str("duplicate ", kind);
                m.append(" id ");
                m.append(id);
                proof {
                    lemma_first_fault_at(items@, entry_faults::<T>(kind@), i as int);
                }
                return Some(m);
            }
            j = j + 1;
        }
        assert(!id_repeated(items@, i as int));
        match items[i].check_own(kind) {
            Some(m) => {
                proof {
                    lemma_first_fault_at(items@, entry_faults::<T>(kind@), i as int);
                }
                return Some(m);
            },
            None => {},
        }
        i = i + 1;
    }
    None
}

/// `"<kind> <id><what>"`, the form of the messages about one entry.
pub open spec fn entry_message(kind: Seq<char>, id: Seq<char>, what: Seq<char>) -> Seq<char> {
    kind + " "@ + id + what
}

pub fn entry_message_text(kind: &str, id: &str, what: &str) -> (m: String)
    ensures
        m@ == entry_message(kind@, id@, what@),
{
    proof {
        reveal_strlit(" ");
    }
    let mut m = concat_str(kind, " ");
    m.append(id);
    m.append(what);
    m
}

/// The rules of an event entry: a title (when it has one to check), a text stub and at
/// least one choice.
pub open spec fn event_fault(kind: Seq<char>, id: Seq<char>, title: Option<Seq<char>>, text_stub: Seq<char>, choices: nat) -> Option<Seq<char>> {
    if (title matches Some(t) && is_blank_chars(t)) {
        Some(entry_message(kind, id, " missing title"@))
    } else if is_blank_chars(text_stub) {
        Some(entry_message(kind, id, " missing text_stub"@))
    } else if choices == 0 {
        Some(entry_message(kind, id, " has no choices"@))
    } else {
        None
    }
}

pub fn check_event(kind: &str, id: &str, title: Option<&str>, text_stub: &str, choices: usize) -> (r: Option<String>)
    ensures
        opt_view(r) == event_fault(kind@, id@, match title {
            Some(t) => Some(t@),
            None => None,
        }, text_stub@, choices as nat),
{
    proof {
        reveal_strlit(" missing title");
        reveal_strlit(" missing text_stub");
        reveal_strlit(" has no choices");
    }
    if let Some(t) = title {
        if is_blank(t) {
            return Some(entry_message_text(kind, id, " missing title"));
        }
    }
    if is_blank(text_stub) {
        return Some(entry_message_text(kind, id, " missing text_stub"));
    }
    if choices == 0 {
        return Some(entry_message_text(kind, id, " has no choices"));
    }
    None
}
} // verus!

use vstd::prelude::*;

use crate::rules::use_power::TargetContext;
use crate::text::{parse_i64, parsed_i64, str_eq};

verus! {

broadcast use vstd::string::group_string_axioms;

/// What `s.parse::<u32>()` gives: Rust's unsigned syntax takes an optional `+` but
/// no `-`, and the value must fit.
pub open spec fn parsed_u32(s: Seq<char>) -> Option<u32> {
    if s.len() > 0 && s[0] == '-' {
        None
    } else {
        match parsed_i64(s) {
            Some(v) => if 0 <= v <= u32::MAX { Some(v as u32) } else { None },
            None => None,
        }
    }
}

/// The switch a word names: `on`/`true` or `off`/`false`.
pub open spec fn switch_named(v: Seq<char>) -> Option<bool> {
    if v == "on"@ || v == "true"@ {
        Some(true)
    } else if v == "off"@ || v == "false"@ {
        Some(false)
    } else {
        None
    }
}

/// The target after setting `field` to the text `value`, or `None` when the field is
/// unknown or the value does not read as that field's kind.
pub open spec fn context_update(t: TargetContext, field: Seq<char>, value: Seq<char>) -> Option<TargetContext> {
    if field == "dist"@ || field == "distance"@ {
        match parsed_i64(value) {
            Some(d) => Some(TargetContext { distance_m: Some(d), ..t }),
            None => None,
        }
    } else if field == "los"@ {
        match switch_named(value) {
            Some(b) => Some(TargetContext { has_line_of_sight: b, ..t }),
            None => None,
        }
    } else if field == "contact"@ {
        match switch_named(value) {
            Some(b) => Some(TargetContext { has_contact: b, ..t }),
            None => None,
        }
    } else if field == "public"@ {
        match switch_named(value) {
            Some(b) => Some(TargetContext { in_public: b, ..t }),
            None => None,
        }
    } else if field == "witnesses"@ {
        match parsed_u32(value) {
            Some(n) => Some(TargetContext { witnesses: n, ..t }),
            None => None,
        }
    } else {
        None
    }
}

pub fn parse_u32(s: &str) -> (r: Option<u32>)
    ensures
        r == parsed_u32(s@),
{
    if s.unicode_len() > 0 && s.get_char(0) == '-' {
        return None;
    }
    match parse_i64(s) {
        Some(v) => {
            if 0 <= v && v <= 0xffff_ffffi64 {
                Some(v as u32)
            } else {
                None
            }
        },
        None => None,
    }
}

fn parse_switch(v: &str) -> (r: Option<bool>)
    ensures
        r == switch_named(v@),
{
    if str_eq(v, "on") || str_eq(v, "true") {
        Some(true)
    } else if str_eq(v, "off") || str_eq(v, "false") {
        Some(false)
    } else {
        None
    }
}

/// Sets one field of the target from text; the target is left as it was when the
/// field is unknown or the value does not read.
pub fn update_context(target: &mut TargetContext, field: &str, value: &str) -> (r: Result<(), ()>)
    ensures
        match context_update(*old(target), field@, value@) {
            Some(t) => r is Ok && *final(target) == t,
            None => r is Err && *final(target) == *old(target),
        },
{
    if str_eq(field, "dist") || str_eq(field, "distance") {
        match parse_i64(value) {
            Some(d) => {
                target.distance_m = Some(d);
                Ok(())
            },
            None => Err(()),
        }
    } else if str_eq(field, "los") {
        match parse_switch(value) {
            Some(b) => {
                target.has_line_of_sight = b;
                Ok(())
            },
            None => Err(()),
        }
    } else if str_eq(field, "contact") {
        match parse_switch(value) {
            Some(b) => {
                target.has_contact = b;
                Ok(())
            },
            None => Err(()),
        }
    } else if str_eq(field, "public") {
        match parse_switch(value) {
            Some(b) => {
                target.in_public = b;
                Ok(())
            },
            None => Err(()),
        }
    } else if str_eq(field, "witnesses") {
        match parse_u32(value) {
            Some(n) => {
                target.witnesses = n;
                Ok(())
            },
            None => Err(()),
        }
    } else {
        Err(())
    }
}

} // verus!

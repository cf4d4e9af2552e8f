use vstd::prelude::*;

use crate::text::{concat_str, copy_str, plain_decimal, plain_decimal_text, str_eq};

verus! {

broadcast use vstd::string::group_string_axioms;

/// The layout version of the content database this library reads.
pub const CONTENT_SCHEMA_VERSION: i64 = 1;

/// The content release this library reads.
pub const CONTENT_VERSION: &'static str = "v1";

/// The locale whose texts are shown.
pub const DEFAULT_LOCALE: &'static str = "en";

/// Why a content database's metadata is refused, if it is: the table is missing, its row
/// is missing, or it names another schema version or content release.
pub open spec fn content_meta_fault(table_present: bool, meta: Option<(i64, Seq<char>)>) -> Option<Seq<char>> {
    if !table_present {
        Some("content_meta table missing"@)
    } else {
        match meta {
            None => Some("content_meta missing row id=1"@),
            Some((schema, content)) => if schema != 1 {
                Some("content_meta schema_version "@ + plain_decimal(schema as int) + " != expected 1"@)
            } else if content != "v1"@ {
                Some("content_meta content_version "@ + content + " != expected v1"@)
            } else {
                None
            },
        }
    }
}

/// Checks the metadata a content database holds: whether its `content_meta` table is
/// there, and the schema version and content release of its row, if it has one.
pub fn check_content_meta(table_present: bool, meta: Option<(i64, String)>) -> (r: Result<(), String>)
    ensures
        match content_meta_fault(
            table_present,
            match meta {
                Some((v, c)) => Some((v, c@)),
                None => None,
            },
        ) {
            None => r is Ok,
            Some(m) => r matches Err(e) && e@ == m,
        },
{
    proof {
        reveal_strlit("content_meta table missing");
        reveal_strlit("content_meta missing row id=1");
        reveal_strlit("content_meta schema_version ");
        reveal_strlit(" != expected 1");
        reveal_strlit("content_meta content_version ");
        reveal_strlit(" != expected v1");
        reveal_strlit("v1");
    }
    if !table_present {
        return Err(copy_str("content_meta table missing"));
    }
    match meta {
        None => Err(copy_str("content_meta missing row id=1")),
        Some((schema, content)) => {
            if schema != CONTENT_SCHEMA_VERSION {
                let mut m = concat_str("content_meta schema_version ", plain_decimal_text(schema).as_str());
                m.append(" != expected 1");
                Err(m)
            } else if !str_eq(content.as_str(), CONTENT_VERSION) {
                let mut m = concat_str("content_meta content_version ", content.as_str());
                m.append(" != expected v1");
                Err(m)
            } else {
                Ok(())
            }
        },
    }
}

} // verus!

//! Rules on entries that need no store to apply.

use vstd::prelude::*;
use vstd::string::*;

use crate::text::same_text;

verus! {

/// The conversion rate that an entry keeps: the one given where the entry has
/// a secondary source, none where it has not.
pub fn conversion_rate_for<R>(secondary_source_id: &Option<i32>, rate: Option<R>) -> (kept: Option<R>)
    ensures
        kept == if secondary_source_id is Some {
            rate
        } else {
            None
        },
{
    if secondary_source_id.is_some() {
        rate
    } else {
        None
    }
}

/// An order in which entries can be listed.
#[derive(Clone, Copy, Debug, PartialEq, Eq, Structural)]
pub enum SortOrder {
    AmountAscending,
    AmountDescending,
    DateAscending,
    DateDescending,
}

/// The order that a sort key asks for, if it asks for one.
pub open spec fn sort_order_of(key: Seq<char>) -> Option<SortOrder> {
    if key == "amount_asc"@ {
        Some(SortOrder::AmountAscending)
    } else if key == "amount_desc"@ {
        Some(SortOrder::AmountDescending)
    } else if key == "date_asc"@ {
        Some(SortOrder::DateAscending)
    } else if key == "date_desc"@ {
        Some(SortOrder::DateDescending)
    } else {
        None
    }
}

impl SortOrder {
    /// Reads a sort key. A key that names no order gives `None`, and the
    /// entries then come in no particular order.
    pub fn from_key(key: &str) -> (order: Option<SortOrder>)
        ensures
            order == sort_order_of(key@),
    {
        if same_text(key, "amount_asc") {
            Some(SortOrder::AmountAscending)
        } else if same_text(key, "amount_desc") {
            Some(SortOrder::AmountDescending)
        } else if same_text(key, "date_asc") {
            Some(SortOrder::DateAscending)
        } else if same_text(key, "date_desc") {
            Some(SortOrder::DateDescending)
        } else {
            None
        }
    }
}

/// The pattern that matches every text in which `fragment` occurs. What is a
/// wildcard in `fragment` stays one.
pub fn containing_pattern(fragment: &str) -> (pattern: String)
    ensures
        pattern@ == "%"@ + fragment@ + "%"@,
{
    String::from_str("%").concat(fragment).concat("%")
}

} // verus!

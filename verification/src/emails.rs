//! Saving an address: the row that is already there is kept, a new one is
//! made only where there is none.

use vstd::prelude::*;
use crate::model::{Email, EmailView};

verus! {

/// What saving an address comes to.
#[derive(Debug)]
pub enum SavePlan {
    /// The table has a row for the address: it is the answer.
    Keep(Email),
    /// The table has none: this row is inserted, and the newest row of the
    /// table is the answer.
    Insert(Email),
}

/// Decides how an address is saved, given the row that the table has for
/// it, if any.
pub fn save_plan(found: Option<Email>, address: &str) -> (plan: SavePlan)
    ensures
        match found {
            Some(row) => plan matches SavePlan::Keep(kept) && kept == row,
            None => plan matches SavePlan::Insert(row) && row@ == EmailView::with_address(
                address@,
            ),
        },
{
    match found {
        Some(row) => SavePlan::Keep(row),
        None => SavePlan::Insert(Email::with_address(address)),
    }
}

} // verus!

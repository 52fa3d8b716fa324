//! Category rules.
use vstd::prelude::*;

use crate::error::{AppError, AppErrorView};
use crate::models::category::{default_categories, is_default_category, NewCategory};
use crate::text::{int_text, push_int};

verus! {

/// Category rules.
pub struct CategoryRepo;

impl CategoryRepo {
    /// A category used by transactions cannot be deleted: `in_use` is the
    /// number of transactions filed under category `id`.
    pub fn check_deletable(id: &str, in_use: i64) -> (r: Result<(), AppError>)
        ensures
            in_use > 0 ==> (r matches Err(e) && e@ == AppErrorView::Validation(
                "Category '"@ + id@ + "' is used by "@ + int_text(in_use as int)
                    + " transaction(s) and cannot be deleted"@,
            )),
            in_use <= 0 ==> r is Ok,
    {
        if in_use > 0 {
            let mut msg = "Category '".to_owned().concat(id).concat("' is used by ");
            push_int(&mut msg, in_use);
            let msg = msg.concat(" transaction(s) and cannot be deleted");
            Err(AppError::Validation(msg))
        } else {
            Ok(())
        }
    }

    /// The system categories to seed, from the number `system_count` already
    /// stored: the defaults on first launch (none stored), else none.
    pub fn seed_plan(system_count: i64) -> (r: Vec<NewCategory>)
        ensures
            system_count > 0 ==> r.len() == 0,
            system_count <= 0 ==> r.len() == 10 && forall|i: int|
                0 <= i < 10 ==> is_default_category(#[trigger] r[i], i),
    {
        if system_count > 0 {
            Vec::new()
        } else {
            default_categories()
        }
    }
}

} // verus!

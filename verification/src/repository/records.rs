//! Wallet, holding and member records: the decisions taken on what the
//! store answers.
use vstd::prelude::*;

use crate::error::{AppError, AppErrorView};
use crate::services::holding::{not_found, quoted_id};
use crate::text::{to_uppercase, uppercase_text};

verus! {

/// The answer to a change that touched `affected` rows of the record `what`
/// `id`: none touched means the record does not exist.
pub open spec fn touched(what: Seq<char>, id: Seq<char>, affected: usize) -> Result<(), AppErrorView> {
    if affected == 0 {
        Err(not_found(what, id))
    } else {
        Ok(())
    }
}

/// The view of an answer.
pub open spec fn answer_view(r: Result<(), AppError>) -> Result<(), AppErrorView> {
    match r {
        Ok(()) => Ok(()),
        Err(e) => Err(e@),
    }
}

fn check_touched(what: &str, id: &str, affected: usize) -> (r: Result<(), AppError>)
    ensures
        answer_view(r) == touched(what@, id@, affected),
{
    if affected == 0 {
        Err(AppError::NotFound(quoted_id(what, id)))
    } else {
        Ok(())
    }
}

/// Wallet rules.
pub struct WalletRepo;

impl WalletRepo {
    /// The answer to adding to a wallet's balance, from the number of rows the
    /// update changed: the update only touches an active wallet, so none
    /// changed means `NotFound("wallet '<id>'")`.
    pub fn balance_added(wallet_id: &str, affected: usize) -> (r: Result<(), AppError>)
        ensures
            answer_view(r) == touched("wallet"@, wallet_id@, affected),
    {
        proof {
            reveal_strlit("wallet");
        }
        check_touched("wallet", wallet_id, affected)
    }
}

/// Holding rules.
pub struct HoldingRepo;

impl HoldingRepo {
    /// The form a symbol is stored and looked up in: uppercase.
    pub fn symbol_key(symbol: &str) -> (r: String)
        ensures
            r@ == uppercase_text(symbol@),
    {
        to_uppercase(symbol)
    }
}

/// Member rules.
pub struct MemberRepo;

impl MemberRepo {
    /// The answer to deleting a member, from the number of rows deleted.
    pub fn deleted(id: &str, affected: usize) -> (r: Result<(), AppError>)
        ensures
            answer_view(r) == touched("member"@, id@, affected),
    {
        proof {
            reveal_strlit("member");
        }
        check_touched("member", id, affected)
    }
}

/// The answer to deleting a transaction record, from the number of rows
/// deleted.
pub fn transaction_deleted(id: &str, affected: usize) -> (r: Result<(), AppError>)
    ensures
        answer_view(r) == touched("transaction"@, id@, affected),
{
    proof {
        reveal_strlit("transaction");
    }
    check_touched("transaction", id, affected)
}

/// The answer to deleting a family, from the number of rows deleted.
pub fn family_deleted(id: &str, affected: usize) -> (r: Result<(), AppError>)
    ensures
        answer_view(r) == touched("family"@, id@, affected),
{
    proof {
        reveal_strlit("family");
    }
    check_touched("family", id, affected)
}

/// The answer to deleting a category, from the number of rows deleted: the
/// delete spares system categories, so none deleted means the category is
/// missing or a system one.
pub fn category_deleted(id: &str, affected: usize) -> (r: Result<(), AppError>)
    ensures
        affected == 0 ==> (r matches Err(e) && e@ == AppErrorView::NotFound(
            "category '"@ + id@ + "' (or it is a system category)"@,
        )),
        affected > 0 ==> r is Ok,
{
    if affected == 0 {
        Err(AppError::NotFound("category '".to_owned().concat(id).concat("' (or it is a system category)")))
    } else {
        Ok(())
    }
}

} // verus!

//! The transaction form: from the fields as typed to the transaction to
//! execute, or the message shown under the form.
use vstd::prelude::*;

use crate::decimal::{mul_spec, parse_spec, Dec};
use crate::display::{date_str_to_ts, ymd_of_text};
use crate::models::transaction::{IncomeType, NewTransaction, TransactionType};
use crate::models::wallet::Currency;
use crate::text::opt_text;

verus! {

/// The fields of the transaction form, as typed.
#[derive(Clone, Debug)]
pub struct TransactionForm {
    pub txn_type: TransactionType,
    pub wallet_id: String,
    pub amount: String,
    pub currency: Currency,
    pub note: String,
    pub income_type: IncomeType,
    pub category_id: String,
    pub to_wallet_id: String,
    pub to_amount: String,
    pub to_currency: Currency,
    pub holding_id: String,
    pub quantity: String,
    pub price: String,
    /// The date field, `YYYY-MM-DD`.
    pub txn_date: String,
}

/// An optional text field: nothing when left empty.
pub open spec fn optional_text(s: Seq<char>) -> Option<Seq<char>> {
    if s.len() == 0 {
        None
    } else {
        Some(s)
    }
}

/// The fields every kind of transaction takes from the form.
pub open spec fn common_fields(t: NewTransaction, f: TransactionForm, date: i64) -> bool {
    &&& t.txn_type == f.txn_type
    &&& t.wallet_id@ == f.wallet_id@
    &&& t.currency == f.currency
    &&& t.txn_date == date
    &&& opt_text(t.note) == optional_text(f.note@)
}

/// The message shown for a field that is not a number.
pub open spec fn invalid_field(r: Option<Result<NewTransaction, String>>, msg: Seq<char>) -> bool {
    r matches Some(Err(m)) && m@ == msg
}

/// What submitting the form gives, dated `date`: the transaction it
/// describes, or the message for the first field that is not a number.
pub open spec fn form_outcome_ok(f: TransactionForm, date: i64, r: Option<Result<NewTransaction, String>>) -> bool {
    match parse_spec(f.amount@) {
        None => invalid_field(r, "Invalid amount"@),
        Some(amount) => match f.txn_type {
            TransactionType::Income => r matches Some(Ok(t)) && {
                &&& common_fields(t, f, date)
                &&& t.amount == amount
                &&& t.income_type == Some(f.income_type)
                &&& (NewTransaction { income_type: None, note: None, ..t }).only_base_fields()
            },
            TransactionType::Expense => r matches Some(Ok(t)) && {
                &&& common_fields(t, f, date)
                &&& t.amount == amount
                &&& t.category_id matches Some(c) && c@ == f.category_id@
                &&& (NewTransaction { category_id: None, note: None, ..t }).only_base_fields()
            },
            TransactionType::Transfer => match parse_spec(f.to_amount@) {
                None => invalid_field(r, "Invalid to_amount"@),
                Some(to_amount) => r matches Some(Ok(t)) && {
                    &&& common_fields(t, f, date)
                    &&& t.amount == amount
                    &&& t.to_wallet_id matches Some(w) && w@ == f.to_wallet_id@
                    &&& t.to_amount == Some(to_amount)
                    &&& t.to_currency == Some(f.to_currency)
                    &&& (NewTransaction {
                        to_wallet_id: None,
                        to_amount: None,
                        to_currency: None,
                        note: None,
                        ..t
                    }).only_base_fields()
                },
            },
            _ => match parse_spec(f.quantity@) {
                None => invalid_field(r, "Invalid quantity"@),
                Some(q) => match parse_spec(f.price@) {
                    None => invalid_field(r, "Invalid price"@),
                    Some(p) => match mul_spec(q, p) {
                        None => r is None,
                        Some(_) => r matches Some(Ok(t)) && {
                            &&& opt_text(t.note) == optional_text(f.note@)
                            &&& (NewTransaction { note: None, ..t }).trade_spec(
                                f.txn_type,
                                f.wallet_id@,
                                f.holding_id@,
                                q,
                                p,
                                f.currency,
                                date,
                            )
                        },
                    },
                },
            },
        },
    }
}

fn optional_string(s: &String) -> (r: Option<String>)
    ensures
        opt_text(r) == optional_text(s@),
{
    if s.as_str().is_empty() {
        None
    } else {
        Some(s.clone())
    }
}

fn message(s: &str) -> (r: Option<Result<NewTransaction, String>>)
    ensures
        r matches Some(Err(m)) && m@ == s@,
{
    Some(Err(s.to_owned()))
}

impl TransactionForm {
    /// The transaction the form describes, dated `txn_date`, or the message
    /// for the first field that is not a number ("Invalid amount", then
    /// "Invalid to_amount" for a transfer, "Invalid quantity" and "Invalid
    /// price" for a trade). `None` where quantity × price overflows.
    pub fn to_transaction(&self, txn_date: i64) -> (r: Option<Result<NewTransaction, String>>)
        ensures
            form_outcome_ok(*self, txn_date, r),
    {
        proof {
            reveal_strlit("Invalid amount");
            reveal_strlit("Invalid to_amount");
            reveal_strlit("Invalid quantity");
            reveal_strlit("Invalid price");
        }
        let amount = match Dec::parse(self.amount.as_str()) {
            Some(a) => a,
            None => return message("Invalid amount"),
        };
        let note = optional_string(&self.note);
        let mut t = match self.txn_type {
            TransactionType::Income => NewTransaction::income(
                self.wallet_id.as_str(),
                amount,
                self.currency,
                self.income_type,
                txn_date,
            ),
            TransactionType::Expense => NewTransaction::expense(
                self.wallet_id.as_str(),
                amount,
                self.currency,
                self.category_id.as_str(),
                txn_date,
            ),
            TransactionType::Transfer => {
                let to_amount = match Dec::parse(self.to_amount.as_str()) {
                    Some(a) => a,
                    None => return message("Invalid to_amount"),
                };
                NewTransaction::transfer(
                    self.wallet_id.as_str(),
                    amount,
                    self.currency,
                    self.to_wallet_id.as_str(),
                    to_amount,
                    self.to_currency,
                    txn_date,
                )
            },
            TransactionType::InvestBuy => {
                let q = match Dec::parse(self.quantity.as_str()) {
                    Some(q) => q,
                    None => return message("Invalid quantity"),
                };
                let p = match Dec::parse(self.price.as_str()) {
                    Some(p) => p,
                    None => return message("Invalid price"),
                };
                match NewTransaction::checked_invest_buy(
                    self.wallet_id.as_str(),
                    self.holding_id.as_str(),
                    q,
                    p,
                    self.currency,
                    txn_date,
                ) {
                    Some(t) => t,
                    None => return None,
                }
            },
            TransactionType::InvestSell => {
                let q = match Dec::parse(self.quantity.as_str()) {
                    Some(q) => q,
                    None => return message("Invalid quantity"),
                };
                let p = match Dec::parse(self.price.as_str()) {
                    Some(p) => p,
                    None => return message("Invalid price"),
                };
                match NewTransaction::checked_invest_sell(
                    self.wallet_id.as_str(),
                    self.holding_id.as_str(),
                    q,
                    p,
                    self.currency,
                    txn_date,
                ) {
                    Some(t) => t,
                    None => return None,
                }
            },
        };
        t.note = note;
        Some(Ok(t))
    }

    /// What submitting the form at time `now` gives: the transaction dated
    /// at local noon of the date field, or at `now` where the field holds no
    /// `YYYY-MM-DD` date (see `to_transaction`).
    pub fn submit(&self, now: i64) -> (r: Option<Result<NewTransaction, String>>)
        ensures
            ymd_of_text(self.txn_date@) is None ==> form_outcome_ok(*self, now, r),
            exists|date: i64| #[trigger] form_outcome_ok(*self, date, r),
    {
        let date = match date_str_to_ts(self.txn_date.as_str()) {
            Some(t) => t,
            None => now,
        };
        let r = self.to_transaction(date);
        assert(form_outcome_ok(*self, date, r));
        r
    }
}

} // verus!

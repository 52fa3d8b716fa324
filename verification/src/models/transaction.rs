//! Transactions: income, expenses, transfers and investment trades.
use vstd::prelude::*;

use crate::decimal::{mul_spec, Dec};
use crate::error::{AppError, AppErrorView};
use crate::models::wallet::Currency;
use crate::text::{clone_opt_string, str_eq};

verus! {

/// The kind of a transaction.
#[derive(Clone, Copy, Debug, PartialEq, Eq, Structural)]
pub enum TransactionType {
    Income,
    Expense,
    Transfer,
    InvestBuy,
    InvestSell,
}

impl TransactionType {
    pub open spec fn text(self) -> Seq<char> {
        match self {
            TransactionType::Income => "income"@,
            TransactionType::Expense => "expense"@,
            TransactionType::Transfer => "transfer"@,
            TransactionType::InvestBuy => "invest_buy"@,
            TransactionType::InvestSell => "invest_sell"@,
        }
    }

    pub open spec fn parse_spec(s: Seq<char>) -> Option<TransactionType> {
        if s == "income"@ {
            Some(TransactionType::Income)
        } else if s == "expense"@ {
            Some(TransactionType::Expense)
        } else if s == "transfer"@ {
            Some(TransactionType::Transfer)
        } else if s == "invest_buy"@ {
            Some(TransactionType::InvestBuy)
        } else if s == "invest_sell"@ {
            Some(TransactionType::InvestSell)
        } else {
            None
        }
    }

    /// The name it is stored and shown under.
    pub fn to_string(&self) -> (r: String)
        ensures
            r@ == self.text(),
    {
        match self {
            TransactionType::Income => "income".to_owned(),
            TransactionType::Expense => "expense".to_owned(),
            TransactionType::Transfer => "transfer".to_owned(),
            TransactionType::InvestBuy => "invest_buy".to_owned(),
            TransactionType::InvestSell => "invest_sell".to_owned(),
        }
    }

    /// The value with the given name; any other text is a parse error.
    pub fn from_str(s: &str) -> (r: Result<TransactionType, AppError>)
        ensures
            match r {
                Ok(t) => TransactionType::parse_spec(s@) == Some(t),
                Err(e) => TransactionType::parse_spec(s@) is None && e@ == AppErrorView::Parse(
                    "Unknown transaction type: "@ + s@,
                ),
            },
    {
        if str_eq(s, "income") {
            Ok(TransactionType::Income)
        } else if str_eq(s, "expense") {
            Ok(TransactionType::Expense)
        } else if str_eq(s, "transfer") {
            Ok(TransactionType::Transfer)
        } else if str_eq(s, "invest_buy") {
            Ok(TransactionType::InvestBuy)
        } else if str_eq(s, "invest_sell") {
            Ok(TransactionType::InvestSell)
        } else {
            Err(AppError::Parse("Unknown transaction type: ".to_owned().concat(s)))
        }
    }

    /// Parsing the name of a transaction type gives that type back.
    pub proof fn lemma_text_roundtrip(t: TransactionType)
        ensures
            TransactionType::parse_spec(t.text()) == Some(t),
    {
        reveal_strlit("income");
        reveal_strlit("expense");
        reveal_strlit("transfer");
        reveal_strlit("invest_buy");
        reveal_strlit("invest_sell");
        assert("income"@.len() == 6 && "expense"@.len() == 7 && "transfer"@.len() == 8
            && "invest_buy"@.len() == 10 && "invest_sell"@.len() == 11);
    }
}

/// Where an income came from.
#[derive(Clone, Copy, Debug, PartialEq, Eq, Structural)]
pub enum IncomeType {
    Salary,
    Bonus,
    SideIncome,
    Rental,
    Investment,
    Other,
}

impl IncomeType {
    pub open spec fn text(self) -> Seq<char> {
        match self {
            IncomeType::Salary => "salary"@,
            IncomeType::Bonus => "bonus"@,
            IncomeType::SideIncome => "side_income"@,
            IncomeType::Rental => "rental"@,
            IncomeType::Investment => "investment"@,
            IncomeType::Other => "other"@,
        }
    }

    pub open spec fn parse_spec(s: Seq<char>) -> Option<IncomeType> {
        if s == "salary"@ {
            Some(IncomeType::Salary)
        } else if s == "bonus"@ {
            Some(IncomeType::Bonus)
        } else if s == "side_income"@ {
            Some(IncomeType::SideIncome)
        } else if s == "rental"@ {
            Some(IncomeType::Rental)
        } else if s == "investment"@ {
            Some(IncomeType::Investment)
        } else if s == "other"@ {
            Some(IncomeType::Other)
        } else {
            None
        }
    }

    /// The name it is stored and shown under.
    pub fn to_string(&self) -> (r: String)
        ensures
            r@ == self.text(),
    {
        match self {
            IncomeType::Salary => "salary".to_owned(),
            IncomeType::Bonus => "bonus".to_owned(),
            IncomeType::SideIncome => "side_income".to_owned(),
            IncomeType::Rental => "rental".to_owned(),
            IncomeType::Investment => "investment".to_owned(),
            IncomeType::Other => "other".to_owned(),
        }
    }

    /// The value with the given name; any other text is a parse error.
    pub fn from_str(s: &str) -> (r: Result<IncomeType, AppError>)
        ensures
            match r {
                Ok(t) => IncomeType::parse_spec(s@) == Some(t),
                Err(e) => IncomeType::parse_spec(s@) is None && e@ == AppErrorView::Parse(
                    "Unknown income type: "@ + s@,
                ),
            },
    {
        if str_eq(s, "salary") {
            Ok(IncomeType::Salary)
        } else if str_eq(s, "bonus") {
            Ok(IncomeType::Bonus)
        } else if str_eq(s, "side_income") {
            Ok(IncomeType::SideIncome)
        } else if str_eq(s, "rental") {
            Ok(IncomeType::Rental)
        } else if str_eq(s, "investment") {
            Ok(IncomeType::Investment)
        } else if str_eq(s, "other") {
            Ok(IncomeType::Other)
        } else {
            Err(AppError::Parse("Unknown income type: ".to_owned().concat(s)))
        }
    }

    /// Parsing the name of an income type gives that type back.
    pub proof fn lemma_text_roundtrip(t: IncomeType)
        ensures
            IncomeType::parse_spec(t.text()) == Some(t),
    {
        reveal_strlit("salary");
        reveal_strlit("bonus");
        reveal_strlit("side_income");
        reveal_strlit("rental");
        reveal_strlit("investment");
        reveal_strlit("other");
        assert("salary"@[0] == 's' && "bonus"@[0] == 'b' && "side_income"@[1] == 'i'
            && "salary"@[1] == 'a' && "rental"@[0] == 'r' && "investment"@[0] == 'i'
            && "other"@[0] == 'o');
    }
}

/// A recorded transaction.
#[derive(Clone, Debug, PartialEq)]
pub struct Transaction {
    pub id: String,
    pub txn_type: TransactionType,
    pub wallet_id: String,
    pub amount: Dec,
    pub currency: Currency,
    // income
    pub income_type: Option<IncomeType>,
    // expense
    pub category_id: Option<String>,
    // transfer
    pub to_wallet_id: Option<String>,
    pub to_amount: Option<Dec>,
    pub to_currency: Option<Currency>,
    // invest_buy / invest_sell
    pub holding_id: Option<String>,
    pub asset_quantity: Option<Dec>,
    pub asset_price: Option<Dec>,
    pub note: Option<String>,
    pub txn_date: i64,
    pub created_at: i64,
}

/// A transaction about to be executed.
#[derive(Clone, Debug)]
pub struct NewTransaction {
    pub txn_type: TransactionType,
    pub wallet_id: String,
    pub amount: Dec,
    pub currency: Currency,
    pub income_type: Option<IncomeType>,
    pub category_id: Option<String>,
    pub to_wallet_id: Option<String>,
    pub to_amount: Option<Dec>,
    pub to_currency: Option<Currency>,
    pub holding_id: Option<String>,
    pub asset_quantity: Option<Dec>,
    pub asset_price: Option<Dec>,
    pub note: Option<String>,
    pub txn_date: i64,
}

impl Transaction {
    /// All amounts are representable decimals.
    pub open spec fn wf(self) -> bool {
        &&& self.amount.wf()
        &&& self.to_amount matches Some(a) ==> a.wf()
        &&& self.asset_quantity matches Some(q) ==> q.wf()
        &&& self.asset_price matches Some(p) ==> p.wf()
    }

    /// A field-by-field copy.
    pub fn duplicate(&self) -> (r: Transaction)
        ensures
            r == *self,
    {
        Transaction {
            id: self.id.clone(),
            txn_type: self.txn_type,
            wallet_id: self.wallet_id.clone(),
            amount: self.amount,
            currency: self.currency,
            income_type: self.income_type,
            category_id: clone_opt_string(&self.category_id),
            to_wallet_id: clone_opt_string(&self.to_wallet_id),
            to_amount: self.to_amount,
            to_currency: self.to_currency,
            holding_id: clone_opt_string(&self.holding_id),
            asset_quantity: self.asset_quantity,
            asset_price: self.asset_price,
            note: clone_opt_string(&self.note),
            txn_date: self.txn_date,
            created_at: self.created_at,
        }
    }
}

impl NewTransaction {
    /// All amounts are representable decimals.
    pub open spec fn wf(self) -> bool {
        &&& self.amount.wf()
        &&& self.to_amount matches Some(a) ==> a.wf()
        &&& self.asset_quantity matches Some(q) ==> q.wf()
        &&& self.asset_price matches Some(p) ==> p.wf()
    }

    /// None of the fields of the other transaction kinds is set.
    pub open spec fn only_base_fields(self) -> bool {
        &&& self.income_type is None
        &&& self.category_id is None
        &&& self.to_wallet_id is None
        &&& self.to_amount is None
        &&& self.to_currency is None
        &&& self.holding_id is None
        &&& self.asset_quantity is None
        &&& self.asset_price is None
        &&& self.note is None
    }

    /// An income of `amount` into `wallet_id`.
    pub fn income(
        wallet_id: &str,
        amount: Dec,
        currency: Currency,
        income_type: IncomeType,
        txn_date: i64,
    ) -> (r: Self)
        ensures
            r.txn_type == TransactionType::Income,
            r.wallet_id@ == wallet_id@,
            r.amount == amount,
            r.currency == currency,
            r.income_type == Some(income_type),
            (NewTransaction { income_type: None, ..r }).only_base_fields(),
            r.txn_date == txn_date,
    {
        NewTransaction {
            txn_type: TransactionType::Income,
            wallet_id: wallet_id.to_owned(),
            amount,
            currency,
            income_type: Some(income_type),
            category_id: None,
            to_wallet_id: None,
            to_amount: None,
            to_currency: None,
            holding_id: None,
            asset_quantity: None,
            asset_price: None,
            note: None,
            txn_date,
        }
    }

    /// An expense of `amount` from `wallet_id` under `category_id`.
    pub fn expense(
        wallet_id: &str,
        amount: Dec,
        currency: Currency,
        category_id: &str,
        txn_date: i64,
    ) -> (r: Self)
        ensures
            r.txn_type == TransactionType::Expense,
            r.wallet_id@ == wallet_id@,
            r.amount == amount,
            r.currency == currency,
            r.category_id matches Some(c) && c@ == category_id@,
            (NewTransaction { category_id: None, ..r }).only_base_fields(),
            r.txn_date == txn_date,
    {
        NewTransaction {
            txn_type: TransactionType::Expense,
            wallet_id: wallet_id.to_owned(),
            amount,
            currency,
            income_type: None,
            category_id: Some(category_id.to_owned()),
            to_wallet_id: None,
            to_amount: None,
            to_currency: None,
            holding_id: None,
            asset_quantity: None,
            asset_price: None,
            note: None,
            txn_date,
        }
    }

    /// A transfer of `amount` out of one wallet and `to_amount` into another.
    pub fn transfer(
        from_wallet_id: &str,
        amount: Dec,
        currency: Currency,
        to_wallet_id: &str,
        to_amount: Dec,
        to_currency: Currency,
        txn_date: i64,
    ) -> (r: Self)
        ensures
            r.txn_type == TransactionType::Transfer,
            r.wallet_id@ == from_wallet_id@,
            r.amount == amount,
            r.currency == currency,
            r.to_wallet_id matches Some(t) && t@ == to_wallet_id@,
            r.to_amount == Some(to_amount),
            r.to_currency == Some(to_currency),
            (NewTransaction { to_wallet_id: None, to_amount: None, to_currency: None, ..r }).only_base_fields(),
            r.txn_date == txn_date,
    {
        NewTransaction {
            txn_type: TransactionType::Transfer,
            wallet_id: from_wallet_id.to_owned(),
            amount,
            currency,
            income_type: None,
            category_id: None,
            to_wallet_id: Some(to_wallet_id.to_owned()),
            to_amount: Some(to_amount),
            to_currency: Some(to_currency),
            holding_id: None,
            asset_quantity: None,
            asset_price: None,
            note: None,
            txn_date,
        }
    }

    /// The fields of a trade of `quantity` units of a holding at `price`; its
    /// amount is `quantity * price`.
    pub open spec fn trade_spec(
        self,
        txn_type: TransactionType,
        wallet_id: Seq<char>,
        holding_id: Seq<char>,
        quantity: Dec,
        price: Dec,
        currency: Currency,
        txn_date: i64,
    ) -> bool {
        &&& self.txn_type == txn_type
        &&& self.wallet_id@ == wallet_id
        &&& self.amount == mul_spec(quantity, price)->0
        &&& self.currency == currency
        &&& self.holding_id matches Some(h) && h@ == holding_id
        &&& self.asset_quantity == Some(quantity)
        &&& self.asset_price == Some(price)
        &&& (NewTransaction {
            holding_id: None,
            asset_quantity: None,
            asset_price: None,
            ..self
        }).only_base_fields()
        &&& self.txn_date == txn_date
    }

    fn trade(
        txn_type: TransactionType,
        wallet_id: &str,
        holding_id: &str,
        quantity: Dec,
        price: Dec,
        currency: Currency,
        txn_date: i64,
    ) -> (r: Option<Self>)
        requires
            quantity.wf(),
            price.wf(),
        ensures
            r is Some <==> mul_spec(quantity, price) is Some,
            r matches Some(t) ==> t.trade_spec(
                txn_type,
                wallet_id@,
                holding_id@,
                quantity,
                price,
                currency,
                txn_date,
            ),
    {
        match quantity.checked_mul(price) {
            Some(total) => Some(
                NewTransaction {
                    txn_type,
                    wallet_id: wallet_id.to_owned(),
                    amount: total,
                    currency,
                    income_type: None,
                    category_id: None,
                    to_wallet_id: None,
                    to_amount: None,
                    to_currency: None,
                    holding_id: Some(holding_id.to_owned()),
                    asset_quantity: Some(quantity),
                    asset_price: Some(price),
                    note: None,
                    txn_date,
                },
            ),
            None => None,
        }
    }

    /// A purchase of `quantity` units of a holding at `price` each.
    pub fn invest_buy(
        wallet_id: &str,
        holding_id: &str,
        quantity: Dec,
        price: Dec,
        currency: Currency,
        txn_date: i64,
    ) -> (r: Self)
        requires
            quantity.wf(),
            price.wf(),
            mul_spec(quantity, price) is Some,
        ensures
            r.trade_spec(
                TransactionType::InvestBuy,
                wallet_id@,
                holding_id@,
                quantity,
                price,
                currency,
                txn_date,
            ),
    {
        Self::trade(TransactionType::InvestBuy, wallet_id, holding_id, quantity, price, currency, txn_date).unwrap()
    }

    /// `invest_buy`, or `None` where `quantity * price` overflows.
    pub fn checked_invest_buy(
        wallet_id: &str,
        holding_id: &str,
        quantity: Dec,
        price: Dec,
        currency: Currency,
        txn_date: i64,
    ) -> (r: Option<Self>)
        requires
            quantity.wf(),
            price.wf(),
        ensures
            r is Some <==> mul_spec(quantity, price) is Some,
            r matches Some(t) ==> t.trade_spec(
                TransactionType::InvestBuy,
                wallet_id@,
                holding_id@,
                quantity,
                price,
                currency,
                txn_date,
            ),
    {
        if quantity.checked_mul(price).is_some() {
            Some(Self::invest_buy(wallet_id, holding_id, quantity, price, currency, txn_date))
        } else {
            None
        }
    }

    /// A sale of `quantity` units of a holding at `price` each.
    pub fn invest_sell(
        wallet_id: &str,
        holding_id: &str,
        quantity: Dec,
        price: Dec,
        currency: Currency,
        txn_date: i64,
    ) -> (r: Self)
        requires
            quantity.wf(),
            price.wf(),
            mul_spec(quantity, price) is Some,
        ensures
            r.trade_spec(
                TransactionType::InvestSell,
                wallet_id@,
                holding_id@,
                quantity,
                price,
                currency,
                txn_date,
            ),
    {
        Self::trade(TransactionType::InvestSell, wallet_id, holding_id, quantity, price, currency, txn_date).unwrap()
    }

    /// `invest_sell`, or `None` where `quantity * price` overflows.
    pub fn checked_invest_sell(
        wallet_id: &str,
        holding_id: &str,
        quantity: Dec,
        price: Dec,
        currency: Currency,
        txn_date: i64,
    ) -> (r: Option<Self>)
        requires
            quantity.wf(),
            price.wf(),
        ensures
            r is Some <==> mul_spec(quantity, price) is Some,
            r matches Some(t) ==> t.trade_spec(
                TransactionType::InvestSell,
                wallet_id@,
                holding_id@,
                quantity,
                price,
                currency,
                txn_date,
            ),
    {
        if quantity.checked_mul(price).is_some() {
            Some(Self::invest_sell(wallet_id, holding_id, quantity, price, currency, txn_date))
        } else {
            None
        }
    }
}

} // verus!

//! Wallets: where money is held, each in one currency.
use vstd::prelude::*;

use crate::decimal::Dec;
use crate::error::{AppError, AppErrorView};
use crate::text::str_eq;

verus! {

/// A currency. Amounts in different currencies are never converted.
#[derive(Clone, Copy, Debug, PartialEq, Eq, Hash, Structural)]
pub enum Currency {
    VND,
    USD,
    GOLD,
}

impl Currency {
    /// The name the currency is stored and shown under.
    pub open spec fn text(self) -> Seq<char> {
        match self {
            Currency::VND => "VND"@,
            Currency::USD => "USD"@,
            Currency::GOLD => "GOLD"@,
        }
    }

    /// The currency a stored name stands for, if any.
    pub open spec fn parse_spec(s: Seq<char>) -> Option<Currency> {
        if s == "VND"@ {
            Some(Currency::VND)
        } else if s == "USD"@ {
            Some(Currency::USD)
        } else if s == "GOLD"@ {
            Some(Currency::GOLD)
        } else {
            None
        }
    }

    /// The name it is stored and shown under.
    pub fn to_string(&self) -> (r: String)
        ensures
            r@ == self.text(),
    {
        match self {
            Currency::VND => "VND".to_owned(),
            Currency::USD => "USD".to_owned(),
            Currency::GOLD => "GOLD".to_owned(),
        }
    }

    /// Parses a stored name; anything else is a parse error.
    pub fn from_str(s: &str) -> (r: Result<Currency, AppError>)
        ensures
            match r {
                Ok(c) => Currency::parse_spec(s@) == Some(c),
                Err(e) => Currency::parse_spec(s@) is None && e@ == AppErrorView::Parse(
                    "Unknown currency: "@ + s@,
                ),
            },
    {
        if str_eq(s, "VND") {
            Ok(Currency::VND)
        } else if str_eq(s, "USD") {
            Ok(Currency::USD)
        } else if str_eq(s, "GOLD") {
            Ok(Currency::GOLD)
        } else {
            Err(AppError::Parse("Unknown currency: ".to_owned().concat(s)))
        }
    }

    /// Parsing the name of a currency gives that currency back.
    pub proof fn lemma_text_roundtrip(c: Currency)
        ensures
            Currency::parse_spec(c.text()) == Some(c),
    {
        reveal_strlit("VND");
        reveal_strlit("USD");
        reveal_strlit("GOLD");
        assert("VND"@[0] == 'V' && "USD"@[0] == 'U' && "GOLD"@[0] == 'G');
    }
}

/// The kind of a wallet.
#[derive(Clone, Copy, Debug, PartialEq, Eq, Structural)]
pub enum WalletType {
    Cash,
    Bank,
    Loan,
    EWallet,
    Investment,
}

impl WalletType {
    pub open spec fn text(self) -> Seq<char> {
        match self {
            WalletType::Cash => "cash"@,
            WalletType::Bank => "bank"@,
            WalletType::Loan => "loan"@,
            WalletType::EWallet => "e_wallet"@,
            WalletType::Investment => "investment"@,
        }
    }

    pub open spec fn parse_spec(s: Seq<char>) -> Option<WalletType> {
        if s == "cash"@ {
            Some(WalletType::Cash)
        } else if s == "bank"@ {
            Some(WalletType::Bank)
        } else if s == "loan"@ {
            Some(WalletType::Loan)
        } else if s == "e_wallet"@ {
            Some(WalletType::EWallet)
        } else if s == "investment"@ {
            Some(WalletType::Investment)
        } else {
            None
        }
    }

    /// The name it is stored and shown under.
    pub fn to_string(&self) -> (r: String)
        ensures
            r@ == self.text(),
    {
        match self {
            WalletType::Cash => "cash".to_owned(),
            WalletType::Bank => "bank".to_owned(),
            WalletType::Loan => "loan".to_owned(),
            WalletType::EWallet => "e_wallet".to_owned(),
            WalletType::Investment => "investment".to_owned(),
        }
    }

    /// The value with the given name; any other text is a parse error.
    pub fn from_str(s: &str) -> (r: Result<WalletType, AppError>)
        ensures
            match r {
                Ok(t) => WalletType::parse_spec(s@) == Some(t),
                Err(e) => WalletType::parse_spec(s@) is None && e@ == AppErrorView::Parse(
                    "Unknown wallet type: "@ + s@,
                ),
            },
    {
        if str_eq(s, "cash") {
            Ok(WalletType::Cash)
        } else if str_eq(s, "bank") {
            Ok(WalletType::Bank)
        } else if str_eq(s, "loan") {
            Ok(WalletType::Loan)
        } else if str_eq(s, "e_wallet") {
            Ok(WalletType::EWallet)
        } else if str_eq(s, "investment") {
            Ok(WalletType::Investment)
        } else {
            Err(AppError::Parse("Unknown wallet type: ".to_owned().concat(s)))
        }
    }

    /// Parsing the name of a wallet type gives that type back.
    pub proof fn lemma_text_roundtrip(t: WalletType)
        ensures
            WalletType::parse_spec(t.text()) == Some(t),
    {
        reveal_strlit("cash");
        reveal_strlit("bank");
        reveal_strlit("loan");
        reveal_strlit("e_wallet");
        reveal_strlit("investment");
        assert("cash"@[0] == 'c' && "bank"@[0] == 'b' && "loan"@[0] == 'l' && "e_wallet"@[0]
            == 'e' && "investment"@[0] == 'i');
    }
}

/// A wallet and its current balance.
#[derive(Clone, Debug, PartialEq)]
pub struct Wallet {
    pub id: String,
    pub name: String,
    pub wallet_type: WalletType,
    pub currency: Currency,
    pub balance: Dec,
    pub broker: Option<String>,
    pub icon: Option<String>,
    pub color: Option<String>,
    pub is_active: bool,
    pub sort_order: i32,
    pub created_at: i64,
}

/// The fields of a wallet about to be created.
#[derive(Clone, Debug, PartialEq)]
pub struct NewWallet {
    pub name: String,
    pub wallet_type: WalletType,
    pub currency: Currency,
    pub balance: Dec,
    pub broker: Option<String>,
    pub icon: Option<String>,
    pub color: Option<String>,
    pub sort_order: i32,
}

} // verus!

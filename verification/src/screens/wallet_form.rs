//! The wallet form and the category form: a new record, or the edited one.
use vstd::prelude::*;

use crate::decimal::{parse_spec, Dec};
use crate::models::category::{Category, NewCategory};
use crate::models::wallet::{Currency, NewWallet, Wallet, WalletType};
use crate::screens::transaction_form::optional_text;
use crate::text::{clone_opt_string, opt_text, trim, trimmed_text};

verus! {

/// An optional text field as typed: nothing when left empty.
fn optional_field(s: &String) -> (r: Option<String>)
    ensures
        opt_text(r) == optional_text(s@),
{
    if s.as_str().is_empty() {
        None
    } else {
        Some(s.clone())
    }
}

/// The fields of the wallet form, as typed.
#[derive(Clone, Debug)]
pub struct WalletForm {
    pub name: String,
    pub wallet_type: WalletType,
    pub currency: Currency,
    pub balance: String,
    pub broker: String,
    pub icon: String,
}

/// What a submitted wallet form saves.
#[derive(Debug, PartialEq)]
pub enum WalletFormOutcome {
    /// The wallet being edited, with the form's fields.
    Update(Wallet),
    /// A wallet to create.
    Create(NewWallet),
}

impl WalletForm {
    /// What submitting the form saves: "Name is required" when the name is
    /// blank, "Invalid balance" when the balance is not a number; else the
    /// edited wallet with the trimmed name, type, currency, broker and icon
    /// (its balance unchanged), or a new wallet with the balance typed, no
    /// color and sort order 0.
    pub fn submit(&self, editing: Option<&Wallet>) -> (r: Result<WalletFormOutcome, String>)
        ensures
            trimmed_text(self.name@).len() == 0 ==> (r matches Err(m) && m@ == "Name is required"@),
            trimmed_text(self.name@).len() > 0 && parse_spec(self.balance@) is None ==> (r matches Err(m) && m@ == "Invalid balance"@),
            trimmed_text(self.name@).len() > 0 && parse_spec(self.balance@) is Some ==> match editing {
                Some(old) => r matches Ok(WalletFormOutcome::Update(w)) && {
                    &&& w.id == old.id
                    &&& w.name@ == trimmed_text(self.name@)
                    &&& w.wallet_type == self.wallet_type
                    &&& w.currency == self.currency
                    &&& w.balance == old.balance
                    &&& opt_text(w.broker) == optional_text(self.broker@)
                    &&& opt_text(w.icon) == optional_text(self.icon@)
                    &&& w.color == old.color
                    &&& w.is_active == old.is_active
                    &&& w.sort_order == old.sort_order
                    &&& w.created_at == old.created_at
                },
                None => r matches Ok(WalletFormOutcome::Create(n)) && {
                    &&& n.name@ == trimmed_text(self.name@)
                    &&& n.wallet_type == self.wallet_type
                    &&& n.currency == self.currency
                    &&& n.balance == parse_spec(self.balance@)->0
                    &&& opt_text(n.broker) == optional_text(self.broker@)
                    &&& opt_text(n.icon) == optional_text(self.icon@)
                    &&& n.color is None
                    &&& n.sort_order == 0
                },
            },
    {
        proof {
            reveal_strlit("Name is required");
            reveal_strlit("Invalid balance");
        }
        let name = trim(self.name.as_str());
        if name.as_str().is_empty() {
            return Err("Name is required".to_owned());
        }
        let balance = match Dec::parse(self.balance.as_str()) {
            Some(b) => b,
            None => return Err("Invalid balance".to_owned()),
        };
        let broker = optional_field(&self.broker);
        let icon = optional_field(&self.icon);
        match editing {
            Some(old) => Ok(
                WalletFormOutcome::Update(
                    Wallet {
                        id: old.id.clone(),
                        name,
                        wallet_type: self.wallet_type,
                        currency: self.currency,
                        balance: old.balance,
                        broker,
                        icon,
                        color: clone_opt_string(&old.color),
                        is_active: old.is_active,
                        sort_order: old.sort_order,
                        created_at: old.created_at,
                    },
                ),
            ),
            None => Ok(
                WalletFormOutcome::Create(
                    NewWallet {
                        name,
                        wallet_type: self.wallet_type,
                        currency: self.currency,
                        balance,
                        broker,
                        icon,
                        color: None,
                        sort_order: 0,
                    },
                ),
            ),
        }
    }
}

/// The fields of the category form, as typed.
#[derive(Clone, Debug)]
pub struct CategoryForm {
    pub name: String,
    pub icon: String,
    pub color: String,
    pub budget: String,
}

/// What a submitted category form saves.
#[derive(Debug, PartialEq)]
pub enum CategoryFormOutcome {
    /// The category being edited, with the form's fields.
    Update(Category),
    /// A top-level category to create.
    Create(NewCategory),
}

impl CategoryForm {
    /// What submitting the form saves: "Name required" when the name is
    /// blank, "Invalid budget amount" when a budget is typed that is not a
    /// number; else the edited category with the trimmed name, icon, color
    /// and budget (none when left empty), or a new top-level category with
    /// them and sort order 0.
    pub fn submit(&self, editing: Option<&Category>) -> (r: Result<CategoryFormOutcome, String>)
        ensures
            trimmed_text(self.name@).len() == 0 ==> (r matches Err(m) && m@ == "Name required"@),
            trimmed_text(self.name@).len() > 0 && self.budget@.len() > 0 && parse_spec(self.budget@) is None
                ==> (r matches Err(m) && m@ == "Invalid budget amount"@),
            trimmed_text(self.name@).len() > 0 && (self.budget@.len() == 0 || parse_spec(self.budget@) is Some)
                ==> {
                let budget = if self.budget@.len() == 0 {
                    None
                } else {
                    parse_spec(self.budget@)
                };
                match editing {
                    Some(old) => r matches Ok(CategoryFormOutcome::Update(c)) && {
                        &&& c.id == old.id
                        &&& c.name@ == trimmed_text(self.name@)
                        &&& opt_text(c.icon) == optional_text(self.icon@)
                        &&& opt_text(c.color) == optional_text(self.color@)
                        &&& c.budget_amount == budget
                        &&& c.parent_id == old.parent_id
                        &&& c.sort_order == old.sort_order
                        &&& c.is_system == old.is_system
                        &&& c.created_at == old.created_at
                    },
                    None => r matches Ok(CategoryFormOutcome::Create(n)) && {
                        &&& n.name@ == trimmed_text(self.name@)
                        &&& opt_text(n.icon) == optional_text(self.icon@)
                        &&& opt_text(n.color) == optional_text(self.color@)
                        &&& n.budget_amount == budget
                        &&& n.parent_id is None
                        &&& n.sort_order == 0
                    },
                }
            },
    {
        proof {
            reveal_strlit("Name required");
            reveal_strlit("Invalid budget amount");
        }
        let name = trim(self.name.as_str());
        if name.as_str().is_empty() {
            return Err("Name required".to_owned());
        }
        let budget = if self.budget.as_str().is_empty() {
            None
        } else {
            match Dec::parse(self.budget.as_str()) {
                Some(b) => Some(b),
                None => return Err("Invalid budget amount".to_owned()),
            }
        };
        let icon = optional_field(&self.icon);
        let color = optional_field(&self.color);
        match editing {
            Some(old) => Ok(
                CategoryFormOutcome::Update(
                    Category {
                        id: old.id.clone(),
                        name,
                        icon,
                        color,
                        budget_amount: budget,
                        parent_id: clone_opt_string(&old.parent_id),
                        sort_order: old.sort_order,
                        is_system: old.is_system,
                        created_at: old.created_at,
                    },
                ),
            ),
            None => Ok(
                CategoryFormOutcome::Create(
                    NewCategory { name, icon, color, budget_amount: budget, parent_id: None, sort_order: 0 },
                ),
            ),
        }
    }
}

} // verus!

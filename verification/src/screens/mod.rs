//! The decisions behind the app's screens: what a submitted form becomes,
//! what a list shows, what a PIN check answers.

pub mod backup;
pub mod lists;
pub mod member_form;
pub mod overview;
pub mod pin;
pub mod transaction_form;
pub mod wallet_form;

pub use backup::{backup_step, BackupData, BackupEvent, BackupStep, PendingAction};
pub use lists::PortfolioTotals;
pub use member_form::{FamilyForm, FamilyFormOutcome, MemberForm, MemberFormOutcome};
pub use overview::InvestmentTotals;
pub use pin::PinCheck;
pub use transaction_form::TransactionForm;
pub use wallet_form::{CategoryForm, CategoryFormOutcome, WalletForm, WalletFormOutcome};

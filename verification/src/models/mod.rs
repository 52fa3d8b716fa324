//! The records the finance logic works on.

pub mod category;
pub mod family;
pub mod holding;
pub mod member;
pub mod transaction;
pub mod wallet;

pub use category::{default_categories, Category, NewCategory};
pub use family::{Family, NewFamily};
pub use holding::{AssetType, Holding, NewHolding};
pub use member::{Gender, Member, MemberRole, NewMember};
pub use transaction::{IncomeType, NewTransaction, Transaction, TransactionType};
pub use wallet::{Currency, NewWallet, Wallet, WalletType};

//! The record-keeping rules: which queries to run and what their results mean.

pub mod category_repo;
pub mod family_repo;
pub mod records;
pub mod schema;
pub mod settings_repo;
pub mod transaction_repo;

pub use category_repo::CategoryRepo;
pub use family_repo::FamilyRepo;
pub use records::{HoldingRepo, MemberRepo, WalletRepo};
pub use schema::pending_migrations;
pub use settings_repo::SettingsRepo;
pub use transaction_repo::{month_bounds, SqlValue, TransactionRepo, TxnFilter};

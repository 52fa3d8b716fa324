//! The finance rules: how transactions move money and positions, and the
//! reports computed from the records.

pub mod holding;
pub mod ledger;
pub mod member;
pub mod report;
pub mod transaction;

pub use holding::{HoldingService, HoldingWithPnl};
pub use member::MemberService;
pub use report::{
    ExpenseByCategoryItem, InvestmentPnlItem, MonthlySummary, NetWorth, OverspendingAlert,
    ReportService,
};
pub use transaction::{LedgerEffect, TransactionService, WalletState};

//! Family finance: the verified core of a local-first personal and family
//! finance manager (wallets, transactions, investment holdings, reports,
//! members and families, backups).

pub mod decimal;
pub mod display;
pub mod error;
pub mod models;
pub mod repository;
pub mod screens;
pub mod services;
pub mod text;

//! Life cycle of carbon credits: projects and their annual reports pass through a
//! chain of signatures; an issued report is released as an asset whose units can
//! be transferred and burned.
//!
//! The crate holds the decisions and the state. Roles, document signatures and
//! asset balances live in other services: what they answer is handed in as plain
//! values, and what has to be done there is handed back as a call to make.

pub mod primitives;
pub mod account;
pub mod standard;
pub mod required_signers;
pub mod error;
pub mod event;
pub mod annual_report;
pub mod project;
pub mod carbon_credits_passport;
pub mod burn_certificate;
pub mod offset_certificate;
pub mod file_hash;
pub mod calls;
pub mod module;

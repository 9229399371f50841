//! Lifecycle engine for wills: records that name an owner, beneficiaries with
//! proportional shares, a content reference and the conditions that gate
//! execution.

pub mod condition;
pub mod digest;
pub mod error;
pub mod laws;
pub mod principal;
pub mod registry;
pub mod store;
pub mod token;
pub mod will;

//! Verified food-stock tracking library.
//!
//! The crate models a small inventory of perishable food items: each item
//! carries a category, a storage condition, a stock date, an expiry date and
//! a quantity.  Expiry dates are inferred from a fixed shelf-life policy
//! table, raw caller input is validated into domain values, items are kept
//! in a store with exact contracts, and a reminder subsystem builds calendar
//! deep-links that degrade gracefully when no calendar credential exists.

pub mod api;
pub mod clock;
pub mod date;
pub mod errors;
pub mod handlers;
pub mod models;
pub mod policy;
pub mod reminder;
pub mod storage;
pub mod text;

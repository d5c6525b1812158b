//! Import of the account that kiro-cli is logged in with, and switching of the kiro-cli
//! login to a stored account.
//!
//! The library decides; reading files, asking services and holding the store is left to
//! the caller. [`import_run`] and [`switch_run`] tell a caller step by step what to do.
pub mod account;
pub mod clock;
pub mod import;
pub mod import_run;
pub mod json;
pub mod laws;
pub mod laws_calls;
pub mod laws_data;
pub mod laws_import;
pub mod laws_switch;
pub mod paths;
pub mod store;
pub mod switch;
pub mod switch_run;
pub mod text;
pub mod token;

//! Utilities for applications running on a metered canister host: a generic
//! error type, keyed stable storage with checked CRUD operations, paging,
//! rule-based validation, and small numeric and text helpers.

pub mod api_error;
pub mod host;
pub mod text;
pub mod units;

pub mod date_range;
pub mod governance;
pub mod log;
pub mod records;
pub mod version;

pub mod cell;
pub mod list;
pub mod storage;

pub mod codec;
pub mod guards;
pub mod ledger;
pub mod paged_response;
pub mod validation;

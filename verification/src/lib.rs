//! Builder and validator for CPA-005 fixed-width payment-interchange files.
//!
//! The crate turns a delimited payment list (a metadata block followed by
//! one row per transaction) into the three-record CPA-005 layout: a file
//! header, one detail record per payment, and a file trailer.  Every field
//! is validated against its width, charset and range rules, and the exact
//! text of each record is pinned down by spec functions.

pub mod amount;
pub mod convert;
pub mod dates;
pub mod error;
pub mod header;
pub mod payment;
pub mod rows;
pub mod text;
pub mod types;
pub mod utils;

//! Gauge values for a grant programme, computed from what three upstream
//! services answered: a ledger of transfers, a table of verification records
//! and a directory of submitted projects.
//!
//! Nothing here performs I/O. Each source is a small state machine or a plain
//! function: the caller performs the request that the library names and hands
//! the answer back as a plain value.

pub mod address;
pub mod airtable;
pub mod census;
pub mod cycle;
pub mod json;
pub mod ledger;
pub mod transfers;

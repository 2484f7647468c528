//! Command correlation and device-state reconciliation for remote lock
//! devices reached through an at-most-once publish/subscribe transport.
//!
//! All times are milliseconds on the server's clock unless a name says
//! otherwise; device ids are the 128-bit value of the device's UUID.
use vstd::prelude::*;

pub mod attribution;
pub mod commands;
pub mod devices;
pub mod engine;
pub mod payload;
pub mod registry;
pub mod requests;

verus! {

} // verus!

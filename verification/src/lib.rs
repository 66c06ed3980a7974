//! Schema for "job" definitions in a role-progression game.
//!
//! A job names which character classes may take it, where it is available,
//! which stats it trains under what constraints, and which weapon categories
//! or exact weapon identifiers it permits. The heart of the crate is the
//! typed encoding/decoding layer between the closed identifier enumerations
//! and their canonical numeric codes, together with the structural rules for
//! composite job records and name-keyed job collections.

pub mod collection;
pub mod job;

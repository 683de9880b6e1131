//! A versioned, integrity-checked blob store for an account-based host.
//!
//! Records live at addresses derived from a domain tag, the owner's key, an
//! identifier and a version. Every write resizes its record to fit its
//! content exactly, with the deposit moved between the owner and the record,
//! and keeps the metadata's size and checksum in step with the payload.

pub mod address;
pub mod capacity;
pub mod error;
pub mod instructions;
pub mod rules;
pub mod state;

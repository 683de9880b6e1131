//! The validation rules shared by the instructions.
use vstd::prelude::*;
use crate::state::{Account, VersionAccount};

verus! {

/// An expiry is accepted when it is absent, zero (no expiry), or strictly
/// after `now`.
pub open spec fn expiry_accepted(expires_at_ts: Option<u64>, now: u64) -> bool {
    match expires_at_ts {
        None => true,
        Some(t) => t == 0 || t > now,
    }
}

/// Checks an expiry against the current time.
pub fn validate_expiry(expires_at_ts: Option<u64>, now: u64) -> (r: bool)
    ensures
        r == expiry_accepted(expires_at_ts, now),
        expires_at_ts == Some(0u64) ==> r,
        (expires_at_ts matches Some(t) && 0 < t <= now) ==> !r,
        (expires_at_ts matches Some(t) && t > now) ==> r,
{
    match expires_at_ts {
        None => true,
        Some(t) => t == 0 || t > now,
    }
}

/// The expiry stored for a requested one: the value as given, zero if absent.
pub open spec fn stored_expiry(expires_at_ts: Option<u64>) -> u64 {
    match expires_at_ts {
        Some(t) => t,
        None => 0,
    }
}

/// The highest version created so far: zero while the counter is not live.
pub open spec fn current_version(counter: Account<VersionAccount>) -> int {
    match counter.data {
        Some(v) => v.current_version as int,
        None => 0,
    }
}

/// Reads the counter's current version: zero while it is not live.
pub fn counter_value(counter: &Account<VersionAccount>) -> (r: u64)
    ensures
        r == current_version(*counter),
{
    match &counter.data {
        Some(v) => v.current_version,
        None => 0,
    }
}

/// A new version is accepted exactly when it is one past the current one.
pub open spec fn version_accepted(current: int, proposed: u64) -> bool {
    proposed as int == current + 1
}

/// Checks a proposed version against the counter's current value.
pub fn validate_version(current: u64, proposed: u64) -> (r: bool)
    ensures
        r == version_accepted(current as int, proposed),
{
    current < u64::MAX && proposed == current + 1
}

/// The bytes of an optional envelope field, empty where it is absent.
pub open spec fn field_bytes(field: Option<Vec<u8>>) -> Seq<u8> {
    match field {
        Some(v) => v@,
        None => Seq::empty(),
    }
}

/// Turns an optional envelope field into the stored, possibly empty, bytes.
pub fn envelope_field(field: Option<Vec<u8>>) -> (r: Vec<u8>)
    ensures
        r@ == field_bytes(field),
{
    match field {
        Some(v) => v,
        None => Vec::new(),
    }
}

} // verus!

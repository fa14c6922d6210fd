//! Miscellaneous helpers.
use vstd::prelude::*;

use std::time::SystemTime;

verus! {

#[verifier::external_type_specification]
#[verifier::external_body]
pub struct ExSystemTime(SystemTime);

/// Relies on `SystemTime::elapsed` and `Duration::as_secs`: the whole seconds
/// from `time` to now, or `None` when `time` is later than now. The clock
/// decides, so nothing more is stated.
#[verifier::external_body]
fn elapsed_secs(time: &SystemTime) -> (r: Option<u64>) {
    time.elapsed().ok().map(|d| d.as_secs())
}

/// The seconds from `time` to now, cut to their low 32 bits; 0 when `time` is
/// later than now.
pub fn secs_since(time: SystemTime) -> u32 {
    match elapsed_secs(&time) {
        Some(s) => #[verifier::truncate] (s as u32),
        None => 0,
    }
}

} // verus!

//! Trusted bridges to the process clock, the random-number generator and the
//! UUID generator.  Each wrapper makes one outside call and promises only
//! what that call's documentation gives for every outcome.

use rand::Rng;
use vstd::prelude::*;

verus! {

/// Relies on std::time::SystemTime::now for the wall clock: seconds since
/// the Unix epoch, or zero when the clock reads before the epoch.  Nothing
/// is promised of the value, which depends on the machine's clock.
#[verifier::external_body]
pub fn now_unix_seconds() -> u64 {
    std::time::SystemTime::now()
        .duration_since(std::time::UNIX_EPOCH)
        .unwrap_or_default()
        .as_secs()
}

/// Relies on std::time::SystemTime::now for the wall clock: milliseconds
/// since the Unix epoch, truncated to 64 bits, or zero when the clock reads
/// before the epoch.  Nothing is promised of the value.
#[verifier::external_body]
pub fn now_unix_millis() -> u64 {
    std::time::SystemTime::now()
        .duration_since(std::time::UNIX_EPOCH)
        .unwrap_or_default()
        .as_millis() as u64
}

/// Relies on uuid::Uuid::new_v4 and its Display form: a random version-4
/// UUID rendered as the 36-character hyphenated text form.
#[verifier::external_body]
pub fn new_uuid_string() -> (r: String)
    ensures
        r@.len() == 36,
{
    uuid::Uuid::new_v4().to_string()
}

/// Relies on rand::Rng::gen_range over the thread-local generator: a
/// uniformly random value in the half-open range.  The range must not be
/// empty, since gen_range panics on an empty range.
#[verifier::external_body]
pub fn random_u32_in(lo: u32, hi: u32) -> (r: u32)
    requires
        lo < hi,
    ensures
        lo <= r < hi,
{
    rand::thread_rng().gen_range(lo..hi)
}

} // verus!

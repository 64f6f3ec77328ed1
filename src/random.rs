//! Random draws for the keep-alive cycle and the client identity.

use crate::request::is_header_value;
use vstd::prelude::*;

verus! {

/// Relies on fakeit::misc::random: a value in `[min, max)`. It draws
/// `randn(max - min) + min`, and `randn(0)` panics, hence `min < max`.
#[verifier::external_body]
fn random_in(min: u64, max: u64) -> (r: u64)
    requires
        min < max,
    ensures
        min <= r < max,
{
    fakeit::misc::random::<u64>(min, max)
}

/// Relies on fakeit::user_agent::random_platform: a platform token such as
/// `X11; Linux x86_64`, formatted from fixed words and integers, none of which
/// holds a carriage return or a line feed; every token starts with a fixed,
/// non-empty word.
#[verifier::external_body]
pub(crate) fn random_platform() -> (r: Vec<u8>)
    ensures
        r@.len() > 0,
        is_header_value(r@),
{
    fakeit::user_agent::random_platform().into_bytes()
}

/// A byte drawn over its whole range, `0` to `255`.
pub fn random_byte() -> (r: u8) {
    let v = random_in(0, 256);
    v as u8
}

/// A number of seconds drawn from `[min, max]`, both ends included.
pub fn random_secs_between(min: u64, max: u64) -> (r: u64)
    requires
        min <= max < u64::MAX,
    ensures
        min <= r <= max,
{
    random_in(min, max + 1)
}

} // verus!

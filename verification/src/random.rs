//! Trusted wrappers around the process's randomness sources.
//!
//! Nothing is assumed about which values come back, only about their shape:
//! the verified code is correct for every outcome.

use vstd::prelude::*;
use rand::Rng;

verus! {

/// A character allowed in an opaque identifier: ASCII alphanumeric.
pub open spec fn is_token_char(c: char) -> bool {
    ('0' <= c && c <= '9') || ('a' <= c && c <= 'z') || ('A' <= c && c <= 'Z')
}

/// A lower-case hexadecimal character.
pub open spec fn is_lower_hex_char(c: char) -> bool {
    ('0' <= c && c <= '9') || ('a' <= c && c <= 'f')
}

/// Relies on rand's thread_rng sampled through the Alphanumeric
/// distribution: every sample is one ASCII alphanumeric character, and
/// exactly 30 are taken.
#[verifier::external_body]
pub fn random_component_id() -> (r: String)
    ensures
        r@.len() == 30,
        forall|i: int| 0 <= i < r@.len() ==> is_token_char(#[trigger] r@[i]),
{
    rand::thread_rng()
        .sample_iter(&rand::distributions::Alphanumeric)
        .take(30)
        .map(char::from)
        .collect()
}

/// Relies on rand's gen_range over an inclusive range: the result lies
/// within the bounds. gen_range panics on an empty range, hence the
/// requires.
#[verifier::external_body]
pub(crate) fn random_in_range(lo: u16, hi: u16) -> (r: u16)
    requires
        lo <= hi,
    ensures
        lo <= r && r <= hi,
{
    rand::thread_rng().gen_range(lo..=hi)
}

/// Relies on uuid's new_v4 rendered with the simple formatter: 32
/// hexadecimal characters in lower case.
#[verifier::external_body]
pub(crate) fn random_payment_code() -> (r: String)
    ensures
        r@.len() == 32,
        forall|i: int| 0 <= i < r@.len() ==> is_lower_hex_char(#[trigger] r@[i]),
{
    uuid::Uuid::new_v4().simple().to_string()
}

} // verus!

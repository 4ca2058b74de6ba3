//! Numbers out of JSON configuration values.
//!
//! A host hands configuration over as `serde_json` values. The one thing the synapse asks
//! of such a value is the number in it, and that question goes to `serde_json` itself.
use vstd::prelude::*;

verus! {

/// `serde_json::Value`, carried through as it is: nothing of its content is visible here.
#[verifier::external_type_specification]
#[verifier::external_body]
pub struct ExValue(serde_json::Value);

/// What `serde_json::Value::as_f64` answers for a value, with the number given as its
/// encoding: the number where `serde_json` finds one in the value, `None` where it does
/// not.
pub uninterp spec fn json_number_bits(value: serde_json::Value) -> Option<u64>;

/// Calls `serde_json::Value::as_f64` and hands the number back as its 64 bits.
///
/// Trusted, and all that is trusted here: the answer depends on the value alone, so it
/// can go by the name `json_number_bits`. Which values are numbers, and which number each
/// holds, is left to `serde_json`.
#[verifier::external_body]
pub(crate) fn number_bits(value: &serde_json::Value) -> (bits: Option<u64>)
    ensures
        bits == json_number_bits(*value),
{
    match value.as_f64() {
        Some(number) => Some(number.to_bits()),
        None => None,
    }
}

} // verus!

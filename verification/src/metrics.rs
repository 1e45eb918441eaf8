//! Free-standing metrics: each is encoded and passed on, none is kept.

use crate::agent::{checked, first_nul_error, outcome, AgentCall, Call};
use crate::native_text::{EncodeError, NativeText};
use vstd::prelude::*;

verus! {

/// The call that `set_gauge` gives.
pub open spec fn gauge_call(key: Seq<char>, value_bits: u32) -> Result<Call, EncodeError> {
    checked(seq![key], Call::SetGauge { key, value_bits })
}

/// The call that `increment_counter` gives.
pub open spec fn counter_call(key: Seq<char>, count: i32) -> Result<Call, EncodeError> {
    checked(seq![key], Call::IncrementCounter { key, count })
}

/// The call that `add_distribution_value` gives.
pub open spec fn distribution_call(key: Seq<char>, value_bits: u32) -> Result<Call, EncodeError> {
    checked(seq![key], Call::AddDistributionValue { key, value_bits })
}

/// Sets a gauge. The value is a 32-bit float, given by its bit pattern and
/// passed on untouched.
pub fn set_gauge(key: &str, value_bits: u32) -> (r: Result<AgentCall, EncodeError>)
    ensures
        outcome(r) == gauge_call(key@, value_bits),
{
    proof {
        reveal_with_fuel(first_nul_error, 2);
    }
    match NativeText::encode(key) {
        Ok(key) => Ok(AgentCall::SetGauge { key, value_bits }),
        Err(e) => Err(e),
    }
}

/// Adds `count` to a counter.
pub fn increment_counter(key: &str, count: i32) -> (r: Result<AgentCall, EncodeError>)
    ensures
        outcome(r) == counter_call(key@, count),
{
    proof {
        reveal_with_fuel(first_nul_error, 2);
    }
    match NativeText::encode(key) {
        Ok(key) => Ok(AgentCall::IncrementCounter { key, count }),
        Err(e) => Err(e),
    }
}

/// Adds a sample to a distribution. The value is a 32-bit float, given by
/// its bit pattern and passed on untouched.
pub fn add_distribution_value(key: &str, value_bits: u32) -> (r: Result<AgentCall, EncodeError>)
    ensures
        outcome(r) == distribution_call(key@, value_bits),
{
    proof {
        reveal_with_fuel(first_nul_error, 2);
    }
    match NativeText::encode(key) {
        Ok(key) => Ok(AgentCall::AddDistributionValue { key, value_bits }),
        Err(e) => Err(e),
    }
}

} // verus!

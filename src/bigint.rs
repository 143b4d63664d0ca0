//! Big integers that fit an `i64`.

use vstd::prelude::*;
use crate::runtime::{allocated, Env, Slot, Value};

verus! {

/// A new big integer holding `value`, in a runtime with no exception pending.
pub fn new_bigint(env: &mut Env, value: i64) -> (r: Value)
    requires
        !old(env).pending(),
    ensures
        allocated(*old(env), *final(env), Ok(r)),
        final(env).slot(r) == Slot::BigInt(value),
{
    match env.create_bigint_int64(value) {
        Ok(v) => v,
        Err(_) => Value { index: 0 },
    }
}

/// The value of the big integer `p`.
pub fn value_i64(env: &Env, p: Value) -> (r: i64)
    requires
        env.read_bigint(p) is Ok,
    ensures
        r == env.read_bigint(p)->Ok_0,
{
    match env.get_value_bigint_int64(p) {
        Ok((value, _lossless)) => value,
        Err(_) => 0,
    }
}

} // verus!

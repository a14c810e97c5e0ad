use vstd::prelude::*;
use crate::wire::{DecodeError, WireValue};

verus! {

/// An unsigned 64-bit value read bit for bit as a signed one.
pub open spec fn reinterpret_u64(x: u64) -> int {
    if x <= i64::MAX {
        x as int
    } else {
        x as int - 0x1_0000_0000_0000_0000
    }
}

/// The integer a nullable 64-bit field decodes to.
pub open spec fn decoded_i64(v: WireValue) -> int {
    match v {
        WireValue::Signed(x) => x as int,
        WireValue::Unsigned(x) => reinterpret_u64(x),
        _ => 0,
    }
}

/// An unsigned 64-bit value reinterpreted as signed, wrapping above
/// `i64::MAX`.
fn wrap_u64(x: u64) -> (r: i64)
    ensures
        r as int == reinterpret_u64(x),
{
    if x <= i64::MAX as u64 {
        x as i64
    } else {
        let below: u64 = x - 0x8000_0000_0000_0000u64;
        let r: i64 = i64::MIN + below as i64;
        r
    }
}

/// Strict decode: an integer of any width; unsigned values above `i64::MAX`
/// wrap rather than fail.
pub fn strict(v: &WireValue) -> (r: Result<i64, DecodeError>)
    ensures
        match *v {
            WireValue::Signed(x) => r == Ok::<i64, DecodeError>(x),
            WireValue::Unsigned(x) => r is Ok && r->Ok_0 as int == reinterpret_u64(x),
            WireValue::Absent | WireValue::Null => r == Err::<i64, DecodeError>(DecodeError::Missing),
            _ => r == Err::<i64, DecodeError>(DecodeError::InvalidType),
        },
{
    match v {
        WireValue::Signed(x) => Ok(*x),
        WireValue::Unsigned(x) => Ok(wrap_u64(*x)),
        WireValue::Absent | WireValue::Null => Err(DecodeError::Missing),
        _ => Err(DecodeError::InvalidType),
    }
}

/// Lenient decode of a nullable 64-bit integer field: a missing field or a
/// value of another kind becomes zero.
pub fn deserialize(v: &WireValue) -> (r: i64)
    ensures
        r as int == decoded_i64(*v),
        v.is_missing() ==> r == 0,
{
    match strict(v) {
        Ok(x) => x,
        Err(_) => 0,
    }
}

} // verus!

use vstd::prelude::*;
use crate::wire::{DecodeError, WireValue};

verus! {

/// Whether a mathematical integer is a value of `i32`.
pub open spec fn fits_i32(x: int) -> bool {
    i32::MIN <= x <= i32::MAX
}

/// The integer a nullable 32-bit field decodes to: the wire integer when it
/// fits, else zero.
pub open spec fn decoded_i32(v: WireValue) -> i32 {
    match v {
        WireValue::Signed(x) => if fits_i32(x as int) { x as i32 } else { 0 },
        WireValue::Unsigned(x) => if fits_i32(x as int) { x as i32 } else { 0 },
        _ => 0,
    }
}

/// Strict decode: an integer of any width, which must lie in `i32`'s range.
pub fn strict(v: &WireValue) -> (r: Result<i32, DecodeError>)
    ensures
        match *v {
            WireValue::Signed(x) => if fits_i32(x as int) {
                r is Ok && r->Ok_0 as int == x as int
            } else {
                r == Err::<i32, DecodeError>(DecodeError::OutOfRange)
            },
            WireValue::Unsigned(x) => if fits_i32(x as int) {
                r is Ok && r->Ok_0 as int == x as int
            } else {
                r == Err::<i32, DecodeError>(DecodeError::OutOfRange)
            },
            WireValue::Absent | WireValue::Null => r == Err::<i32, DecodeError>(DecodeError::Missing),
            _ => r == Err::<i32, DecodeError>(DecodeError::InvalidType),
        },
{
    match v {
        WireValue::Signed(x) => {
            if i32::MIN as i64 <= *x && *x <= i32::MAX as i64 {
                Ok(*x as i32)
            } else {
                Err(DecodeError::OutOfRange)
            }
        },
        WireValue::Unsigned(x) => {
            if *x <= i32::MAX as u64 {
                Ok(*x as i32)
            } else {
                Err(DecodeError::OutOfRange)
            }
        },
        WireValue::Absent | WireValue::Null => Err(DecodeError::Missing),
        _ => Err(DecodeError::InvalidType),
    }
}

/// Lenient decode of a nullable 32-bit integer field: a missing field, a
/// value of another kind or one out of range becomes zero.
pub fn deserialize(v: &WireValue) -> (r: i32)
    ensures
        r == decoded_i32(*v),
        v.is_missing() ==> r == 0,
{
    match strict(v) {
        Ok(x) => x,
        Err(_) => 0,
    }
}

} // verus!

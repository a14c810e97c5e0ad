use vstd::prelude::*;
use crate::wire::{DecodeError, WireValue};

verus! {

/// The string a nullable string field decodes to: its text, or empty.
pub open spec fn decoded_string(v: WireValue) -> Seq<char> {
    match v {
        WireValue::Text(s) => s@,
        _ => Seq::empty(),
    }
}

/// Strict decode: only text is accepted.
pub fn strict(v: &WireValue) -> (r: Result<String, DecodeError>)
    ensures
        match *v {
            WireValue::Text(s) => r is Ok && r->Ok_0@ == s@,
            WireValue::Absent | WireValue::Null => r == Err::<String, DecodeError>(DecodeError::Missing),
            _ => r == Err::<String, DecodeError>(DecodeError::InvalidType),
        },
{
    match v {
        WireValue::Text(s) => Ok(s.clone()),
        WireValue::Absent | WireValue::Null => Err(DecodeError::Missing),
        _ => Err(DecodeError::InvalidType),
    }
}

/// Lenient decode of a nullable string field: any failure of the strict
/// decode becomes the empty string.
pub fn deserialize(v: &WireValue) -> (r: String)
    ensures
        r@ == decoded_string(*v),
        v.is_missing() ==> r@.len() == 0,
{
    match strict(v) {
        Ok(s) => s,
        Err(_) => String::new(),
    }
}

} // verus!

use vstd::prelude::*;
use crate::wire::WireValue;
use crate::deserialize_null_string::decoded_string;
use crate::deserialize_null_boolean::decoded_bool;
use crate::deserialize_null_i32::decoded_i32;
use crate::deserialize_null_i64::decoded_i64;

verus! {

/// Whether a 32-bit integer is its type's default, so that an
/// "omit if default" field leaves it out.
pub fn zero_i32(num: &i32) -> (r: bool)
    ensures
        r == (*num == 0),
{
    *num == 0
}

/// Whether a 64-bit integer is its type's default.
pub fn zero_i64(num: &i64) -> (r: bool)
    ensures
        r == (*num == 0),
{
    *num == 0
}

/// How a boolean is written under the "omit if default" policy.
pub open spec fn encoded_bool(b: bool) -> WireValue {
    if b { WireValue::Bool(true) } else { WireValue::Absent }
}

/// How a 32-bit integer is written under the "omit if default" policy.
pub open spec fn encoded_i32(x: i32) -> WireValue {
    if x == 0 { WireValue::Absent } else { WireValue::Signed(x as i64) }
}

/// How a 64-bit integer is written under the "omit if default" policy.
pub open spec fn encoded_i64(x: i64) -> WireValue {
    if x == 0 { WireValue::Absent } else { WireValue::Signed(x) }
}

/// Writes a string field, leaving it out when it is empty.
pub fn encode_string(s: String) -> (r: WireValue)
    ensures
        (r is Absent) == (s@.len() == 0),
        r is Absent || r is Text,
        r is Text ==> r->Text_0@ == s@,
{
    if s.as_str().is_empty() {
        WireValue::Absent
    } else {
        WireValue::Text(s)
    }
}

/// Writes a boolean field, leaving it out when it is `false`.
pub fn encode_bool(b: bool) -> (r: WireValue)
    ensures
        r == encoded_bool(b),
{
    if b { WireValue::Bool(true) } else { WireValue::Absent }
}

/// Writes a 32-bit integer field, leaving it out when it is zero.
pub fn encode_i32(x: i32) -> (r: WireValue)
    ensures
        r == encoded_i32(x),
{
    if zero_i32(&x) { WireValue::Absent } else { WireValue::Signed(x as i64) }
}

/// Writes a 64-bit integer field, leaving it out when it is zero.
pub fn encode_i64(x: i64) -> (r: WireValue)
    ensures
        r == encoded_i64(x),
{
    if zero_i64(&x) { WireValue::Absent } else { WireValue::Signed(x) }
}

/// A missing field decodes to each primitive's default; written back under
/// the "omit if default" policy that default leaves the field out, and the
/// absent field decodes to the same default again.
pub proof fn lemma_default_round_trip(v: WireValue)
    requires
        v.is_missing(),
    ensures
        decoded_string(v).len() == 0,
        decoded_string(WireValue::Absent) == decoded_string(v),
        encoded_bool(decoded_bool(v)) == WireValue::Absent,
        decoded_bool(encoded_bool(decoded_bool(v))) == decoded_bool(v),
        encoded_i32(decoded_i32(v)) == WireValue::Absent,
        decoded_i32(encoded_i32(decoded_i32(v))) == decoded_i32(v),
        encoded_i64(decoded_i64(v) as i64) == WireValue::Absent,
        decoded_i64(encoded_i64(decoded_i64(v) as i64)) == decoded_i64(v),
{
}

} // verus!

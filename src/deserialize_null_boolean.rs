use vstd::prelude::*;
use crate::wire::{DecodeError, WireValue};

verus! {

/// The boolean that a text spells: exactly `true` or exactly `false`, with no
/// other case, padding or numeric form.
pub open spec fn bool_text(s: Seq<char>) -> Option<bool> {
    if s == "true"@ {
        Some(true)
    } else if s == "false"@ {
        Some(false)
    } else {
        None
    }
}

/// The boolean a nullable boolean field decodes to.
pub open spec fn decoded_bool(v: WireValue) -> bool {
    match v {
        WireValue::Bool(b) => b,
        WireValue::Text(s) => bool_text(s@) == Some(true),
        _ => false,
    }
}

/// Reads the textual form of a boolean, as `bool`'s `FromStr` does.
pub fn parse_bool_text(s: &str) -> (r: Option<bool>)
    ensures
        r == bool_text(s@),
{
    proof {
        reveal_strlit("true");
        reveal_strlit("false");
    }
    let n = s.unicode_len();
    if n == 4 && s.get_char(0) == 't' && s.get_char(1) == 'r' && s.get_char(2) == 'u'
        && s.get_char(3) == 'e' {
        assert(s@ =~= "true"@);
        Some(true)
    } else if n == 5 && s.get_char(0) == 'f' && s.get_char(1) == 'a' && s.get_char(2) == 'l'
        && s.get_char(3) == 's' && s.get_char(4) == 'e' {
        assert(s@ =~= "false"@);
        Some(false)
    } else {
        None
    }
}

/// Strict decode: a native boolean, or text that spells one.
pub fn strict(v: &WireValue) -> (r: Result<bool, DecodeError>)
    ensures
        match *v {
            WireValue::Bool(b) => r == Ok::<bool, DecodeError>(b),
            WireValue::Text(s) => match bool_text(s@) {
                Some(b) => r == Ok::<bool, DecodeError>(b),
                None => r == Err::<bool, DecodeError>(DecodeError::InvalidValue),
            },
            WireValue::Absent | WireValue::Null => r == Err::<bool, DecodeError>(DecodeError::Missing),
            _ => r == Err::<bool, DecodeError>(DecodeError::InvalidType),
        },
{
    match v {
        WireValue::Bool(b) => Ok(*b),
        WireValue::Text(s) => match parse_bool_text(s.as_str()) {
            Some(b) => Ok(b),
            None => Err(DecodeError::InvalidValue),
        },
        WireValue::Absent | WireValue::Null => Err(DecodeError::Missing),
        _ => Err(DecodeError::InvalidType),
    }
}

/// Lenient decode of a nullable boolean field: any failure of the strict
/// decode becomes `false`.
pub fn deserialize(v: &WireValue) -> (r: bool)
    ensures
        r == decoded_bool(*v),
        v.is_missing() ==> !r,
{
    match strict(v) {
        Ok(b) => b,
        Err(_) => false,
    }
}

} // verus!

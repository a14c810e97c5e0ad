use vstd::prelude::*;

verus! {

/// One JSON field as a parser hands it over, classified by kind.
pub enum WireValue {
    /// The field is not present in the object.
    Absent,
    /// The field is present with an explicit `null`.
    Null,
    Bool(bool),
    Text(String),
    /// A signed integer of any width from 8 to 64 bits.
    Signed(i64),
    /// An unsigned integer; JSON parsers hand non-negative numbers over this way.
    Unsigned(u64),
    /// A number with a fractional part or an exponent.
    Fractional,
    /// An array or an object.
    Compound,
}

/// Why a strict decode rejected a field.
#[derive(PartialEq, Eq, Structural, Debug, Clone, Copy)]
pub enum DecodeError {
    /// The field was absent or null.
    Missing,
    /// The field holds a kind of value that the target type does not take.
    InvalidType,
    /// The field is text that does not spell a value of the target type.
    InvalidValue,
    /// The field is a number outside the target type's range.
    OutOfRange,
}

impl WireValue {
    /// Whether the field carries no value at all.
    pub open spec fn is_missing(self) -> bool {
        self is Absent || self is Null
    }
}

} // verus!

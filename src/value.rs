use vstd::prelude::*;

verus! {

/// A value handed to a variable, tagged with the member that is meaningful.
///
/// `Float` holds the IEEE-754 binary64 bit pattern of the number, so that the
/// value model itself never performs floating-point arithmetic.
#[derive(Clone, Copy, Debug, PartialEq, Eq, Structural)]
pub enum VarValue {
    Boolean(bool),
    SignedInt(i128),
    UnsignedInt(u128),
    Float(u64),
}

/// Describes how a numeric variable's value is represented.
#[derive(Clone, Copy, Debug, PartialEq, Eq, Structural)]
pub struct NumericFormat {
    pub integer: bool,
    pub signed: bool,
    pub size: u8,
}

/// The member of a carrier that a numeric variable of format `f` accepts.
pub open spec fn carries_format(v: VarValue, f: NumericFormat) -> bool {
    match v {
        VarValue::SignedInt(_) => f.integer && f.signed,
        VarValue::UnsignedInt(_) => f.integer && !f.signed,
        VarValue::Float(_) => !f.integer,
        VarValue::Boolean(_) => false,
    }
}

/// Whether `v` carries the member that format `f` accepts.
pub fn fits_format(v: VarValue, f: NumericFormat) -> (r: bool)
    ensures
        r == carries_format(v, f),
{
    match v {
        VarValue::SignedInt(_) => f.integer && f.signed,
        VarValue::UnsignedInt(_) => f.integer && !f.signed,
        VarValue::Float(_) => !f.integer,
        VarValue::Boolean(_) => false,
    }
}

/// The zero of the member that format `f` makes authoritative.
pub open spec fn zero_of(f: NumericFormat) -> VarValue {
    if !f.integer {
        VarValue::Float(0)
    } else if f.signed {
        VarValue::SignedInt(0)
    } else {
        VarValue::UnsignedInt(0)
    }
}

pub fn zero_value(f: NumericFormat) -> (r: VarValue)
    ensures
        r == zero_of(f),
        carries_format(r, f),
{
    if !f.integer {
        VarValue::Float(0)
    } else if f.signed {
        VarValue::SignedInt(0)
    } else {
        VarValue::UnsignedInt(0)
    }
}

} // verus!

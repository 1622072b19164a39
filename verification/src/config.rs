//! Typed readings of IBus configuration values.
use vstd::prelude::*;

use crate::error::Error;
use crate::gvalue::GValue;

verus! {

/// A configuration value read as a string: only a string value is one.
pub fn config_string(value: &GValue) -> (r: Result<String, Error>)
    ensures
        match value {
            GValue::Str(s) => r matches Ok(t) && t@ == s@,
            _ => r matches Err(Error::InvalidArgument(m)) && m@ == "Value is not a string"@,
        },
{
    match value {
        GValue::Str(s) => Ok(s.clone()),
        _ => Err(Error::InvalidArgument("Value is not a string".to_owned())),
    }
}

/// A configuration value read as an `i32`: a signed 32-bit value as it
/// stands, an unsigned one reinterpreted (wrapping above `i32::MAX`).
pub fn config_i32(value: &GValue) -> (r: Result<i32, Error>)
    ensures
        match value {
            GValue::I32(n) => r == Ok::<i32, Error>(*n),
            GValue::U32(n) => r == Ok::<i32, Error>(*n as i32),
            _ => r matches Err(Error::InvalidArgument(m)) && m@ == "Value is not an int32"@,
        },
{
    match value {
        GValue::I32(n) => Ok(*n),
        GValue::U32(n) => Ok(*n as i32),
        _ => Err(Error::InvalidArgument("Value is not an int32".to_owned())),
    }
}

/// A configuration value read as a `bool`: only a boolean value is one.
pub fn config_bool(value: &GValue) -> (r: Result<bool, Error>)
    ensures
        match value {
            GValue::Bool(b) => r == Ok::<bool, Error>(*b),
            _ => r matches Err(Error::InvalidArgument(m)) && m@ == "Value is not a bool"@,
        },
{
    match value {
        GValue::Bool(b) => Ok(*b),
        _ => Err(Error::InvalidArgument("Value is not a bool".to_owned())),
    }
}

} // verus!

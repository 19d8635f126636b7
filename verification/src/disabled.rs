//! The operations where the facility is switched off: nothing is registered and
//! nothing can be read or overridden by name.

use crate::value::{GetError, Metadata, SetError, SetErrorModel};
use vstd::prelude::*;

verus! {

/// Whether values can be overridden at run time.
pub const ENABLED: bool = false;

/// The empty listing.
pub fn metadata() -> (m: &'static [Metadata])
    ensures
        m@.len() == 0,
{
    &[]
}

/// Fails for every name.
pub fn get(_name: &str) -> (r: Result<String, GetError>)
    ensures
        r matches Err(e) && e == GetError::Disabled,
{
    Err(GetError::Disabled)
}

/// Fails for every name and text.
pub fn set(_name: &str, _val: &str) -> (r: Result<(), SetError>)
    ensures
        r matches Err(e) && e@ == SetErrorModel::Disabled,
{
    Err(SetError::Disabled)
}

} // verus!

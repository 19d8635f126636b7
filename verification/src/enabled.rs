//! The operations on a built registry, with values in their plain textual form.

use crate::registry::{consistent, describes, get_model, set_model, set_result, Registry};
use crate::value::{
    get_result_model, lemma_parsed_tag, set_result_model, GetError, Metadata, SetError, Value,
};
use vstd::prelude::*;

verus! {

/// Whether values can be overridden at run time.
pub const ENABLED: bool = true;

/// The metadata listing: one entry for each declared value, in registration order,
/// whatever the number of its aliases. No two entries share a unique name.
pub fn metadata(reg: &Registry) -> (m: &[Metadata])
    ensures
        m@.len() == reg@.len(),
        forall|i: int| 0 <= i < reg@.len() ==> describes(#[trigger] m@[i], reg@[i]),
        consistent(reg@),
{
    reg.metadata()
}

/// The current value, as plain text, of the field that `name` resolves to: the
/// field whose unique name it is, or else the last one that lists it as an alias.
/// The registry it reads is consistent, as every built registry is.
pub fn get(reg: &Registry, name: &str) -> (r: Result<String, GetError>)
    ensures
        get_result_model(r) == get_model(reg@, name@),
        consistent(reg@),
{
    match reg.lookup(name) {
        Some(i) => Ok(reg.field(i).get_string()),
        None => Err(GetError::NoSuchField),
    }
}

/// Reads the plain text `val` as a value of the type of the field that `name`
/// resolves to, and makes it that field's current value. A name that resolves to
/// nothing, or text that denotes no such value, changes nothing. The registry is
/// consistent before and after.
pub fn set(reg: &mut Registry, name: &str, val: &str) -> (r: Result<(), SetError>)
    ensures
        final(reg)@ == set_model(old(reg)@, name@, val@),
        set_result_model(r) == set_result(old(reg)@, name@, val@),
        consistent(old(reg)@),
        consistent(final(reg)@),
{
    match reg.lookup(name) {
        None => Err(SetError::NoSuchField),
        Some(i) => {
            let tag = reg.field(i).type_id();
            let outcome = Value::from_text(tag, val);
            proof {
                lemma_parsed_tag(tag, val@);
            }
            match reg.publish(i, outcome) {
                Ok(_) => Ok(()),
                Err(d) => Err(SetError::FromStr(d)),
            }
        },
    }
}

} // verus!

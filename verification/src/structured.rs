//! The structured notation of values: reading a value from text written in RON.
//!
//! The notation itself belongs to the `ron` crate. What it makes of a given text
//! is named here and taken as given.

use crate::registry::{consistent, set_structured_model, set_structured_result, Registry};
use crate::value::{lemma_parsed_tag, set_result_model, SetError, Value};
use vstd::prelude::*;

verus! {

/// What `ron` reads from `s` where a `bool` is expected: the value, or the message
/// of its error.
pub uninterp spec fn ron_bool(s: Seq<char>) -> Result<bool, Seq<char>>;

/// What `ron` reads from `s` where a `u32` is expected: the value, or the message
/// of its error.
pub uninterp spec fn ron_u32(s: Seq<char>) -> Result<u32, Seq<char>>;

/// What `ron` reads from `s` where an `i64` is expected: the value, or the message
/// of its error.
pub uninterp spec fn ron_i64(s: Seq<char>) -> Result<i64, Seq<char>>;

/// What `ron` reads from `s` where a string is expected: its characters, or the
/// message of its error.
pub uninterp spec fn ron_string(s: Seq<char>) -> Result<Seq<char>, Seq<char>>;

/// Makes a `ron::Deserializer` over `s` and has serde read a `bool` from it. Text
/// that follows the value is not looked at. The outcome depends on `s` alone.
#[verifier::external_body]
pub(crate) fn bool_from_ron(s: &str) -> (r: Result<bool, String>)
    ensures
        match r {
            Ok(b) => ron_bool(s@) == Ok::<bool, Seq<char>>(b),
            Err(e) => ron_bool(s@) == Err::<bool, Seq<char>>(e@),
        },
{
    match ron::Deserializer::from_str(s) {
        Ok(mut de) => match <bool as serde::Deserialize>::deserialize(&mut de) {
            Ok(v) => Ok(v),
            Err(e) => Err(e.to_string()),
        },
        Err(e) => Err(e.to_string()),
    }
}

/// Makes a `ron::Deserializer` over `s` and has serde read a `u32` from it. Text
/// that follows the value is not looked at. The outcome depends on `s` alone.
#[verifier::external_body]
pub(crate) fn u32_from_ron(s: &str) -> (r: Result<u32, String>)
    ensures
        match r {
            Ok(n) => ron_u32(s@) == Ok::<u32, Seq<char>>(n),
            Err(e) => ron_u32(s@) == Err::<u32, Seq<char>>(e@),
        },
{
    match ron::Deserializer::from_str(s) {
        Ok(mut de) => match <u32 as serde::Deserialize>::deserialize(&mut de) {
            Ok(v) => Ok(v),
            Err(e) => Err(e.to_string()),
        },
        Err(e) => Err(e.to_string()),
    }
}

/// Makes a `ron::Deserializer` over `s` and has serde read an `i64` from it. Text
/// that follows the value is not looked at. The outcome depends on `s` alone.
#[verifier::external_body]
pub(crate) fn i64_from_ron(s: &str) -> (r: Result<i64, String>)
    ensures
        match r {
            Ok(n) => ron_i64(s@) == Ok::<i64, Seq<char>>(n),
            Err(e) => ron_i64(s@) == Err::<i64, Seq<char>>(e@),
        },
{
    match ron::Deserializer::from_str(s) {
        Ok(mut de) => match <i64 as serde::Deserialize>::deserialize(&mut de) {
            Ok(v) => Ok(v),
            Err(e) => Err(e.to_string()),
        },
        Err(e) => Err(e.to_string()),
    }
}

/// Makes a `ron::Deserializer` over `s` and has serde read a `String` from it. Text
/// that follows the value is not looked at. The outcome depends on `s` alone.
#[verifier::external_body]
pub(crate) fn string_from_ron(s: &str) -> (r: Result<String, String>)
    ensures
        match r {
            Ok(v) => ron_string(s@) == Ok::<Seq<char>, Seq<char>>(v@),
            Err(e) => ron_string(s@) == Err::<Seq<char>, Seq<char>>(e@),
        },
{
    match ron::Deserializer::from_str(s) {
        Ok(mut de) => match <String as serde::Deserialize>::deserialize(&mut de) {
            Ok(v) => Ok(v),
            Err(e) => Err(e.to_string()),
        },
        Err(e) => Err(e.to_string()),
    }
}

/// Reads `val`, written in the structured notation, as a value of the type of the
/// field that `name` resolves to, and makes it that field's current value. A name
/// that resolves to nothing, or text that denotes no such value, changes nothing.
pub fn set(reg: &mut Registry, name: &str, val: &str) -> (r: Result<(), SetError>)
    ensures
        final(reg)@ == set_structured_model(old(reg)@, name@, val@),
        set_result_model(r) == set_structured_result(old(reg)@, name@, val@),
        consistent(old(reg)@),
        consistent(final(reg)@),
{
    match reg.lookup(name) {
        None => Err(SetError::NoSuchField),
        Some(i) => {
            let tag = reg.field(i).type_id();
            let outcome = Value::from_structured(tag, val);
            proof {
                lemma_parsed_tag(tag, val@);
            }
            match reg.publish(i, outcome) {
                Ok(_) => Ok(()),
                Err(d) => Err(SetError::Deserialization(d)),
            }
        },
    }
}

} // verus!

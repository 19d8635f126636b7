//! The values a field can hold, their type tags, and the public result types.

use crate::structured::{ron_bool, ron_i64, ron_string, ron_u32};
use crate::text::{
    bool_diagnostic, i64_diagnostic, parse_bool, parse_i64, parse_u32, render_bool, render_i64,
    render_u32, u32_diagnostic,
};
use vstd::prelude::*;
use vstd::string::StringExecFns;

verus! {

/// Identifies the concrete type of a declared value.
#[derive(Debug, Clone, Copy, PartialEq, Eq, Hash, Structural)]
pub enum TypeTag {
    Bool,
    U32,
    I64,
    Str,
}

/// The current value of a field, tagged with its concrete type.
#[derive(Debug)]
pub enum Value {
    Bool(bool),
    U32(u32),
    I64(i64),
    Str(String),
}

/// The mathematical model of a [`Value`]: strings are sequences of characters.
pub ghost enum ValueModel {
    Bool(bool),
    U32(u32),
    I64(i64),
    Str(Seq<char>),
}

impl ValueModel {
    /// The tag of the type this value belongs to.
    pub open spec fn tag(self) -> TypeTag {
        match self {
            ValueModel::Bool(_) => TypeTag::Bool,
            ValueModel::U32(_) => TypeTag::U32,
            ValueModel::I64(_) => TypeTag::I64,
            ValueModel::Str(_) => TypeTag::Str,
        }
    }

    /// The plain text of this value. A string is its own text.
    pub open spec fn render(self) -> Seq<char> {
        match self {
            ValueModel::Bool(b) => render_bool(b),
            ValueModel::U32(n) => render_u32(n),
            ValueModel::I64(n) => render_i64(n),
            ValueModel::Str(s) => s,
        }
    }
}

/// What plain text `s` denotes for the type `tag`: a value of that type, or the
/// diagnostic for text that denotes none. Every text is a string.
pub open spec fn parse_text(tag: TypeTag, s: Seq<char>) -> Result<ValueModel, Seq<char>> {
    match tag {
        TypeTag::Bool => match parse_bool(s) {
            Some(b) => Ok(ValueModel::Bool(b)),
            None => Err(bool_diagnostic(s)),
        },
        TypeTag::U32 => match parse_u32(s) {
            Some(n) => Ok(ValueModel::U32(n)),
            None => Err(u32_diagnostic(s)),
        },
        TypeTag::I64 => match parse_i64(s) {
            Some(n) => Ok(ValueModel::I64(n)),
            None => Err(i64_diagnostic(s)),
        },
        TypeTag::Str => Ok(ValueModel::Str(s)),
    }
}

/// What text `s` in the structured notation denotes for the type `tag`: a value of
/// that type, or the diagnostic for text that denotes none.
pub open spec fn parse_structured(tag: TypeTag, s: Seq<char>) -> Result<ValueModel, Seq<char>> {
    match tag {
        TypeTag::Bool => match ron_bool(s) {
            Ok(b) => Ok(ValueModel::Bool(b)),
            Err(e) => Err(e),
        },
        TypeTag::U32 => match ron_u32(s) {
            Ok(n) => Ok(ValueModel::U32(n)),
            Err(e) => Err(e),
        },
        TypeTag::I64 => match ron_i64(s) {
            Ok(n) => Ok(ValueModel::I64(n)),
            Err(e) => Err(e),
        },
        TypeTag::Str => match ron_string(s) {
            Ok(v) => Ok(ValueModel::Str(v)),
            Err(e) => Err(e),
        },
    }
}

/// The model of the outcome of reading a value: the value's model, or the
/// characters of the diagnostic.
pub open spec fn outcome_model(r: Result<Value, String>) -> Result<ValueModel, Seq<char>> {
    match r {
        Ok(v) => Ok(v@),
        Err(e) => Err(e@),
    }
}

/// A value read from text belongs to the type it was read for.
pub proof fn lemma_parsed_tag(tag: TypeTag, s: Seq<char>)
    ensures
        parse_text(tag, s) matches Ok(v) ==> v.tag() == tag,
        parse_structured(tag, s) matches Ok(v) ==> v.tag() == tag,
{
}

impl View for Value {
    type V = ValueModel;

    open spec fn view(&self) -> ValueModel {
        match self {
            Value::Bool(b) => ValueModel::Bool(*b),
            Value::U32(n) => ValueModel::U32(*n),
            Value::I64(n) => ValueModel::I64(*n),
            Value::Str(s) => ValueModel::Str(s@),
        }
    }
}

impl Value {
    /// The tag of the type this value belongs to.
    pub fn tag(&self) -> (t: TypeTag)
        ensures
            t == self@.tag(),
    {
        match self {
            Value::Bool(_) => TypeTag::Bool,
            Value::U32(_) => TypeTag::U32,
            Value::I64(_) => TypeTag::I64,
            Value::Str(_) => TypeTag::Str,
        }
    }
}

/// What the registry publishes about one declared value.
#[derive(Debug, Clone, Copy)]
pub struct Metadata {
    pub unique_name: &'static str,
    pub aliases: &'static [&'static str],
    pub type_id: TypeTag,
}

/// Why a `set` did not take effect.
#[derive(Debug)]
pub enum SetError {
    /// The facility is switched off.
    Disabled,
    /// The name is neither a unique name nor an alias of a registered field.
    NoSuchField,
    /// The text is not a value of the field's type in its plain textual form.
    FromStr(String),
    /// The text is not a value of the field's type in the structured notation.
    Deserialization(String),
}

/// The mathematical model of a [`SetError`]: diagnostics are sequences of characters.
pub ghost enum SetErrorModel {
    Disabled,
    NoSuchField,
    FromStr(Seq<char>),
    Deserialization(Seq<char>),
}

impl View for SetError {
    type V = SetErrorModel;

    open spec fn view(&self) -> SetErrorModel {
        match self {
            SetError::Disabled => SetErrorModel::Disabled,
            SetError::NoSuchField => SetErrorModel::NoSuchField,
            SetError::FromStr(d) => SetErrorModel::FromStr(d@),
            SetError::Deserialization(d) => SetErrorModel::Deserialization(d@),
        }
    }
}

impl SetErrorModel {
    /// The error in words; a diagnostic follows what it is a diagnostic of.
    pub open spec fn message(self) -> Seq<char> {
        match self {
            SetErrorModel::Disabled => "gvars are not enabled"@,
            SetErrorModel::NoSuchField => "no such field or field alias"@,
            SetErrorModel::FromStr(d) => "`FromStr` error: "@ + d,
            SetErrorModel::Deserialization(d) => "deserialization error: "@ + d,
        }
    }

    /// The diagnostic that the error carries, if it carries one.
    pub open spec fn source(self) -> Option<Seq<char>> {
        match self {
            SetErrorModel::Disabled => None,
            SetErrorModel::NoSuchField => None,
            SetErrorModel::FromStr(d) => Some(d),
            SetErrorModel::Deserialization(d) => Some(d),
        }
    }
}

impl SetError {
    /// The error in words.
    pub fn to_string(&self) -> (r: String)
        ensures
            r@ == self@.message(),
    {
        match self {
            SetError::Disabled => "gvars are not enabled".to_owned(),
            SetError::NoSuchField => "no such field or field alias".to_owned(),
            SetError::FromStr(d) => "`FromStr` error: ".to_owned().concat(d.as_str()),
            SetError::Deserialization(d) => "deserialization error: ".to_owned().concat(
                d.as_str(),
            ),
        }
    }

    /// The diagnostic of the failed reading that lies under this error, if one does.
    pub fn source(&self) -> (r: Option<&str>)
        ensures
            match r {
                Some(d) => self@.source() == Some(d@),
                None => self@.source() is None,
            },
    {
        match self {
            SetError::Disabled => None,
            SetError::NoSuchField => None,
            SetError::FromStr(d) => Some(d.as_str()),
            SetError::Deserialization(d) => Some(d.as_str()),
        }
    }
}

/// The model of what a `set` returns.
pub open spec fn set_result_model(r: Result<(), SetError>) -> Result<(), SetErrorModel> {
    match r {
        Ok(_) => Ok(()),
        Err(e) => Err(e@),
    }
}

/// The model of what a `get` returns.
pub open spec fn get_result_model(r: Result<String, GetError>) -> Result<Seq<char>, GetError> {
    match r {
        Ok(s) => Ok(s@),
        Err(e) => Err(e),
    }
}

/// Why a `get` gave no text.
#[derive(Debug, Clone, Copy, PartialEq, Eq, Structural)]
pub enum GetError {
    /// The facility is switched off.
    Disabled,
    /// The name is neither a unique name nor an alias of a registered field.
    NoSuchField,
}

impl GetError {
    /// The error in words.
    pub open spec fn message(self) -> Seq<char> {
        match self {
            GetError::Disabled => "gvars are not enabled"@,
            GetError::NoSuchField => "no such field or field alias"@,
        }
    }

    /// The error in words.
    pub fn to_string(&self) -> (r: String)
        ensures
            r@ == self.message(),
    {
        match self {
            GetError::Disabled => "gvars are not enabled".to_owned(),
            GetError::NoSuchField => "no such field or field alias".to_owned(),
        }
    }
}

} // verus!

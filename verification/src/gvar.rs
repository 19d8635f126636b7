//! The types whose values a field can hold.

use crate::structured::{bool_from_ron, i64_from_ron, string_from_ron, u32_from_ron};
use crate::text::{
    bool_from_text, bool_to_text, i64_from_text, i64_to_text, u32_from_text, u32_to_text,
};
use crate::value::{parse_structured, parse_text, TypeTag, Value, ValueModel};
use vstd::pervasive::unreached;
use vstd::prelude::*;

verus! {

/// A type of global values: it has a tag, a textual form that can be written and
/// read back, a structured notation that can be read, and a place among the
/// [`Value`]s.
pub trait GVar: Sized {
    /// The tag of this type.
    spec fn type_tag() -> TypeTag;

    /// The value as the registry sees it.
    spec fn model(&self) -> ValueModel;

    /// Every value of this type carries the type's tag.
    proof fn lemma_model_tag(&self)
        ensures
            self.model().tag() == Self::type_tag(),
    ;

    /// The tag of this type.
    fn type_id() -> (t: TypeTag)
        ensures
            t == Self::type_tag(),
    ;

    /// Writes the value as plain text.
    fn to_string(&self) -> (r: String)
        ensures
            r@ == self.model().render(),
    ;

    /// Reads a value from plain text, or gives the diagnostic for text that
    /// denotes none.
    fn from_str(s: &str) -> (r: Result<Self, String>)
        ensures
            match r {
                Ok(v) => parse_text(Self::type_tag(), s@) == Ok::<ValueModel, Seq<char>>(v.model()),
                Err(e) => parse_text(Self::type_tag(), s@) == Err::<ValueModel, Seq<char>>(e@),
            },
    ;

    /// Reads a value from text in the structured notation, or gives the diagnostic
    /// for text that denotes none.
    fn from_structured(s: &str) -> (r: Result<Self, String>)
        ensures
            match r {
                Ok(v) => parse_structured(Self::type_tag(), s@) == Ok::<ValueModel, Seq<char>>(
                    v.model(),
                ),
                Err(e) => parse_structured(Self::type_tag(), s@) == Err::<ValueModel, Seq<char>>(
                    e@,
                ),
            },
    ;

    /// A copy of the value, tagged with its type.
    fn to_value(&self) -> (v: Value)
        ensures
            v@ == self.model(),
    ;

    /// The value of this type that `v` holds.
    fn of_value(v: &Value) -> (r: &Self)
        requires
            v@.tag() == Self::type_tag(),
        ensures
            r.model() == v@,
    ;
}

impl GVar for bool {
    open spec fn type_tag() -> TypeTag {
        TypeTag::Bool
    }

    open spec fn model(&self) -> ValueModel {
        ValueModel::Bool(*self)
    }

    proof fn lemma_model_tag(&self) {
    }

    fn type_id() -> (t: TypeTag) {
        TypeTag::Bool
    }

    fn to_string(&self) -> (r: String) {
        bool_to_text(*self)
    }

    fn from_str(s: &str) -> (r: Result<Self, String>) {
        bool_from_text(s)
    }

    fn from_structured(s: &str) -> (r: Result<Self, String>) {
        bool_from_ron(s)
    }

    fn to_value(&self) -> (v: Value) {
        Value::Bool(*self)
    }

    fn of_value(v: &Value) -> (r: &Self) {
        match v {
            Value::Bool(b) => b,
            _ => unreached(),
        }
    }
}

impl GVar for u32 {
    open spec fn type_tag() -> TypeTag {
        TypeTag::U32
    }

    open spec fn model(&self) -> ValueModel {
        ValueModel::U32(*self)
    }

    proof fn lemma_model_tag(&self) {
    }

    fn type_id() -> (t: TypeTag) {
        TypeTag::U32
    }

    fn to_string(&self) -> (r: String) {
        u32_to_text(*self)
    }

    fn from_str(s: &str) -> (r: Result<Self, String>) {
        u32_from_text(s)
    }

    fn from_structured(s: &str) -> (r: Result<Self, String>) {
        u32_from_ron(s)
    }

    fn to_value(&self) -> (v: Value) {
        Value::U32(*self)
    }

    fn of_value(v: &Value) -> (r: &Self) {
        match v {
            Value::U32(n) => n,
            _ => unreached(),
        }
    }
}

impl GVar for i64 {
    open spec fn type_tag() -> TypeTag {
        TypeTag::I64
    }

    open spec fn model(&self) -> ValueModel {
        ValueModel::I64(*self)
    }

    proof fn lemma_model_tag(&self) {
    }

    fn type_id() -> (t: TypeTag) {
        TypeTag::I64
    }

    fn to_string(&self) -> (r: String) {
        i64_to_text(*self)
    }

    fn from_str(s: &str) -> (r: Result<Self, String>) {
        i64_from_text(s)
    }

    fn from_structured(s: &str) -> (r: Result<Self, String>) {
        i64_from_ron(s)
    }

    fn to_value(&self) -> (v: Value) {
        Value::I64(*self)
    }

    fn of_value(v: &Value) -> (r: &Self) {
        match v {
            Value::I64(n) => n,
            _ => unreached(),
        }
    }
}

impl GVar for String {
    open spec fn type_tag() -> TypeTag {
        TypeTag::Str
    }

    open spec fn model(&self) -> ValueModel {
        ValueModel::Str(self@)
    }

    proof fn lemma_model_tag(&self) {
    }

    fn type_id() -> (t: TypeTag) {
        TypeTag::Str
    }

    fn to_string(&self) -> (r: String) {
        self.clone()
    }

    fn from_str(s: &str) -> (r: Result<Self, String>) {
        Ok(s.to_owned())
    }

    fn from_structured(s: &str) -> (r: Result<Self, String>) {
        string_from_ron(s)
    }

    fn to_value(&self) -> (v: Value) {
        Value::Str(self.clone())
    }

    fn of_value(v: &Value) -> (r: &Self) {
        match v {
            Value::Str(s) => s,
            _ => unreached(),
        }
    }
}

impl Value {
    /// Writes the value as plain text.
    pub fn to_text(&self) -> (r: String)
        ensures
            r@ == self@.render(),
    {
        match self {
            Value::Bool(b) => GVar::to_string(b),
            Value::U32(n) => GVar::to_string(n),
            Value::I64(n) => GVar::to_string(n),
            Value::Str(s) => GVar::to_string(s),
        }
    }

    /// Reads a value of the type `tag` from plain text, or gives the diagnostic for
    /// text that denotes none.
    pub fn from_text(tag: TypeTag, s: &str) -> (r: Result<Value, String>)
        ensures
            crate::value::outcome_model(r) == parse_text(tag, s@),
    {
        match tag {
            TypeTag::Bool => match <bool as GVar>::from_str(s) {
                Ok(b) => Ok(Value::Bool(b)),
                Err(e) => Err(e),
            },
            TypeTag::U32 => match <u32 as GVar>::from_str(s) {
                Ok(n) => Ok(Value::U32(n)),
                Err(e) => Err(e),
            },
            TypeTag::I64 => match <i64 as GVar>::from_str(s) {
                Ok(n) => Ok(Value::I64(n)),
                Err(e) => Err(e),
            },
            TypeTag::Str => match <String as GVar>::from_str(s) {
                Ok(v) => Ok(Value::Str(v)),
                Err(e) => Err(e),
            },
        }
    }

    /// Reads a value of the type `tag` from text in the structured notation, or
    /// gives the diagnostic for text that denotes none.
    pub fn from_structured(tag: TypeTag, s: &str) -> (r: Result<Value, String>)
        ensures
            crate::value::outcome_model(r) == parse_structured(tag, s@),
    {
        match tag {
            TypeTag::Bool => match <bool as GVar>::from_structured(s) {
                Ok(b) => Ok(Value::Bool(b)),
                Err(e) => Err(e),
            },
            TypeTag::U32 => match <u32 as GVar>::from_structured(s) {
                Ok(n) => Ok(Value::U32(n)),
                Err(e) => Err(e),
            },
            TypeTag::I64 => match <i64 as GVar>::from_structured(s) {
                Ok(n) => Ok(Value::I64(n)),
                Err(e) => Err(e),
            },
            TypeTag::Str => match <String as GVar>::from_structured(s) {
                Ok(v) => Ok(Value::Str(v)),
                Err(e) => Err(e),
            },
        }
    }
}

} // verus!

//! The descriptor of one declared value, together with the cell that holds its
//! current value.

use crate::gvar::GVar;
use crate::value::{parse_structured, parse_text, TypeTag, Value, ValueModel};
use vstd::prelude::*;

verus! {

/// One declared value: its unique name, its aliases, and its current value. The
/// type of the value never changes.
#[derive(Debug)]
pub struct Field {
    pub unique_name: &'static str,
    pub aliases: &'static [&'static str],
    pub value: Value,
}

/// The mathematical model of a [`Field`].
pub ghost struct FieldModel {
    pub unique_name: Seq<char>,
    pub aliases: Seq<Seq<char>>,
    pub value: ValueModel,
}

impl FieldModel {
    /// The tag of the declared type.
    pub open spec fn type_id(self) -> TypeTag {
        self.value.tag()
    }

    /// Whether `name` is the unique name or one of the aliases.
    pub open spec fn carries(self, name: Seq<char>) -> bool {
        self.unique_name == name || self.aliases.contains(name)
    }

    /// The same descriptor with `value` in its cell.
    pub open spec fn with_value(self, value: ValueModel) -> FieldModel {
        FieldModel { unique_name: self.unique_name, aliases: self.aliases, value }
    }

    /// The descriptor after an attempt to publish `outcome`: a value replaces the
    /// current one, a diagnostic changes nothing.
    pub open spec fn after(self, outcome: Result<ValueModel, Seq<char>>) -> FieldModel {
        match outcome {
            Ok(v) => self.with_value(v),
            Err(_) => self,
        }
    }
}

/// The characters of each name in `names`.
pub open spec fn names_model(names: Seq<&'static str>) -> Seq<Seq<char>> {
    names.map_values(|a: &'static str| a@)
}

impl View for Field {
    type V = FieldModel;

    open spec fn view(&self) -> FieldModel {
        FieldModel {
            unique_name: self.unique_name@,
            aliases: names_model(self.aliases@),
            value: self.value@,
        }
    }
}

impl Field {
    /// Describes a value of type `T` under `unique_name` and `aliases`, holding a
    /// copy of `init`.
    pub fn new<T: GVar>(
        unique_name: &'static str,
        aliases: &'static [&'static str],
        init: &T,
    ) -> (f: Field)
        ensures
            f@ == (FieldModel {
                unique_name: unique_name@,
                aliases: names_model(aliases@),
                value: init.model(),
            }),
            f@.type_id() == T::type_tag(),
    {
        proof {
            init.lemma_model_tag();
        }
        Field { unique_name, aliases, value: init.to_value() }
    }

    /// The tag of the declared type.
    pub fn type_id(&self) -> (t: TypeTag)
        ensures
            t == self@.type_id(),
    {
        self.value.tag()
    }

    /// The current value, for code that knows the declared type.
    pub fn get<T: GVar>(&self) -> (r: &T)
        requires
            T::type_tag() == self@.type_id(),
        ensures
            r.model() == self@.value,
    {
        T::of_value(&self.value)
    }

    /// Publishes the outcome of reading a new value: a value replaces the current
    /// one, a diagnostic is handed back and leaves the current value in place.
    pub fn publish(&mut self, outcome: Result<Value, String>) -> (r: Result<(), String>)
        requires
            outcome matches Ok(v) ==> v@.tag() == old(self)@.type_id(),
        ensures
            final(self)@ == old(self)@.after(crate::value::outcome_model(outcome)),
            final(self)@.type_id() == old(self)@.type_id(),
            match outcome {
                Ok(_) => r is Ok,
                Err(d) => r == Err::<(), String>(d),
            },
        no_unwind
    {
        match outcome {
            Ok(v) => {
                self.value = v;
                Ok(())
            },
            Err(d) => Err(d),
        }
    }

    /// Reads a value of the declared type from plain text and makes it current. Text
    /// that denotes no such value leaves the field as it was and gives the
    /// diagnostic.
    pub fn set(&mut self, s: &str) -> (r: Result<(), String>)
        ensures
            final(self)@ == old(self)@.after(parse_text(old(self)@.type_id(), s@)),
            final(self)@.type_id() == old(self)@.type_id(),
            match parse_text(old(self)@.type_id(), s@) {
                Ok(_) => r is Ok,
                Err(d) => r matches Err(e) && e@ == d,
            },
    {
        let outcome = Value::from_text(self.value.tag(), s);
        proof {
            crate::value::lemma_parsed_tag(self@.type_id(), s@);
        }
        self.publish(outcome)
    }

    /// Reads a value of the declared type from text in the structured notation and
    /// makes it current. Text that denotes no such value leaves the field as it was
    /// and gives the diagnostic.
    pub fn set_structured(&mut self, s: &str) -> (r: Result<(), String>)
        ensures
            final(self)@ == old(self)@.after(parse_structured(old(self)@.type_id(), s@)),
            final(self)@.type_id() == old(self)@.type_id(),
            match parse_structured(old(self)@.type_id(), s@) {
                Ok(_) => r is Ok,
                Err(d) => r matches Err(e) && e@ == d,
            },
    {
        let outcome = Value::from_structured(self.value.tag(), s);
        proof {
            crate::value::lemma_parsed_tag(self@.type_id(), s@);
        }
        self.publish(outcome)
    }

    /// The current value as plain text.
    pub fn get_string(&self) -> (r: String)
        ensures
            r@ == self@.value.render(),
    {
        self.value.to_text()
    }
}

} // verus!

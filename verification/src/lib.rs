//! A registry of named global values that can be read and overridden at run time
//! through their textual form.
//!
//! Declarations are collected in a [`registry::Registrations`], from which a
//! [`registry::Registry`] is built once. A registry resolves a unique name or an
//! alias to a [`field::Field`], whose current value is rendered by `get` and
//! replaced by `set`.
//!
//! The set of value types is closed: a field holds a `bool`, a `u32`, an `i64` or
//! a `String`, the variants of [`Value`]. [`GVar`] is implemented for these four and
//! is not meant to be implemented elsewhere, since a value of another type has no
//! place in a [`Value`].

pub mod value;
pub mod text;
pub mod structured;
pub mod gvar;
pub mod field;
pub mod registry;
pub mod enabled;
pub mod disabled;
pub mod laws;

pub use crate::field::{Field, FieldModel};
pub use crate::gvar::GVar;
pub use crate::registry::{DuplicateIdentity, Registrations, Registry};
pub use crate::value::{GetError, Metadata, SetError, SetErrorModel, TypeTag, Value, ValueModel};

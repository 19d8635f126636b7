//! What holds of every registry, stated over the models that the contracts of the
//! operations use.

use crate::field::FieldModel;
use crate::registry::{
    collides, consistent, get_model, is_first_collision, last_alias, lemma_last_alias_last,
    lemma_owner_last, lemma_resolve_carried, lemma_resolve_same_names, lemma_same_names, owner,
    published, resolve, same_names, set_model, set_result, set_structured_model,
    set_structured_result, structured_outcome, text_outcome,
};
use crate::text::{lemma_bool_round_trip, lemma_i64_round_trip, lemma_u32_round_trip};
use crate::value::{parse_text, GetError, SetErrorModel, ValueModel};
use vstd::prelude::*;

verus! {

/// The unique names of the fields, in registration order.
pub open spec fn unique_names(fs: Seq<FieldModel>) -> Seq<Seq<char>> {
    fs.map_values(|f: FieldModel| f.unique_name)
}

/// Whether no field registered after position `i` lists `name` among its aliases.
pub open spec fn no_later_alias(fs: Seq<FieldModel>, i: int, name: Seq<char>) -> bool {
    forall|k: int| i < k < fs.len() ==> !(#[trigger] fs[k]).aliases.contains(name)
}

/// Whether no field but the one at position `i` has `name` as its unique name.
pub open spec fn no_other_identity(fs: Seq<FieldModel>, i: int, name: Seq<char>) -> bool {
    forall|k: int| 0 <= k < fs.len() && k != i ==> (#[trigger] fs[k]).unique_name != name
}

/// A name that some field carries resolves to a field.
pub proof fn lemma_carried_resolves(fs: Seq<FieldModel>, name: Seq<char>, i: int)
    requires
        0 <= i < fs.len(),
        fs[i].carries(name),
    ensures
        resolve(fs, name) matches Some(j) && 0 <= j < fs.len() && fs[j].carries(name),
{
    lemma_resolve_carried(fs, name);
}

/// In a consistent registry no field registered after another has the unique name
/// that the earlier one carries.
pub proof fn lemma_identity_not_retaken(fs: Seq<FieldModel>, i: int, k: int)
    requires
        consistent(fs),
        0 <= i < k < fs.len(),
    ensures
        !fs[i].carries(fs[k].unique_name),
{
    if fs[i].carries(fs[k].unique_name) {
        assert(fs.take(k)[i] == fs[i]);
        lemma_carried_resolves(fs.take(k), fs[k].unique_name, i);
        assert(collides(fs, k));
    }
}

/// In a consistent registry a unique name resolves to the field it identifies,
/// whatever aliases the other fields list.
pub proof fn law_identity_resolves_to_its_field(fs: Seq<FieldModel>, i: int)
    requires
        consistent(fs),
        0 <= i < fs.len(),
    ensures
        owner(fs, fs[i].unique_name) == Some(i),
        resolve(fs, fs[i].unique_name) == Some(i),
{
    let name = fs[i].unique_name;
    lemma_owner_last(fs, name);
    let j = owner(fs, name).unwrap();
    if i < j {
        lemma_identity_not_retaken(fs, i, j);
    }
}

/// Before any `set`, `get` of a field's unique name gives the text of the value
/// that the field was declared with.
pub proof fn law_get_initial(fs: Seq<FieldModel>, i: int)
    requires
        consistent(fs),
        0 <= i < fs.len(),
    ensures
        get_model(fs, fs[i].unique_name) == Ok::<Seq<char>, GetError>(fs[i].value.render()),
{
    law_identity_resolves_to_its_field(fs, i);
}

/// An alias of a field reads and writes the same cell as the field's unique name,
/// unless a later field lists the alias too or the alias is the unique name of
/// another field.
pub proof fn law_alias_same_cell(fs: Seq<FieldModel>, i: int, a: int, text: Seq<char>)
    requires
        consistent(fs),
        0 <= i < fs.len(),
        0 <= a < fs[i].aliases.len(),
        no_later_alias(fs, i, fs[i].aliases[a]),
        no_other_identity(fs, i, fs[i].aliases[a]),
    ensures
        resolve(fs, fs[i].aliases[a]) == Some(i),
        resolve(fs, fs[i].aliases[a]) == resolve(fs, fs[i].unique_name),
        get_model(fs, fs[i].aliases[a]) == get_model(fs, fs[i].unique_name),
        set_model(fs, fs[i].aliases[a], text) == set_model(fs, fs[i].unique_name, text),
        set_result(fs, fs[i].aliases[a], text) == set_result(fs, fs[i].unique_name, text),
        set_structured_model(fs, fs[i].aliases[a], text) == set_structured_model(
            fs,
            fs[i].unique_name,
            text,
        ),
        set_structured_result(fs, fs[i].aliases[a], text) == set_structured_result(
            fs,
            fs[i].unique_name,
            text,
        ),
{
    let alias = fs[i].aliases[a];
    law_identity_resolves_to_its_field(fs, i);
    lemma_owner_last(fs, alias);
    lemma_last_alias_last(fs, alias);
    assert(fs[i].aliases.contains(alias));
    if owner(fs, alias) is None {
        assert(last_alias(fs, alias) == Some(i));
    }
}

/// An alias that is the unique name of a field resolves to that field, not to the
/// field that lists it.
pub proof fn law_alias_never_takes_an_identity(fs: Seq<FieldModel>, i: int, k: int)
    requires
        consistent(fs),
        0 <= i < fs.len(),
        0 <= k < fs.len(),
        fs[k].aliases.contains(fs[i].unique_name),
    ensures
        resolve(fs, fs[i].unique_name) == Some(i),
        get_model(fs, fs[i].unique_name) == Ok::<Seq<char>, GetError>(fs[i].value.render()),
{
    law_get_initial(fs, i);
    law_identity_resolves_to_its_field(fs, i);
}

/// Publishing under a name changes no name: every name resolves as before, and
/// the registry stays consistent. So what holds of the names at the start holds at
/// all times.
pub proof fn law_names_are_fixed(
    fs: Seq<FieldModel>,
    name: Seq<char>,
    outcome: Result<ValueModel, Seq<char>>,
    other: Seq<char>,
)
    ensures
        same_names(fs, published(fs, name, outcome)),
        resolve(published(fs, name, outcome), other) == resolve(fs, other),
        consistent(published(fs, name, outcome)) == consistent(fs),
{
    let after = published(fs, name, outcome);
    lemma_resolve_carried(fs, name);
    assert(same_names(fs, after));
    lemma_resolve_same_names(fs, after, other);
    lemma_same_names(fs, after);
}

/// After a `set` whose text denotes a value, `get` of the same name gives the text
/// of that value; after one whose text denotes none, `get` gives what it gave
/// before.
pub proof fn law_set_then_get(fs: Seq<FieldModel>, name: Seq<char>, text: Seq<char>)
    requires
        resolve(fs, name) is Some,
    ensures
        match text_outcome(fs, name, text) {
            Ok(v) => set_result(fs, name, text) is Ok && get_model(
                set_model(fs, name, text),
                name,
            ) == Ok::<Seq<char>, GetError>(v.render()),
            Err(d) => set_result(fs, name, text) == Err::<(), SetErrorModel>(
                SetErrorModel::FromStr(d),
            ) && set_model(fs, name, text) == fs,
        },
{
    law_names_are_fixed(fs, name, text_outcome(fs, name, text), name);
    lemma_resolve_carried(fs, name);
}

/// After a `set` in the structured notation whose text denotes a value, `get` of
/// the same name gives the plain text of that value; after one whose text denotes
/// none, nothing has changed.
pub proof fn law_set_structured_then_get(fs: Seq<FieldModel>, name: Seq<char>, text: Seq<char>)
    requires
        resolve(fs, name) is Some,
    ensures
        match structured_outcome(fs, name, text) {
            Ok(v) => set_structured_result(fs, name, text) is Ok && get_model(
                set_structured_model(fs, name, text),
                name,
            ) == Ok::<Seq<char>, GetError>(v.render()),
            Err(d) => set_structured_result(fs, name, text) == Err::<(), SetErrorModel>(
                SetErrorModel::Deserialization(d),
            ) && set_structured_model(fs, name, text) == fs,
        },
{
    law_names_are_fixed(fs, name, structured_outcome(fs, name, text), name);
    lemma_resolve_carried(fs, name);
}

/// A `set` changes no field but the one that the name resolves to: `get` of a name
/// that resolves to another field gives what it gave before.
pub proof fn law_set_touches_one_cell(
    fs: Seq<FieldModel>,
    name: Seq<char>,
    text: Seq<char>,
    other: Seq<char>,
)
    requires
        resolve(fs, other) != resolve(fs, name),
    ensures
        get_model(set_model(fs, name, text), other) == get_model(fs, other),
        get_model(set_structured_model(fs, name, text), other) == get_model(fs, other),
{
    law_names_are_fixed(fs, name, text_outcome(fs, name, text), other);
    law_names_are_fixed(fs, name, structured_outcome(fs, name, text), other);
    lemma_resolve_carried(fs, name);
    lemma_resolve_carried(fs, other);
}

/// A name that no field carries is not found by `get` nor by `set`, and the `set`
/// changes nothing.
pub proof fn law_unregistered_name(fs: Seq<FieldModel>, name: Seq<char>, text: Seq<char>)
    requires
        forall|k: int| 0 <= k < fs.len() ==> !(#[trigger] fs[k]).carries(name),
    ensures
        get_model(fs, name) == Err::<Seq<char>, GetError>(GetError::NoSuchField),
        set_result(fs, name, text) == Err::<(), SetErrorModel>(SetErrorModel::NoSuchField),
        set_structured_result(fs, name, text) == Err::<(), SetErrorModel>(
            SetErrorModel::NoSuchField,
        ),
        set_model(fs, name, text) == fs,
        set_structured_model(fs, name, text) == fs,
{
    lemma_resolve_carried(fs, name);
}

/// A name that some field carries is found by `get` and by `set`.
pub proof fn law_registered_name(fs: Seq<FieldModel>, name: Seq<char>, text: Seq<char>, i: int)
    requires
        0 <= i < fs.len(),
        fs[i].carries(name),
    ensures
        get_model(fs, name) is Ok,
        set_result(fs, name, text) != Err::<(), SetErrorModel>(SetErrorModel::NoSuchField),
        set_structured_result(fs, name, text) != Err::<(), SetErrorModel>(
            SetErrorModel::NoSuchField,
        ),
{
    lemma_carried_resolves(fs, name, i);
}

/// Of two successful `set`s of one name the later one wins: `get` gives the text of
/// the value that the second text denotes, whatever the first was.
pub proof fn law_last_set_wins(
    fs: Seq<FieldModel>,
    name: Seq<char>,
    first: Seq<char>,
    second: Seq<char>,
)
    requires
        resolve(fs, name) is Some,
        text_outcome(fs, name, first) is Ok,
        text_outcome(fs, name, second) is Ok,
    ensures
        text_outcome(fs, name, second) matches Ok(v) && get_model(
            set_model(set_model(fs, name, first), name, second),
            name,
        ) == Ok::<Seq<char>, GetError>(v.render()),
{
    let mid = set_model(fs, name, first);
    law_names_are_fixed(fs, name, text_outcome(fs, name, first), name);
    lemma_resolve_carried(fs, name);
    crate::value::lemma_parsed_tag(fs[resolve(fs, name).unwrap()].type_id(), first);
    law_set_then_get(mid, name, second);
}

/// In a consistent registry the unique names are pairwise distinct, so there are
/// as many of them as there are fields, and as many as the metadata listing has
/// entries, whatever the number of aliases.
pub proof fn law_one_entry_per_unique_name(fs: Seq<FieldModel>)
    requires
        consistent(fs),
    ensures
        unique_names(fs).no_duplicates(),
        unique_names(fs).to_set().len() == fs.len(),
{
    let names = unique_names(fs);
    assert forall|i: int, j: int| 0 <= i < names.len() && 0 <= j < names.len() && i != j implies names[i]
        != names[j] by {
        if i < j {
            lemma_identity_not_retaken(fs, i, j);
        } else {
            lemma_identity_not_retaken(fs, j, i);
        }
    }
    names.unique_seq_to_set();
}

/// Where some declaration collides, one of them is the first to do so.
pub proof fn lemma_first_collision(fs: Seq<FieldModel>, k: int) -> (p: int)
    requires
        0 <= k < fs.len(),
        collides(fs, k),
    ensures
        0 <= p <= k,
        is_first_collision(fs, p),
    decreases k,
{
    if exists|q: int| 0 <= q < k && collides(fs, q) {
        let q = choose|q: int| 0 <= q < k && collides(fs, q);
        lemma_first_collision(fs, q)
    } else {
        k
    }
}

/// Declarations of which two have the same unique name are not consistent, so no
/// registry is built from them: the build fails at the second of the two, or at a
/// declaration before it. Every operation takes a built registry, so none of them
/// ever runs on such declarations.
pub proof fn law_duplicate_identity(fs: Seq<FieldModel>, i: int, k: int)
    requires
        0 <= i < k < fs.len(),
        fs[i].unique_name == fs[k].unique_name,
    ensures
        !consistent(fs),
        exists|p: int| 0 <= p <= k && is_first_collision(fs, p),
{
    assert(fs.take(k)[i] == fs[i]);
    lemma_carried_resolves(fs.take(k), fs[k].unique_name, i);
    assert(collides(fs, k));
    let p = lemma_first_collision(fs, k);
    assert(0 <= p <= k && is_first_collision(fs, p));
}

/// Reading the plain text of a value for the value's own type gives the value
/// back.
pub proof fn law_render_then_parse(v: ValueModel)
    ensures
        parse_text(v.tag(), v.render()) == Ok::<ValueModel, Seq<char>>(v),
{
    match v {
        ValueModel::Bool(b) => lemma_bool_round_trip(b),
        ValueModel::U32(n) => lemma_u32_round_trip(n),
        ValueModel::I64(n) => lemma_i64_round_trip(n),
        ValueModel::Str(_) => {},
    }
}

/// Setting a name to the text that `get` gives for it succeeds and leaves every
/// field as it was.
pub proof fn law_set_of_get_changes_nothing(fs: Seq<FieldModel>, name: Seq<char>)
    requires
        get_model(fs, name) is Ok,
    ensures
        set_result(fs, name, get_model(fs, name).unwrap()) is Ok,
        set_model(fs, name, get_model(fs, name).unwrap()) == fs,
{
    lemma_resolve_carried(fs, name);
    let i = resolve(fs, name).unwrap();
    law_render_then_parse(fs[i].value);
    assert(set_model(fs, name, get_model(fs, name).unwrap()) =~= fs);
}

} // verus!

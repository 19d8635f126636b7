//! The collection of declarations and the registry that is built from it: an
//! index from every unique name and alias to one field, and the metadata listing.

use crate::field::{names_model, Field, FieldModel};
use crate::value::{
    parse_structured, parse_text, GetError, Metadata, SetErrorModel, Value, ValueModel,
};
use vstd::hash_map::StringHashMap;
use vstd::prelude::*;

verus! {

/// The position of the field whose unique name is `name`, if there is one. Where
/// several fields have that unique name, which no consistent sequence allows, it
/// is the last of them.
pub open spec fn owner(fs: Seq<FieldModel>, name: Seq<char>) -> Option<int>
    decreases fs.len(),
{
    if fs.len() == 0 {
        None
    } else if fs.last().unique_name == name {
        Some(fs.len() - 1)
    } else {
        owner(fs.drop_last(), name)
    }
}

/// The position of the last field, in registration order, that lists `name` among
/// its aliases, if there is one.
pub open spec fn last_alias(fs: Seq<FieldModel>, name: Seq<char>) -> Option<int>
    decreases fs.len(),
{
    if fs.len() == 0 {
        None
    } else if fs.last().aliases.contains(name) {
        Some(fs.len() - 1)
    } else {
        last_alias(fs.drop_last(), name)
    }
}

/// The position of the field that `name` resolves to among `fs`: the field whose
/// unique name it is, if there is one; otherwise the last field, in registration
/// order, that lists it among its aliases. An alias never stands in for another
/// field's unique name.
pub open spec fn resolve(fs: Seq<FieldModel>, name: Seq<char>) -> Option<int> {
    match owner(fs, name) {
        Some(i) => Some(i),
        None => last_alias(fs, name),
    }
}

/// Whether the unique name of field `i` is already carried by a field registered
/// before it.
pub open spec fn collides(fs: Seq<FieldModel>, i: int) -> bool {
    resolve(fs.take(i), fs[i].unique_name) is Some
}

/// Whether no unique name is carried by an earlier field.
pub open spec fn consistent(fs: Seq<FieldModel>) -> bool {
    forall|i: int| 0 <= i < fs.len() ==> !collides(fs, i)
}

/// Whether `i` is the first field, in registration order, whose unique name is
/// taken already.
pub open spec fn is_first_collision(fs: Seq<FieldModel>, i: int) -> bool {
    &&& 0 <= i < fs.len()
    &&& collides(fs, i)
    &&& forall|k: int| 0 <= k < i ==> !collides(fs, k)
}

/// Whether `m` is the metadata of `f`.
pub open spec fn describes(m: Metadata, f: FieldModel) -> bool {
    &&& m.unique_name@ == f.unique_name
    &&& names_model(m.aliases@) == f.aliases
    &&& m.type_id == f.type_id()
}

/// The index of a sequence of fields: each carried name with the position it
/// resolves to, and whether it is that field's unique name.
pub open spec fn index_of(fs: Seq<FieldModel>) -> Map<Seq<char>, (usize, bool)> {
    Map::new(
        |name: Seq<char>| resolve(fs, name) is Some,
        |name: Seq<char>| (resolve(fs, name).unwrap() as usize, owner(fs, name) is Some),
    )
}

/// What `get` gives for `name`: the plain text of the current value of the field
/// that the name resolves to.
pub open spec fn get_model(fs: Seq<FieldModel>, name: Seq<char>) -> Result<Seq<char>, GetError> {
    match resolve(fs, name) {
        Some(i) => Ok(fs[i].value.render()),
        None => Err(GetError::NoSuchField),
    }
}

/// The fields after an attempt to publish `outcome` under `name`: the field that the
/// name resolves to takes a value that was read; a diagnostic, or a name that
/// resolves to nothing, changes nothing.
pub open spec fn published(
    fs: Seq<FieldModel>,
    name: Seq<char>,
    outcome: Result<ValueModel, Seq<char>>,
) -> Seq<FieldModel> {
    match resolve(fs, name) {
        Some(i) => fs.update(i, fs[i].after(outcome)),
        None => fs,
    }
}

/// What the field that `name` resolves to makes of the plain text `text`.
pub open spec fn text_outcome(fs: Seq<FieldModel>, name: Seq<char>, text: Seq<char>) -> Result<
    ValueModel,
    Seq<char>,
>
    recommends
        resolve(fs, name) is Some,
{
    parse_text(fs[resolve(fs, name).unwrap()].type_id(), text)
}

/// What the field that `name` resolves to makes of `text` in the structured
/// notation.
pub open spec fn structured_outcome(
    fs: Seq<FieldModel>,
    name: Seq<char>,
    text: Seq<char>,
) -> Result<ValueModel, Seq<char>>
    recommends
        resolve(fs, name) is Some,
{
    parse_structured(fs[resolve(fs, name).unwrap()].type_id(), text)
}

/// The fields after `set` of `name` to the plain text `text`.
pub open spec fn set_model(fs: Seq<FieldModel>, name: Seq<char>, text: Seq<char>) -> Seq<
    FieldModel,
> {
    published(fs, name, text_outcome(fs, name, text))
}

/// What `set` of `name` to the plain text `text` returns.
pub open spec fn set_result(fs: Seq<FieldModel>, name: Seq<char>, text: Seq<char>) -> Result<
    (),
    SetErrorModel,
> {
    if resolve(fs, name) is None {
        Err(SetErrorModel::NoSuchField)
    } else {
        match text_outcome(fs, name, text) {
            Ok(_) => Ok(()),
            Err(d) => Err(SetErrorModel::FromStr(d)),
        }
    }
}

/// The fields after `set` of `name` to `text` in the structured notation.
pub open spec fn set_structured_model(
    fs: Seq<FieldModel>,
    name: Seq<char>,
    text: Seq<char>,
) -> Seq<FieldModel> {
    published(fs, name, structured_outcome(fs, name, text))
}

/// What `set` of `name` to `text` in the structured notation returns.
pub open spec fn set_structured_result(
    fs: Seq<FieldModel>,
    name: Seq<char>,
    text: Seq<char>,
) -> Result<(), SetErrorModel> {
    if resolve(fs, name) is None {
        Err(SetErrorModel::NoSuchField)
    } else {
        match structured_outcome(fs, name, text) {
            Ok(_) => Ok(()),
            Err(d) => Err(SetErrorModel::Deserialization(d)),
        }
    }
}

/// The field `f` with only its first `j` aliases.
pub open spec fn with_first_aliases(f: FieldModel, j: int) -> FieldModel {
    FieldModel { unique_name: f.unique_name, aliases: f.aliases.take(j), value: f.value }
}

/// Whether two sequences of fields carry the same names at the same positions.
pub open spec fn same_names(a: Seq<FieldModel>, b: Seq<FieldModel>) -> bool {
    &&& a.len() == b.len()
    &&& forall|i: int|
        0 <= i < a.len() ==> (#[trigger] a[i]).unique_name == b[i].unique_name && a[i].aliases
            == b[i].aliases
}

/// A unique name belongs to the field appended last if that field has it, and to
/// the field it belonged to before otherwise.
pub proof fn lemma_owner_push(fs: Seq<FieldModel>, g: FieldModel, name: Seq<char>)
    ensures
        owner(fs.push(g), name) == if g.unique_name == name {
            Some(fs.len() as int)
        } else {
            owner(fs, name)
        },
{
    assert(fs.push(g).drop_last() =~= fs);
}

/// The last field that lists an alias is the field appended last if that field
/// lists it, and the one it was before otherwise.
pub proof fn lemma_last_alias_push(fs: Seq<FieldModel>, g: FieldModel, name: Seq<char>)
    ensures
        last_alias(fs.push(g), name) == if g.aliases.contains(name) {
            Some(fs.len() as int)
        } else {
            last_alias(fs, name)
        },
{
    assert(fs.push(g).drop_last() =~= fs);
}

/// The owner of a name has it as its unique name and no later field has; where
/// there is no owner, no field has it as its unique name.
pub proof fn lemma_owner_last(fs: Seq<FieldModel>, name: Seq<char>)
    ensures
        match owner(fs, name) {
            Some(i) => 0 <= i < fs.len() && fs[i].unique_name == name && forall|k: int|
                i < k < fs.len() ==> (#[trigger] fs[k]).unique_name != name,
            None => forall|k: int| 0 <= k < fs.len() ==> (#[trigger] fs[k]).unique_name != name,
        },
    decreases fs.len(),
{
    if fs.len() > 0 && fs.last().unique_name != name {
        let init = fs.drop_last();
        lemma_owner_last(init, name);
        assert forall|k: int| 0 <= k < init.len() implies fs[k] == init[k] by {}
        assert forall|k: int| 0 <= k < fs.len() && (owner(init, name) matches Some(i) ==> i
            < k) implies (#[trigger] fs[k]).unique_name != name by {
            if k < init.len() {
                assert(init[k].unique_name != name);
            }
        }
    }
}

/// The last field that lists a name as an alias lists it and no later field does;
/// where there is none, no field lists it.
pub proof fn lemma_last_alias_last(fs: Seq<FieldModel>, name: Seq<char>)
    ensures
        match last_alias(fs, name) {
            Some(i) => 0 <= i < fs.len() && fs[i].aliases.contains(name) && forall|k: int|
                i < k < fs.len() ==> !(#[trigger] fs[k]).aliases.contains(name),
            None => forall|k: int|
                0 <= k < fs.len() ==> !(#[trigger] fs[k]).aliases.contains(name),
        },
    decreases fs.len(),
{
    if fs.len() > 0 && !fs.last().aliases.contains(name) {
        let init = fs.drop_last();
        lemma_last_alias_last(init, name);
        assert forall|k: int| 0 <= k < init.len() implies fs[k] == init[k] by {}
        assert forall|k: int| 0 <= k < fs.len() && (last_alias(init, name) matches Some(i) ==> i
            < k) implies !(#[trigger] fs[k]).aliases.contains(name) by {
            if k < init.len() {
                assert(!init[k].aliases.contains(name));
            }
        }
    }
}

/// A name resolves to a field that carries it, and to none only if no field
/// carries it.
pub proof fn lemma_resolve_carried(fs: Seq<FieldModel>, name: Seq<char>)
    ensures
        match resolve(fs, name) {
            Some(i) => 0 <= i < fs.len() && fs[i].carries(name),
            None => forall|k: int| 0 <= k < fs.len() ==> !(#[trigger] fs[k]).carries(name),
        },
{
    lemma_owner_last(fs, name);
    lemma_last_alias_last(fs, name);
}

/// Resolution depends on the names alone.
pub proof fn lemma_resolve_same_names(a: Seq<FieldModel>, b: Seq<FieldModel>, name: Seq<char>)
    requires
        same_names(a, b),
    ensures
        owner(a, name) == owner(b, name),
        last_alias(a, name) == last_alias(b, name),
        resolve(a, name) == resolve(b, name),
    decreases a.len(),
{
    if a.len() > 0 {
        assert(a.last().unique_name == b.last().unique_name);
        assert(a.last().aliases == b.last().aliases);
        lemma_resolve_same_names(a.drop_last(), b.drop_last(), name);
    }
}

/// Sequences that carry the same names are consistent together, and have the same
/// index.
pub proof fn lemma_same_names(a: Seq<FieldModel>, b: Seq<FieldModel>)
    requires
        same_names(a, b),
    ensures
        consistent(a) == consistent(b),
        index_of(a) =~= index_of(b),
{
    assert forall|i: int| 0 <= i < a.len() implies collides(a, i) == collides(b, i) by {
        lemma_resolve_same_names(a.take(i), b.take(i), a[i].unique_name);
    }
    assert forall|name: Seq<char>|
        resolve(a, name) == resolve(b, name) && owner(a, name) == owner(b, name) by {
        lemma_resolve_same_names(a, b, name);
    }
}

/// The declarations gathered so far, in the order in which they were registered.
/// Nothing is ever taken out; building a registry consumes the whole collection.
pub struct Registrations {
    fields: Vec<Field>,
}

impl View for Registrations {
    type V = Seq<FieldModel>;

    closed spec fn view(&self) -> Seq<FieldModel> {
        self.fields@.map_values(|f: Field| f@)
    }
}

impl Registrations {
    /// An empty collection.
    pub fn new() -> (r: Registrations)
        ensures
            r@ == Seq::<FieldModel>::empty(),
    {
        let r = Registrations { fields: Vec::new() };
        assert(r@ =~= Seq::<FieldModel>::empty());
        r
    }

    /// Appends one declaration.
    pub fn register(&mut self, field: Field)
        ensures
            final(self)@ == old(self)@.push(field@),
    {
        self.fields.push(field);
        assert(self@ =~= old(self)@.push(field@));
    }

    /// The number of declarations gathered.
    pub fn len(&self) -> (n: usize)
        ensures
            n == self@.len(),
    {
        self.fields.len()
    }
}

/// Two declarations share an identity: the unique name of the declaration at
/// `position` was taken by an earlier one.
#[derive(Debug)]
pub struct DuplicateIdentity {
    pub unique_name: &'static str,
    pub position: usize,
}

/// The built registry: the fields in registration order, the index over their
/// names, and the metadata listing.
pub struct Registry {
    fields: Vec<Field>,
    index: StringHashMap<(usize, bool)>,
    metadata: Vec<Metadata>,
}

impl View for Registry {
    type V = Seq<FieldModel>;

    closed spec fn view(&self) -> Seq<FieldModel> {
        models(self.fields@)
    }
}

impl Registry {
    #[verifier::type_invariant]
    spec fn inv(self) -> bool {
        &&& consistent(self@)
        &&& self.index@ == index_of(self@)
        &&& self.metadata@.len() == self@.len()
        &&& forall|i: int|
            0 <= i < self@.len() ==> describes(#[trigger] self.metadata@[i], self@[i])
    }

    /// Builds the registry from the declarations, in registration order. It fails
    /// on the first declaration whose unique name an earlier one carries, as its
    /// unique name or as an alias. An alias that an earlier declaration lists too is
    /// no failure: the name then resolves to the later one. An alias that is the
    /// unique name of a declaration changes nothing: a unique name always resolves
    /// to the declaration it identifies.
    pub fn build(regs: Registrations) -> (r: Result<Registry, DuplicateIdentity>)
        ensures
            r is Ok <==> consistent(regs@),
            match r {
                Ok(reg) => reg@ == regs@,
                Err(e) => is_first_collision(regs@, e.position as int) && e.unique_name@
                    == regs@[e.position as int].unique_name,
            },
    {
        let fields = regs.fields;
        let ghost fs = regs@;
        let mut index = StringHashMap::<(usize, bool)>::new();
        let mut metadata: Vec<Metadata> = Vec::new();
        assert(index@ =~= index_of(fs.take(0)));
        let mut i: usize = 0;
        while i < fields.len()
            invariant
                i <= fields.len(),
                fs == regs@,
                fs.len() == fields.len(),
                fs == fields@.map_values(|f: Field| f@),
                index@ == index_of(fs.take(i as int)),
                forall|k: int| 0 <= k < i ==> !collides(fs, k),
                metadata@.len() == i,
                forall|k: int| 0 <= k < i ==> describes(#[trigger] metadata@[k], fs[k]),
            decreases fields.len() - i,
        {
            let field = &fields[i];
            let ghost prefix = fs.take(i as int);
            assert(field@ == fs[i as int]);
            if index.contains_key(field.unique_name) {
                assert(index_of(prefix).contains_key(field.unique_name@));
                assert(collides(fs, i as int));
                return Err(DuplicateIdentity { unique_name: field.unique_name, position: i });
            }
            proof {
                lemma_resolve_carried(prefix, field.unique_name@);
            }
            index.insert(field.unique_name.to_owned(), (i, true));
            metadata.push(
                Metadata {
                    unique_name: field.unique_name,
                    aliases: field.aliases,
                    type_id: field.type_id(),
                },
            );
            proof {
                let g = with_first_aliases(fs[i as int], 0);
                assert(g.aliases =~= Seq::<Seq<char>>::empty());
                assert forall|name: Seq<char>|
                    owner(prefix.push(g), name) == (if name == g.unique_name {
                        Some(i as int)
                    } else {
                        owner(prefix, name)
                    }) && last_alias(prefix.push(g), name) == last_alias(prefix, name) by {
                    lemma_owner_push(prefix, g, name);
                    lemma_last_alias_push(prefix, g, name);
                }
                assert(index@ =~= index_of(prefix.push(g)));
            }
            let mut j: usize = 0;
            while j < field.aliases.len()
                invariant
                    i < fields.len(),
                    fs.len() == fields.len(),
                    j <= field.aliases.len(),
                    field@ == fs[i as int],
                    prefix == fs.take(i as int),
                    index@ == index_of(prefix.push(with_first_aliases(fs[i as int], j as int))),
                decreases field.aliases.len() - j,
            {
                let alias = field.aliases[j];
                let identity = match index.get(alias) {
                    Some(entry) => entry.1,
                    None => false,
                };
                if !identity {
                    index.insert(alias.to_owned(), (i, false));
                }
                proof {
                    let g = with_first_aliases(fs[i as int], j as int);
                    let h = with_first_aliases(fs[i as int], j + 1);
                    assert(fs[i as int].aliases[j as int] == alias@);
                    assert(h.aliases =~= g.aliases.push(alias@));
                    assert(identity == (owner(prefix.push(g), alias@) is Some));
                    assert forall|name: Seq<char>|
                        owner(prefix.push(h), name) == owner(prefix.push(g), name) && last_alias(
                            prefix.push(h),
                            name,
                        ) == (if name == alias@ {
                            Some(i as int)
                        } else {
                            last_alias(prefix.push(g), name)
                        }) by {
                        lemma_owner_push(prefix, g, name);
                        lemma_owner_push(prefix, h, name);
                        lemma_last_alias_push(prefix, g, name);
                        lemma_last_alias_push(prefix, h, name);
                        if g.aliases.contains(name) {
                            let w = choose|w: int| 0 <= w < g.aliases.len() && g.aliases[w] == name;
                            assert(h.aliases[w] == name);
                        }
                        if h.aliases.contains(name) && name != alias@ {
                            let w = choose|w: int| 0 <= w < h.aliases.len() && h.aliases[w] == name;
                            assert(g.aliases[w] == name);
                        }
                        assert(h.aliases[j as int] == alias@);
                    }
                    assert(index@ =~= index_of(prefix.push(h)));
                }
                j += 1;
            }
            proof {
                assert(fs[i as int].aliases.take(j as int) =~= fs[i as int].aliases);
                assert(with_first_aliases(fs[i as int], j as int) == fs[i as int]);
                assert(prefix.push(fs[i as int]) =~= fs.take(i + 1));
            }
            i += 1;
        }
        assert(fs.take(i as int) =~= fs);
        Ok(Registry { fields, index, metadata })
    }

    /// The number of fields.
    pub fn len(&self) -> (n: usize)
        ensures
            n == self@.len(),
    {
        self.fields.len()
    }

    /// The metadata listing: one entry for each field, in registration order,
    /// whatever the number of its aliases. No two entries share a unique name.
    pub fn metadata(&self) -> (m: &[Metadata])
        ensures
            m@.len() == self@.len(),
            forall|i: int| 0 <= i < self@.len() ==> describes(#[trigger] m@[i], self@[i]),
            consistent(self@),
    {
        proof {
            use_type_invariant(self);
        }
        self.metadata.as_slice()
    }

    /// The position of the field that `name` resolves to, if any. The registry it
    /// looks in is consistent, as every built registry is.
    pub fn lookup(&self, name: &str) -> (r: Option<usize>)
        ensures
            consistent(self@),
            match r {
                Some(i) => resolve(self@, name@) == Some(i as int) && i < self@.len(),
                None => resolve(self@, name@) is None,
            },
    {
        proof {
            use_type_invariant(self);
            lemma_resolve_carried(self@, name@);
        }
        assert(self@.len() == self.fields.len());
        assert(self.index@.contains_key(name@) == (resolve(self@, name@) is Some));
        match self.index.get(name) {
            Some(entry) => Some(entry.0),
            None => None,
        }
    }

    /// The field at position `i`.
    pub fn field(&self, i: usize) -> (f: &Field)
        requires
            i < self@.len(),
        ensures
            f@ == self@[i as int],
    {
        &self.fields[i]
    }

    /// Publishes the outcome of reading a new value for the field at position `i`:
    /// a value replaces the current one, a diagnostic is handed back and changes
    /// nothing. No other field is touched.
    pub fn publish(&mut self, i: usize, outcome: Result<Value, String>) -> (r: Result<
        (),
        String,
    >)
        requires
            i < old(self)@.len(),
            outcome matches Ok(v) ==> v@.tag() == old(self)@[i as int].type_id(),
        ensures
            final(self)@ == old(self)@.update(
                i as int,
                old(self)@[i as int].after(crate::value::outcome_model(outcome)),
            ),
            consistent(final(self)@),
            match outcome {
                Ok(_) => r is Ok,
                Err(d) => r == Err::<(), String>(d),
            },
    {
        proof {
            use_type_invariant(&*self);
        }
        publish_at(&mut self.fields, i, outcome)
    }
}

/// The models of the fields in `fields`, in order.
pub open spec fn models(fields: Seq<Field>) -> Seq<FieldModel> {
    fields.map_values(|f: Field| f@)
}

/// Publishes `outcome` for the field at position `i` of `fields`. The names stay
/// as they are, and with them the index and the consistency of the sequence.
fn publish_at(fields: &mut Vec<Field>, i: usize, outcome: Result<Value, String>) -> (r: Result<
    (),
    String,
>)
    requires
        i < old(fields).len(),
        outcome matches Ok(v) ==> v@.tag() == old(fields)[i as int]@.type_id(),
    ensures
        final(fields).len() == old(fields).len(),
        models(final(fields)@) == models(old(fields)@).update(
            i as int,
            old(fields)[i as int]@.after(crate::value::outcome_model(outcome)),
        ),
        consistent(models(final(fields)@)) == consistent(models(old(fields)@)),
        index_of(models(final(fields)@)) == index_of(models(old(fields)@)),
        forall|k: int|
            0 <= k < final(fields).len() ==> (#[trigger] models(final(fields)@)[k]).type_id()
                == models(old(fields)@)[k].type_id() && models(final(fields)@)[k].unique_name
                == models(old(fields)@)[k].unique_name && models(final(fields)@)[k].aliases
                == models(old(fields)@)[k].aliases,
        match outcome {
            Ok(_) => r is Ok,
            Err(d) => r == Err::<(), String>(d),
        },
    no_unwind
{
    let r = fields[i].publish(outcome);
    proof {
        let before = models(old(fields)@);
        let after = models(fields@);
        assert(after =~= before.update(
            i as int,
            before[i as int].after(crate::value::outcome_model(outcome)),
        ));
        lemma_same_names(before, after);
    }
    r
}

} // verus!

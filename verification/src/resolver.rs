//! Resolution of the protocol's numeric class and property identifiers to names.
//!
//! The tables are filled once from the data-table message that precedes every entity update.
//! An identifier without an entry resolves to nothing, and callers skip the value it tags.

use crate::protocol::SendProp;
use crate::protocol::SendPropValue;
use crate::protocol::SendTable;
use fnv::FnvHashMap;
use tf_demo_parser::demo::sendprop::SendPropIdentifier;
use vstd::prelude::*;

verus! {

/// The hasher of the `fnv` crate, of which nothing is said here: it only names the kind of
/// map that `FnvHashMap` is.
#[verifier::external_type_specification]
#[verifier::external_body]
pub struct ExFnvHasher(fnv::FnvHasher);

/// The `BuildHasherDefault` of the standard library, of which nothing is said here either.
#[verifier::external_type_specification]
#[verifier::external_body]
#[verifier::reject_recursive_types(H)]
pub struct ExBuildHasherDefault<H>(std::hash::BuildHasherDefault<H>);

/// The table a property belongs to, and the property's own name.
#[derive(Debug, Clone, PartialEq, Eq)]
pub struct PropPath {
    pub table: String,
    pub name: String,
}

/// The compact identifier that the protocol derives from a table name and a property name.
pub uninterp spec fn prop_identifier(table: Seq<char>, name: Seq<char>) -> u64;

/// Computes the identifier of the property `name` of `table`.
///
/// Trusted: calls `SendPropIdentifier::new`, a hash of the two names; the contract only names
/// its result.
#[verifier::external_body]
pub(crate) fn identify_prop(table: &str, name: &str) -> (id: u64)
    ensures
        id == prop_identifier(table@, name@),
{
    u64::from(SendPropIdentifier::new(table, name))
}

/// Trusted: `HashMap::insert` on a map hashed with FNV; the map then holds `path` under `id`
/// and is otherwise unchanged.
#[verifier::external_body]
fn names_insert(map: &mut FnvHashMap<u64, PropPath>, id: u64, path: PropPath)
    ensures
        final(map)@ == old(map)@.insert(id, path),
{
    map.insert(id, path);
}

/// Trusted: `HashMap::get` on a map hashed with FNV; the entry stored under `id`, if any.
#[verifier::external_body]
fn names_get(map: &FnvHashMap<u64, PropPath>, id: u64) -> (found: Option<&PropPath>)
    ensures
        found == (if map@.contains_key(id) {
            Some(&map@[id])
        } else {
            None
        }),
{
    map.get(&id)
}

/// The names a property identifier stands for: the owning table, then the property.
pub type NamePair = (Seq<char>, Seq<char>);

/// The property names known for the current session, by identifier.
#[derive(Debug, Clone, PartialEq, Eq, Default)]
pub struct PropNames {
    map: FnvHashMap<u64, PropPath>,
}

/// The names held after `props`, all of the table `table`, were added to `names` in order.
pub open spec fn names_with_props(
    names: Map<u64, NamePair>,
    table: Seq<char>,
    props: Seq<crate::protocol::PropDefinition>,
) -> Map<u64, NamePair>
    decreases props.len(),
{
    if props.len() == 0 {
        names
    } else {
        names_with_props(names, table, props.drop_last()).insert(
            props.last().identifier,
            (table, props.last().name@),
        )
    }
}

/// The names held after `tables` were added to `names` in order.
pub open spec fn names_with_tables(names: Map<u64, NamePair>, tables: Seq<SendTable>) -> Map<
    u64,
    NamePair,
>
    decreases tables.len(),
{
    if tables.len() == 0 {
        names
    } else {
        names_with_props(
            names_with_tables(names, tables.drop_last()),
            tables.last().name@,
            tables.last().props@,
        )
    }
}

impl PropNames {
    /// The names by identifier.
    pub closed spec fn view(&self) -> Map<u64, NamePair> {
        self.map@.map_values(|p: PropPath| (p.table@, p.name@))
    }

    /// A table that resolves nothing.
    pub fn new() -> (names: PropNames)
        ensures
            names@ == Map::<u64, NamePair>::empty(),
    {
        let names = PropNames { map: FnvHashMap::default() };
        assert(names@ =~= Map::<u64, NamePair>::empty());
        names
    }

    /// Records that `id` stands for the property `name` of `table`, replacing what it stood
    /// for before.
    pub fn insert(&mut self, id: u64, table: String, name: String)
        ensures
            final(self)@ == old(self)@.insert(id, (table@, name@)),
    {
        let path = PropPath { table, name };
        names_insert(&mut self.map, id, path);
        assert(self@ =~= old(self)@.insert(id, (table@, name@)));
    }

    /// The names `id` stands for, if it is known.
    pub fn get(&self, id: u64) -> (found: Option<&PropPath>)
        ensures
            match found {
                Some(path) => self@.contains_key(id) && self@[id] == (path.table@, path.name@),
                None => !self@.contains_key(id),
            },
    {
        names_get(&self.map, id)
    }

    /// Adds every property of every table in `tables`, in order; a later definition of an
    /// identifier replaces an earlier one.
    pub fn add_tables(&mut self, tables: &Vec<SendTable>)
        ensures
            final(self)@ == names_with_tables(old(self)@, tables@),
    {
        let mut t: usize = 0;
        while t < tables.len()
            invariant
                t <= tables.len(),
                self@ == names_with_tables(old(self)@, tables@.take(t as int)),
            decreases tables.len() - t,
        {
            let table = &tables[t];
            let ghost before = self@;
            let mut p: usize = 0;
            while p < table.props.len()
                invariant
                    p <= table.props.len(),
                    self@ == names_with_props(before, table.name@, table.props@.take(p as int)),
                decreases table.props.len() - p,
            {
                let def = &table.props[p];
                self.insert(def.identifier, table.name.clone(), def.name.clone());
                proof {
                    assert(table.props@.take(p + 1).drop_last() =~= table.props@.take(p as int));
                }
                p += 1;
            }
            proof {
                assert(table.props@.take(p as int) =~= table.props@);
                assert(tables@.take(t + 1).drop_last() =~= tables@.take(t as int));
            }
            t += 1;
        }
        proof {
            assert(tables@.take(t as int) =~= tables@);
        }
    }
}

/// The name of the class numbered `class`, or the empty name where the table has no such
/// class.
pub open spec fn class_name_of(class_names: Seq<String>, class: u16) -> Seq<char> {
    if (class as int) < class_names.len() {
        class_names[class as int]@
    } else {
        Seq::<char>::empty()
    }
}

/// Looks up the name of the class numbered `class`.
pub fn resolve_class(class_names: &Vec<String>, class: u16) -> (name: &str)
    ensures
        name@ == class_name_of(class_names@, class),
{
    let index = class as usize;
    if index < class_names.len() {
        class_names[index].as_str()
    } else {
        proof {
            reveal_strlit("");
        }
        ""
    }
}

/// How one kind of record takes in a single property delta.
///
/// A step looks at the names of the property and at its value, and leaves the record as it is
/// where it does not know the property.
pub trait PropStep<S> {
    /// The record after it took in the property `name` of `table`.
    spec fn spec_step(state: S, table: Seq<char>, name: Seq<char>, value: SendPropValue) -> S;

    /// Takes in the property `name` of `table`.
    fn step(state: S, table: &str, name: &str, value: &SendPropValue) -> (next: S)
        ensures
            next == Self::spec_step(state, table@, name@, *value),
    ;
}

/// The record after it took in `props` in order. A property whose identifier `names` does not
/// resolve is passed over.
pub open spec fn folded<S, M: PropStep<S>>(
    state: S,
    props: Seq<SendProp>,
    names: Map<u64, NamePair>,
) -> S
    decreases props.len(),
{
    if props.len() == 0 {
        state
    } else {
        let before = folded::<S, M>(state, props.drop_last(), names);
        let last = props.last();
        if names.contains_key(last.identifier) {
            M::spec_step(before, names[last.identifier].0, names[last.identifier].1, last.value)
        } else {
            before
        }
    }
}

/// Lets a record take in `props` in order.
pub fn fold_props<S, M: PropStep<S>>(state: S, props: &Vec<SendProp>, names: &PropNames) -> (r: S)
    ensures
        r == folded::<S, M>(state, props@, names@),
{
    let mut current = state;
    let mut i: usize = 0;
    while i < props.len()
        invariant
            i <= props.len(),
            current == folded::<S, M>(state, props@.take(i as int), names@),
        decreases props.len() - i,
    {
        proof {
            assert(props@.take(i + 1).drop_last() =~= props@.take(i as int));
        }
        let prop = &props[i];
        match names.get(prop.identifier) {
            Some(path) => {
                current = M::step(current, path.table.as_str(), path.name.as_str(), &prop.value);
            },
            None => {},
        }
        i += 1;
    }
    proof {
        assert(props@.take(i as int) =~= props@);
    }
    current
}

} // verus!

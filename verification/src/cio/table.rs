//! Tables from names to what is known of them.

use crate::cio::info::TypeInfo;
use crate::ir::term::{share, Term};
use crate::names::{name_str, name_text};
use ustr::{Ustr, UstrMap};
use vstd::prelude::*;

verus! {

/// `ustr::IdentityHasher`: the hasher of a table keyed by handles.
#[verifier::external_type_specification]
#[verifier::external_body]
pub struct ExIdentityHasher(ustr::IdentityHasher);

/// `std::hash::BuildHasherDefault`: makes the hasher of a table.
#[verifier::external_type_specification]
#[verifier::external_body]
#[verifier::reject_recursive_types(H)]
pub struct ExBuildHasherDefault<H>(std::hash::BuildHasherDefault<H>);

/// A table from interned names to what is known of them.
pub type TypeTable = UstrMap<Term<TypeInfo>>;

/// What a table holds, as a mathematical map.
pub type Entries = Map<Seq<char>, Term<TypeInfo>>;

/// What a table holds under each name.
pub uninterp spec fn table_entries(table: UstrMap<Term<TypeInfo>>) -> Map<
    Seq<char>,
    Term<TypeInfo>,
>;

/// Calls `UstrMap::default`. Claims that the table is empty.
#[verifier::external_body]
pub(crate) fn new_table() -> (table: TypeTable)
    ensures
        table_entries(table).is_empty(),
{
    UstrMap::default()
}

/// Calls `UstrMap::get` with the handle that `Ustr::from_existing` finds for
/// the name. Claims that the result is the entry under the name. There is none
/// where the name has no handle yet, since a key of the table is a handle.
#[verifier::external_body]
pub(crate) fn table_get<'a>(table: &'a TypeTable, name: &str) -> (info: Option<&'a Term<TypeInfo>>)
    ensures
        match info {
            Some(i) => table_entries(*table).get(name@) == Some(*i),
            None => table_entries(*table).get(name@) is None,
        },
{
    table.get(&Ustr::from_existing(name)?)
}

/// Calls `UstrMap::insert`. Claims that the name has the new entry then, that
/// the others stay, and that the entry which was there before comes back.
#[verifier::external_body]
pub(crate) fn table_insert(table: &mut TypeTable, name: Ustr, info: Term<TypeInfo>) -> (before:
    Option<Term<TypeInfo>>)
    ensures
        table_entries(*final(table)) == table_entries(*old(table)).insert(name_text(name), info),
        before == table_entries(*old(table)).get(name_text(name)),
{
    table.insert(name, info)
}

/// Whether a list holds each name of a table once, and no other, in whatever
/// order.
pub open spec fn lists_texts(texts: Seq<Seq<char>>, entries: Entries) -> bool {
    &&& texts.no_duplicates()
    &&& texts.to_set() == entries.dom()
}

/// Whether a number is that of the names of a table: the length of a list that
/// holds each of them once.
pub open spec fn counts_names(count: nat, entries: Entries) -> bool {
    exists|texts: Seq<Seq<char>>| #[trigger] lists_texts(texts, entries) && texts.len() == count
}

/// Calls `UstrMap::len`. Claims that it is the number of names with an entry.
#[verifier::external_body]
fn count_names(table: &TypeTable) -> (count: usize)
    ensures
        counts_names(count as nat, table_entries(*table)),
{
    table.len()
}

/// The number of names with an entry.
pub(crate) fn table_len(table: &TypeTable) -> (len: usize)
    ensures
        table_entries(*table).dom().finite(),
        len == table_entries(*table).dom().len(),
{
    let count = count_names(table);
    proof {
        let entries = table_entries(*table);
        let texts = choose|texts: Seq<Seq<char>>| #[trigger]
            lists_texts(texts, entries) && texts.len() == count;
        texts.unique_seq_to_set();
        vstd::seq_lib::seq_to_set_is_finite(texts);
    }
    count
}

/// Whether the table holds nothing.
pub(crate) fn table_is_empty(table: &TypeTable) -> (empty: bool)
    ensures
        table_entries(*table).dom().finite(),
        empty == table_entries(*table).is_empty(),
        empty == (table_entries(*table).dom().len() == 0),
{
    let empty = table_len(table) == 0;
    proof {
        vstd::set_lib::lemma_set_empty_equivalency_len(table_entries(*table).dom());
        if empty {
            assert(table_entries(*table) =~= Map::empty());
        }
    }
    empty
}

/// The texts of a list of names.
pub open spec fn name_texts(names: Seq<Ustr>) -> Seq<Seq<char>> {
    Seq::new(names.len(), |i: int| name_text(names[i]))
}

/// Whether a list holds each name of a table once, and no other, in whatever
/// order.
pub open spec fn lists_names(names: Seq<Ustr>, entries: Entries) -> bool {
    lists_texts(name_texts(names), entries)
}

/// Calls `UstrMap::keys` and collects the handles. Claims that each name with
/// an entry is among them once, and no other; their order is left open.
#[verifier::external_body]
pub(crate) fn table_names(table: &TypeTable) -> (names: Vec<Ustr>)
    ensures
        lists_names(names@, table_entries(*table)),
{
    table.keys().copied().collect()
}

/// Copies a table.
pub(crate) fn copy_table(table: &TypeTable) -> (copy: TypeTable)
    ensures
        table_entries(copy) == table_entries(*table),
{
    let mut copy = new_table();
    extend_table(&mut copy, table);
    assert(table_entries(copy) =~= table_entries(*table));
    copy
}

/// Adds the entries of another table. Where both have one, the other's stays.
pub(crate) fn extend_table(table: &mut TypeTable, other: &TypeTable)
    ensures
        table_entries(*final(table)) == table_entries(*old(table)).union_prefer_right(
            table_entries(*other),
        ),
{
    let names = table_names(other);
    let ghost before = table_entries(*table);
    let ghost added = table_entries(*other);
    let ghost texts = name_texts(names@);
    let mut i: usize = 0;
    assert(before =~= before.union_prefer_right(added.restrict(texts.take(0).to_set())));
    while i < names.len()
        invariant
            i <= names@.len(),
            added == table_entries(*other),
            texts == name_texts(names@),
            lists_names(names@, added),
            table_entries(*table) == before.union_prefer_right(
                added.restrict(texts.take(i as int).to_set()),
            ),
        decreases names@.len() - i,
    {
        let name = names[i];
        assert(texts.contains(texts[i as int]));
        assert(added.contains_key(texts[i as int]));
        if let Some(info) = table_get(other, name_str(&name)) {
            table_insert(table, name, share(info));
        }
        proof {
            lemma_take_to_set(texts, i as int);
        }
        assert(table_entries(*table) =~= before.union_prefer_right(
            added.restrict(texts.take(i + 1).to_set()),
        ));
        i = i + 1;
    }
    assert(texts.take(i as int) =~= texts);
    assert(added.restrict(texts.to_set()) =~= added);
}

/// Adds the entries of another table under names that have none yet.
pub(crate) fn extend_table_new(table: &mut TypeTable, other: &TypeTable)
    ensures
        table_entries(*final(table)) == table_entries(*other).union_prefer_right(
            table_entries(*old(table)),
        ),
{
    let names = table_names(other);
    let ghost before = table_entries(*table);
    let ghost added = table_entries(*other);
    let ghost texts = name_texts(names@);
    let mut i: usize = 0;
    assert(before =~= added.restrict(texts.take(0).to_set()).union_prefer_right(before));
    while i < names.len()
        invariant
            i <= names@.len(),
            added == table_entries(*other),
            texts == name_texts(names@),
            lists_names(names@, added),
            table_entries(*table) == added.restrict(
                texts.take(i as int).to_set(),
            ).union_prefer_right(before),
        decreases names@.len() - i,
    {
        let name = names[i];
        assert(texts.contains(texts[i as int]));
        assert(added.contains_key(texts[i as int]));
        proof {
            lemma_take_to_set(texts, i as int);
            assert(!texts.take(i as int).to_set().contains(texts[i as int]));
        }
        if table_get(table, name_str(&name)).is_none() {
            if let Some(info) = table_get(other, name_str(&name)) {
                table_insert(table, name, share(info));
            }
        }
        assert(table_entries(*table) =~= added.restrict(
            texts.take(i + 1).to_set(),
        ).union_prefer_right(before));
        i = i + 1;
    }
    assert(texts.take(i as int) =~= texts);
    assert(added.restrict(texts.to_set()) =~= added);
}

/// Whether a list holds each entry of a table once, and no other, in whatever
/// order.
pub open spec fn lists_entries(items: Seq<(Ustr, Term<TypeInfo>)>, entries: Entries) -> bool {
    &&& lists_names(Seq::new(items.len(), |i: int| items[i].0), entries)
    &&& forall|i: int|
        0 <= i < items.len() ==> entries.get(name_text((#[trigger] items[i]).0)) == Some(items[i].1)
}

/// The entries of a table.
pub(crate) fn table_items(table: &TypeTable) -> (items: Vec<(Ustr, Term<TypeInfo>)>)
    ensures
        lists_entries(items@, table_entries(*table)),
{
    let names = table_names(table);
    let ghost entries = table_entries(*table);
    let mut items: Vec<(Ustr, Term<TypeInfo>)> = Vec::new();
    let mut i: usize = 0;
    while i < names.len()
        invariant
            i <= names@.len(),
            entries == table_entries(*table),
            lists_names(names@, entries),
            items@.len() == i,
            forall|j: int| 0 <= j < i ==> (#[trigger] items@[j]).0 == names@[j],
            forall|j: int|
                0 <= j < i ==> entries.get(name_text((#[trigger] items@[j]).0)) == Some(
                    items@[j].1,
                ),
        decreases names@.len() - i,
    {
        let name = names[i];
        proof {
            assert(name_texts(names@).contains(name_texts(names@)[i as int]));
            assert(entries.contains_key(name_text(name)));
        }
        if let Some(info) = table_get(table, name_str(&name)) {
            items.push((name, share(info)));
        }
        i = i + 1;
    }
    assert(Seq::new(items@.len(), |j: int| items@[j].0) =~= names@);
    items
}

/// Whether a list holds what is known of each name of a table, once for each
/// name, in whatever order.
pub open spec fn lists_values(values: Seq<Term<TypeInfo>>, entries: Entries) -> bool {
    exists|items: Seq<(Ustr, Term<TypeInfo>)>| #[trigger]
        lists_entries(items, entries) && values == Seq::new(items.len(), |i: int| items[i].1)
}

/// What a table holds, without the names.
pub(crate) fn table_values(table: &TypeTable) -> (values: Vec<Term<TypeInfo>>)
    ensures
        lists_values(values@, table_entries(*table)),
{
    let items = table_items(table);
    let mut values: Vec<Term<TypeInfo>> = Vec::new();
    let mut i: usize = 0;
    while i < items.len()
        invariant
            i <= items@.len(),
            values@.len() == i,
            forall|j: int| 0 <= j < i ==> #[trigger] values@[j] == items@[j].1,
        decreases items@.len() - i,
    {
        values.push(share(&items[i].1));
        i = i + 1;
    }
    assert(values@ =~= Seq::new(items@.len(), |j: int| items@[j].1));
    values
}

/// Whether each entry of a table was replaced by what `f` makes of it.
pub open spec fn each_updated<F: Fn(Ustr, Term<TypeInfo>) -> Term<TypeInfo>>(
    f: F,
    before: Entries,
    after: Entries,
) -> bool {
    &&& after.dom() == before.dom()
    &&& forall|text: Seq<char>|
        #![trigger after[text]]
        after.contains_key(text) ==> exists|name: Ustr|
            name_text(name) == text && call_ensures(f, (name, before[text]), after[text])
}

/// Replaces each entry of a table by what `f` makes of it.
pub(crate) fn update_table<F: Fn(Ustr, Term<TypeInfo>) -> Term<TypeInfo>>(
    table: &mut TypeTable,
    f: F,
)
    requires
        forall|name: Ustr, info: Term<TypeInfo>| call_requires(f, (name, info)),
    ensures
        each_updated(f, table_entries(*old(table)), table_entries(*final(table))),
{
    let names = table_names(table);
    let ghost before = table_entries(*table);
    let ghost texts = name_texts(names@);
    let mut i: usize = 0;
    while i < names.len()
        invariant
            i <= names@.len(),
            forall|name: Ustr, info: Term<TypeInfo>| call_requires(f, (name, info)),
            texts == name_texts(names@),
            lists_names(names@, before),
            table_entries(*table).dom() == before.dom(),
            forall|j: int|
                i <= j < texts.len() ==> table_entries(*table)[#[trigger] texts[j]]
                    == before[texts[j]],
            forall|j: int|
                #![trigger texts[j]]
                0 <= j < i ==> call_ensures(
                    f,
                    (names@[j], before[texts[j]]),
                    table_entries(*table)[texts[j]],
                ),
        decreases names@.len() - i,
    {
        let name = names[i];
        proof {
            assert(texts.contains(texts[i as int]));
            assert(before.contains_key(texts[i as int]));
        }
        let ghost middle = table_entries(*table);
        let next = match table_get(table, name_str(&name)) {
            Some(info) => Some(f(name, share(info))),
            None => None,
        };
        if let Some(info) = next {
            table_insert(table, name, info);
        }
        assert(table_entries(*table).dom() =~= before.dom());
        assert forall|j: int| 0 <= j < texts.len() && j != i implies table_entries(
            *table,
        )[#[trigger] texts[j]] == middle[texts[j]] by {
            assert(texts[j] != texts[i as int]);
        }
        i = i + 1;
    }
    let ghost after = table_entries(*table);
    assert forall|text: Seq<char>| #![trigger after[text]] after.contains_key(text) implies exists|
        name: Ustr,
    | name_text(name) == text && call_ensures(f, (name, before[text]), after[text]) by {
        assert(texts.to_set().contains(text));
        let j = choose|j: int| 0 <= j < texts.len() && texts[j] == text;
        assert(name_text(names@[j]) == text);
    }
}

/// One more item adds itself to the set of the items taken.
proof fn lemma_take_to_set<T>(items: Seq<T>, at: int)
    requires
        0 <= at < items.len(),
        items.no_duplicates(),
    ensures
        items.take(at + 1).to_set() == items.take(at).to_set().insert(items[at]),
        !items.take(at).to_set().contains(items[at]),
{
    let before = items.take(at);
    let after = items.take(at + 1);
    assert(after =~= before.push(items[at]));
    assert forall|x: T| after.contains(x) implies before.contains(x) || x == items[at] by {
        let j = choose|j: int| 0 <= j < after.len() && after[j] == x;
        if j < at {
            assert(before[j] == x);
        }
    }
    assert forall|x: T| before.contains(x) || x == items[at] implies after.contains(x) by {
        if before.contains(x) {
            let j = choose|j: int| 0 <= j < before.len() && before[j] == x;
            assert(after[j] == x);
        } else {
            assert(after[at] == x);
        }
    }
    assert(after.to_set() =~= before.to_set().insert(items[at]));
}

} // verus!

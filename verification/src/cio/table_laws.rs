//! What holds of the tables of a database, and of where it is loaded from.

use crate::cio::config::texts;
use crate::cio::db::{TypeDB, TypeDBModel, TypeInfoDB, TypeInfoModel};
use crate::cio::info::TypeInfo;
use crate::cio::load::{FileError, LoadEvent, LoadRequest, LoadStep, TypeError};
use crate::cio::places::{code_entries, data_entries, placed, type_of_data, TypeRef};
use crate::cio::table::{
    counts_names, each_updated, lists_entries, lists_names, lists_texts, lists_values, name_texts,
    table_entries, Entries,
};
use crate::ir::address::Address;
use crate::ir::laws::law_address_distance;
use crate::ir::term::Term;
use crate::ir::types::Type;
use crate::names::name_text;
use ustr::Ustr;
use vstd::prelude::*;

verus! {

/// A list of arguments has the text of each, in order.
pub proof fn law_argument_texts(args: Seq<&str>, at: int)
    ensures
        texts(args).len() == args.len(),
        0 <= at < args.len() ==> texts(args)[at] == args[at]@,
{
}

/// What a database is seen to hold is what its tables hold.
pub proof fn law_database_contents(types: TypeInfoDB, db: TypeDB)
    ensures
        types@.types == table_entries(types.0.types),
        types@.prototypes == table_entries(types.0.prototypes),
        db@.inner == db.inner@,
        db@.code == code_entries(db.code),
        db@.data == data_entries(db.data),
{
}

/// A database is empty if neither of its tables has a name, and has as many
/// entries as both.
pub proof fn law_database_size(db: TypeInfoModel, name: Seq<char>)
    ensures
        db.is_empty() ==> !db.types.contains_key(name) && !db.prototypes.contains_key(name),
        (forall|n: Seq<char>| !db.types.contains_key(n)) && (forall|n: Seq<char>|
            !db.prototypes.contains_key(n)) ==> db.is_empty(),
        db.len() == db.types.dom().len() + db.prototypes.dom().len(),
        db.is_finite() <==> db.types.dom().finite() && db.prototypes.dom().finite(),
{
    if (forall|n: Seq<char>| !db.types.contains_key(n)) && (forall|n: Seq<char>|
        !db.prototypes.contains_key(n)) {
        assert(db.types =~= Map::empty());
        assert(db.prototypes =~= Map::empty());
    }
}

/// Other types leave the prototypes, the code and the data of a database alone,
/// and other prototypes leave the rest.
pub proof fn law_database_parts(db: TypeDBModel, whole: TypeInfoModel, part: Entries)
    ensures
        db.with_types(whole).inner == whole,
        db.with_types(whole).code == db.code,
        db.with_types(whole).data == db.data,
        db.with_type_entries(part).inner.types == part,
        db.with_type_entries(part).inner.prototypes == db.inner.prototypes,
        db.with_type_entries(part).code == db.code,
        db.with_type_entries(part).data == db.data,
        db.with_prototype_entries(part).inner.prototypes == part,
        db.with_prototype_entries(part).inner.types == db.inner.types,
        db.with_prototype_entries(part).code == db.code,
        db.with_prototype_entries(part).data == db.data,
{
}

/// A list of a table's names has each of them at one place, and nothing else.
pub proof fn law_names_are_listed(names: Seq<Ustr>, entries: Entries)
    requires
        lists_names(names, entries),
    ensures
        forall|text: Seq<char>|
            entries.contains_key(text) <==> exists|i: int|
                0 <= i < names.len() && #[trigger] name_text(names[i]) == text,
        forall|i: int, j: int|
            0 <= i < j < names.len() ==> #[trigger] name_text(names[i]) != #[trigger] name_text(
                names[j],
            ),
        names.len() == entries.dom().len(),
{
    let texts = name_texts(names);
    texts.unique_seq_to_set();
    assert forall|text: Seq<char>| entries.contains_key(text) implies exists|i: int|
        0 <= i < names.len() && #[trigger] name_text(names[i]) == text by {
        assert(texts.to_set().contains(text));
        let i = choose|i: int| 0 <= i < texts.len() && texts[i] == text;
        assert(name_text(names[i]) == text);
    }
    assert forall|i: int| 0 <= i < names.len() implies entries.contains_key(
        #[trigger] name_text(names[i]),
    ) by {
        assert(texts.contains(texts[i]));
    }
    assert forall|i: int, j: int| 0 <= i < j < names.len() implies #[trigger] name_text(names[i])
        != #[trigger] name_text(names[j]) by {
        assert(texts[i] != texts[j]);
    }
}

/// A list of a table's entries has each name at one place, with what the table
/// has under it.
pub proof fn law_entries_are_listed(items: Seq<(Ustr, Term<TypeInfo>)>, entries: Entries)
    requires
        lists_entries(items, entries),
    ensures
        items.len() == entries.dom().len(),
        forall|i: int|
            0 <= i < items.len() ==> entries.contains_key(name_text((#[trigger] items[i]).0))
                && entries[name_text(items[i].0)] == items[i].1,
        forall|text: Seq<char>|
            entries.contains_key(text) ==> exists|i: int|
                0 <= i < items.len() && #[trigger] name_text(items[i].0) == text,
{
    let names = Seq::new(items.len(), |i: int| items[i].0);
    law_names_are_listed(names, entries);
    assert forall|text: Seq<char>| entries.contains_key(text) implies exists|i: int|
        0 <= i < items.len() && #[trigger] name_text(items[i].0) == text by {
        let i = choose|i: int| 0 <= i < names.len() && #[trigger] name_text(names[i]) == text;
        assert(name_text(items[i].0) == text);
    }
}

/// A list of what a table holds is as long as the table, has nothing that the
/// table has not, and has all that it has.
pub proof fn law_values_are_listed(values: Seq<Term<TypeInfo>>, entries: Entries)
    requires
        lists_values(values, entries),
    ensures
        values.len() == entries.dom().len(),
        forall|i: int| 0 <= i < values.len() ==> entries.values().contains(#[trigger] values[i]),
        forall|text: Seq<char>| #[trigger]
            entries.contains_key(text) ==> values.contains(entries[text]),
{
    let items = choose|items: Seq<(Ustr, Term<TypeInfo>)>| #[trigger]
        lists_entries(items, entries) && values == Seq::new(items.len(), |i: int| items[i].1);
    law_entries_are_listed(items, entries);
    assert forall|i: int| 0 <= i < values.len() implies entries.values().contains(
        #[trigger] values[i],
    ) by {
        assert(entries.dom().contains(name_text(items[i].0)));
        assert(entries[name_text(items[i].0)] == values[i]);
    }
    assert forall|text: Seq<char>| #[trigger] entries.contains_key(text) implies values.contains(
        entries[text],
    ) by {
        let i = choose|i: int| 0 <= i < items.len() && #[trigger] name_text(items[i].0) == text;
        assert(entries[name_text(items[i].0)] == items[i].1);
        assert(values[i] == entries[text]);
    }
}

/// The count of a table's names is their number.
pub proof fn law_names_are_counted(count: nat, entries: Entries)
    requires
        counts_names(count, entries),
    ensures
        count == entries.dom().len(),
        entries.dom().finite(),
{
    let texts = choose|texts: Seq<Seq<char>>| #[trigger]
        lists_texts(texts, entries) && texts.len() == count;
    texts.unique_seq_to_set();
    vstd::seq_lib::seq_to_set_is_finite(texts);
}

/// An update keeps the names, and puts under each what came of the entry there.
pub proof fn law_entries_are_updated<F: Fn(Ustr, Term<TypeInfo>) -> Term<TypeInfo>>(
    f: F,
    before: Entries,
    after: Entries,
    text: Seq<char>,
)
    requires
        each_updated(f, before, after),
    ensures
        after.contains_key(text) <==> before.contains_key(text),
        after.contains_key(text) ==> exists|name: Ustr|
            name_text(name) == text && call_ensures(f, (name, before[text]), after[text]),
{
    assert(after.dom().contains(text) == before.dom().contains(text));
    if after.contains_key(text) {
        let name = choose|name: Ustr|
            name_text(name) == text && call_ensures(f, (name, before[text]), after[text]);
        assert(name_text(name) == text && call_ensures(f, (name, before[text]), after[text]));
    }
}

/// At an address stands the value that starts there, or the part of the value
/// that starts where the address refers to. A reference to where no value
/// starts has no type, and neither has an address without an entry.
pub proof fn law_type_of_data(data: Map<u64, TypeRef>, offset: u64)
    ensures
        !data.contains_key(offset) ==> type_of_data(data, offset) is None,
        data.contains_key(offset) ==> match data[offset] {
            TypeRef::Type(typ) => type_of_data(data, offset) == Some(typ@),
            TypeRef::TRef(parent, bytes) => if data.contains_key(parent.offset) {
                match data[parent.offset] {
                    TypeRef::Type(typ) => type_of_data(data, offset) == typ@.type_at(bytes),
                    TypeRef::TRef(_, _) => type_of_data(data, offset) is None,
                }
            } else {
                type_of_data(data, offset) is None
            },
        },
{
}

/// A value that was placed takes up the addresses from its start on, round the
/// last one if it has to, and no others. Each of them after the first refers to
/// the start and says how many bytes on it is.
pub proof fn law_placed_entries(data: Map<u64, TypeRef>, start: u64, typ: Term<Type>, offset: u64)
    ensures
        ({
            let after = placed(data, start, typ, typ@.nbytes());
            let bytes = if offset >= start {
                offset - start
            } else {
                offset - start + u64::MAX + 1
            };
            &&& offset == start ==> after.get(offset) == Some(TypeRef::Type(typ))
            &&& offset != start && bytes < typ@.nbytes() ==> after.get(offset) == Some(
                TypeRef::TRef(Address { offset: start }, bytes as usize),
            )
            &&& offset != start && bytes >= typ@.nbytes() ==> after.get(offset) == data.get(offset)
        }),
{
    law_address_distance(start, offset);
}

/// What loading a file comes to, of steps from the first to the last, with what
/// came of each: `cache` is what reading the cache file gives if it exists,
/// `exists` whether the file does, and `imported` what importing it gives.
///
/// A file known to be a header is imported, and without an importer it is
/// unsupported. Of any other file, the cache file is taken if it can be read.
/// If not, the file is imported, unless it is the cache file itself. Without an
/// importer, a file that exists is unsupported. Else the error is that of the
/// cache file, and if there is none, that nothing was found.
pub proof fn law_load_result(
    request: LoadRequest,
    steps: Seq<LoadStep>,
    events: Seq<LoadEvent>,
    cache: Option<Result<TypeInfoDB, TypeError>>,
    exists: bool,
    imported: Result<TypeInfoDB, TypeError>,
    result: Result<TypeInfoDB, TypeError>,
)
    requires
        steps.len() == events.len() + 1,
        LoadStep::is_first(request, steps[0]),
        forall|i: int|
            0 <= i < events.len() ==> (#[trigger] steps[i]).leads_to(
                request,
                events[i],
                steps[i + 1],
            ),
        forall|i: int|
            0 <= i < events.len() ==> match #[trigger] steps[i] {
                LoadStep::TestCache => events[i] == LoadEvent::Exists(cache is Some),
                LoadStep::ReadCache => events[i] == LoadEvent::Loaded(cache->0),
                LoadStep::TestFile(_) => events[i] == LoadEvent::Exists(exists),
                LoadStep::Import => events[i] == LoadEvent::Loaded(imported),
                LoadStep::Done(_) => false,
            },
        steps.last() == LoadStep::Done(result),
    ensures
        request.header && request.can_import ==> result == imported,
        request.header && !request.can_import ==> result == Err::<TypeInfoDB, TypeError>(
            TypeError::Unsupported,
        ),
        !request.header ==> match cache {
            Some(Ok(db)) => result == Ok::<TypeInfoDB, TypeError>(db),
            _ => if !request.is_cache && request.can_import {
                result == imported
            } else if !request.is_cache && exists {
                result == Err::<TypeInfoDB, TypeError>(TypeError::Unsupported)
            } else {
                match cache {
                    Some(Err(error)) => result == Err::<TypeInfoDB, TypeError>(error),
                    _ => result matches Err(TypeError::IO(FileError::NotFound(message)))
                        && message@ == "header (or cached variant) not found"@,
                }
            },
        },
        events.len() <= 3,
{
    assert(events.len() >= 1 ==> steps[0].leads_to(request, events[0], steps[1]));
    assert(events.len() >= 2 ==> steps[1].leads_to(request, events[1], steps[2]));
    assert(events.len() >= 3 ==> steps[2].leads_to(request, events[2], steps[3]));
    assert(events.len() >= 4 ==> steps[3].leads_to(request, events[3], steps[4]));
}

/// Loading goes on until it is done: each step that is not, has a step after it
/// for whatever can come of it. A test comes to whether a file exists, and
/// reading and importing to what was loaded.
pub proof fn law_load_goes_on(request: LoadRequest, step: LoadStep, event: LoadEvent)
    ensures
        step.yields(event) <==> match step {
            LoadStep::TestCache | LoadStep::TestFile(_) => event is Exists,
            LoadStep::ReadCache | LoadStep::Import => event is Loaded,
            LoadStep::Done(_) => false,
        },
        LoadStep::is_first(request, LoadStep::TestCache) <==> !request.header,
        LoadStep::is_first(request, LoadStep::Import) <==> request.header && request.can_import,
{
}

} // verus!

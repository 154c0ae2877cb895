//! How the two stores are written to disk, and how what was written is read again.

use crate::defaults::{
    entries_map, lemma_push, names, names_distinct, DefaultVersion, DefaultVersionView,
    DefaultVersions,
};
use crate::json::{field, get_field, lemma_field_index, parse, parsed_json, render, rendered_json, Json};
use crate::types::{
    keys_distinct, key_index, lemma_key_index_found, records_view, with_record, BinaryVersion,
    BinaryVersionView, InstalledBinaries,
};
use vstd::prelude::*;

verus! {

/// Why a store could not be loaded or saved.
#[derive(Debug)]
pub enum StoreError {
    /// The file could not be read or written; the text says why.
    Io(String),
    /// The file is there, but what it holds is not a store.
    CorruptState(String),
}

impl StoreError {
    /// What to tell the user.
    pub fn message(&self) -> (r: String)
        ensures
            r@ == match *self {
                StoreError::Io(m) => "I/O error: "@ + m@,
                StoreError::CorruptState(m) => "Corrupt state: "@ + m@,
            },
    {
        match self {
            StoreError::Io(m) => crate::text::concat("I/O error: ", m.as_str()),
            StoreError::CorruptState(m) => crate::text::concat("Corrupt state: ", m.as_str()),
        }
    }
}

/// The text of the field `name`, where it is a text.
pub open spec fn text_field(fields: Seq<(String, Json)>, name: Seq<char>) -> Option<Seq<char>> {
    match field(fields, name) {
        Some(value) => value.text(),
        None => None,
    }
}

/// The truth value of the field `name`, where it is one.
pub open spec fn flag_field(fields: Seq<(String, Json)>, name: Seq<char>) -> Option<bool> {
    match field(fields, name) {
        Some(value) => value.flag(),
        None => None,
    }
}

/// The text of the field `name`, which may be missing or null.
pub open spec fn optional_text_field(fields: Seq<(String, Json)>, name: Seq<char>) -> Option<
    Option<Seq<char>>,
> {
    match field(fields, name) {
        Some(value) => value.optional_text(),
        None => Some(None),
    }
}

/// The record that an object with named fields denotes.
pub open spec fn record_of_fields(fields: Seq<(String, Json)>) -> Option<BinaryVersionView> {
    match (
        text_field(fields, "binary_name"@),
        text_field(fields, "network_release"@),
        text_field(fields, "version"@),
        flag_field(fields, "debug"@),
        optional_text_field(fields, "path"@),
    ) {
        (Some(binary_name), Some(network_release), Some(version), Some(debug), Some(path)) => Some(
            BinaryVersionView { binary_name, network_release, version, debug, path },
        ),
        _ => None,
    }
}

/// The record that a plain tuple denotes: name, network, version and build kind, with or
/// without a path behind them.
pub open spec fn record_of_items(items: Seq<Json>) -> Option<BinaryVersionView> {
    if items.len() == 4 || items.len() == 5 {
        match (
            items[0].text(),
            items[1].text(),
            items[2].text(),
            items[3].flag(),
            if items.len() == 5 {
                items[4].optional_text()
            } else {
                Some(None)
            },
        ) {
            (
                Some(binary_name),
                Some(network_release),
                Some(version),
                Some(debug),
                Some(path),
            ) => Some(BinaryVersionView { binary_name, network_release, version, debug, path }),
            _ => None,
        }
    } else {
        None
    }
}

/// The record that a document denotes, in either shape.
pub open spec fn decoded_record(doc: Json) -> Option<BinaryVersionView> {
    match doc {
        Json::Object(fields) => record_of_fields(fields@),
        Json::Array(items) => record_of_items(items@),
        _ => None,
    }
}

/// The store that a list of documents denotes: each must denote a record, and a later
/// record replaces an earlier one of its key.
pub open spec fn decoded_records(items: Seq<Json>) -> Option<Seq<BinaryVersionView>>
    decreases items.len(),
{
    if items.len() == 0 {
        Some(Seq::empty())
    } else {
        match (decoded_records(items.drop_last()), decoded_record(items.last())) {
            (Some(store), Some(record)) => Some(with_record(store, record)),
            _ => None,
        }
    }
}

/// The store that a document denotes: a list of records, bare or as the field `binaries`
/// of an object.
pub open spec fn decoded_installed(doc: Json) -> Option<Seq<BinaryVersionView>> {
    match doc {
        Json::Array(items) => decoded_records(items@),
        Json::Object(fields) => match field(fields@, "binaries"@) {
            Some(Json::Array(items)) => decoded_records(items@),
            _ => None,
        },
        _ => None,
    }
}

/// `doc` is the written form of the record `v`: an object with the five named fields.
pub open spec fn encodes_record(doc: Json, v: BinaryVersionView) -> bool {
    &&& doc matches Json::Object(fields)
    &&& fields@.len() == 5
    &&& fields@[0].0@ == "binary_name"@
    &&& fields@[0].1.text() == Some(v.binary_name)
    &&& fields@[1].0@ == "network_release"@
    &&& fields@[1].1.text() == Some(v.network_release)
    &&& fields@[2].0@ == "version"@
    &&& fields@[2].1.text() == Some(v.version)
    &&& fields@[3].0@ == "debug"@
    &&& fields@[3].1.flag() == Some(v.debug)
    &&& fields@[4].0@ == "path"@
    &&& fields@[4].1.optional_text() == Some(v.path)
}

/// `doc` is the written form of the store `s`: an object whose one field, `binaries`, lists
/// the records in the store's order.
pub open spec fn encodes_installed(doc: Json, s: Seq<BinaryVersionView>) -> bool {
    &&& doc matches Json::Object(top)
    &&& top@.len() == 1
    &&& top@[0].0@ == "binaries"@
    &&& top@[0].1 matches Json::Array(items)
    &&& items@.len() == s.len()
    &&& forall|i: int| 0 <= i < s.len() ==> encodes_record(#[trigger] items@[i], s[i])
}

/// The names of a record's fields differ from each other.
pub proof fn lemma_record_field_names()
    ensures
        "binary_name"@ != "network_release"@,
        "binary_name"@ != "version"@,
        "binary_name"@ != "debug"@,
        "binary_name"@ != "path"@,
        "network_release"@ != "version"@,
        "network_release"@ != "debug"@,
        "network_release"@ != "path"@,
        "version"@ != "debug"@,
        "version"@ != "path"@,
        "debug"@ != "path"@,
{
    reveal_strlit("binary_name");
    reveal_strlit("network_release");
    reveal_strlit("version");
    reveal_strlit("debug");
    reveal_strlit("path");
    assert("binary_name"@.len() == 11);
    assert("network_release"@.len() == 15);
    assert("version"@.len() == 7);
    assert("debug"@.len() == 5);
    assert("path"@.len() == 4);
}

/// What was written for a record reads as that record.
pub proof fn lemma_record_round_trip(doc: Json, v: BinaryVersionView)
    requires
        encodes_record(doc, v),
    ensures
        decoded_record(doc) == Some(v),
{
    lemma_record_field_names();
    let fields = doc->Object_0@;
    assert(fields[0].0@ == "binary_name"@);
    lemma_field_index(fields, "binary_name"@, 0);
    lemma_field_index(fields, "network_release"@, 1);
    lemma_field_index(fields, "version"@, 2);
    lemma_field_index(fields, "debug"@, 3);
    lemma_field_index(fields, "path"@, 4);
}

/// What was written for a list of records with distinct keys reads as that list.
pub proof fn lemma_records_round_trip(items: Seq<Json>, s: Seq<BinaryVersionView>)
    requires
        keys_distinct(s),
        items.len() == s.len(),
        forall|i: int| 0 <= i < s.len() ==> encodes_record(#[trigger] items[i], s[i]),
    ensures
        decoded_records(items) == Some(s),
    decreases items.len(),
{
    if items.len() == 0 {
        assert(s =~= Seq::<BinaryVersionView>::empty());
    } else {
        let head = s.drop_last();
        assert forall|i: int| 0 <= i < head.len() implies encodes_record(
            #[trigger] items.drop_last()[i],
            head[i],
        ) by {
            assert(encodes_record(items[i], s[i]));
        }
        assert forall|a: int, b: int| 0 <= a < b < head.len() implies (#[trigger] head[a]).key() != (
        #[trigger] head[b]).key() by {
            assert(s[a].key() != s[b].key());
        }
        lemma_records_round_trip(items.drop_last(), head);
        assert(encodes_record(items[s.len() - 1], s[s.len() - 1]));
        lemma_record_round_trip(items.last(), s.last());
        lemma_key_index_found(head, s.last().key());
        if key_index(head, s.last().key()) is Some {
            let i = key_index(head, s.last().key())->0;
            assert(s[i].key() != s[s.len() - 1].key());
        }
        assert(with_record(head, s.last()) =~= s);
    }
}

/// Saving and loading again gives the store that was saved: the written form of a store
/// reads as that store, record for record and in the same order.
pub proof fn lemma_installed_round_trip(store: InstalledBinaries, doc: Json)
    requires
        store.wf(),
        encodes_installed(doc, store@),
    ensures
        decoded_installed(doc) == Some(store@),
{
    let s = store@;
    let top = doc->Object_0@;
    lemma_field_index(top, "binaries"@, 0);
    let items = top[0].1->Array_0@;
    lemma_records_round_trip(items, s);
}

/// Where a part of a list denotes no store, the list denotes none.
pub proof fn lemma_decoded_records_prefix(items: Seq<Json>, k: int)
    requires
        0 <= k <= items.len(),
        decoded_records(items.take(k)) is None,
    ensures
        decoded_records(items) is None,
    decreases items.len() - k,
{
    if k == items.len() {
        assert(items.take(k) =~= items);
    } else {
        assert(items.take(k + 1).drop_last() =~= items.take(k));
        lemma_decoded_records_prefix(items, k + 1);
    }
}

/// The text of an optional string.
pub open spec fn optional_view(o: Option<String>) -> Option<Seq<char>> {
    match o {
        Some(s) => Some(s@),
        None => None,
    }
}

/// The text that a text node holds.
fn text_of(doc: &Json) -> (r: Option<String>)
    ensures
        optional_view(r) == doc.text(),
{
    match doc {
        Json::Text(s) => Some(s.clone()),
        _ => None,
    }
}

/// The truth value that a boolean node holds.
fn flag_of(doc: &Json) -> (r: Option<bool>)
    ensures
        r == doc.flag(),
{
    match doc {
        Json::Bool(b) => Some(*b),
        _ => None,
    }
}

/// The text that a node holds which may also be null.
fn optional_text_of(doc: &Json) -> (r: Option<Option<String>>)
    ensures
        match r {
            Some(o) => doc.optional_text() == Some(optional_view(o)),
            None => doc.optional_text() is None,
        },
{
    match doc {
        Json::Null => Some(None),
        Json::Text(s) => Some(Some(s.clone())),
        _ => None,
    }
}

/// The text of the field `name`, where it is a text.
fn get_text_field(fields: &Vec<(String, Json)>, name: &str) -> (r: Option<String>)
    ensures
        optional_view(r) == text_field(fields@, name@),
{
    match get_field(fields, name) {
        Some(value) => text_of(value),
        None => None,
    }
}

/// The truth value of the field `name`, where it is one.
fn get_flag_field(fields: &Vec<(String, Json)>, name: &str) -> (r: Option<bool>)
    ensures
        r == flag_field(fields@, name@),
{
    match get_field(fields, name) {
        Some(value) => flag_of(value),
        None => None,
    }
}

/// The text of the field `name`, which may be missing or null.
fn get_optional_text_field(fields: &Vec<(String, Json)>, name: &str) -> (r: Option<Option<String>>)
    ensures
        match r {
            Some(o) => optional_text_field(fields@, name@) == Some(optional_view(o)),
            None => optional_text_field(fields@, name@) is None,
        },
{
    match get_field(fields, name) {
        Some(value) => optional_text_of(value),
        None => Some(None),
    }
}

/// Reads a record from an object with named fields.
fn decode_record_fields(fields: &Vec<(String, Json)>) -> (r: Option<BinaryVersion>)
    ensures
        match r {
            Some(b) => record_of_fields(fields@) == Some(b@),
            None => record_of_fields(fields@) is None,
        },
{
    let binary_name = get_text_field(fields, "binary_name");
    let network_release = get_text_field(fields, "network_release");
    let version = get_text_field(fields, "version");
    let debug = get_flag_field(fields, "debug");
    let path = get_optional_text_field(fields, "path");
    match (binary_name, network_release, version, debug, path) {
        (Some(binary_name), Some(network_release), Some(version), Some(debug), Some(path)) => Some(
            BinaryVersion { binary_name, network_release, version, debug, path },
        ),
        _ => None,
    }
}

/// Reads a record from a plain tuple.
fn decode_record_items(items: &Vec<Json>) -> (r: Option<BinaryVersion>)
    ensures
        match r {
            Some(b) => record_of_items(items@) == Some(b@),
            None => record_of_items(items@) is None,
        },
{
    if items.len() != 4 && items.len() != 5 {
        return None;
    }
    let binary_name = text_of(&items[0]);
    let network_release = text_of(&items[1]);
    let version = text_of(&items[2]);
    let debug = flag_of(&items[3]);
    let path = if items.len() == 5 {
        optional_text_of(&items[4])
    } else {
        Some(None)
    };
    match (binary_name, network_release, version, debug, path) {
        (Some(binary_name), Some(network_release), Some(version), Some(debug), Some(path)) => Some(
            BinaryVersion { binary_name, network_release, version, debug, path },
        ),
        _ => None,
    }
}

/// Reads a record from a document: from an object with the fields `binary_name`,
/// `network_release`, `version`, `debug` and, if it has one, `path`, or from a tuple of
/// these in this order.
pub fn decode_record(doc: &Json) -> (r: Option<BinaryVersion>)
    ensures
        match r {
            Some(b) => decoded_record(*doc) == Some(b@),
            None => decoded_record(*doc) is None,
        },
{
    match doc {
        Json::Object(fields) => decode_record_fields(fields),
        Json::Array(items) => decode_record_items(items),
        _ => None,
    }
}

/// Writes a record as an object with named fields; a record without a path gets `null`
/// for it.
pub fn encode_record(record: &BinaryVersion) -> (r: Json)
    ensures
        encodes_record(r, record@),
{
    let path = match &record.path {
        Some(p) => Json::Text(p.clone()),
        None => Json::Null,
    };
    let mut fields: Vec<(String, Json)> = Vec::new();
    fields.push((String::from_str("binary_name"), Json::Text(record.binary_name.clone())));
    fields.push((String::from_str("network_release"), Json::Text(record.network_release.clone())));
    fields.push((String::from_str("version"), Json::Text(record.version.clone())));
    fields.push((String::from_str("debug"), Json::Bool(record.debug)));
    fields.push((String::from_str("path"), path));
    Json::Object(fields)
}

/// Reads the records of a list, a later one replacing an earlier one of its key.
fn decode_records(items: &Vec<Json>) -> (r: Option<InstalledBinaries>)
    ensures
        match r {
            Some(store) => decoded_records(items@) == Some(store@) && store.wf(),
            None => decoded_records(items@) is None,
        },
{
    let mut store = InstalledBinaries::new();
    let mut i: usize = 0;
    assert(items@.take(0) =~= Seq::<Json>::empty());
    while i < items.len()
        invariant
            i <= items.len(),
            store.wf(),
            decoded_records(items@.take(i as int)) == Some(store@),
        decreases items.len() - i,
    {
        proof {
            assert(items@.take(i as int + 1).drop_last() =~= items@.take(i as int));
            assert(items@.take(i as int + 1).last() == items@[i as int]);
        }
        match decode_record(&items[i]) {
            Some(record) => {
                store.add_or_replace(record);
            },
            None => {
                proof {
                    lemma_decoded_records_prefix(items@, i as int + 1);
                }
                return None;
            },
        }
        i = i + 1;
    }
    assert(items@.take(items.len() as int) =~= items@);
    Some(store)
}

/// Reads the store of installed binaries from a document: from a list of records, or from
/// an object that holds such a list as `binaries`. Anything else is a corrupt store.
pub fn decode_installed(doc: &Json) -> (r: Result<InstalledBinaries, StoreError>)
    ensures
        match r {
            Ok(store) => decoded_installed(*doc) == Some(store@) && store.wf(),
            Err(e) => decoded_installed(*doc) is None && e is CorruptState,
        },
{
    let decoded = match doc {
        Json::Array(items) => decode_records(items),
        Json::Object(fields) => match get_field(fields, "binaries") {
            Some(Json::Array(items)) => decode_records(items),
            _ => None,
        },
        _ => None,
    };
    match decoded {
        Some(store) => Ok(store),
        None => Err(
            StoreError::CorruptState(String::from_str("the file does not hold installed binaries")),
        ),
    }
}

/// Writes the store of installed binaries as a document: an object with the list of
/// records as `binaries`.
pub fn encode_installed(store: &InstalledBinaries) -> (r: Json)
    ensures
        encodes_installed(r, store@),
{
    let records = store.binaries();
    let mut items: Vec<Json> = Vec::new();
    let mut i: usize = 0;
    while i < records.len()
        invariant
            i <= records.len(),
            records_view(records@) == store@,
            items@.len() == i,
            forall|j: int| 0 <= j < i ==> encodes_record(#[trigger] items@[j], store@[j]),
        decreases records.len() - i,
    {
        let item = encode_record(&records[i]);
        assert(store@[i as int] == records@[i as int]@);
        items.push(item);
        i = i + 1;
    }
    let mut top: Vec<(String, Json)> = Vec::new();
    top.push((String::from_str("binaries"), Json::Array(items)));
    Json::Object(top)
}

/// `text` is what stands in the file of a store of installed binaries `s`.
pub open spec fn is_installed_text(text: Seq<char>, s: Seq<BinaryVersionView>) -> bool {
    exists|doc: Json| #[trigger] encodes_installed(doc, s) && rendered_json(doc) == Some(text)
}

/// The store of installed binaries that a file's text denotes.
pub open spec fn installed_of_text(text: Seq<char>) -> Option<Seq<BinaryVersionView>> {
    match parsed_json(text) {
        Some(doc) => decoded_installed(doc),
        None => None,
    }
}

/// Reads the store of installed binaries from the text of its file.
pub fn installed_from_text(text: &str) -> (r: Result<InstalledBinaries, StoreError>)
    ensures
        match r {
            Ok(store) => installed_of_text(text@) == Some(store@) && store.wf(),
            Err(e) => installed_of_text(text@) is None && e is CorruptState,
        },
{
    match parse(text) {
        Ok(doc) => decode_installed(&doc),
        Err(e) => Err(StoreError::CorruptState(e.message)),
    }
}

/// The store of installed binaries `s` has a written form that has no text.
pub open spec fn installed_unwritable(s: Seq<BinaryVersionView>) -> bool {
    exists|doc: Json| #[trigger] encodes_installed(doc, s) && rendered_json(doc) is None
}

/// Writes the store of installed binaries as the text of its file: the text of the
/// store's written form. It fails, with an I/O error, only where that form has no text.
pub fn installed_to_text(store: &InstalledBinaries) -> (r: Result<String, StoreError>)
    ensures
        match r {
            Ok(text) => is_installed_text(text@, store@),
            Err(e) => e is Io && installed_unwritable(store@),
        },
{
    let doc = encode_installed(store);
    match render(&doc) {
        Ok(text) => Ok(text),
        Err(e) => Err(StoreError::Io(e.message)),
    }
}

/// The default that a plain tuple denotes: network, version, build kind.
pub open spec fn entry_of_items(items: Seq<Json>) -> Option<DefaultVersionView> {
    if items.len() == 3 {
        match (items[0].text(), items[1].text(), items[2].flag()) {
            (Some(network_release), Some(version), Some(debug)) => Some(
                DefaultVersionView { network_release, version, debug },
            ),
            _ => None,
        }
    } else {
        None
    }
}

/// The default that an object with named fields denotes.
pub open spec fn entry_of_fields(fields: Seq<(String, Json)>) -> Option<DefaultVersionView> {
    match (
        text_field(fields, "network_release"@),
        text_field(fields, "version"@),
        flag_field(fields, "debug"@),
    ) {
        (Some(network_release), Some(version), Some(debug)) => Some(
            DefaultVersionView { network_release, version, debug },
        ),
        _ => None,
    }
}

/// The default that a document denotes, in either shape.
pub open spec fn decoded_entry(doc: Json) -> Option<DefaultVersionView> {
    match doc {
        Json::Array(items) => entry_of_items(items@),
        Json::Object(fields) => entry_of_fields(fields@),
        _ => None,
    }
}

/// The defaults that the fields of an object denote: each must denote a default, and a
/// later field replaces an earlier one of its name.
pub open spec fn decoded_entries(fields: Seq<(String, Json)>) -> Option<
    Map<Seq<char>, DefaultVersionView>,
>
    decreases fields.len(),
{
    if fields.len() == 0 {
        Some(Map::empty())
    } else {
        match (decoded_entries(fields.drop_last()), decoded_entry(fields.last().1)) {
            (Some(map), Some(entry)) => Some(map.insert(fields.last().0@, entry)),
            _ => None,
        }
    }
}

/// The defaults that a document denotes: an object with one field for each binary.
pub open spec fn decoded_defaults(doc: Json) -> Option<Map<Seq<char>, DefaultVersionView>> {
    match doc {
        Json::Object(fields) => decoded_entries(fields@),
        _ => None,
    }
}

/// `doc` holds the default `v` as a plain tuple, the shape in which defaults were written
/// from the start.
pub open spec fn is_tuple_entry(doc: Json, v: DefaultVersionView) -> bool {
    &&& doc matches Json::Array(items)
    &&& items@.len() == 3
    &&& items@[0].text() == Some(v.network_release)
    &&& items@[1].text() == Some(v.version)
    &&& items@[2].flag() == Some(v.debug)
}

/// `doc` holds the default `v` as an object with named fields.
pub open spec fn is_named_entry(doc: Json, v: DefaultVersionView) -> bool {
    &&& doc matches Json::Object(fields)
    &&& fields@.len() == 3
    &&& fields@[0].0@ == "network_release"@
    &&& fields@[0].1.text() == Some(v.network_release)
    &&& fields@[1].0@ == "version"@
    &&& fields@[1].1.text() == Some(v.version)
    &&& fields@[2].0@ == "debug"@
    &&& fields@[2].1.flag() == Some(v.debug)
}

/// `doc` holds the default `v` in one of the two shapes.
pub open spec fn is_entry(doc: Json, v: DefaultVersionView, named: bool) -> bool {
    if named {
        is_named_entry(doc, v)
    } else {
        is_tuple_entry(doc, v)
    }
}

/// `doc` is an object that holds, for each of `entries` in turn, a field with the binary's
/// name and the default in the given shape.
pub open spec fn holds_defaults(
    doc: Json,
    entries: Seq<(Seq<char>, DefaultVersionView)>,
    named: bool,
) -> bool {
    &&& doc matches Json::Object(fields)
    &&& fields@.len() == entries.len()
    &&& forall|i: int|
        0 <= i < entries.len() ==> (#[trigger] fields@[i]).0@ == entries[i].0 && is_entry(
            fields@[i].1,
            entries[i].1,
            named,
        )
}

/// The map that results from setting the given defaults one after the other.
pub open spec fn defaults_set(entries: Seq<(Seq<char>, DefaultVersionView)>) -> Map<
    Seq<char>,
    DefaultVersionView,
>
    decreases entries.len(),
{
    if entries.len() == 0 {
        Map::empty()
    } else {
        defaults_set(entries.drop_last()).insert(entries.last().0, entries.last().1)
    }
}

/// The names and views of the entries of a store.
pub open spec fn entry_views(s: Seq<(String, DefaultVersion)>) -> Seq<(Seq<char>, DefaultVersionView)> {
    Seq::new(s.len(), |i: int| (s[i].0@, s[i].1@))
}

/// `doc` is the written form of a store with the entries `s`: an object with a tuple for
/// each binary.
pub open spec fn encodes_defaults(doc: Json, s: Seq<(String, DefaultVersion)>) -> bool {
    holds_defaults(doc, entry_views(s), false)
}

/// A default reads the same from either shape.
pub proof fn lemma_entry_read(doc: Json, v: DefaultVersionView, named: bool)
    requires
        is_entry(doc, v, named),
    ensures
        decoded_entry(doc) == Some(v),
{
    if named {
        lemma_record_field_names();
        let fields = doc->Object_0@;
        lemma_field_index(fields, "network_release"@, 0);
        lemma_field_index(fields, "version"@, 1);
        lemma_field_index(fields, "debug"@, 2);
    }
}

/// Fields that hold defaults, in either shape, read as those defaults set in turn.
pub proof fn lemma_entries_read(
    fields: Seq<(String, Json)>,
    entries: Seq<(Seq<char>, DefaultVersionView)>,
    named: bool,
)
    requires
        fields.len() == entries.len(),
        forall|i: int|
            0 <= i < entries.len() ==> (#[trigger] fields[i]).0@ == entries[i].0 && is_entry(
                fields[i].1,
                entries[i].1,
                named,
            ),
    ensures
        decoded_entries(fields) == Some(defaults_set(entries)),
    decreases fields.len(),
{
    if fields.len() > 0 {
        assert forall|i: int| 0 <= i < entries.drop_last().len() implies (
        #[trigger] fields.drop_last()[i]).0@ == entries.drop_last()[i].0 && is_entry(
            fields.drop_last()[i].1,
            entries.drop_last()[i].1,
            named,
        ) by {
            assert(fields[i].0@ == entries[i].0);
        }
        lemma_entries_read(fields.drop_last(), entries.drop_last(), named);
        assert(fields[fields.len() - 1].0@ == entries[fields.len() - 1].0);
        lemma_entry_read(fields.last().1, entries.last().1, named);
    }
}

/// A file in the first shape, with each default as a plain tuple, loads to the same
/// defaults as the file that holds them as objects with named fields.
pub proof fn lemma_legacy_shape_reads_alike(
    legacy: Json,
    modern: Json,
    entries: Seq<(Seq<char>, DefaultVersionView)>,
)
    requires
        holds_defaults(legacy, entries, false),
        holds_defaults(modern, entries, true),
    ensures
        decoded_defaults(legacy) == Some(defaults_set(entries)),
        decoded_defaults(modern) == decoded_defaults(legacy),
{
    lemma_entries_read(legacy->Object_0@, entries, false);
    lemma_entries_read(modern->Object_0@, entries, true);
}

/// Setting the entries of a store in turn gives the store's map.
pub proof fn lemma_defaults_set_of_store(s: Seq<(String, DefaultVersion)>)
    requires
        names_distinct(s),
    ensures
        defaults_set(entry_views(s)) == entries_map(s),
    decreases s.len(),
{
    if s.len() == 0 {
        assert(entries_map(s) =~= Map::<Seq<char>, DefaultVersionView>::empty());
    } else {
        let head = s.drop_last();
        assert forall|a: int, b: int| 0 <= a < b < head.len() implies (#[trigger] head[a]).0@ != (
        #[trigger] head[b]).0@ by {
            assert(s[a].0@ != s[b].0@);
        }
        lemma_defaults_set_of_store(head);
        assert(!names(head, s.last().0@)) by {
            if names(head, s.last().0@) {
                let i = choose|i: int| 0 <= i < head.len() && (#[trigger] head[i]).0@ == s.last().0@;
                assert(s[i].0@ != s[s.len() - 1].0@);
            }
        }
        lemma_push(head, s.last());
        assert(head.push(s.last()) =~= s);
        assert(entry_views(s).drop_last() =~= entry_views(head));
    }
}

/// Saving and loading again gives the defaults that were saved: the written form of a
/// store reads as that store's map.
pub proof fn lemma_defaults_round_trip(store: DefaultVersions, doc: Json)
    requires
        store.wf(),
        encodes_defaults(doc, store.entries()),
    ensures
        decoded_defaults(doc) == Some(store@),
{
    store.lemma_entries();
    lemma_entries_read(doc->Object_0@, entry_views(store.entries()), false);
    lemma_defaults_set_of_store(store.entries());
}

/// Where a part of the fields denotes no defaults, the fields denote none.
pub proof fn lemma_decoded_entries_prefix(fields: Seq<(String, Json)>, k: int)
    requires
        0 <= k <= fields.len(),
        decoded_entries(fields.take(k)) is None,
    ensures
        decoded_entries(fields) is None,
    decreases fields.len() - k,
{
    if k == fields.len() {
        assert(fields.take(k) =~= fields);
    } else {
        assert(fields.take(k + 1).drop_last() =~= fields.take(k));
        lemma_decoded_entries_prefix(fields, k + 1);
    }
}

/// Reads a default from a document: from a tuple of network, version and build kind, or
/// from an object with the fields `network_release`, `version` and `debug`.
pub fn decode_entry(doc: &Json) -> (r: Option<DefaultVersion>)
    ensures
        match r {
            Some(e) => decoded_entry(*doc) == Some(e@),
            None => decoded_entry(*doc) is None,
        },
{
    let (network_release, version, debug) = match doc {
        Json::Array(items) => {
            if items.len() != 3 {
                return None;
            }
            (text_of(&items[0]), text_of(&items[1]), flag_of(&items[2]))
        },
        Json::Object(fields) => (
            get_text_field(fields, "network_release"),
            get_text_field(fields, "version"),
            get_flag_field(fields, "debug"),
        ),
        _ => {
            return None;
        },
    };
    match (network_release, version, debug) {
        (Some(network_release), Some(version), Some(debug)) => Some(
            DefaultVersion { network_release, version, debug },
        ),
        _ => None,
    }
}

/// Writes a default as a tuple of network, version and build kind.
pub fn encode_entry(entry: &DefaultVersion) -> (r: Json)
    ensures
        is_tuple_entry(r, entry@),
{
    let mut items: Vec<Json> = Vec::new();
    items.push(Json::Text(entry.network_release.clone()));
    items.push(Json::Text(entry.version.clone()));
    items.push(Json::Bool(entry.debug));
    Json::Array(items)
}

/// Reads the store of defaults from a document: from an object with one field for each
/// binary, which holds that binary's default in either shape. Anything else is a corrupt
/// store.
pub fn decode_defaults(doc: &Json) -> (r: Result<DefaultVersions, StoreError>)
    ensures
        match r {
            Ok(store) => decoded_defaults(*doc) == Some(store@) && store.wf(),
            Err(e) => decoded_defaults(*doc) is None && e is CorruptState,
        },
{
    match doc {
        Json::Object(fields) => {
            let mut store = DefaultVersions::new();
            let mut i: usize = 0;
            assert(fields@.take(0) =~= Seq::<(String, Json)>::empty());
            while i < fields.len()
                invariant
                    i <= fields.len(),
                    *doc == Json::Object(*fields),
                    store.wf(),
                    decoded_entries(fields@.take(i as int)) == Some(store@),
                decreases fields.len() - i,
            {
                proof {
                    assert(fields@.take(i as int + 1).drop_last() =~= fields@.take(i as int));
                    assert(fields@.take(i as int + 1).last() == fields@[i as int]);
                }
                match decode_entry(&fields[i].1) {
                    Some(entry) => {
                        store.set(
                            fields[i].0.as_str(),
                            entry.network_release.as_str(),
                            entry.version.as_str(),
                            entry.debug,
                        );
                    },
                    None => {
                        proof {
                            lemma_decoded_entries_prefix(fields@, i as int + 1);
                        }
                        return Err(
                            StoreError::CorruptState(
                                String::from_str("the file does not hold default versions"),
                            ),
                        );
                    },
                }
                i = i + 1;
            }
            assert(fields@.take(fields.len() as int) =~= fields@);
            Ok(store)
        },
        _ => Err(
            StoreError::CorruptState(String::from_str("the file does not hold default versions")),
        ),
    }
}

/// Writes the store of defaults as a document: an object with, for each binary, a tuple
/// of network, version and build kind.
pub fn encode_defaults(store: &DefaultVersions) -> (r: Json)
    ensures
        encodes_defaults(r, store.entries()),
{
    let entries = store.all();
    let mut fields: Vec<(String, Json)> = Vec::new();
    let mut i: usize = 0;
    while i < entries.len()
        invariant
            i <= entries.len(),
            fields@.len() == i,
            forall|j: int|
                0 <= j < i ==> (#[trigger] fields@[j]).0@ == entries@[j].0@ && is_tuple_entry(
                    fields@[j].1,
                    entries@[j].1@,
                ),
        decreases entries.len() - i,
    {
        let value = encode_entry(&entries[i].1);
        fields.push((entries[i].0.clone(), value));
        i = i + 1;
    }
    Json::Object(fields)
}

/// `text` is what stands in the file of a store of defaults with the entries `s`.
pub open spec fn is_defaults_text(text: Seq<char>, s: Seq<(String, DefaultVersion)>) -> bool {
    exists|doc: Json| #[trigger] encodes_defaults(doc, s) && rendered_json(doc) == Some(text)
}

/// The defaults that a file's text denotes.
pub open spec fn defaults_of_text(text: Seq<char>) -> Option<Map<Seq<char>, DefaultVersionView>> {
    match parsed_json(text) {
        Some(doc) => decoded_defaults(doc),
        None => None,
    }
}

/// Reads the store of defaults from the text of its file.
pub fn defaults_from_text(text: &str) -> (r: Result<DefaultVersions, StoreError>)
    ensures
        match r {
            Ok(store) => defaults_of_text(text@) == Some(store@) && store.wf(),
            Err(e) => defaults_of_text(text@) is None && e is CorruptState,
        },
{
    match parse(text) {
        Ok(doc) => decode_defaults(&doc),
        Err(e) => Err(StoreError::CorruptState(e.message)),
    }
}

/// The store of defaults with the entries `s` has a written form that has no text.
pub open spec fn defaults_unwritable(s: Seq<(String, DefaultVersion)>) -> bool {
    exists|doc: Json| #[trigger] encodes_defaults(doc, s) && rendered_json(doc) is None
}

/// Writes the store of defaults as the text of its file: the text of the store's written
/// form. It fails, with an I/O error, only where that form has no text.
pub fn defaults_to_text(store: &DefaultVersions) -> (r: Result<String, StoreError>)
    ensures
        match r {
            Ok(text) => is_defaults_text(text@, store.entries()),
            Err(e) => e is Io && defaults_unwritable(store.entries()),
        },
{
    let doc = encode_defaults(store);
    match render(&doc) {
        Ok(text) => Ok(text),
        Err(e) => Err(StoreError::Io(e.message)),
    }
}

/// What reading a store's file gave.
#[derive(Debug)]
pub enum FileContent {
    /// There is no such file.
    Missing,
    /// The file could not be read; the text says why.
    Unreadable(String),
    /// The file's text.
    Text(String),
}

/// Loads the store of installed binaries from what reading its file gave. A missing file
/// is an empty store, and comes with the text to create the file with, unless the empty
/// store's written form has no text; a file that could not be read is an I/O error; a file
/// that holds no store is a corrupt state.
pub fn load_installed(file: &FileContent) -> (r: Result<(InstalledBinaries, Option<String>), StoreError>)
    ensures
        match *file {
            FileContent::Missing => match r {
                Ok((store, Some(text))) => store@ == Seq::<BinaryVersionView>::empty() && store.wf()
                    && is_installed_text(text@, store@),
                Ok((_, None)) => false,
                Err(e) => e is Io && installed_unwritable(Seq::<BinaryVersionView>::empty()),
            },
            FileContent::Unreadable(why) => r matches Err(StoreError::Io(m)) && m@ == why@,
            FileContent::Text(text) => match r {
                Ok((store, bootstrap)) => installed_of_text(text@) == Some(store@) && store.wf()
                    && bootstrap is None,
                Err(e) => installed_of_text(text@) is None && e is CorruptState,
            },
        },
{
    match file {
        FileContent::Missing => {
            let store = InstalledBinaries::new();
            match installed_to_text(&store) {
                Ok(text) => Ok((store, Some(text))),
                Err(e) => Err(e),
            }
        },
        FileContent::Unreadable(why) => Err(StoreError::Io(why.clone())),
        FileContent::Text(text) => match installed_from_text(text.as_str()) {
            Ok(store) => Ok((store, None)),
            Err(e) => Err(e),
        },
    }
}

/// Loads the store of defaults from what reading its file gave, as `load_installed` does
/// for the other store.
pub fn load_defaults(file: &FileContent) -> (r: Result<(DefaultVersions, Option<String>), StoreError>)
    ensures
        match *file {
            FileContent::Missing => match r {
                Ok((store, Some(text))) => store@ == Map::<Seq<char>, DefaultVersionView>::empty()
                    && store.wf() && store.entries() == Seq::<(String, DefaultVersion)>::empty()
                    && is_defaults_text(text@, store.entries()),
                Ok((_, None)) => false,
                Err(e) => e is Io && defaults_unwritable(Seq::<(String, DefaultVersion)>::empty()),
            },
            FileContent::Unreadable(why) => r matches Err(StoreError::Io(m)) && m@ == why@,
            FileContent::Text(text) => match r {
                Ok((store, bootstrap)) => defaults_of_text(text@) == Some(store@) && store.wf()
                    && bootstrap is None,
                Err(e) => defaults_of_text(text@) is None && e is CorruptState,
            },
        },
{
    match file {
        FileContent::Missing => {
            let store = DefaultVersions::new();
            match defaults_to_text(&store) {
                Ok(text) => Ok((store, Some(text))),
                Err(e) => Err(e),
            }
        },
        FileContent::Unreadable(why) => Err(StoreError::Io(why.clone())),
        FileContent::Text(text) => match defaults_from_text(text.as_str()) {
            Ok(store) => Ok((store, None)),
            Err(e) => Err(e),
        },
    }
}

} // verus!

//! The parts of a parsed `config.v3.toml` that the configuration logic
//! reads, and the edits it writes back.

use vstd::prelude::*;
use crate::json::{entries_get, entries_set, find_key, lemma_entries_get_set, lemma_find_key, lemma_find_key_same_keys};
use crate::text::str_eq;

verus! {

/// A TOML value below the top level: the scalars the logic reads, floats
/// kept as the text `f64::to_string` gives for them, and anything else
/// (arrays, dates, deeper tables) as `Other`.
pub enum TomlScalar {
    Str(String),
    Int(i64),
    Float(String),
    Bool(bool),
    Other,
}

/// A top-level TOML item: a value, or a table of values.
pub enum TomlItem {
    Value(TomlScalar),
    Table(Vec<(String, TomlScalar)>),
}

/// The mathematical form of a [`TomlScalar`].
pub enum ScalarView {
    Str(Seq<char>),
    Int(i64),
    Float(Seq<char>),
    Bool(bool),
    Other,
}

/// The mathematical form of a [`TomlItem`].
pub enum ItemView {
    Value(ScalarView),
    Table(Seq<(Seq<char>, ScalarView)>),
}

impl View for TomlScalar {
    type V = ScalarView;

    open spec fn view(&self) -> ScalarView {
        match self {
            TomlScalar::Str(s) => ScalarView::Str(s@),
            TomlScalar::Int(i) => ScalarView::Int(*i),
            TomlScalar::Float(t) => ScalarView::Float(t@),
            TomlScalar::Bool(b) => ScalarView::Bool(*b),
            TomlScalar::Other => ScalarView::Other,
        }
    }
}

/// The views of a table of values.
pub open spec fn scalars_view(t: Seq<(String, TomlScalar)>) -> Seq<(Seq<char>, ScalarView)> {
    t.map_values(|e: (String, TomlScalar)| (e.0@, e.1@))
}

impl View for TomlItem {
    type V = ItemView;

    open spec fn view(&self) -> ItemView {
        match self {
            TomlItem::Value(v) => ItemView::Value(v@),
            TomlItem::Table(t) => ItemView::Table(scalars_view(t@)),
        }
    }
}

/// The views of a top-level table.
pub open spec fn items_view(t: Seq<(String, TomlItem)>) -> Seq<(Seq<char>, ItemView)> {
    t.map_values(|e: (String, TomlItem)| (e.0@, e.1@))
}

/// A parsed configuration file: its top-level entries, each key once.
pub struct TomlTable {
    pub entries: Vec<(String, TomlItem)>,
}

impl View for TomlTable {
    type V = Seq<(Seq<char>, ItemView)>;

    open spec fn view(&self) -> Seq<(Seq<char>, ItemView)> {
        items_view(self.entries@)
    }
}

/// The entries of a run of keyed pairs, with the keys as text.
pub open spec fn keyed<V>(entries: Seq<(String, V)>) -> Seq<(Seq<char>, V)> {
    entries.map_values(|e: (String, V)| (e.0@, e.1))
}

/// The place of the first entry with key `key`.
pub fn key_position<V>(entries: &Vec<(String, V)>, key: &str) -> (r: Option<usize>)
    ensures
        match r {
            Some(i) => find_key(keyed(entries@), key@) == Some(i as int) && i < entries@.len(),
            None => find_key(keyed(entries@), key@) is None,
        },
{
    let ghost kv = keyed(entries@);
    proof {
        lemma_find_key(kv, key@);
    }
    let mut i: usize = 0;
    while i < entries.len()
        invariant
            i <= entries@.len(),
            kv == keyed(entries@),
            kv.len() == entries@.len(),
            forall|k: int| 0 <= k < i ==> #[trigger] kv[k].0 != key@,
        decreases entries@.len() - i,
    {
        assert(kv[i as int].0 == entries@[i as int].0@);
        if str_eq(entries[i].0.as_str(), key) {
            proof {
                lemma_find_key(kv, key@);
                match find_key(kv, key@) {
                    Some(j) => {
                        if j > i {
                            assert(kv[i as int].0 == key@);
                        }
                    },
                    None => {
                        assert(kv[i as int].0 == key@);
                    },
                }
            }
            return Some(i);
        }
        i = i + 1;
    }
    proof {
        lemma_find_key(kv, key@);
        match find_key(kv, key@) {
            Some(j) => {
                assert(kv[j].0 != key@);
            },
            None => {},
        }
    }
    None
}

/// The table stored under `key` at the top level.
pub open spec fn section(t: Seq<(Seq<char>, ItemView)>, key: Seq<char>) -> Option<Seq<(Seq<char>, ScalarView)>> {
    match find_key(t, key) {
        Some(i) => match t[i].1 {
            ItemView::Table(s) => Some(s),
            _ => None,
        },
        None => None,
    }
}

/// The value stored under `key` at the top level.
pub open spec fn top_value(t: Seq<(Seq<char>, ItemView)>, key: Seq<char>) -> Option<ScalarView> {
    match find_key(t, key) {
        Some(i) => match t[i].1 {
            ItemView::Value(v) => Some(v),
            _ => None,
        },
        None => None,
    }
}

/// The value stored under `key` in a table.
pub open spec fn value_in(s: Seq<(Seq<char>, ScalarView)>, key: Seq<char>) -> Option<ScalarView> {
    match find_key(s, key) {
        Some(i) => Some(s[i].1),
        None => None,
    }
}

/// `as_str` of the value under `key`.
pub open spec fn str_in(s: Seq<(Seq<char>, ScalarView)>, key: Seq<char>) -> Option<Seq<char>> {
    match value_in(s, key) {
        Some(ScalarView::Str(x)) => Some(x),
        _ => None,
    }
}

/// A text setting: a string under `key` other than the word `null`.
pub open spec fn text_in(s: Seq<(Seq<char>, ScalarView)>, key: Seq<char>) -> Option<Seq<char>> {
    match str_in(s, key) {
        Some(x) => if x == "null"@ {
            None
        } else {
            Some(x)
        },
        None => None,
    }
}

/// `as_integer` of the value under `key`.
pub open spec fn int_in(s: Seq<(Seq<char>, ScalarView)>, key: Seq<char>) -> Option<i64> {
    match value_in(s, key) {
        Some(ScalarView::Int(x)) => Some(x),
        _ => None,
    }
}

/// `as_bool` of the value under `key`.
pub open spec fn bool_in(s: Seq<(Seq<char>, ScalarView)>, key: Seq<char>) -> Option<bool> {
    match value_in(s, key) {
        Some(ScalarView::Bool(x)) => Some(x),
        _ => None,
    }
}

impl TomlTable {
    /// The table stored under `key` at the top level.
    pub fn section(&self, key: &str) -> (r: Option<&Vec<(String, TomlScalar)>>)
        ensures
            match r {
                Some(s) => section(self@, key@) == Some(scalars_view(s@)),
                None => section(self@, key@) is None,
            },
    {
        proof {
            lemma_find_key_same_keys(keyed(self.entries@), self@, key@);
        }
        match key_position(&self.entries, key) {
            Some(i) => match &self.entries[i].1 {
                TomlItem::Table(s) => Some(s),
                _ => None,
            },
            None => None,
        }
    }

    /// The value stored under `key` at the top level.
    pub fn top_value(&self, key: &str) -> (r: Option<&TomlScalar>)
        ensures
            match r {
                Some(v) => top_value(self@, key@) == Some(v@),
                None => top_value(self@, key@) is None,
            },
    {
        proof {
            lemma_find_key_same_keys(keyed(self.entries@), self@, key@);
        }
        match key_position(&self.entries, key) {
            Some(i) => match &self.entries[i].1 {
                TomlItem::Value(v) => Some(v),
                _ => None,
            },
            None => None,
        }
    }
}

/// The value stored under `key` in a table.
pub fn get_value<'a>(s: &'a Vec<(String, TomlScalar)>, key: &str) -> (r: Option<&'a TomlScalar>)
    ensures
        match r {
            Some(v) => value_in(scalars_view(s@), key@) == Some(v@),
            None => value_in(scalars_view(s@), key@) is None,
        },
{
    proof {
        lemma_find_key_same_keys(keyed(s@), scalars_view(s@), key@);
    }
    match key_position(s, key) {
        Some(i) => Some(&s[i].1),
        None => None,
    }
}

/// `as_str` of the value under `key`.
pub fn get_str(s: &Vec<(String, TomlScalar)>, key: &str) -> (r: Option<String>)
    ensures
        match r {
            Some(x) => str_in(scalars_view(s@), key@) == Some(x@),
            None => str_in(scalars_view(s@), key@) is None,
        },
{
    match get_value(s, key) {
        Some(TomlScalar::Str(x)) => Some(x.clone()),
        _ => None,
    }
}

/// A text setting: a string under `key` other than the word `null`.
pub fn get_text(s: &Vec<(String, TomlScalar)>, key: &str) -> (r: Option<String>)
    ensures
        match r {
            Some(x) => text_in(scalars_view(s@), key@) == Some(x@),
            None => text_in(scalars_view(s@), key@) is None,
        },
{
    match get_str(s, key) {
        Some(x) => if str_eq(x.as_str(), "null") {
            None
        } else {
            Some(x)
        },
        None => None,
    }
}

/// `as_integer` of the value under `key`.
pub fn get_int(s: &Vec<(String, TomlScalar)>, key: &str) -> (r: Option<i64>)
    ensures
        r == int_in(scalars_view(s@), key@),
{
    match get_value(s, key) {
        Some(TomlScalar::Int(x)) => Some(*x),
        _ => None,
    }
}

/// `as_bool` of the value under `key`.
pub fn get_bool(s: &Vec<(String, TomlScalar)>, key: &str) -> (r: Option<bool>)
    ensures
        r == bool_in(scalars_view(s@), key@),
{
    match get_value(s, key) {
        Some(TomlScalar::Bool(x)) => Some(*x),
        _ => None,
    }
}

/// A value written into the configuration file.
pub enum EditValue {
    Str(String),
    Int(i64),
    Bool(bool),
}

/// One assignment into the configuration document: `key = value` at the
/// top level, or inside `[table]` (created when missing).
pub struct ConfigEdit {
    pub table: Option<String>,
    pub key: String,
    pub value: EditValue,
}

/// The mathematical form of an [`EditValue`].
pub enum EditValueView {
    Str(Seq<char>),
    Int(i64),
    Bool(bool),
}

/// The mathematical form of a [`ConfigEdit`].
pub struct EditView {
    pub table: Option<Seq<char>>,
    pub key: Seq<char>,
    pub value: EditValueView,
}

impl View for EditValue {
    type V = EditValueView;

    open spec fn view(&self) -> EditValueView {
        match self {
            EditValue::Str(s) => EditValueView::Str(s@),
            EditValue::Int(i) => EditValueView::Int(*i),
            EditValue::Bool(b) => EditValueView::Bool(*b),
        }
    }
}

impl View for ConfigEdit {
    type V = EditView;

    open spec fn view(&self) -> EditView {
        EditView {
            table: match &self.table {
                Some(t) => Some(t@),
                None => None,
            },
            key: self.key@,
            value: self.value@,
        }
    }
}

/// The views of a list of edits.
pub open spec fn edits_view(e: Seq<ConfigEdit>) -> Seq<EditView> {
    e.map_values(|x: ConfigEdit| x@)
}

/// The value an edit writes.
pub open spec fn edit_scalar(v: EditValueView) -> ScalarView {
    match v {
        EditValueView::Str(s) => ScalarView::Str(s),
        EditValueView::Int(i) => ScalarView::Int(i),
        EditValueView::Bool(b) => ScalarView::Bool(b),
    }
}

/// The table stored under `name` at the top level, or an empty one.
pub open spec fn table_of(t: Seq<(Seq<char>, ItemView)>, name: Seq<char>) -> Seq<(Seq<char>, ScalarView)> {
    match entries_get(t, name) {
        Some(ItemView::Table(s)) => s,
        _ => Seq::empty(),
    }
}

/// Can the edit be made? A table edit needs a table, or nothing, under the
/// table's name; saving stops on a plain value there.
pub open spec fn edit_fits(t: Seq<(Seq<char>, ItemView)>, e: EditView) -> bool {
    match e.table {
        Some(name) => !(entries_get(t, name) matches Some(ItemView::Value(_))),
        None => true,
    }
}

/// The document after one edit: `key = value` at the top level, or inside
/// `[table]`, the table created when missing.
pub open spec fn edit_applied(t: Seq<(Seq<char>, ItemView)>, e: EditView) -> Seq<(Seq<char>, ItemView)> {
    match e.table {
        None => entries_set(t, e.key, ItemView::Value(edit_scalar(e.value))),
        Some(name) => if edit_fits(t, e) {
            entries_set(t, name, ItemView::Table(entries_set(table_of(t, name), e.key, edit_scalar(e.value))))
        } else {
            t
        },
    }
}

/// The document after the edits, made in order.
pub open spec fn edits_applied(t: Seq<(Seq<char>, ItemView)>, es: Seq<EditView>) -> Seq<(Seq<char>, ItemView)>
    decreases es.len(),
{
    if es.len() == 0 {
        t
    } else {
        edit_applied(edits_applied(t, es.drop_last()), es.last())
    }
}

/// Can every edit be made, in order?
pub open spec fn edits_fit(t: Seq<(Seq<char>, ItemView)>, es: Seq<EditView>) -> bool
    decreases es.len(),
{
    if es.len() == 0 {
        true
    } else {
        edits_fit(t, es.drop_last()) && edit_fits(edits_applied(t, es.drop_last()), es.last())
    }
}

/// Does the edit write `key` in `[name]`?
pub open spec fn writes(e: EditView, name: Seq<char>, key: Seq<char>) -> bool {
    e.table == Some(name) && e.key == key
}

/// Does the edit replace the whole entry `name` by a plain value?
pub open spec fn overwrites(e: EditView, name: Seq<char>) -> bool {
    e.table is None && e.key == name
}

/// The value under `key` in `[name]` after the edits, given the value there
/// before: the last edit that writes it, unless the table itself is
/// overwritten later.
pub open spec fn written_value(es: Seq<EditView>, name: Seq<char>, key: Seq<char>, before: Option<ScalarView>) -> Option<
    ScalarView,
>
    decreases es.len(),
{
    if es.len() == 0 {
        before
    } else if writes(es.last(), name, key) {
        Some(edit_scalar(es.last().value))
    } else if overwrites(es.last(), name) {
        None
    } else {
        written_value(es.drop_last(), name, key, before)
    }
}

/// A value in a table is what the edits wrote there.
pub proof fn lemma_written_value(t: Seq<(Seq<char>, ItemView)>, es: Seq<EditView>, name: Seq<char>, key: Seq<char>)
    requires
        edits_fit(t, es),
    ensures
        entries_get(table_of(edits_applied(t, es), name), key) == written_value(
            es,
            name,
            key,
            entries_get(table_of(t, name), key),
        ),
    decreases es.len(),
{
    if es.len() > 0 {
        let prev = edits_applied(t, es.drop_last());
        let e = es.last();
        lemma_written_value(t, es.drop_last(), name, key);
        lemma_find_key(Seq::<(Seq<char>, ScalarView)>::empty(), key);
        match e.table {
            None => {
                lemma_entries_get_set(prev, e.key, ItemView::Value(edit_scalar(e.value)), name);
            },
            Some(n) => {
                let inner = entries_set(table_of(prev, n), e.key, edit_scalar(e.value));
                lemma_entries_get_set(prev, n, ItemView::Table(inner), name);
                lemma_entries_get_set(table_of(prev, n), e.key, edit_scalar(e.value), key);
            },
        }
    }
}

/// Edits made one list after another.
pub proof fn lemma_written_value_concat(a: Seq<EditView>, b: Seq<EditView>, name: Seq<char>, key: Seq<char>, before: Option<ScalarView>)
    ensures
        written_value(a + b, name, key, before) == written_value(b, name, key, written_value(a, name, key, before)),
    decreases b.len(),
{
    if b.len() == 0 {
        assert(a + b =~= a);
    } else {
        assert((a + b).drop_last() =~= a + b.drop_last());
        assert((a + b).last() == b.last());
        lemma_written_value_concat(a, b.drop_last(), name, key, before);
    }
}

/// Edits that neither write `key` in `[name]` nor overwrite `name` leave
/// the value as it was.
pub proof fn lemma_written_value_untouched(es: Seq<EditView>, name: Seq<char>, key: Seq<char>, before: Option<ScalarView>)
    requires
        forall|i: int| 0 <= i < es.len() ==> !writes(#[trigger] es[i], name, key) && !overwrites(es[i], name),
    ensures
        written_value(es, name, key, before) == before,
    decreases es.len(),
{
    if es.len() > 0 {
        assert(!writes(es[es.len() - 1], name, key));
        lemma_written_value_untouched(es.drop_last(), name, key, before);
    }
}

/// The last edit that writes `key` in `[name]` decides its value when
/// nothing after it overwrites the table.
pub proof fn lemma_written_value_last(es: Seq<EditView>, j: int, name: Seq<char>, key: Seq<char>, before: Option<ScalarView>)
    requires
        0 <= j < es.len(),
        writes(es[j], name, key),
        forall|i: int| j < i < es.len() ==> !writes(#[trigger] es[i], name, key) && !overwrites(es[i], name),
    ensures
        written_value(es, name, key, before) == Some(edit_scalar(es[j].value)),
    decreases es.len(),
{
    if j < es.len() - 1 {
        assert(!writes(es[es.len() - 1], name, key));
        lemma_written_value_last(es.drop_last(), j, name, key, before);
    }
}

/// The top-level entry `key` after the edits, given the entry before, when
/// no edit writes into a table named `key`: the last plain value written
/// there.
pub open spec fn written_top(es: Seq<EditView>, key: Seq<char>, before: Option<ItemView>) -> Option<ItemView>
    decreases es.len(),
{
    if es.len() == 0 {
        before
    } else if overwrites(es.last(), key) {
        Some(ItemView::Value(edit_scalar(es.last().value)))
    } else {
        written_top(es.drop_last(), key, before)
    }
}

/// A top-level entry is what the edits last wrote there.
pub proof fn lemma_written_top(t: Seq<(Seq<char>, ItemView)>, es: Seq<EditView>, key: Seq<char>)
    requires
        forall|i: int| 0 <= i < es.len() ==> (#[trigger] es[i]).table != Some(key),
    ensures
        entries_get(edits_applied(t, es), key) == written_top(es, key, entries_get(t, key)),
    decreases es.len(),
{
    if es.len() > 0 {
        let prev = edits_applied(t, es.drop_last());
        let e = es.last();
        assert(e == es[es.len() - 1]);
        lemma_written_top(t, es.drop_last(), key);
        match e.table {
            None => {
                lemma_entries_get_set(prev, e.key, ItemView::Value(edit_scalar(e.value)), key);
            },
            Some(n) => {
                let inner = entries_set(table_of(prev, n), e.key, edit_scalar(e.value));
                lemma_entries_get_set(prev, n, ItemView::Table(inner), key);
            },
        }
    }
}

/// Top-level edits made one list after another.
pub proof fn lemma_written_top_concat(a: Seq<EditView>, b: Seq<EditView>, key: Seq<char>, before: Option<ItemView>)
    ensures
        written_top(a + b, key, before) == written_top(b, key, written_top(a, key, before)),
    decreases b.len(),
{
    if b.len() == 0 {
        assert(a + b =~= a);
    } else {
        assert((a + b).drop_last() =~= a + b.drop_last());
        assert((a + b).last() == b.last());
        lemma_written_top_concat(a, b.drop_last(), key, before);
    }
}

/// Edits into tables leave every top-level value as it was.
pub proof fn lemma_written_top_untouched(es: Seq<EditView>, key: Seq<char>, before: Option<ItemView>)
    requires
        forall|i: int| 0 <= i < es.len() ==> !overwrites(#[trigger] es[i], key),
    ensures
        written_top(es, key, before) == before,
    decreases es.len(),
{
    if es.len() > 0 {
        assert(!overwrites(es[es.len() - 1], key));
        lemma_written_top_untouched(es.drop_last(), key, before);
    }
}

/// A key that some edit writes, in a table no edit overwrites, holds a value.
pub proof fn lemma_written_value_some(es: Seq<EditView>, j: int, name: Seq<char>, key: Seq<char>, before: Option<ScalarView>)
    requires
        0 <= j < es.len(),
        writes(es[j], name, key),
        forall|i: int| 0 <= i < es.len() ==> !overwrites(#[trigger] es[i], name),
    ensures
        written_value(es, name, key, before) is Some,
    decreases es.len(),
{
    assert(!overwrites(es[es.len() - 1], name));
    if j < es.len() - 1 && !writes(es[es.len() - 1], name, key) {
        lemma_written_value_some(es.drop_last(), j, name, key, before);
    }
}

/// No key stands twice among the entries.
pub open spec fn keys_distinct<V>(entries: Seq<(Seq<char>, V)>) -> bool {
    forall|i: int, j: int| 0 <= i < j < entries.len() ==> (#[trigger] entries[i]).0 != (#[trigger] entries[j]).0
}

/// Storing a value keeps the keys distinct.
pub proof fn lemma_set_keeps_keys_distinct<V>(entries: Seq<(Seq<char>, V)>, key: Seq<char>, value: V)
    requires
        keys_distinct(entries),
    ensures
        keys_distinct(entries_set(entries, key, value)),
{
    lemma_find_key(entries, key);
    let r = entries_set(entries, key, value);
    match find_key(entries, key) {
        Some(k) => {
            assert forall|i: int, j: int| 0 <= i < j < r.len() implies (#[trigger] r[i]).0 != (#[trigger] r[j]).0 by {
                assert(r[i].0 == entries[i].0 && r[j].0 == entries[j].0);
            }
        },
        None => {
            assert forall|i: int, j: int| 0 <= i < j < r.len() implies (#[trigger] r[i]).0 != (#[trigger] r[j]).0 by {
                if j < entries.len() {
                    assert(r[i] == entries[i] && r[j] == entries[j]);
                } else {
                    assert(r[i] == entries[i]);
                }
            }
        },
    }
}

/// Edits keep the keys of a table distinct.
pub proof fn lemma_edits_keep_keys_distinct(t: Seq<(Seq<char>, ItemView)>, es: Seq<EditView>, name: Seq<char>)
    requires
        keys_distinct(table_of(t, name)),
    ensures
        keys_distinct(table_of(edits_applied(t, es), name)),
    decreases es.len(),
{
    if es.len() > 0 {
        let prev = edits_applied(t, es.drop_last());
        let e = es.last();
        lemma_edits_keep_keys_distinct(t, es.drop_last(), name);
        match e.table {
            None => {
                lemma_entries_get_set(prev, e.key, ItemView::Value(edit_scalar(e.value)), name);
            },
            Some(n) => {
                let inner = entries_set(table_of(prev, n), e.key, edit_scalar(e.value));
                lemma_entries_get_set(prev, n, ItemView::Table(inner), name);
                if n == name {
                    lemma_set_keeps_keys_distinct(table_of(prev, n), e.key, edit_scalar(e.value));
                }
            },
        }
    }
}

/// Among edits that each switch a top-level key off, the last one for
/// `key` leaves it off.
pub proof fn lemma_written_top_off(es: Seq<EditView>, j: int, key: Seq<char>, before: Option<ItemView>)
    requires
        0 <= j < es.len(),
        overwrites(es[j], key),
        forall|i: int| 0 <= i < es.len() ==> (#[trigger] es[i]).table is None && es[i].value == EditValueView::Bool(false),
    ensures
        written_top(es, key, before) == Some(ItemView::Value(ScalarView::Bool(false))),
    decreases es.len(),
{
    assert(es[es.len() - 1].table is None);
    if j < es.len() - 1 && !overwrites(es[es.len() - 1], key) {
        lemma_written_top_off(es.drop_last(), j, key, before);
    }
}

/// Two tables hold the same value under every key.
pub open spec fn same_table(a: Seq<(Seq<char>, ScalarView)>, b: Seq<(Seq<char>, ScalarView)>) -> bool {
    forall|k: Seq<char>| #[trigger] entries_get(a, k) == entries_get(b, k)
}

/// Two entries agree: the same value, or tables with the same contents.
pub open spec fn same_item(a: Option<ItemView>, b: Option<ItemView>) -> bool {
    match (a, b) {
        (Some(ItemView::Table(s)), Some(ItemView::Table(t))) => same_table(s, t),
        _ => a == b,
    }
}

/// Two documents hold the same entries under every key, whatever their
/// order (a parse lists keys in its own order).
pub open spec fn same_document(a: Seq<(Seq<char>, ItemView)>, b: Seq<(Seq<char>, ItemView)>) -> bool {
    forall|k: Seq<char>| same_item(#[trigger] entries_get(a, k), entries_get(b, k))
}

/// Documents with the same entries have tables with the same contents.
pub proof fn lemma_same_table_of(a: Seq<(Seq<char>, ItemView)>, b: Seq<(Seq<char>, ItemView)>, name: Seq<char>)
    requires
        same_document(a, b),
    ensures
        same_table(table_of(a, name), table_of(b, name)),
{
    assert(same_item(entries_get(a, name), entries_get(b, name)));
}

/// One edit keeps two documents with the same entries alike.
pub proof fn lemma_same_after_edit(a: Seq<(Seq<char>, ItemView)>, b: Seq<(Seq<char>, ItemView)>, e: EditView)
    requires
        same_document(a, b),
    ensures
        same_document(edit_applied(a, e), edit_applied(b, e)),
        edit_fits(a, e) == edit_fits(b, e),
{
    let a1 = edit_applied(a, e);
    let b1 = edit_applied(b, e);
    match e.table {
        Some(n) => {
            assert(same_item(entries_get(a, n), entries_get(b, n)));
            lemma_same_table_of(a, b, n);
        },
        None => {},
    }
    assert forall|k: Seq<char>| same_item(#[trigger] entries_get(a1, k), entries_get(b1, k)) by {
        assert(same_item(entries_get(a, k), entries_get(b, k)));
        match e.table {
            None => {
                lemma_entries_get_set(a, e.key, ItemView::Value(edit_scalar(e.value)), k);
                lemma_entries_get_set(b, e.key, ItemView::Value(edit_scalar(e.value)), k);
            },
            Some(n) => {
                if edit_fits(a, e) {
                    let sa = entries_set(table_of(a, n), e.key, edit_scalar(e.value));
                    let sb = entries_set(table_of(b, n), e.key, edit_scalar(e.value));
                    lemma_entries_get_set(a, n, ItemView::Table(sa), k);
                    lemma_entries_get_set(b, n, ItemView::Table(sb), k);
                    assert forall|k2: Seq<char>| #[trigger] entries_get(sa, k2) == entries_get(sb, k2) by {
                        lemma_entries_get_set(table_of(a, n), e.key, edit_scalar(e.value), k2);
                        lemma_entries_get_set(table_of(b, n), e.key, edit_scalar(e.value), k2);
                        assert(entries_get(table_of(a, n), k2) == entries_get(table_of(b, n), k2));
                    }
                }
            },
        }
    }
}

/// Edits keep two documents with the same entries alike.
pub proof fn lemma_same_after_edits(a: Seq<(Seq<char>, ItemView)>, b: Seq<(Seq<char>, ItemView)>, es: Seq<EditView>)
    requires
        same_document(a, b),
    ensures
        same_document(edits_applied(a, es), edits_applied(b, es)),
        edits_fit(a, es) == edits_fit(b, es),
    decreases es.len(),
{
    if es.len() > 0 {
        lemma_same_after_edits(a, b, es.drop_last());
        lemma_same_after_edit(edits_applied(a, es.drop_last()), edits_applied(b, es.drop_last()), es.last());
    }
}

/// Reading through documents with the same entries gives the same values.
pub proof fn lemma_same_reads(a: Seq<(Seq<char>, ItemView)>, b: Seq<(Seq<char>, ItemView)>, name: Seq<char>, key: Seq<char>)
    requires
        same_document(a, b),
    ensures
        top_value(a, name) == top_value(b, name),
        section(a, name) is Some == section(b, name) is Some,
        section(a, name) is Some ==> value_in(section(a, name)->0, key) == value_in(section(b, name)->0, key),
{
    assert(same_item(entries_get(a, name), entries_get(b, name)));
    match entries_get(a, name) {
        Some(ItemView::Table(s)) => {
            assert(entries_get(s, key) == entries_get(table_of(b, name), key));
        },
        _ => {},
    }
}

/// A table that holds a value is stored under its name.
pub proof fn lemma_table_present(t: Seq<(Seq<char>, ItemView)>, name: Seq<char>, key: Seq<char>)
    requires
        entries_get(table_of(t, name), key) is Some,
    ensures
        section(t, name) == Some(table_of(t, name)),
{
    lemma_find_key(Seq::<(Seq<char>, ScalarView)>::empty(), key);
}

/// The engines a configuration file can switch on, in the order they are
/// looked at.
pub open spec fn engine_flag(i: int) -> Seq<char> {
    if i == 0 {
        "google"@
    } else if i == 1 {
        "bing"@
    } else if i == 2 {
        "deepl"@
    } else if i == 3 {
        "openai"@
    } else if i == 4 {
        "zhipu"@
    } else if i == 5 {
        "siliconflow"@
    } else if i == 6 {
        "siliconflowfree"@
    } else if i == 7 {
        "gemini"@
    } else if i == 8 {
        "azure"@
    } else if i == 9 {
        "tencent"@
    } else if i == 10 {
        "dify"@
    } else if i == 11 {
        "anythingllm"@
    } else if i == 12 {
        "ollama"@
    } else if i == 13 {
        "grok"@
    } else if i == 14 {
        "groq"@
    } else if i == 15 {
        "deepseek"@
    } else if i == 16 {
        "qwenmt"@
    } else if i == 17 {
        "openaicompatible"@
    } else if i == 18 {
        "claudecode"@
    } else if i == 19 {
        "aliyundashscope"@
    } else if i == 20 {
        "azureopenai"@
    } else if i == 21 {
        "modelscope"@
    } else {
        "xinference"@
    }
}

/// The number of engine flags.
pub const ENGINE_FLAG_COUNT: usize = 23;

/// The `i`-th engine flag.
pub fn engine_flag_name(i: usize) -> (r: &'static str)
    requires
        i < ENGINE_FLAG_COUNT,
    ensures
        r@ == engine_flag(i as int),
{
    match i {
        0 => "google",
        1 => "bing",
        2 => "deepl",
        3 => "openai",
        4 => "zhipu",
        5 => "siliconflow",
        6 => "siliconflowfree",
        7 => "gemini",
        8 => "azure",
        9 => "tencent",
        10 => "dify",
        11 => "anythingllm",
        12 => "ollama",
        13 => "grok",
        14 => "groq",
        15 => "deepseek",
        16 => "qwenmt",
        17 => "openaicompatible",
        18 => "claudecode",
        19 => "aliyundashscope",
        20 => "azureopenai",
        21 => "modelscope",
        _ => "xinference",
    }
}

/// The text a detail value stands for: a string other than `null`, a
/// number's decimal text, a float's text, `true`/`false`; nothing for other
/// values.
pub open spec fn scalar_text(x: ScalarView) -> Option<Seq<char>> {
    match x {
        ScalarView::Str(s) => if s == "null"@ {
            None
        } else {
            Some(s)
        },
        ScalarView::Int(i) => Some(crate::text::signed_decimal(i as int)),
        ScalarView::Float(t) => Some(t),
        ScalarView::Bool(b) => Some(if b {"true"@ } else { "false"@ }),
        ScalarView::Other => None,
    }
}

/// The text a detail value stands for.
pub fn scalar_string(x: &TomlScalar) -> (r: Option<String>)
    ensures
        match r {
            Some(s) => scalar_text(x@) == Some(s@),
            None => scalar_text(x@) is None,
        },
{
    match x {
        TomlScalar::Str(s) => if str_eq(s.as_str(), "null") {
            None
        } else {
            Some(s.clone())
        },
        TomlScalar::Int(i) => Some(crate::text::i64_to_string(*i)),
        TomlScalar::Float(t) => Some(t.clone()),
        TomlScalar::Bool(b) => Some(crate::text::string_of(if *b {"true" } else { "false" })),
        TomlScalar::Other => None,
    }
}

} // verus!

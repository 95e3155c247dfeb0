//! The configuration file's text: reading it with `toml`, and writing edits
//! into it with `toml_edit`, which keeps the rest of the file as it was.

use vstd::prelude::*;
use toml::Value;
use crate::config::{table_edit, top_edit};
use crate::toml_model::{
    edit_applied, edit_fits, edits_applied, edits_fit, edits_view, same_document, ConfigEdit, EditValue,
    ItemView, TomlItem, TomlScalar, TomlTable};

verus! {

/// What `toml` reads from a configuration file's text: its top-level
/// entries, or nothing when the text is not TOML.
pub uninterp spec fn parsed_config(text: Seq<char>) -> Option<Seq<(Seq<char>, ItemView)>>;

/// `text.parse::<toml::Table>()`, each top-level entry kept as a value or a
/// table of values (a float as its `to_string` text, arrays, dates and
/// deeper tables as `Other`). The claim: the result is what the text holds
/// (`parsed_config`), and an error comes exactly when the text is not TOML;
/// the error's message is `toml`'s and is not stated.
#[verifier::external_body]
pub(crate) fn parse_config(text: &str) -> (r: Result<TomlTable, String>)
    ensures
        match r {
            Ok(t) => parsed_config(text@) == Some(t@),
            Err(_) => parsed_config(text@) is None,
        },
{
    let t = text.parse::<toml::Table>().map_err(|e| e.to_string())?;
    let sc = |v: Value| match v {
        Value::String(s) => TomlScalar::Str(s),
        Value::Integer(i) => TomlScalar::Int(i),
        Value::Float(f) => TomlScalar::Float(f.to_string()),
        Value::Boolean(b) => TomlScalar::Bool(b),
        _ => TomlScalar::Other,
    };
    Ok(TomlTable { entries: t.into_iter().map(|(k, v)| (k, match v {
        Value::Table(m) => TomlItem::Table(m.into_iter().map(|(k, x)| (k, sc(x))).collect()),
        v => TomlItem::Value(sc(v)),
    })).collect() })
}

#[verifier::external_type_specification]
#[verifier::external_body]
pub struct ExDocumentMut(toml_edit::DocumentMut);

/// The top-level entries of an editable document, in the document's own
/// order, each as `toml` reads it back from the document's text.
pub uninterp spec fn document_entries(d: toml_edit::DocumentMut) -> Seq<(Seq<char>, ItemView)>;

/// `DocumentMut::new`: an empty document.
#[verifier::external_body]
fn new_document() -> (d: toml_edit::DocumentMut)
    ensures
        document_entries(d) == Seq::<(Seq<char>, ItemView)>::empty(),
{
    toml_edit::DocumentMut::new()
}

/// `text.parse::<DocumentMut>()`. The claim: `toml_edit` and `toml` read
/// text with the same parser (`toml_parser`), so a document comes exactly
/// from the text `toml` reads, and holds the entries `toml` reads from it
/// (in its own order); the error's message is `toml_edit`'s and is not
/// stated.
#[verifier::external_body]
fn parse_document(text: &str) -> (r: Result<toml_edit::DocumentMut, String>)
    ensures
        parsed_config(text@) is Some ==> r is Ok,
        r is Ok ==> parsed_config(text@) is Some && same_document(
            parsed_config(text@)->0,
            document_entries(r->Ok_0),
        ),
{
    text.parse::<toml_edit::DocumentMut>().map_err(|e| e.to_string())
}

/// `doc[key] = value`: the entry is replaced where it stands, or added
/// last.
#[verifier::external_body]
fn set_top(d: &mut toml_edit::DocumentMut, key: &str, value: &EditValue)
    ensures
        document_entries(*final(d)) == edit_applied(document_entries(*old(d)), top_edit(key@, value@)),
{
    d[key] = match value {
        EditValue::Str(s) => toml_edit::value(s.as_str()),
        EditValue::Int(i) => toml_edit::value(*i),
        EditValue::Bool(b) => toml_edit::value(*b),
    };
}

/// `doc[table].or_insert(Table::new()).as_table_like_mut()`, then
/// `insert(key, value)`: the table (standard or inline) is created last
/// when missing, an existing key keeps its place and a new one goes last.
/// The claim: when the entry under `table` is a plain value (not a table)
/// nothing changes and `false` comes back; otherwise the edit is made.
#[verifier::external_body]
fn set_in_table(d: &mut toml_edit::DocumentMut, table: &str, key: &str, value: &EditValue) -> (r: bool)
    ensures
        r == edit_fits(document_entries(*old(d)), table_edit(table@, key@, value@)),
        r ==> document_entries(*final(d)) == edit_applied(document_entries(*old(d)), table_edit(table@, key@, value@)),
        !r ==> *final(d) == *old(d),
{
    let item = match value {
        EditValue::Str(s) => toml_edit::value(s.as_str()),
        EditValue::Int(i) => toml_edit::value(*i),
        EditValue::Bool(b) => toml_edit::value(*b),
    };
    match d[table].or_insert(toml_edit::Item::Table(toml_edit::Table::new())).as_table_like_mut() {
        Some(t) => { t.insert(key, item); true }
        None => false,
    }
}

/// `doc.to_string()`. The claim: `toml` reads back from the text the
/// entries the document holds.
#[verifier::external_body]
fn document_text(d: &toml_edit::DocumentMut) -> (r: String)
    ensures
        parsed_config(r@) is Some && same_document(parsed_config(r@)->0, document_entries(*d)),
{
    d.to_string()
}

/// The entries a save starts from: those of the file's text, or none when
/// there is no file.
pub open spec fn saved_over(existing: Option<Seq<char>>) -> Seq<(Seq<char>, ItemView)> {
    match existing {
        Some(t) => match parsed_config(t) {
            Some(p) => p,
            None => Seq::empty(),
        },
        None => Seq::empty(),
    }
}

/// Documents alike with a third are alike with each other.
proof fn lemma_same_document_through(a: Seq<(Seq<char>, ItemView)>, b: Seq<(Seq<char>, ItemView)>, c: Seq<(Seq<char>, ItemView)>)
    requires
        same_document(a, b),
        same_document(c, b),
    ensures
        same_document(a, c),
{
    assert forall|k: Seq<char>| crate::toml_model::same_item(#[trigger] crate::json::entries_get(a, k), crate::json::entries_get(c, k)) by {
        assert(crate::toml_model::same_item(crate::json::entries_get(a, k), crate::json::entries_get(b, k)));
        assert(crate::toml_model::same_item(crate::json::entries_get(c, k), crate::json::entries_get(b, k)));
        match (crate::json::entries_get(a, k), crate::json::entries_get(c, k)) {
            (Some(ItemView::Table(s1)), Some(ItemView::Table(s2))) => {
                assert forall|k2: Seq<char>| #[trigger] crate::json::entries_get(s1, k2) == crate::json::entries_get(s2, k2) by {
                    match crate::json::entries_get(b, k) {
                        Some(ItemView::Table(s3)) => {
                            assert(crate::json::entries_get(s1, k2) == crate::json::entries_get(s3, k2));
                            assert(crate::json::entries_get(s2, k2) == crate::json::entries_get(s3, k2));
                        },
                        _ => {},
                    }
                }
            },
            _ => {},
        }
    }
}

/// Edits that can all be made can be made up to any point.
proof fn lemma_edits_fit_prefix(t: Seq<(Seq<char>, ItemView)>, es: Seq<crate::toml_model::EditView>, k: int)
    requires
        0 <= k <= es.len(),
        edits_fit(t, es),
    ensures
        edits_fit(t, es.take(k)),
    decreases es.len() - k,
{
    if k < es.len() {
        lemma_edits_fit_prefix(t, es.drop_last(), k);
        assert(es.drop_last().take(k) =~= es.take(k));
    } else {
        assert(es.take(k) =~= es);
    }
}

/// Makes `edits` on the file's text (or on an empty document when there is
/// no file) and gives the new text, the rest of the file kept. Text that is
/// not TOML is an error; so is a table edit into an entry that is not a
/// table (where `toml_edit` has no table to write into). The text given
/// back reads as the old entries with the edits made.
pub fn edit_config_text(edits: &Vec<ConfigEdit>, existing: Option<&str>) -> (r: Result<String, String>)
    ensures
        (existing matches Some(t) && parsed_config(t@) is None) ==> r is Err,
        ({
            let start = saved_over(
                match existing {
                    Some(t) => Some(t@),
                    None => None,
                },
            );
            r matches Ok(text) ==> parsed_config(text@) is Some && edits_fit(start, edits_view(edits@))
                && same_document(parsed_config(text@)->0, edits_applied(start, edits_view(edits@)))
        }),
        (existing matches Some(t) ==> parsed_config(t@) is Some) && edits_fit(
            saved_over(
                match existing {
                    Some(t) => Some(t@),
                    None => None,
                },
            ),
            edits_view(edits@),
        ) ==> r is Ok,
{
    let ghost start = saved_over(
        match existing {
            Some(t) => Some(t@),
            None => None,
        },
    );
    let mut doc = match existing {
        Some(t) => {
            match parse_config(t) {
                Ok(_) => {},
                Err(m) => {
                    return Err(m);
                },
            }
            match parse_document(t) {
                Ok(d) => d,
                Err(m) => {
                    return Err(m);
                },
            }
        },
        None => new_document(),
    };
    let ghost d0 = document_entries(doc);
    let ghost ev = edits_view(edits@);
    proof {
        if existing is None {
            assert forall|k: Seq<char>| crate::toml_model::same_item(#[trigger] crate::json::entries_get(start, k), crate::json::entries_get(d0, k)) by {
                assert(start == d0);
            }
        }
        assert(same_document(start, d0));
        assert(ev.take(0) =~= Seq::<crate::toml_model::EditView>::empty());
        crate::toml_model::lemma_same_after_edits(start, d0, ev);
    }
    let mut i: usize = 0;
    while i < edits.len()
        invariant
            i <= edits@.len(),
            ev == edits_view(edits@),
            ev.len() == edits@.len(),
            document_entries(doc) == edits_applied(d0, ev.take(i as int)),
            edits_fit(d0, ev.take(i as int)),
            edits_fit(start, ev) == edits_fit(d0, ev),
            start == saved_over(
                match existing {
                    Some(t) => Some(t@),
                    None => None,
                },
            ),
            (existing matches Some(t) ==> parsed_config(t@) is Some) && edits_fit(start, ev) ==> edits_fit(d0, ev),
        decreases edits@.len() - i,
    {
        let e = &edits[i];
        proof {
            assert(ev.take(i + 1).drop_last() =~= ev.take(i as int));
            assert(ev.take(i + 1).last() == e@);
            if edits_fit(d0, ev) {
                lemma_edits_fit_prefix(d0, ev, i + 1);
                assert(edits_fit(d0, ev.take(i + 1)));
                assert(edit_fits(edits_applied(d0, ev.take(i as int)), e@));
            }
        }
        match &e.table {
            None => {
                set_top(&mut doc, e.key.as_str(), &e.value);
            },
            Some(t) => {
                assert(e@ == table_edit(t@, e.key@, e.value@));
                let done = set_in_table(&mut doc, t.as_str(), e.key.as_str(), &e.value);
                if !done {
                    return Err(crate::text::string_of("a table of the configuration file is written as a value"));
                }
            },
        }
        i = i + 1;
    }
    proof {
        assert(ev.take(ev.len() as int) =~= ev);
        crate::toml_model::lemma_same_after_edits(start, d0, ev);
    }
    let text = document_text(&doc);
    proof {
        lemma_same_document_through(parsed_config(text@)->0, edits_applied(d0, ev), edits_applied(start, ev));
    }
    Ok(text)
}


/// Editing keeps what the edits do not write: for text that editing gave
/// (over the file's old text, or none), a top-level entry that no edit
/// writes or writes into reads as before, and a value in a table that no
/// edit writes, in a table no edit replaces, reads as before.
pub proof fn law_edits_keep_other_entries(
    es: Seq<crate::toml_model::EditView>,
    existing: Option<Seq<char>>,
    text: Seq<char>,
    key: Seq<char>,
    name: Seq<char>,
    inner: Seq<char>,
)
    requires
        parsed_config(text) is Some,
        edits_fit(saved_over(existing), es),
        same_document(parsed_config(text)->0, edits_applied(saved_over(existing), es)),
    ensures
        (forall|i: int| 0 <= i < es.len() ==> (#[trigger] es[i]).table != Some(key) && !crate::toml_model::overwrites(es[i], key))
            ==> crate::toml_model::same_item(
            crate::json::entries_get(parsed_config(text)->0, key),
            crate::json::entries_get(saved_over(existing), key),
        ),
        (forall|i: int| 0 <= i < es.len() ==> !crate::toml_model::writes(#[trigger] es[i], name, inner) && !crate::toml_model::overwrites(es[i], name))
            ==> crate::json::entries_get(crate::toml_model::table_of(parsed_config(text)->0, name), inner)
            == crate::json::entries_get(crate::toml_model::table_of(saved_over(existing), name), inner),
{
    let p = parsed_config(text)->0;
    let t = saved_over(existing);
    let e = edits_applied(t, es);
    assert(crate::toml_model::same_item(crate::json::entries_get(p, key), crate::json::entries_get(e, key)));
    if forall|i: int| 0 <= i < es.len() ==> (#[trigger] es[i]).table != Some(key) && !crate::toml_model::overwrites(es[i], key) {
        crate::toml_model::lemma_written_top(t, es, key);
        crate::toml_model::lemma_written_top_untouched(es, key, crate::json::entries_get(t, key));
        match crate::json::entries_get(t, key) {
            Some(ItemView::Table(s1)) => {
                assert forall|k: Seq<char>| #[trigger] crate::json::entries_get(s1, k) == crate::json::entries_get(s1, k) by {}
            },
            _ => {},
        }
    }
    if forall|i: int| 0 <= i < es.len() ==> !crate::toml_model::writes(#[trigger] es[i], name, inner) && !crate::toml_model::overwrites(es[i], name) {
        crate::toml_model::lemma_written_value(t, es, name, inner);
        crate::toml_model::lemma_written_value_untouched(es, name, inner, crate::json::entries_get(crate::toml_model::table_of(t, name), inner));
        crate::toml_model::lemma_same_table_of(p, e, name);
    }
}

} // verus!

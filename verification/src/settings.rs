//! The settings object sent to the backend with a translate command.

use vstd::prelude::*;
use crate::app::{App, AppView};
use crate::json::{
    entries_get, entries_set, entries_view, json_int, lemma_entries_view_push, Json,
    JsonValue};
use crate::ordered_map::{map_get, map_get_index};
use crate::protocol::FieldSchemaView;
use crate::text::{parse_i64, parse_i64_spec, str_eq, string_of, trim, trim_spec};

verus! {

/// The language code of entry `i` of the language table, or `default` when
/// the table has no such entry.
pub open spec fn code_at(langs: Seq<(Seq<char>, Seq<char>)>, i: int, default: Seq<char>) -> Seq<char> {
    if 0 <= i < langs.len() {
        langs[i].1
    } else {
        default
    }
}

/// The number typed into a field, trimmed, when it is a positive `i64`.
pub open spec fn positive_number(s: Seq<char>) -> Option<i64> {
    match parse_i64_spec(trim_spec(s)) {
        Some(n) => if n > 0 {
            Some(n)
        } else {
            None
        },
        None => None,
    }
}

/// One entry when there is a value, none otherwise.
pub open spec fn opt_entry(key: Seq<char>, value: Option<Json>) -> Seq<(Seq<char>, Json)> {
    match value {
        Some(j) => seq![(key, j)],
        None => Seq::empty(),
    }
}

/// `key: true` when `on`, nothing otherwise.
pub open spec fn flag_entry(key: Seq<char>, on: bool) -> Seq<(Seq<char>, Json)> {
    opt_entry(key, if on {Some(Json::Bool(true)) } else { None })
}

/// `key: n` when there is a number.
pub open spec fn int_entry(key: Seq<char>, n: Option<i64>) -> Seq<(Seq<char>, Json)> {
    opt_entry(
        key,
        match n {
            Some(i) => Some(json_int(i as int)),
            None => None,
        },
    )
}

/// `key: "s"` when `s` is not empty.
pub open spec fn text_entry(key: Seq<char>, s: Seq<char>) -> Seq<(Seq<char>, Json)> {
    opt_entry(key, if s.len() > 0 {Some(Json::Str(s)) } else { None })
}

/// The `basic` section.
pub open spec fn basic_section() -> Json {
    Json::Object(
        seq![
            ("input_files"@, Json::Array(Seq::empty())),
            ("debug"@, Json::Bool(false)),
            ("gui"@, Json::Bool(false)),
        ],
    )
}

/// The entries of the `translation` section: languages (English to
/// Simplified Chinese when the table lacks the chosen entry) and QPS always;
/// the prompt, the numbers, the paths and the glossary switches only when
/// set.
pub open spec fn translation_entries(v: AppView) -> Seq<(Seq<char>, Json)> {
    seq![
        ("lang_in"@, Json::Str(code_at(v.language_map, v.lang_in_idx as int, "en"@))),
        ("lang_out"@, Json::Str(code_at(v.language_map, v.lang_out_idx as int, "zh-CN"@))),
        ("qps"@, json_int(v.qps as int)),
    ] + text_entry("custom_system_prompt"@, v.custom_prompt) + int_entry(
        "min_text_length"@,
        if v.min_text_length.len() > 0 {
            parse_i64_spec(v.min_text_length)
        } else {
            None
        },
    ) + int_entry("pool_max_workers"@, positive_number(v.pool_max_workers_input)) + int_entry(
        "term_qps"@,
        positive_number(v.term_qps_input),
    ) + int_entry("term_pool_max_workers"@, positive_number(v.term_pool_max_workers_input))
        + text_entry("output"@, trim_spec(v.output_dir)) + text_entry(
        "glossaries"@,
        trim_spec(v.glossary_files),
    ) + flag_entry("save_auto_extracted_glossary"@, v.save_auto_extracted_glossary) + flag_entry(
        "no_auto_extract_glossary"@,
        v.disable_auto_extract_glossary,
    )
}

/// The entries of the `pdf` section: the three output switches always; the
/// page range, the numbers and the other switches only when set.
pub open spec fn pdf_entries(v: AppView) -> Seq<(Seq<char>, Json)> {
    seq![
        ("no_dual"@, Json::Bool(v.no_dual)),
        ("no_mono"@, Json::Bool(v.no_mono)),
        ("dual_translate_first"@, Json::Bool(v.dual_translate_first)),
    ] + text_entry("pages"@, v.pages_input) + flag_entry("skip_clean"@, v.skip_clean) + int_entry(
        "max_pages_per_part"@,
        positive_number(v.max_pages_per_part_input),
    ) + flag_entry("skip_scanned_detection"@, v.skip_scanned_detection) + flag_entry(
        "only_include_translated_page"@,
        v.only_include_translated_page,
    )
}

/// What an engine parameter contributes: a non-empty typed value as its
/// type says (`bool`: whether it is `true`; `int`: the number, or nothing if
/// it does not parse; else the text); no value at all: the default unless
/// it is `null`; an empty value: nothing.
pub open spec fn param_setting(f: FieldSchemaView, params: Seq<(Seq<char>, Seq<char>)>) -> Option<Json> {
    match entries_get(params, f.name) {
        Some(val) => if val.len() == 0 {
            None
        } else if f.field_type == "bool"@ {
            Some(Json::Bool(val == "true"@))
        } else if f.field_type == "int"@ {
            match parse_i64_spec(val) {
                Some(n) => Some(json_int(n as int)),
                None => None,
            }
        } else {
            Some(Json::Str(val))
        },
        None => if f.default is Null {
            None
        } else {
            Some(f.default)
        },
    }
}

/// The engine section's entries after the parameters of `fields` were
/// written over `base`, one after another.
pub open spec fn engine_entries(
    fields: Seq<FieldSchemaView>,
    params: Seq<(Seq<char>, Seq<char>)>,
    base: Seq<(Seq<char>, Json)>,
) -> Seq<(Seq<char>, Json)>
    decreases fields.len(),
{
    if fields.len() == 0 {
        base
    } else {
        let acc = engine_entries(fields.drop_last(), params, base);
        let f = fields.last();
        match param_setting(f, params) {
            Some(j) => entries_set(acc, f.name, j),
            None => acc,
        }
    }
}

/// The `translate_engine_settings` section for the selected engine: its
/// type, then its parameters.
pub open spec fn engine_section(v: AppView) -> Json {
    let e = v.engine_schemas[v.engine_idx as int];
    Json::Object(engine_entries(e.fields, v.engine_params, seq![("translate_engine_type"@, Json::Str(e.name))]))
}

/// The settings object: `basic`, `translation` and `pdf`, then the engine
/// section when an engine is selected.
pub open spec fn settings_json(v: AppView) -> Json {
    Json::Object(
        seq![
            ("basic"@, basic_section()),
            ("translation"@, Json::Object(translation_entries(v))),
            ("pdf"@, Json::Object(pdf_entries(v))),
        ] + if v.engine_idx < v.engine_schemas.len() {
            seq![("translate_engine_settings"@, engine_section(v))]
        } else {
            Seq::empty()
        },
    )
}

/// The number typed into a field, trimmed, when it is a positive `i64`.
pub fn parse_positive_i64(input: &str) -> (r: Option<i64>)
    ensures
        r == positive_number(input@),
{
    let t = trim(input);
    match parse_i64(t.as_str()) {
        Some(n) => if n > 0 {
            Some(n)
        } else {
            None
        },
        None => None,
    }
}

/// Appends an entry when there is a value.
fn push_opt(entries: &mut Vec<(String, JsonValue)>, key: &str, value: Option<JsonValue>)
    ensures
        entries_view(final(entries)@) == entries_view(old(entries)@) + opt_entry(
            key@,
            match value {
                Some(j) => Some(j@),
                None => None,
            },
        ),
{
    match value {
        Some(j) => {
            let ghost before = entries@;
            let e = (string_of(key), j);
            proof {
                lemma_entries_view_push(before, e);
            }
            entries.push(e);
            proof {
                assert(entries_view(before).push((key@, j@)) =~= entries_view(before) + seq![(key@, j@)]);
            }
        },
        None => {
            assert(entries_view(entries@) + Seq::<(Seq<char>, Json)>::empty() =~= entries_view(entries@));
        },
    }
}

/// `true` as a JSON value when `on`.
fn flag_value(on: bool) -> (r: Option<JsonValue>)
    ensures
        match r {
            Some(j) => on && j@ == Json::Bool(true),
            None => !on,
        },
{
    if on {
        Some(JsonValue::Bool(true))
    } else {
        None
    }
}

/// A JSON number when there is one.
fn int_value(n: Option<i64>) -> (r: Option<JsonValue>)
    ensures
        match r {
            Some(j) => n is Some && j@ == json_int(n->0 as int),
            None => n is None,
        },
{
    match n {
        Some(i) => Some(JsonValue::from_i64(i)),
        None => None,
    }
}

/// A JSON string when `s` is not empty.
fn text_value(s: &str) -> (r: Option<JsonValue>)
    ensures
        match r {
            Some(j) => s@.len() > 0 && j@ == Json::Str(s@),
            None => s@.len() == 0,
        },
{
    if s.unicode_len() > 0 {
        Some(JsonValue::from_str(s))
    } else {
        None
    }
}

/// A fresh list of entries with `key: value`.
fn one_entry(key: &str, value: JsonValue) -> (r: Vec<(String, JsonValue)>)
    ensures
        entries_view(r@) == seq![(key@, value@)],
{
    let mut v: Vec<(String, JsonValue)> = Vec::new();
    let e = (string_of(key), value);
    proof {
        lemma_entries_view_push(v@, e);
        assert(entries_view(v@) =~= Seq::<(Seq<char>, Json)>::empty());
    }
    v.push(e);
    proof {
        assert(entries_view(v@) =~= seq![(key@, value@)]);
    }
    v
}

/// Appends `key: value`.
fn push_entry(entries: &mut Vec<(String, JsonValue)>, key: &str, value: JsonValue)
    ensures
        entries_view(final(entries)@) == entries_view(old(entries)@).push((key@, value@)),
{
    let e = (string_of(key), value);
    proof {
        lemma_entries_view_push(entries@, e);
    }
    entries.push(e);
}

impl App {
    /// The code of language entry `i`, or `default`.
    fn language_code(&self, i: usize, default: &str) -> (r: String)
        ensures
            r@ == code_at(self@.language_map, i as int, default@),
    {
        match map_get_index(&self.language_map, i) {
            Some(e) => e.1,
            None => string_of(default),
        }
    }

    /// The `translation` section.
    fn translation_section(&self) -> (r: JsonValue)
        ensures
            r@ == Json::Object(translation_entries(self@)),
    {
        let mut es = one_entry("lang_in", JsonValue::String(self.language_code(self.lang_in_idx, "en")));
        push_entry(&mut es, "lang_out", JsonValue::String(self.language_code(self.lang_out_idx, "zh-CN")));
        push_entry(&mut es, "qps", JsonValue::from_i64(self.qps as i64));
        proof {
            assert(entries_view(es@) =~= seq![
                ("lang_in"@, Json::Str(code_at(self@.language_map, self.lang_in_idx as int, "en"@))),
                ("lang_out"@, Json::Str(code_at(self@.language_map, self.lang_out_idx as int, "zh-CN"@))),
                ("qps"@, json_int(self.qps as int)),
            ]);
        }
        push_opt(&mut es, "custom_system_prompt", text_value(self.custom_prompt.as_str()));
        let min_len = if self.min_text_length.as_str().unicode_len() > 0 {
            parse_i64(self.min_text_length.as_str())
        } else {
            None
        };
        push_opt(&mut es, "min_text_length", int_value(min_len));
        push_opt(&mut es, "pool_max_workers", int_value(parse_positive_i64(self.pool_max_workers_input.as_str())));
        push_opt(&mut es, "term_qps", int_value(parse_positive_i64(self.term_qps_input.as_str())));
        push_opt(
            &mut es,
            "term_pool_max_workers",
            int_value(parse_positive_i64(self.term_pool_max_workers_input.as_str())),
        );
        let out = trim(self.output_dir.as_str());
        push_opt(&mut es, "output", text_value(out.as_str()));
        let glossaries = trim(self.glossary_files.as_str());
        push_opt(&mut es, "glossaries", text_value(glossaries.as_str()));
        push_opt(&mut es, "save_auto_extracted_glossary", flag_value(self.save_auto_extracted_glossary));
        push_opt(&mut es, "no_auto_extract_glossary", flag_value(self.disable_auto_extract_glossary));
        JsonValue::Object(es)
    }

    /// The `pdf` section.
    fn pdf_section(&self) -> (r: JsonValue)
        ensures
            r@ == Json::Object(pdf_entries(self@)),
    {
        let mut es = one_entry("no_dual", JsonValue::Bool(self.no_dual));
        push_entry(&mut es, "no_mono", JsonValue::Bool(self.no_mono));
        push_entry(&mut es, "dual_translate_first", JsonValue::Bool(self.dual_translate_first));
        proof {
            assert(entries_view(es@) =~= seq![
                ("no_dual"@, Json::Bool(self.no_dual)),
                ("no_mono"@, Json::Bool(self.no_mono)),
                ("dual_translate_first"@, Json::Bool(self.dual_translate_first)),
            ]);
        }
        push_opt(&mut es, "pages", text_value(self.pages_input.as_str()));
        push_opt(&mut es, "skip_clean", flag_value(self.skip_clean));
        push_opt(&mut es, "max_pages_per_part", int_value(parse_positive_i64(self.max_pages_per_part_input.as_str())));
        push_opt(&mut es, "skip_scanned_detection", flag_value(self.skip_scanned_detection));
        push_opt(&mut es, "only_include_translated_page", flag_value(self.only_include_translated_page));
        JsonValue::Object(es)
    }

    /// What parameter `i` of the selected engine contributes.
    fn param_value(&self, i: usize) -> (r: Option<JsonValue>)
        requires
            self.engine_idx < self@.engine_schemas.len(),
            i < self@.engine_schemas[self.engine_idx as int].fields.len(),
        ensures
            match r {
                Some(j) => param_setting(self@.engine_schemas[self.engine_idx as int].fields[i as int], self@.engine_params)
                    == Some(j@),
                None => param_setting(self@.engine_schemas[self.engine_idx as int].fields[i as int], self@.engine_params) is None,
            },
    {
        let field = &self.engine_schemas[self.engine_idx].fields[i];
        proof {
            assert(self@.engine_schemas[self.engine_idx as int].fields[i as int] == field@);
        }
        match map_get(&self.engine_params, field.name.as_str()) {
            Some(value) => {
                if value.as_str().unicode_len() == 0 {
                    None
                } else if str_eq(field.field_type.as_str(), "bool") {
                    Some(JsonValue::Bool(str_eq(value.as_str(), "true")))
                } else if str_eq(field.field_type.as_str(), "int") {
                    match parse_i64(value.as_str()) {
                        Some(n) => Some(JsonValue::from_i64(n)),
                        None => None,
                    }
                } else {
                    Some(JsonValue::String(value))
                }
            },
            None => {
                if field.default.is_null() {
                    None
                } else {
                    Some(crate::json::json_clone(&field.default))
                }
            },
        }
    }

    /// The `translate_engine_settings` section for the selected engine.
    fn engine_settings(&self) -> (r: JsonValue)
        requires
            self.engine_idx < self@.engine_schemas.len(),
        ensures
            r@ == engine_section(self@),
    {
        let schema = &self.engine_schemas[self.engine_idx];
        let ghost fv = self@.engine_schemas[self.engine_idx as int].fields;
        let ghost base = seq![("translate_engine_type"@, Json::Str(schema.name@))];
        let mut es = JsonValue::Object(one_entry("translate_engine_type", JsonValue::from_str(schema.name.as_str())));
        let mut i: usize = 0;
        assert(fv.take(0) =~= Seq::<FieldSchemaView>::empty());
        while i < schema.fields.len()
            invariant
                self.engine_idx < self@.engine_schemas.len(),
                schema == &self.engine_schemas[self.engine_idx as int],
                fv == self@.engine_schemas[self.engine_idx as int].fields,
                fv.len() == schema.fields@.len(),
                i <= fv.len(),
                base == seq![("translate_engine_type"@, Json::Str(schema.name@))],
                es@ == Json::Object(engine_entries(fv.take(i as int), self@.engine_params, base)),
            decreases fv.len() - i,
        {
            let v = self.param_value(i);
            proof {
                assert(fv.take(i + 1).drop_last() =~= fv.take(i as int));
                assert(fv.take(i + 1).last() == fv[i as int]);
            }
            match v {
                Some(j) => {
                    let name = self.engine_schemas[self.engine_idx].fields[i].name.as_str();
                    proof {
                        assert(fv[i as int].name == name@);
                    }
                    es.set(name, j);
                },
                None => {},
            }
            i = i + 1;
        }
        assert(fv.take(fv.len() as int) =~= fv);
        es
    }

    /// The settings object sent with a translate command.
    pub fn build_settings_json(&self) -> (r: JsonValue)
        ensures
            r@ == settings_json(self@),
    {
        let basic = {
            let mut b = one_entry("input_files", JsonValue::Array(Vec::new()));
            push_entry(&mut b, "debug", JsonValue::Bool(false));
            push_entry(&mut b, "gui", JsonValue::Bool(false));
            proof {
                assert(crate::json::items_view(Seq::<JsonValue>::empty()) =~= Seq::<Json>::empty());
                assert(entries_view(b@) =~= seq![
                    ("input_files"@, Json::Array(Seq::empty())),
                    ("debug"@, Json::Bool(false)),
                    ("gui"@, Json::Bool(false)),
                ]);
            }
            JsonValue::Object(b)
        };
        let mut es = one_entry("basic", basic);
        push_entry(&mut es, "translation", self.translation_section());
        push_entry(&mut es, "pdf", self.pdf_section());
        let ghost head = entries_view(es@);
        let engine = if self.engine_idx < self.engine_schemas.len() {
            Some(self.engine_settings())
        } else {
            None
        };
        push_opt(&mut es, "translate_engine_settings", engine);
        proof {
            assert(head =~= seq![
                ("basic"@, basic_section()),
                ("translation"@, Json::Object(translation_entries(self@))),
                ("pdf"@, Json::Object(pdf_entries(self@))),
            ]);
        }
        JsonValue::Object(es)
    }
}

} // verus!

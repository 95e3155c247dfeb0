//! The terminal front end's configuration: what a parsed `config.v3.toml`
//! changes in the state, and the edits that save the state into it.

use vstd::prelude::*;
use vstd::string::*;
use crate::app::{App, AppView};
use crate::json::{entries_get, entries_set, find_key, lemma_entries_get_set, lemma_find_key};
use crate::ordered_map::{map_get, map_get_index, map_insert, map_len, string_map_entries};
use crate::platform::{lowercase_text, text_lowercase};
use crate::protocol::{EngineSchema, EngineSchemaView, FieldSchemaView, engines_view};
use crate::settings::code_at;
use crate::text::{decimal, i64_to_string, parse_i64, parse_i64_spec, signed_decimal, str_eq, string_of, u64_to_string};
use crate::toml_file::{edit_config_text, parse_config, parsed_config, saved_over};
use crate::toml_model::{same_document, 
    bool_in, edits_view, engine_flag, engine_flag_name, get_bool, get_int, get_text, get_value, int_in,
    scalar_string, scalar_text, scalars_view, section, text_in, top_value, value_in, ConfigEdit, EditValue,
    EditValueView, EditView, ScalarView, TomlScalar, TomlTable, ENGINE_FLAG_COUNT, ItemView, edit_scalar, edits_applied, edits_fit, lemma_table_present, lemma_written_value,
    lemma_written_value_concat, lemma_written_value_untouched, table_of, written_value, written_top, overwrites,
    lemma_written_top, lemma_written_top_concat, lemma_written_top_untouched, lemma_written_value_last, lemma_written_value_some, writes};

verus! {

/// The language table with each entry's code first.
pub open spec fn by_code(langs: Seq<(Seq<char>, Seq<char>)>) -> Seq<(Seq<char>, Seq<char>)> {
    langs.map_values(|e: (Seq<char>, Seq<char>)| (e.1, e.0))
}

/// The first language whose code is `code`.
pub open spec fn code_index(langs: Seq<(Seq<char>, Seq<char>)>, code: Seq<char>) -> Option<int> {
    find_key(by_code(langs), code)
}

/// The language index a loaded code selects: the first language with that
/// code, else the current one.
pub open spec fn lang_choice(langs: Seq<(Seq<char>, Seq<char>)>, code: Option<Seq<char>>, cur: usize) -> usize {
    match code {
        Some(c) => match code_index(langs, c) {
            Some(i) => i as usize,
            None => cur,
        },
        None => cur,
    }
}

/// A loaded QPS: at least 1, cut to 32 bits.
pub open spec fn clamp_qps(q: i64) -> u32 {
    (if q < 1 {1 } else { q }) as u32
}

/// A loaded text, else the current one.
pub open spec fn text_or(o: Option<Seq<char>>, cur: Seq<char>) -> Seq<char> {
    match o {
        Some(s) => s,
        None => cur,
    }
}

/// The decimal text of a loaded number, else the current text.
pub open spec fn number_or(o: Option<i64>, cur: Seq<char>) -> Seq<char> {
    match o {
        Some(n) => signed_decimal(n as int),
        None => cur,
    }
}

/// A loaded switch, else the current one.
pub open spec fn bool_or(o: Option<bool>, cur: bool) -> bool {
    match o {
        Some(b) => b,
        None => cur,
    }
}

/// What the `[translation]` table changes.
pub open spec fn translation_loaded(v: AppView, tr: Seq<(Seq<char>, ScalarView)>) -> AppView {
    AppView {
        lang_in_idx: lang_choice(v.language_map, text_in(tr, "lang_in"@), v.lang_in_idx),
        lang_out_idx: lang_choice(v.language_map, text_in(tr, "lang_out"@), v.lang_out_idx),
        qps: match int_in(tr, "qps"@) {
            Some(q) => clamp_qps(q),
            None => v.qps,
        },
        qps_input: match int_in(tr, "qps"@) {
            Some(q) => decimal(clamp_qps(q) as nat),
            None => v.qps_input,
        },
        custom_prompt: text_or(text_in(tr, "custom_system_prompt"@), v.custom_prompt),
        min_text_length: number_or(int_in(tr, "min_text_length"@), v.min_text_length),
        pool_max_workers_input: number_or(int_in(tr, "pool_max_workers"@), v.pool_max_workers_input),
        term_qps_input: number_or(int_in(tr, "term_qps"@), v.term_qps_input),
        term_pool_max_workers_input: number_or(
            int_in(tr, "term_pool_max_workers"@),
            v.term_pool_max_workers_input,
        ),
        output_dir: text_or(text_in(tr, "output"@), v.output_dir),
        glossary_files: text_or(text_in(tr, "glossaries"@), v.glossary_files),
        save_auto_extracted_glossary: bool_or(
            bool_in(tr, "save_auto_extracted_glossary"@),
            v.save_auto_extracted_glossary,
        ),
        disable_auto_extract_glossary: bool_or(
            bool_in(tr, "no_auto_extract_glossary"@),
            v.disable_auto_extract_glossary,
        ),
        ..v
    }
}

/// What the `[pdf]` table changes.
pub open spec fn pdf_loaded(v: AppView, p: Seq<(Seq<char>, ScalarView)>) -> AppView {
    AppView {
        no_dual: bool_or(bool_in(p, "no_dual"@), v.no_dual),
        no_mono: bool_or(bool_in(p, "no_mono"@), v.no_mono),
        dual_translate_first: bool_or(bool_in(p, "dual_translate_first"@), v.dual_translate_first),
        skip_clean: bool_or(bool_in(p, "skip_clean"@), v.skip_clean),
        max_pages_per_part_input: number_or(int_in(p, "max_pages_per_part"@), v.max_pages_per_part_input),
        skip_scanned_detection: bool_or(bool_in(p, "skip_scanned_detection"@), v.skip_scanned_detection),
        only_include_translated_page: bool_or(
            bool_in(p, "only_include_translated_page"@),
            v.only_include_translated_page,
        ),
        ..v
    }
}

/// The engines, keyed so that an engine's key is `flag` exactly when its
/// command-line flag is `flag` or its lower-cased name is.
pub open spec fn flag_keys(engines: Seq<EngineSchemaView>, flag: Seq<char>) -> Seq<(Seq<char>, ())> {
    engines.map_values(
        |e: EngineSchemaView|
            (if e.cli_flag == flag {
                flag
            } else {
                lowercase_text(e.name)
            }, ()),
    )
}

/// The first engine whose flag is `flag` or whose lower-cased name is.
pub open spec fn engine_with_flag(engines: Seq<EngineSchemaView>, flag: Seq<char>) -> Option<int> {
    find_key(flag_keys(engines, flag), flag)
}

/// The engine a configuration switches on: the first flag, from the `k`-th
/// on, that is `true` at the top level and names an offered engine.
pub open spec fn chosen_engine(engines: Seq<EngineSchemaView>, t: Seq<(Seq<char>, crate::toml_model::ItemView)>, k: int) -> Option<int>
    decreases 23 - k,
{
    if k < 0 || k >= 23 {
        None
    } else if top_value(t, engine_flag(k)) == Some(ScalarView::Bool(true)) && engine_with_flag(
        engines,
        engine_flag(k),
    ) is Some {
        engine_with_flag(engines, engine_flag(k))
    } else {
        chosen_engine(engines, t, k + 1)
    }
}

/// The parameters loaded from an engine's detail table: each parameter of
/// the engine with a detail value that stands for a non-empty text.
pub open spec fn loaded_params(fields: Seq<FieldSchemaView>, detail: Seq<(Seq<char>, ScalarView)>) -> Seq<
    (Seq<char>, Seq<char>),
>
    decreases fields.len(),
{
    if fields.len() == 0 {
        Seq::empty()
    } else {
        let acc = loaded_params(fields.drop_last(), detail);
        let f = fields.last();
        match value_in(detail, f.name) {
            Some(x) => match scalar_text(x) {
                Some(s) => if s.len() > 0 {
                    entries_set(acc, f.name, s)
                } else {
                    acc
                },
                None => acc,
            },
            None => acc,
        }
    }
}

/// The name of an engine's detail table.
pub open spec fn detail_key(flag: Seq<char>) -> Seq<char> {
    flag + "_detail"@
}

/// What the selected engine's detail table changes: its parameters are
/// replaced by the loaded ones when the table is there.
pub open spec fn params_loaded(v: AppView, t: Seq<(Seq<char>, crate::toml_model::ItemView)>) -> AppView {
    if v.engine_idx < v.engine_schemas.len() {
        let e = v.engine_schemas[v.engine_idx as int];
        match section(t, detail_key(e.cli_flag)) {
            Some(d) => AppView {engine_params: loaded_params(e.fields, d), ..v },
            None => v,
        }
    } else {
        v
    }
}

/// The state after the `[translation]` and `[pdf]` tables.
pub open spec fn sections_loaded(v: AppView, t: Seq<(Seq<char>, crate::toml_model::ItemView)>) -> AppView {
    let v1 = match section(t, "translation"@) {
        Some(tr) => translation_loaded(v, tr),
        None => v,
    };
    match section(t, "pdf"@) {
        Some(p) => pdf_loaded(v1, p),
        None => v1,
    }
}

/// The state after selecting the engine the configuration switches on.
pub open spec fn engine_selected(v: AppView, t: Seq<(Seq<char>, crate::toml_model::ItemView)>) -> AppView {
    match chosen_engine(v.engine_schemas, t, 0) {
        Some(i) => AppView {engine_idx: i as usize, ..v },
        None => v,
    }
}

/// The state after loading a configuration: the translation and PDF
/// tables, then the engine switched on, then that engine's parameters.
pub open spec fn config_loaded(v: AppView, t: Seq<(Seq<char>, crate::toml_model::ItemView)>) -> AppView {
    params_loaded(engine_selected(sections_loaded(v, t), t), t)
}

/// The first language whose code is `code`.
fn find_code(langs: &indexmap::IndexMap<String, String>, code: &str) -> (r: Option<usize>)
    ensures
        match r {
            Some(i) => code_index(string_map_entries(*langs), code@) == Some(i as int),
            None => code_index(string_map_entries(*langs), code@) is None,
        },
{
    let ghost kv = by_code(string_map_entries(*langs));
    let n = map_len(langs);
    let mut i: usize = 0;
    while i < n
        invariant
            n == kv.len(),
            kv == by_code(string_map_entries(*langs)),
            i <= n,
            forall|k: int| 0 <= k < i ==> #[trigger] kv[k].0 != code@,
        decreases n - i,
    {
        let e = map_get_index(langs, i);
        match e {
            Some(pair) => {
                assert(kv[i as int].0 == pair.1@);
                if str_eq(pair.1.as_str(), code) {
                    proof {
                        lemma_find_key(kv, code@);
                        match find_key(kv, code@) {
                            Some(j) => {
                                if j > i {
                                    assert(kv[i as int].0 == code@);
                                }
                            },
                            None => {
                                assert(kv[i as int].0 == code@);
                            },
                        }
                    }
                    return Some(i);
                }
            },
            None => {},
        }
        i = i + 1;
    }
    proof {
        lemma_find_key(kv, code@);
        match find_key(kv, code@) {
            Some(j) => {
                assert(kv[j].0 != code@);
            },
            None => {},
        }
    }
    None
}

/// The first engine whose flag is `flag` or whose lower-cased name is.
fn find_engine(engines: &Vec<EngineSchema>, flag: &str) -> (r: Option<usize>)
    ensures
        match r {
            Some(i) => engine_with_flag(engines_view(engines@), flag@) == Some(i as int),
            None => engine_with_flag(engines_view(engines@), flag@) is None,
        },
{
    let ghost kv = flag_keys(engines_view(engines@), flag@);
    let mut i: usize = 0;
    while i < engines.len()
        invariant
            kv == flag_keys(engines_view(engines@), flag@),
            kv.len() == engines@.len(),
            i <= engines@.len(),
            forall|k: int| 0 <= k < i ==> #[trigger] kv[k].0 != flag@,
        decreases engines@.len() - i,
    {
        let hit = str_eq(engines[i].cli_flag.as_str(), flag) || str_eq(
            text_lowercase(engines[i].name.as_str()).as_str(),
            flag,
        );
        assert(engines_view(engines@)[i as int] == engines@[i as int]@);
        if hit {
            proof {
                assert(kv[i as int].0 == flag@);
                lemma_find_key(kv, flag@);
                match find_key(kv, flag@) {
                    Some(j) => {
                        if j > i {
                            assert(kv[i as int].0 == flag@);
                        }
                    },
                    None => {},
                }
            }
            return Some(i);
        }
        assert(kv[i as int].0 != flag@);
        i = i + 1;
    }
    proof {
        lemma_find_key(kv, flag@);
        match find_key(kv, flag@) {
            Some(j) => {
                assert(kv[j].0 != flag@);
            },
            None => {},
        }
    }
    None
}

/// The engine a configuration switches on.
fn configured_engine(engines: &Vec<EngineSchema>, table: &TomlTable) -> (r: Option<usize>)
    ensures
        match r {
            Some(i) => chosen_engine(engines_view(engines@), table@, 0) == Some(i as int),
            None => chosen_engine(engines_view(engines@), table@, 0) is None,
        },
{
    let ghost ev = engines_view(engines@);
    let mut k: usize = 0;
    while k < ENGINE_FLAG_COUNT
        invariant
            k <= 23,
            ev == engines_view(engines@),
            chosen_engine(ev, table@, 0) == chosen_engine(ev, table@, k as int),
        decreases 23 - k,
    {
        let flag = engine_flag_name(k);
        let on = match table.top_value(flag) {
            Some(TomlScalar::Bool(b)) => *b,
            _ => false,
        };
        if on {
            match find_engine(engines, flag) {
                Some(i) => {
                    return Some(i);
                },
                None => {},
            }
        }
        k = k + 1;
    }
    None
}

/// Loads an engine's parameters from its detail table.
fn params_from_detail(fields: &Vec<crate::protocol::FieldSchema>, detail: &Vec<(String, TomlScalar)>) -> (r:
    indexmap::IndexMap<String, String>)
    ensures
        string_map_entries(r) == loaded_params(
            fields@.map_values(|f: crate::protocol::FieldSchema| f@),
            scalars_view(detail@),
        ),
{
    let ghost fv = fields@.map_values(|f: crate::protocol::FieldSchema| f@);
    let mut m = crate::ordered_map::map_new();
    let mut i: usize = 0;
    assert(fv.take(0) =~= Seq::<FieldSchemaView>::empty());
    while i < fields.len()
        invariant
            fv == fields@.map_values(|f: crate::protocol::FieldSchema| f@),
            i <= fields@.len(),
            string_map_entries(m) == loaded_params(fv.take(i as int), scalars_view(detail@)),
        decreases fields@.len() - i,
    {
        let field = &fields[i];
        proof {
            assert(fv.take(i + 1).drop_last() =~= fv.take(i as int));
            assert(fv.take(i + 1).last() == field@);
        }
        match get_value(detail, field.name.as_str()) {
            Some(x) => match scalar_string(x) {
                Some(s) => {
                    if s.as_str().unicode_len() > 0 {
                        map_insert(&mut m, field.name.clone(), s);
                    }
                },
                None => {},
            },
            None => {},
        }
        i = i + 1;
    }
    assert(fv.take(fields@.len() as int) =~= fv);
    m
}

/// The name of an engine's detail table.
pub fn detail_table_name(flag: &str) -> (r: String)
    ensures
        r@ == detail_key(flag@),
{
    let mut s = string_of(flag);
    s.append("_detail");
    s
}

/// Loads the selected engine's parameters from its detail table, when the
/// table is there.
#[verifier::spinoff_prover]
fn load_engine_params(app: &mut App, table: &TomlTable)
    ensures
        final(app)@ == params_loaded(old(app)@, table@),
{
    if app.engine_idx < app.engine_schemas.len() {
        let key = detail_table_name(app.engine_schemas[app.engine_idx].cli_flag.as_str());
        match table.section(key.as_str()) {
            Some(d) => {
                let m = params_from_detail(&app.engine_schemas[app.engine_idx].fields, d);
                app.engine_params = m;
            },
            None => {},
        }
    }
}

/// A loaded QPS: at least 1, cut to 32 bits.
fn clamp_qps_exec(q: i64) -> (r: u32)
    ensures
        r == clamp_qps(q),
{
    let x: i64 = if q < 1 {1 } else { q };
    x as u32
}

/// The language index a loaded code selects.
fn lang_index(langs: &indexmap::IndexMap<String, String>, code: Option<String>, cur: usize) -> (r: usize)
    ensures
        r == lang_choice(
            string_map_entries(*langs),
            match code {
                Some(c) => Some(c@),
                None => None,
            },
            cur,
        ),
{
    match code {
        Some(c) => match find_code(langs, c.as_str()) {
            Some(i) => i,
            None => cur,
        },
        None => cur,
    }
}

/// A loaded text, else a copy of the current one.
fn text_or_exec(o: Option<String>, cur: &String) -> (r: String)
    ensures
        r@ == text_or(
            match o {
                Some(s) => Some(s@),
                None => None,
            },
            cur@,
        ),
{
    match o {
        Some(s) => s,
        None => cur.clone(),
    }
}

/// The decimal text of a loaded number, else a copy of the current text.
fn number_or_exec(o: Option<i64>, cur: &String) -> (r: String)
    ensures
        r@ == number_or(o, cur@),
{
    match o {
        Some(n) => i64_to_string(n),
        None => cur.clone(),
    }
}

/// A loaded switch, else the current one.
fn bool_or_exec(o: Option<bool>, cur: bool) -> (r: bool)
    ensures
        r == bool_or(o, cur),
{
    match o {
        Some(b) => b,
        None => cur,
    }
}

/// Applies the `[translation]` table.
#[verifier::spinoff_prover]
#[verifier::rlimit(40)]
fn load_translation(app: &mut App, tr: &Vec<(String, TomlScalar)>)
    ensures
        final(app)@ == translation_loaded(old(app)@, scalars_view(tr@)),
{
    let lang_in = lang_index(&app.language_map, get_text(tr, "lang_in"), app.lang_in_idx);
    let lang_out = lang_index(&app.language_map, get_text(tr, "lang_out"), app.lang_out_idx);
    let (qps, qps_input) = match get_int(tr, "qps") {
        Some(q) => {
            let c = clamp_qps_exec(q);
            (c, u64_to_string(c as u64))
        },
        None => (app.qps, app.qps_input.clone()),
    };
    let prompt = text_or_exec(get_text(tr, "custom_system_prompt"), &app.custom_prompt);
    let min_len = number_or_exec(get_int(tr, "min_text_length"), &app.min_text_length);
    let pool = number_or_exec(get_int(tr, "pool_max_workers"), &app.pool_max_workers_input);
    let term_qps = number_or_exec(get_int(tr, "term_qps"), &app.term_qps_input);
    let term_pool = number_or_exec(get_int(tr, "term_pool_max_workers"), &app.term_pool_max_workers_input);
    let output = text_or_exec(get_text(tr, "output"), &app.output_dir);
    let glossaries = text_or_exec(get_text(tr, "glossaries"), &app.glossary_files);
    let save_glossary = bool_or_exec(get_bool(tr, "save_auto_extracted_glossary"), app.save_auto_extracted_glossary);
    let no_extract = bool_or_exec(get_bool(tr, "no_auto_extract_glossary"), app.disable_auto_extract_glossary);
    app.lang_in_idx = lang_in;
    app.lang_out_idx = lang_out;
    app.qps = qps;
    app.qps_input = qps_input;
    app.custom_prompt = prompt;
    app.min_text_length = min_len;
    app.pool_max_workers_input = pool;
    app.term_qps_input = term_qps;
    app.term_pool_max_workers_input = term_pool;
    app.output_dir = output;
    app.glossary_files = glossaries;
    app.save_auto_extracted_glossary = save_glossary;
    app.disable_auto_extract_glossary = no_extract;
}

/// Applies the `[pdf]` table.
#[verifier::spinoff_prover]
#[verifier::rlimit(40)]
fn load_pdf(app: &mut App, p: &Vec<(String, TomlScalar)>)
    ensures
        final(app)@ == pdf_loaded(old(app)@, scalars_view(p@)),
{
    let no_dual = bool_or_exec(get_bool(p, "no_dual"), app.no_dual);
    let no_mono = bool_or_exec(get_bool(p, "no_mono"), app.no_mono);
    let dual_first = bool_or_exec(get_bool(p, "dual_translate_first"), app.dual_translate_first);
    let skip_clean = bool_or_exec(get_bool(p, "skip_clean"), app.skip_clean);
    let max_pages = number_or_exec(get_int(p, "max_pages_per_part"), &app.max_pages_per_part_input);
    let skip_scanned = bool_or_exec(get_bool(p, "skip_scanned_detection"), app.skip_scanned_detection);
    let only_translated = bool_or_exec(get_bool(p, "only_include_translated_page"), app.only_include_translated_page);
    app.no_dual = no_dual;
    app.no_mono = no_mono;
    app.dual_translate_first = dual_first;
    app.skip_clean = skip_clean;
    app.max_pages_per_part_input = max_pages;
    app.skip_scanned_detection = skip_scanned;
    app.only_include_translated_page = only_translated;
}

/// Applies the `[translation]` and `[pdf]` tables.
#[verifier::spinoff_prover]
fn load_sections(app: &mut App, table: &TomlTable)
    ensures
        final(app)@ == sections_loaded(old(app)@, table@),
{
    match table.section("translation") {
        Some(tr) => load_translation(app, tr),
        None => {},
    }
    match table.section("pdf") {
        Some(p) => load_pdf(app, p),
        None => {},
    }
}

/// Selects the engine the configuration switches on.
#[verifier::spinoff_prover]
fn select_engine(app: &mut App, table: &TomlTable)
    ensures
        final(app)@ == engine_selected(old(app)@, table@),
{
    match configured_engine(&app.engine_schemas, table) {
        Some(i) => app.engine_idx = i,
        None => {},
    }
}

/// Applies a parsed configuration file to the state: the `[translation]`
/// and `[pdf]` tables, the engine switched on at the top level, and that
/// engine's `<flag>_detail` parameters.
pub fn apply_config(app: &mut App, table: &TomlTable)
    ensures
        final(app)@ == config_loaded(old(app)@, table@),
{
    load_sections(app, table);
    select_engine(app, table);
    load_engine_params(app, table);
}

/// `key = value` at the top level.
pub open spec fn top_edit(key: Seq<char>, value: EditValueView) -> EditView {
    EditView {table: None, key, value }
}

/// `key = value` in `[table]`.
pub open spec fn table_edit(table: Seq<char>, key: Seq<char>, value: EditValueView) -> EditView {
    EditView {table: Some(table), key, value }
}

/// The word `null` for an empty text, else the text.
pub open spec fn text_or_null(s: Seq<char>) -> EditValueView {
    if s.len() == 0 {
        EditValueView::Str("null"@)
    } else {
        EditValueView::Str(s)
    }
}

/// The number a text parses to, else the word `null`.
pub open spec fn number_or_null(s: Seq<char>) -> EditValueView {
    match parse_i64_spec(s) {
        Some(n) => EditValueView::Int(n),
        None => EditValueView::Str("null"@),
    }
}

/// Every offered engine's flag switched off.
pub open spec fn flag_resets(engines: Seq<EngineSchemaView>) -> Seq<EditView> {
    engines.map_values(|e: EngineSchemaView| top_edit(e.cli_flag, EditValueView::Bool(false)))
}

/// The selected engine's flag switched on.
pub open spec fn active_flag(v: AppView) -> Seq<EditView> {
    if v.engine_idx < v.engine_schemas.len() {
        seq![top_edit(v.engine_schemas[v.engine_idx as int].cli_flag, EditValueView::Bool(true))]
    } else {
        Seq::empty()
    }
}

/// `key = value` in `[translation]`.
pub open spec fn tr_edit(key: Seq<char>, value: EditValueView) -> EditView {
    table_edit("translation"@, key, value)
}

/// `key = value` in `[pdf]`.
pub open spec fn pdf_edit(key: Seq<char>, value: EditValueView) -> EditView {
    table_edit("pdf"@, key, value)
}

/// The `[translation]` edits: codes (English and Simplified Chinese when
/// the table lacks the chosen entry), QPS, prompt (`null` when empty), the
/// minimum text length (5 when empty, left alone when it does not parse),
/// the numbers (`null` when they do not parse), the paths (`null` when
/// empty) and the glossary switches.
pub open spec fn translation_edits(v: AppView) -> Seq<EditView> {
    seq![
        tr_edit("lang_in"@, EditValueView::Str(code_at(v.language_map, v.lang_in_idx as int, "en"@))),
        tr_edit("lang_out"@, EditValueView::Str(code_at(v.language_map, v.lang_out_idx as int, "zh-CN"@))),
        tr_edit("qps"@, EditValueView::Int(v.qps as i64)),
        tr_edit("custom_system_prompt"@, text_or_null(v.custom_prompt)),
    ] + (if v.min_text_length.len() == 0 {
        seq![tr_edit("min_text_length"@, EditValueView::Int(5))]
    } else {
        match parse_i64_spec(v.min_text_length) {
            Some(n) => seq![tr_edit("min_text_length"@, EditValueView::Int(n))],
            None => Seq::empty(),
        }
    }) + seq![
        tr_edit("pool_max_workers"@, number_or_null(v.pool_max_workers_input)),
        tr_edit("term_qps"@, number_or_null(v.term_qps_input)),
        tr_edit("term_pool_max_workers"@, number_or_null(v.term_pool_max_workers_input)),
        tr_edit("output"@, text_or_null(v.output_dir)),
        tr_edit("glossaries"@, text_or_null(v.glossary_files)),
        tr_edit("save_auto_extracted_glossary"@, EditValueView::Bool(v.save_auto_extracted_glossary)),
        tr_edit("no_auto_extract_glossary"@, EditValueView::Bool(v.disable_auto_extract_glossary)),
    ]
}

/// The `[pdf]` edits.
pub open spec fn pdf_edits(v: AppView) -> Seq<EditView> {
    seq![
        pdf_edit("no_dual"@, EditValueView::Bool(v.no_dual)),
        pdf_edit("no_mono"@, EditValueView::Bool(v.no_mono)),
        pdf_edit("dual_translate_first"@, EditValueView::Bool(v.dual_translate_first)),
        pdf_edit("skip_clean"@, EditValueView::Bool(v.skip_clean)),
        pdf_edit("max_pages_per_part"@, number_or_null(v.max_pages_per_part_input)),
        pdf_edit("skip_scanned_detection"@, EditValueView::Bool(v.skip_scanned_detection)),
        pdf_edit("only_include_translated_page"@, EditValueView::Bool(v.only_include_translated_page)),
    ]
}

/// How a parameter is saved: `null` when missing or empty; by its type
/// otherwise (`bool`: whether it is `true`; `int`: the number, or the text
/// when it does not parse; else the text).
pub open spec fn saved_param(f: FieldSchemaView, params: Seq<(Seq<char>, Seq<char>)>) -> EditValueView {
    match entries_get(params, f.name) {
        Some(val) => if val.len() == 0 {
            EditValueView::Str("null"@)
        } else if f.field_type == "bool"@ {
            EditValueView::Bool(val == "true"@)
        } else if f.field_type == "int"@ {
            match parse_i64_spec(val) {
                Some(n) => EditValueView::Int(n),
                None => EditValueView::Str(val),
            }
        } else {
            EditValueView::Str(val)
        },
        None => EditValueView::Str("null"@),
    }
}

/// The selected engine's `[<flag>_detail]` edits: its type, whether it is
/// an LLM, then each parameter.
pub open spec fn detail_edits(v: AppView) -> Seq<EditView> {
    if v.engine_idx < v.engine_schemas.len() {
        let e = v.engine_schemas[v.engine_idx as int];
        let d = detail_key(e.cli_flag);
        seq![
            table_edit(d, "translate_engine_type"@, EditValueView::Str(e.name)),
            table_edit(d, "support_llm"@, EditValueView::Str(if e.support_llm {"yes"@ } else { "no"@ })),
        ] + e.fields.map_values(|f: FieldSchemaView| table_edit(d, f.name, saved_param(f, v.engine_params)))
    } else {
        Seq::empty()
    }
}

/// The edits that save the state, in the order they are made.
pub open spec fn saved_config(v: AppView) -> Seq<EditView> {
    flag_resets(v.engine_schemas) + active_flag(v) + translation_edits(v) + pdf_edits(v) + detail_edits(v)
}

/// Appends an edit.
fn push_edit(edits: &mut Vec<ConfigEdit>, table: Option<&str>, key: &str, value: EditValue)
    ensures
        edits_view(final(edits)@) == edits_view(old(edits)@).push(
            EditView {
                table: match table {
                    Some(t) => Some(t@),
                    None => None,
                },
                key: key@,
                value: value@,
            },
        ),
{
    let t = match table {
        Some(t) => Some(string_of(t)),
        None => None,
    };
    let ghost before = edits@;
    edits.push(ConfigEdit {table: t, key: string_of(key), value });
    proof {
        assert(edits_view(edits@) =~= edits_view(before).push(edits@.last()@));
    }
}

/// The word `null` for an empty text, else the text.
fn text_or_null_exec(s: &str) -> (r: EditValue)
    ensures
        r@ == text_or_null(s@),
{
    if s.unicode_len() == 0 {
        EditValue::Str(string_of("null"))
    } else {
        EditValue::Str(string_of(s))
    }
}

/// The number a text parses to, else the word `null`.
fn number_or_null_exec(s: &str) -> (r: EditValue)
    ensures
        r@ == number_or_null(s@),
{
    match parse_i64(s) {
        Some(n) => EditValue::Int(n),
        None => EditValue::Str(string_of("null")),
    }
}

impl App {
    /// How parameter `i` of the selected engine is saved.
    fn saved_param_value(&self, i: usize) -> (r: EditValue)
        requires
            self.engine_idx < self@.engine_schemas.len(),
            i < self@.engine_schemas[self.engine_idx as int].fields.len(),
        ensures
            r@ == saved_param(self@.engine_schemas[self.engine_idx as int].fields[i as int], self@.engine_params),
    {
        let field = &self.engine_schemas[self.engine_idx].fields[i];
        proof {
            assert(self@.engine_schemas[self.engine_idx as int].fields[i as int] == field@);
        }
        match map_get(&self.engine_params, field.name.as_str()) {
            Some(value) => {
                if value.as_str().unicode_len() == 0 {
                    EditValue::Str(string_of("null"))
                } else if str_eq(field.field_type.as_str(), "bool") {
                    EditValue::Bool(str_eq(value.as_str(), "true"))
                } else if str_eq(field.field_type.as_str(), "int") {
                    match parse_i64(value.as_str()) {
                        Some(n) => EditValue::Int(n),
                        None => EditValue::Str(value),
                    }
                } else {
                    EditValue::Str(value)
                }
            },
            None => EditValue::Str(string_of("null")),
        }
    }

    /// Appends the flag edits.
    fn push_flag_edits(&self, edits: &mut Vec<ConfigEdit>)
        ensures
            edits_view(final(edits)@) == edits_view(old(edits)@) + flag_resets(self@.engine_schemas)
                + active_flag(self@),
    {
        let ghost start = edits_view(edits@);
        let ghost ev = self@.engine_schemas;
        let mut i: usize = 0;
        while i < self.engine_schemas.len()
            invariant
                ev == self@.engine_schemas,
                ev.len() == self.engine_schemas@.len(),
                i <= ev.len(),
                edits_view(edits@) == start + flag_resets(ev.take(i as int)),
            decreases ev.len() - i,
        {
            assert(ev[i as int] == self.engine_schemas@[i as int]@);
            push_edit(edits, None, self.engine_schemas[i].cli_flag.as_str(), EditValue::Bool(false));
            proof {
                assert(flag_resets(ev.take(i + 1)) =~= flag_resets(ev.take(i as int)).push(
                    top_edit(ev[i as int].cli_flag, EditValueView::Bool(false)),
                ));
                assert(start + flag_resets(ev.take(i + 1)) =~= (start + flag_resets(ev.take(i as int))).push(
                    top_edit(ev[i as int].cli_flag, EditValueView::Bool(false)),
                ));
            }
            i = i + 1;
        }
        assert(ev.take(ev.len() as int) =~= ev);
        let ghost mid = edits_view(edits@);
        if self.engine_idx < self.engine_schemas.len() {
            push_edit(edits, None, self.engine_schemas[self.engine_idx].cli_flag.as_str(), EditValue::Bool(true));
            assert(edits_view(edits@) =~= mid + active_flag(self@));
        } else {
            assert(edits_view(edits@) =~= mid + active_flag(self@));
        }
    }

    /// The code of language entry `i`, or `default`.
    fn code_or(&self, i: usize, default: &str) -> (r: String)
        ensures
            r@ == code_at(self@.language_map, i as int, default@),
    {
        match map_get_index(&self.language_map, i) {
            Some(e) => e.1,
            None => string_of(default),
        }
    }

    /// Appends the `[translation]` edits.
    #[verifier::spinoff_prover]
    #[verifier::rlimit(40)]
    fn push_translation_edits(&self, edits: &mut Vec<ConfigEdit>)
        ensures
            edits_view(final(edits)@) == edits_view(old(edits)@) + translation_edits(self@),
    {
        let ghost start = edits_view(edits@);
        let t = Some("translation");
        push_edit(edits, t, "lang_in", EditValue::Str(self.code_or(self.lang_in_idx, "en")));
        push_edit(edits, t, "lang_out", EditValue::Str(self.code_or(self.lang_out_idx, "zh-CN")));
        push_edit(edits, t, "qps", EditValue::Int(self.qps as i64));
        push_edit(edits, t, "custom_system_prompt", text_or_null_exec(self.custom_prompt.as_str()));
        let ghost s1 = edits_view(edits@);
        if self.min_text_length.as_str().unicode_len() == 0 {
            push_edit(edits, t, "min_text_length", EditValue::Int(5));
        } else {
            match parse_i64(self.min_text_length.as_str()) {
                Some(n) => push_edit(edits, t, "min_text_length", EditValue::Int(n)),
                None => {},
            }
        }
        let ghost s2 = edits_view(edits@);
        push_edit(edits, t, "pool_max_workers", number_or_null_exec(self.pool_max_workers_input.as_str()));
        push_edit(edits, t, "term_qps", number_or_null_exec(self.term_qps_input.as_str()));
        push_edit(
            edits,
            t,
            "term_pool_max_workers",
            number_or_null_exec(self.term_pool_max_workers_input.as_str()),
        );
        push_edit(edits, t, "output", text_or_null_exec(self.output_dir.as_str()));
        push_edit(edits, t, "glossaries", text_or_null_exec(self.glossary_files.as_str()));
        push_edit(edits, t, "save_auto_extracted_glossary", EditValue::Bool(self.save_auto_extracted_glossary));
        push_edit(edits, t, "no_auto_extract_glossary", EditValue::Bool(self.disable_auto_extract_glossary));
        proof {
            let v = self@;
            let a = seq![
                tr_edit("lang_in"@, EditValueView::Str(code_at(v.language_map, v.lang_in_idx as int, "en"@))),
                tr_edit("lang_out"@, EditValueView::Str(code_at(v.language_map, v.lang_out_idx as int, "zh-CN"@))),
                tr_edit("qps"@, EditValueView::Int(v.qps as i64)),
                tr_edit("custom_system_prompt"@, text_or_null(v.custom_prompt)),
            ];
            let b = if v.min_text_length.len() == 0 {
                seq![tr_edit("min_text_length"@, EditValueView::Int(5))]
            } else {
                match parse_i64_spec(v.min_text_length) {
                    Some(n) => seq![tr_edit("min_text_length"@, EditValueView::Int(n))],
                    None => Seq::empty(),
                }
            };
            let c = seq![
                tr_edit("pool_max_workers"@, number_or_null(v.pool_max_workers_input)),
                tr_edit("term_qps"@, number_or_null(v.term_qps_input)),
                tr_edit("term_pool_max_workers"@, number_or_null(v.term_pool_max_workers_input)),
                tr_edit("output"@, text_or_null(v.output_dir)),
                tr_edit("glossaries"@, text_or_null(v.glossary_files)),
                tr_edit("save_auto_extracted_glossary"@, EditValueView::Bool(v.save_auto_extracted_glossary)),
                tr_edit("no_auto_extract_glossary"@, EditValueView::Bool(v.disable_auto_extract_glossary)),
            ];
            assert(s1 =~= start + a);
            assert(s2 =~= s1 + b);
            assert(edits_view(edits@) =~= s2 + c);
            assert(translation_edits(v) == a + b + c);
            assert(start + (a + b + c) =~= start + a + b + c);
        }
    }

    /// Appends the `[pdf]` edits.
    #[verifier::spinoff_prover]
    fn push_pdf_edits(&self, edits: &mut Vec<ConfigEdit>)
        ensures
            edits_view(final(edits)@) == edits_view(old(edits)@) + pdf_edits(self@),
    {
        let ghost start = edits_view(edits@);
        let t = Some("pdf");
        push_edit(edits, t, "no_dual", EditValue::Bool(self.no_dual));
        push_edit(edits, t, "no_mono", EditValue::Bool(self.no_mono));
        push_edit(edits, t, "dual_translate_first", EditValue::Bool(self.dual_translate_first));
        push_edit(edits, t, "skip_clean", EditValue::Bool(self.skip_clean));
        push_edit(edits, t, "max_pages_per_part", number_or_null_exec(self.max_pages_per_part_input.as_str()));
        push_edit(edits, t, "skip_scanned_detection", EditValue::Bool(self.skip_scanned_detection));
        push_edit(edits, t, "only_include_translated_page", EditValue::Bool(self.only_include_translated_page));
        assert(edits_view(edits@) =~= start + pdf_edits(self@));
    }

    /// Appends the selected engine's detail edits.
    #[verifier::spinoff_prover]
    fn push_detail_edits(&self, edits: &mut Vec<ConfigEdit>)
        ensures
            edits_view(final(edits)@) == edits_view(old(edits)@) + detail_edits(self@),
    {
        if self.engine_idx < self.engine_schemas.len() {
            let ghost start = edits_view(edits@);
            let schema = &self.engine_schemas[self.engine_idx];
            let ghost e = self@.engine_schemas[self.engine_idx as int];
            assert(e == schema@);
            let d = detail_table_name(schema.cli_flag.as_str());
            push_edit(edits, Some(d.as_str()), "translate_engine_type", EditValue::Str(schema.name.clone()));
            let llm = if schema.support_llm {
                "yes"
            } else {
                "no"
            };
            push_edit(edits, Some(d.as_str()), "support_llm", EditValue::Str(string_of(llm)));
            let ghost head = edits_view(edits@);
            let ghost fv = e.fields;
            let ghost mk = |f: FieldSchemaView| table_edit(d@, f.name, saved_param(f, self@.engine_params));
            let mut i: usize = 0;
            while i < schema.fields.len()
                invariant
                    self.engine_idx < self@.engine_schemas.len(),
                    schema == &self.engine_schemas[self.engine_idx as int],
                    fv == self@.engine_schemas[self.engine_idx as int].fields,
                    fv.len() == schema.fields@.len(),
                    i <= fv.len(),
                    mk == (|f: FieldSchemaView| table_edit(d@, f.name, saved_param(f, self@.engine_params))),
                    edits_view(edits@) == head + fv.take(i as int).map_values(mk),
                decreases fv.len() - i,
            {
                let value = self.saved_param_value(i);
                push_edit(edits, Some(d.as_str()), self.engine_schemas[self.engine_idx].fields[i].name.as_str(), value);
                proof {
                    assert(fv[i as int].name == self.engine_schemas@[self.engine_idx as int].fields@[i as int].name@);
                    assert(fv.take(i + 1).map_values(mk) =~= fv.take(i as int).map_values(mk).push(mk(fv[i as int])));
                    assert(head + fv.take(i + 1).map_values(mk) =~= (head + fv.take(i as int).map_values(mk)).push(
                        mk(fv[i as int]),
                    ));
                }
                i = i + 1;
            }
            proof {
                assert(fv.take(fv.len() as int) =~= fv);
                assert(edits_view(edits@) =~= start + detail_edits(self@));
            }
        } else {
            assert(edits_view(edits@) =~= edits_view(edits@) + detail_edits(self@));
        }
    }
}

/// The edits that save the state into the configuration document: every
/// offered engine's flag off and the selected one on, the `[translation]`
/// and `[pdf]` tables, and the selected engine's `[<flag>_detail]` table.
pub fn config_edits(app: &App) -> (r: Vec<ConfigEdit>)
    ensures
        edits_view(r@) == saved_config(app@),
{
    let mut edits: Vec<ConfigEdit> = Vec::new();
    assert(edits_view(edits@) =~= Seq::<EditView>::empty());
    app.push_flag_edits(&mut edits);
    app.push_translation_edits(&mut edits);
    app.push_pdf_edits(&mut edits);
    app.push_detail_edits(&mut edits);
    assert(edits_view(edits@) =~= saved_config(app@));
    edits
}



/// A typed number that loads back as typed: it parses, and is written the
/// way the number prints.
pub open spec fn plain_number(s: Seq<char>) -> bool {
    match parse_i64_spec(s) {
        Some(n) => signed_decimal(n as int) == s,
        None => false,
    }
}

/// A text that loads back as typed: neither empty nor the word `null`,
/// which are both saved as `null` and skipped on loading.
pub open spec fn plain_text(s: Seq<char>) -> bool {
    s.len() > 0 && s != "null"@
}

/// The language at `i` loads back: it is in the table, the first with its
/// code, and its code is not the word `null`.
pub open spec fn language_reloads(langs: Seq<(Seq<char>, Seq<char>)>, i: usize) -> bool {
    &&& i < langs.len()
    &&& code_index(langs, langs[i as int].1) == Some(i as int)
    &&& langs[i as int].1 != "null"@
}

/// A typed number after a save and a load: its printed form when it
/// parses, else the loading state's own text.
pub open spec fn reloaded_number(saved: Seq<char>, current: Seq<char>) -> Seq<char> {
    match parse_i64_spec(saved) {
        Some(n) => signed_decimal(n as int),
        None => current,
    }
}

/// The number 5 prints as `5`.
proof fn lemma_five()
    ensures
        signed_decimal(5) == "5"@,
{
    reveal_strlit("5");
    assert(decimal(5) =~= seq![crate::text::digit_char(5)]);
}

/// The keys written by a save, told apart by their lengths (and the two
/// pairs of equal length by a letter).
pub(crate) proof fn lemma_setting_keys()
    ensures
        "translation"@.len() == 11,
        "pdf"@.len() == 3,
        "translation"@.last() == 'n',
        "pdf"@.last() == 'f',
        "_detail"@.len() == 7,
        "_detail"@.last() == 'l',
        "lang_in"@.len() == 7,
        "lang_out"@.len() == 8,
        "qps"@.len() == 3,
        "custom_system_prompt"@.len() == 20,
        "min_text_length"@.len() == 15,
        "pool_max_workers"@.len() == 16,
        "term_qps"@.len() == 8,
        "term_pool_max_workers"@.len() == 21,
        "output"@.len() == 6,
        "glossaries"@.len() == 10,
        "save_auto_extracted_glossary"@.len() == 28,
        "no_auto_extract_glossary"@.len() == 24,
        "lang_out"@ != "term_qps"@,
        "no_dual"@.len() == 7,
        "no_mono"@.len() == 7,
        "dual_translate_first"@.len() == 20,
        "skip_clean"@.len() == 10,
        "max_pages_per_part"@.len() == 18,
        "skip_scanned_detection"@.len() == 22,
        "only_include_translated_page"@.len() == 28,
        "no_dual"@ != "no_mono"@,
        "null"@.len() == 4,
{
    reveal_strlit("translation");
    reveal_strlit("pdf");
    reveal_strlit("_detail");
    reveal_strlit("lang_in");
    reveal_strlit("lang_out");
    reveal_strlit("qps");
    reveal_strlit("custom_system_prompt");
    reveal_strlit("min_text_length");
    reveal_strlit("pool_max_workers");
    reveal_strlit("term_qps");
    reveal_strlit("term_pool_max_workers");
    reveal_strlit("output");
    reveal_strlit("glossaries");
    reveal_strlit("save_auto_extracted_glossary");
    reveal_strlit("no_auto_extract_glossary");
    reveal_strlit("no_dual");
    reveal_strlit("no_mono");
    reveal_strlit("dual_translate_first");
    reveal_strlit("skip_clean");
    reveal_strlit("max_pages_per_part");
    reveal_strlit("skip_scanned_detection");
    reveal_strlit("only_include_translated_page");
    reveal_strlit("null");
    assert("lang_out"@[0] != "term_qps"@[0]);
    assert("no_dual"@[3] != "no_mono"@[3]);
}

/// An engine's detail table is neither `[translation]` nor `[pdf]`.
pub(crate) proof fn lemma_detail_key_differs(flag: Seq<char>)
    ensures
        detail_key(flag) != "translation"@,
        detail_key(flag) != "pdf"@,
{
    lemma_setting_keys();
    let d = detail_key(flag);
    assert(d[d.len() - 1] == "_detail"@[6]);
}

/// What a save leaves in `[translation]` and `[pdf]`: the value the
/// translation (or PDF) edits write, over what was there before them.
proof fn lemma_saved_tables(v: AppView, t: Seq<(Seq<char>, ItemView)>, key: Seq<char>)
    requires
        edits_fit(t, saved_config(v)),
    ensures
        ({
            let t1 = edits_applied(t, saved_config(v));
            let rf = flag_resets(v.engine_schemas) + active_flag(v);
            &&& entries_get(table_of(t1, "translation"@), key) == written_value(
                translation_edits(v),
                "translation"@,
                key,
                written_value(rf, "translation"@, key, entries_get(table_of(t, "translation"@), key)),
            )
            &&& entries_get(table_of(t1, "pdf"@), key) == written_value(
                pdf_edits(v),
                "pdf"@,
                key,
                written_value(rf + translation_edits(v), "pdf"@, key, entries_get(table_of(t, "pdf"@), key)),
            )
        }),
{
    lemma_setting_keys();
    let rf = flag_resets(v.engine_schemas) + active_flag(v);
    let te = translation_edits(v);
    let pe = pdf_edits(v);
    let de = detail_edits(v);
    assert(saved_config(v) == rf + te + pe + de);
    assert forall|i: int| 0 <= i < de.len() implies #[trigger] de[i].table == Some(
        detail_key(v.engine_schemas[v.engine_idx as int].cli_flag),
    ) by {}
    lemma_detail_key_differs(v.engine_schemas[v.engine_idx as int].cli_flag);
    assert forall|i: int| 0 <= i < pe.len() implies #[trigger] pe[i].table == Some("pdf"@) by {}
    assert forall|i: int| 0 <= i < te.len() implies #[trigger] te[i].table == Some("translation"@) by {}
    let n1 = "translation"@;
    let n2 = "pdf"@;
    lemma_written_value(t, saved_config(v), n1, key);
    lemma_written_value(t, saved_config(v), n2, key);
    let b1 = entries_get(table_of(t, n1), key);
    let b2 = entries_get(table_of(t, n2), key);
    lemma_written_value_concat(rf + te + pe, de, n1, key, b1);
    lemma_written_value_concat(rf + te, pe, n1, key, b1);
    lemma_written_value_concat(rf, te, n1, key, b1);
    lemma_written_value_untouched(de, n1, key, written_value(rf + te + pe, n1, key, b1));
    lemma_written_value_untouched(pe, n1, key, written_value(rf + te, n1, key, b1));
    lemma_written_value_concat(rf + te + pe, de, n2, key, b2);
    lemma_written_value_concat(rf + te, pe, n2, key, b2);
    lemma_written_value_untouched(de, n2, key, written_value(rf + te + pe, n2, key, b2));
}

/// The value each of the first `[translation]` settings is saved as,
/// whatever stood there before the translation edits.
#[verifier::spinoff_prover]
#[verifier::rlimit(40)]
proof fn lemma_translation_written_first(v: AppView)
    ensures
        ({
            let te = translation_edits(v);
            let n = "translation"@;
            &&& forall|x: Option<ScalarView>| #[trigger] written_value(te, n, "lang_in"@, x) == Some(
                ScalarView::Str(code_at(v.language_map, v.lang_in_idx as int, "en"@)),
            )
            &&& forall|x: Option<ScalarView>| #[trigger] written_value(te, n, "lang_out"@, x) == Some(
                ScalarView::Str(code_at(v.language_map, v.lang_out_idx as int, "zh-CN"@)),
            )
            &&& forall|x: Option<ScalarView>| #[trigger] written_value(te, n, "qps"@, x) == Some(
                ScalarView::Int(v.qps as i64),
            )
            &&& forall|x: Option<ScalarView>| #[trigger] written_value(te, n, "custom_system_prompt"@, x) == Some(
                edit_scalar(text_or_null(v.custom_prompt)),
            )
            &&& plain_number(v.min_text_length) ==> forall|x: Option<ScalarView>| #[trigger] written_value(
                te,
                n,
                "min_text_length"@,
                x,
            ) == Some(ScalarView::Int(parse_i64_spec(v.min_text_length)->0))
            &&& v.min_text_length.len() == 0 ==> forall|x: Option<ScalarView>| #[trigger] written_value(
                te,
                n,
                "min_text_length"@,
                x,
            ) == Some(ScalarView::Int(5))
        }),
{
    lemma_setting_keys();
    if plain_number(v.min_text_length) {
        let m = parse_i64_spec(v.min_text_length)->0;
        crate::text::lemma_decimal_nonempty(if m < 0 { (-m) as nat } else { m as nat });
        assert(v.min_text_length.len() > 0);
    }
    reveal_with_fuel(written_value, 13);
}

/// The value each of the other `[translation]` settings is saved as,
/// whatever stood there before the translation edits.
#[verifier::spinoff_prover]
#[verifier::rlimit(40)]
proof fn lemma_translation_written_rest(v: AppView)
    ensures
        ({
            let te = translation_edits(v);
            let n = "translation"@;
            &&& forall|x: Option<ScalarView>| #[trigger] written_value(te, n, "pool_max_workers"@, x) == Some(
                edit_scalar(number_or_null(v.pool_max_workers_input)),
            )
            &&& forall|x: Option<ScalarView>| #[trigger] written_value(te, n, "term_qps"@, x) == Some(
                edit_scalar(number_or_null(v.term_qps_input)),
            )
            &&& forall|x: Option<ScalarView>| #[trigger] written_value(te, n, "term_pool_max_workers"@, x) == Some(
                edit_scalar(number_or_null(v.term_pool_max_workers_input)),
            )
            &&& forall|x: Option<ScalarView>| #[trigger] written_value(te, n, "output"@, x) == Some(
                edit_scalar(text_or_null(v.output_dir)),
            )
            &&& forall|x: Option<ScalarView>| #[trigger] written_value(te, n, "glossaries"@, x) == Some(
                edit_scalar(text_or_null(v.glossary_files)),
            )
            &&& forall|x: Option<ScalarView>| #[trigger] written_value(te, n, "save_auto_extracted_glossary"@, x)
                == Some(ScalarView::Bool(v.save_auto_extracted_glossary))
            &&& forall|x: Option<ScalarView>| #[trigger] written_value(te, n, "no_auto_extract_glossary"@, x)
                == Some(ScalarView::Bool(v.disable_auto_extract_glossary))

        }),
{
    lemma_setting_keys();
    if plain_number(v.min_text_length) {
        let m = parse_i64_spec(v.min_text_length)->0;
        crate::text::lemma_decimal_nonempty(if m < 0 { (-m) as nat } else { m as nat });
        assert(v.min_text_length.len() > 0);
    }
    reveal_with_fuel(written_value, 13);
}

/// The value each `[translation]` setting is saved as, whatever stood there
/// before the translation edits.
proof fn lemma_translation_written(v: AppView)
    ensures
        ({
            let te = translation_edits(v);
            let n = "translation"@;
            &&& forall|x: Option<ScalarView>| #[trigger] written_value(te, n, "lang_in"@, x) == Some(
                ScalarView::Str(code_at(v.language_map, v.lang_in_idx as int, "en"@)),
            )
            &&& forall|x: Option<ScalarView>| #[trigger] written_value(te, n, "lang_out"@, x) == Some(
                ScalarView::Str(code_at(v.language_map, v.lang_out_idx as int, "zh-CN"@)),
            )
            &&& forall|x: Option<ScalarView>| #[trigger] written_value(te, n, "qps"@, x) == Some(
                ScalarView::Int(v.qps as i64),
            )
            &&& forall|x: Option<ScalarView>| #[trigger] written_value(te, n, "custom_system_prompt"@, x) == Some(
                edit_scalar(text_or_null(v.custom_prompt)),
            )
            &&& plain_number(v.min_text_length) ==> forall|x: Option<ScalarView>| #[trigger] written_value(
                te,
                n,
                "min_text_length"@,
                x,
            ) == Some(ScalarView::Int(parse_i64_spec(v.min_text_length)->0))
            &&& v.min_text_length.len() == 0 ==> forall|x: Option<ScalarView>| #[trigger] written_value(
                te,
                n,
                "min_text_length"@,
                x,
            ) == Some(ScalarView::Int(5))
            &&& forall|x: Option<ScalarView>| #[trigger] written_value(te, n, "pool_max_workers"@, x) == Some(
                edit_scalar(number_or_null(v.pool_max_workers_input)),
            )
            &&& forall|x: Option<ScalarView>| #[trigger] written_value(te, n, "term_qps"@, x) == Some(
                edit_scalar(number_or_null(v.term_qps_input)),
            )
            &&& forall|x: Option<ScalarView>| #[trigger] written_value(te, n, "term_pool_max_workers"@, x) == Some(
                edit_scalar(number_or_null(v.term_pool_max_workers_input)),
            )
            &&& forall|x: Option<ScalarView>| #[trigger] written_value(te, n, "output"@, x) == Some(
                edit_scalar(text_or_null(v.output_dir)),
            )
            &&& forall|x: Option<ScalarView>| #[trigger] written_value(te, n, "glossaries"@, x) == Some(
                edit_scalar(text_or_null(v.glossary_files)),
            )
            &&& forall|x: Option<ScalarView>| #[trigger] written_value(te, n, "save_auto_extracted_glossary"@, x)
                == Some(ScalarView::Bool(v.save_auto_extracted_glossary))
            &&& forall|x: Option<ScalarView>| #[trigger] written_value(te, n, "no_auto_extract_glossary"@, x)
                == Some(ScalarView::Bool(v.disable_auto_extract_glossary))

        }),
{
    lemma_translation_written_first(v);
    lemma_translation_written_rest(v);
}

/// The value each `[pdf]` setting is saved as, whatever stood there before
/// the PDF edits.
proof fn lemma_pdf_written(v: AppView)
    ensures
        ({
            let pe = pdf_edits(v);
            let n = "pdf"@;
            &&& forall|x: Option<ScalarView>| #[trigger] written_value(pe, n, "no_dual"@, x) == Some(
                ScalarView::Bool(v.no_dual),
            )
            &&& forall|x: Option<ScalarView>| #[trigger] written_value(pe, n, "no_mono"@, x) == Some(
                ScalarView::Bool(v.no_mono),
            )
            &&& forall|x: Option<ScalarView>| #[trigger] written_value(pe, n, "dual_translate_first"@, x) == Some(
                ScalarView::Bool(v.dual_translate_first),
            )
            &&& forall|x: Option<ScalarView>| #[trigger] written_value(pe, n, "skip_clean"@, x) == Some(
                ScalarView::Bool(v.skip_clean),
            )
            &&& forall|x: Option<ScalarView>| #[trigger] written_value(pe, n, "max_pages_per_part"@, x) == Some(
                edit_scalar(number_or_null(v.max_pages_per_part_input)),
            )
            &&& forall|x: Option<ScalarView>| #[trigger] written_value(pe, n, "skip_scanned_detection"@, x) == Some(
                ScalarView::Bool(v.skip_scanned_detection),
            )
            &&& forall|x: Option<ScalarView>| #[trigger] written_value(pe, n, "only_include_translated_page"@, x)
                == Some(ScalarView::Bool(v.only_include_translated_page))
        }),
{
    lemma_setting_keys();
    reveal_with_fuel(written_value, 8);
}

/// The `[translation]` table a save leaves, as loading reads it.
proof fn lemma_saved_translation(v: AppView, t: Seq<(Seq<char>, ItemView)>)
    requires
        edits_fit(t, saved_config(v)),
    ensures
        ({
            let t1 = edits_applied(t, saved_config(v));
            let s = table_of(t1, "translation"@);
            &&& section(t1, "translation"@) == Some(s)
            &&& value_in(s, "lang_in"@) == Some(ScalarView::Str(code_at(v.language_map, v.lang_in_idx as int, "en"@)))
            &&& value_in(s, "lang_out"@) == Some(
                ScalarView::Str(code_at(v.language_map, v.lang_out_idx as int, "zh-CN"@)),
            )
            &&& value_in(s, "qps"@) == Some(ScalarView::Int(v.qps as i64))
            &&& value_in(s, "custom_system_prompt"@) == Some(edit_scalar(text_or_null(v.custom_prompt)))
            &&& plain_number(v.min_text_length) ==> value_in(s, "min_text_length"@) == Some(
                ScalarView::Int(parse_i64_spec(v.min_text_length)->0),
            )
            &&& v.min_text_length.len() == 0 ==> value_in(s, "min_text_length"@) == Some(ScalarView::Int(5))
            &&& value_in(s, "pool_max_workers"@) == Some(edit_scalar(number_or_null(v.pool_max_workers_input)))
            &&& value_in(s, "term_qps"@) == Some(edit_scalar(number_or_null(v.term_qps_input)))
            &&& value_in(s, "term_pool_max_workers"@) == Some(
                edit_scalar(number_or_null(v.term_pool_max_workers_input)),
            )
            &&& value_in(s, "output"@) == Some(edit_scalar(text_or_null(v.output_dir)))
            &&& value_in(s, "glossaries"@) == Some(edit_scalar(text_or_null(v.glossary_files)))
            &&& value_in(s, "save_auto_extracted_glossary"@) == Some(ScalarView::Bool(v.save_auto_extracted_glossary))
            &&& value_in(s, "no_auto_extract_glossary"@) == Some(ScalarView::Bool(v.disable_auto_extract_glossary))
        }),
{
    lemma_translation_written(v);
    lemma_saved_tables(v, t, "lang_in"@);
    lemma_saved_tables(v, t, "lang_out"@);
    lemma_saved_tables(v, t, "qps"@);
    lemma_saved_tables(v, t, "custom_system_prompt"@);
    lemma_saved_tables(v, t, "min_text_length"@);
    lemma_saved_tables(v, t, "pool_max_workers"@);
    lemma_saved_tables(v, t, "term_qps"@);
    lemma_saved_tables(v, t, "term_pool_max_workers"@);
    lemma_saved_tables(v, t, "output"@);
    lemma_saved_tables(v, t, "glossaries"@);
    lemma_saved_tables(v, t, "save_auto_extracted_glossary"@);
    lemma_saved_tables(v, t, "no_auto_extract_glossary"@);
    let t1 = edits_applied(t, saved_config(v));
    lemma_table_present(t1, "translation"@, "lang_in"@);
}

/// The `[pdf]` table a save leaves, as loading reads it.
proof fn lemma_saved_pdf(v: AppView, t: Seq<(Seq<char>, ItemView)>)
    requires
        edits_fit(t, saved_config(v)),
    ensures
        ({
            let t1 = edits_applied(t, saved_config(v));
            let s = table_of(t1, "pdf"@);
            &&& section(t1, "pdf"@) == Some(s)
            &&& value_in(s, "no_dual"@) == Some(ScalarView::Bool(v.no_dual))
            &&& value_in(s, "no_mono"@) == Some(ScalarView::Bool(v.no_mono))
            &&& value_in(s, "dual_translate_first"@) == Some(ScalarView::Bool(v.dual_translate_first))
            &&& value_in(s, "skip_clean"@) == Some(ScalarView::Bool(v.skip_clean))
            &&& value_in(s, "max_pages_per_part"@) == Some(edit_scalar(number_or_null(v.max_pages_per_part_input)))
            &&& value_in(s, "skip_scanned_detection"@) == Some(ScalarView::Bool(v.skip_scanned_detection))
            &&& value_in(s, "only_include_translated_page"@) == Some(ScalarView::Bool(v.only_include_translated_page))
        }),
{
    lemma_pdf_written(v);
    lemma_saved_tables(v, t, "no_dual"@);
    lemma_saved_tables(v, t, "no_mono"@);
    lemma_saved_tables(v, t, "dual_translate_first"@);
    lemma_saved_tables(v, t, "skip_clean"@);
    lemma_saved_tables(v, t, "max_pages_per_part"@);
    lemma_saved_tables(v, t, "skip_scanned_detection"@);
    lemma_saved_tables(v, t, "only_include_translated_page"@);
    let t1 = edits_applied(t, saved_config(v));
    lemma_table_present(t1, "pdf"@, "no_dual"@);
}

/// What is saved is what loads back: loading the document a save leaves
/// (into a state `w` with the same language table) gives back each
/// `[translation]` and `[pdf]` setting of the saved state `v`. The switches
/// come back as they were; the QPS as saved (at least 1) and its text as it
/// prints; a language when it is the first with its code and that code is
/// not `null`; a text when it is neither empty nor `null` (otherwise `w`
/// keeps its own); a typed number as it prints when it parses (otherwise
/// `w` keeps its own); the minimum text length as it prints when it parses
/// as typed, and as 5 when it was empty.
pub proof fn law_saved_settings_load_back(v: AppView, w: AppView, t: Seq<(Seq<char>, ItemView)>)
    requires
        edits_fit(t, saved_config(v)),
        w.language_map == v.language_map,
    ensures
        ({
            let u = config_loaded(w, edits_applied(t, saved_config(v)));
            let q: u32 = if v.qps < 1 { 1 } else { v.qps };
            &&& language_reloads(v.language_map, v.lang_in_idx) ==> u.lang_in_idx == v.lang_in_idx
            &&& language_reloads(v.language_map, v.lang_out_idx) ==> u.lang_out_idx == v.lang_out_idx
            &&& u.qps == q
            &&& u.qps_input == decimal(q as nat)
            &&& u.custom_prompt == (if plain_text(v.custom_prompt) { v.custom_prompt } else { w.custom_prompt })
            &&& plain_number(v.min_text_length) ==> u.min_text_length == v.min_text_length
            &&& v.min_text_length.len() == 0 ==> u.min_text_length == "5"@
            &&& u.pool_max_workers_input == reloaded_number(v.pool_max_workers_input, w.pool_max_workers_input)
            &&& u.term_qps_input == reloaded_number(v.term_qps_input, w.term_qps_input)
            &&& u.term_pool_max_workers_input == reloaded_number(
                v.term_pool_max_workers_input,
                w.term_pool_max_workers_input,
            )
            &&& u.output_dir == (if plain_text(v.output_dir) { v.output_dir } else { w.output_dir })
            &&& u.glossary_files == (if plain_text(v.glossary_files) { v.glossary_files } else { w.glossary_files })
            &&& u.save_auto_extracted_glossary == v.save_auto_extracted_glossary
            &&& u.disable_auto_extract_glossary == v.disable_auto_extract_glossary
            &&& u.no_dual == v.no_dual
            &&& u.no_mono == v.no_mono
            &&& u.dual_translate_first == v.dual_translate_first
            &&& u.skip_clean == v.skip_clean
            &&& u.max_pages_per_part_input == reloaded_number(v.max_pages_per_part_input, w.max_pages_per_part_input)
            &&& u.skip_scanned_detection == v.skip_scanned_detection
            &&& u.only_include_translated_page == v.only_include_translated_page
        }),
{
    lemma_setting_keys();
    lemma_saved_translation(v, t);
    lemma_saved_pdf(v, t);
    reveal_strlit("5");
    lemma_five();
}


/// No flag looked at before the `k0`-th that a save leaves as it was (one
/// that no offered engine has) is switched on in `t` for an engine other
/// than the `idx`-th.
pub open spec fn no_earlier_switch(t: Seq<(Seq<char>, ItemView)>, engines: Seq<EngineSchemaView>, idx: int, k0: int) -> bool {
    forall|k: int|
        0 <= k < k0 && top_value(t, #[trigger] engine_flag(k)) == Some(ScalarView::Bool(true)) && !offers_flag(
            engines,
            engine_flag(k),
        ) && engine_with_flag(engines, engine_flag(k)) is Some ==> engine_with_flag(engines, engine_flag(k)) == Some(
            idx,
        )
}

/// Does some offered engine have the flag `f`?
pub open spec fn offers_flag(engines: Seq<EngineSchemaView>, f: Seq<char>) -> bool {
    exists|j: int| 0 <= j < engines.len() && #[trigger] engines[j].cli_flag == f
}

/// A parameter loads back as it is: absent, or a text that is neither
/// empty nor `null`, that is `true` or `false` for a `bool` parameter, and
/// that is written the way its number prints for an `int` parameter that
/// parses.
pub open spec fn param_reloads(f: FieldSchemaView, params: Seq<(Seq<char>, Seq<char>)>) -> bool {
    match entries_get(params, f.name) {
        Some(val) => {
            &&& plain_text(val)
            &&& f.field_type == "bool"@ ==> val == "true"@ || val == "false"@
            &&& f.field_type == "int"@ ==> match parse_i64_spec(val) {
                Some(n) => signed_decimal(n as int) == val,
                None => true,
            }
        },
        None => true,
    }
}

/// The text a loaded parameter gets from a detail table: the value's text
/// when there is one and it is not empty.
pub open spec fn param_text(d: Seq<(Seq<char>, ScalarView)>, key: Seq<char>) -> Option<Seq<char>> {
    match value_in(d, key) {
        Some(x) => match scalar_text(x) {
            Some(s) => if s.len() > 0 {
                Some(s)
            } else {
                None
            },
            None => None,
        },
        None => None,
    }
}

/// The flags are none of the table names a save writes.
pub(crate) proof fn lemma_flag_differs(k: int, x: Seq<char>)
    requires
        0 <= k < 23,
    ensures
        engine_flag(k) != "translation"@,
        engine_flag(k) != "pdf"@,
        engine_flag(k) != detail_key(x),
        engine_flag(k).len() > 0,
{
    lemma_setting_keys();
    reveal_strlit("google");
    reveal_strlit("bing");
    reveal_strlit("deepl");
    reveal_strlit("openai");
    reveal_strlit("zhipu");
    reveal_strlit("siliconflow");
    reveal_strlit("siliconflowfree");
    reveal_strlit("gemini");
    reveal_strlit("azure");
    reveal_strlit("tencent");
    reveal_strlit("dify");
    reveal_strlit("anythingllm");
    reveal_strlit("ollama");
    reveal_strlit("grok");
    reveal_strlit("groq");
    reveal_strlit("deepseek");
    reveal_strlit("qwenmt");
    reveal_strlit("openaicompatible");
    reveal_strlit("claudecode");
    reveal_strlit("aliyundashscope");
    reveal_strlit("azureopenai");
    reveal_strlit("modelscope");
    reveal_strlit("xinference");
    reveal_strlit("_detail");
    let d = detail_key(x);
    let f = engine_flag(k);
    assert(d[d.len() - 7] == '_');
    if f == d {
        assert(f[f.len() - 7] == '_');
        assert(false);
    }
}

/// Switching every offered flag off leaves `false` under each of them.
proof fn lemma_resets_top(engines: Seq<EngineSchemaView>, f: Seq<char>, before: Option<ItemView>)
    ensures
        written_top(flag_resets(engines), f, before) == if offers_flag(engines, f) {
            Some(ItemView::Value(ScalarView::Bool(false)))
        } else {
            before
        },
    decreases engines.len(),
{
    if engines.len() > 0 {
        let d = engines.drop_last();
        assert(flag_resets(engines).drop_last() =~= flag_resets(d));
        lemma_resets_top(d, f, before);
        if offers_flag(d, f) {
            let j = choose|j: int| 0 <= j < d.len() && #[trigger] d[j].cli_flag == f;
            assert(engines[j].cli_flag == f);
        }
        if offers_flag(engines, f) && engines.last().cli_flag != f {
            let j = choose|j: int| 0 <= j < engines.len() && #[trigger] engines[j].cli_flag == f;
            assert(d[j].cli_flag == f);
        }
    }
}

/// The edits of a save, one kind at a time, and the tables they write.
proof fn lemma_save_parts(v: AppView)
    requires
        v.engine_idx < v.engine_schemas.len(),
    ensures
        ({
            let rf = flag_resets(v.engine_schemas) + active_flag(v);
            let te = translation_edits(v);
            let pe = pdf_edits(v);
            let de = detail_edits(v);
            let dk = detail_key(v.engine_schemas[v.engine_idx as int].cli_flag);
            &&& saved_config(v) == rf + te + pe + de
            &&& forall|i: int| 0 <= i < rf.len() ==> (#[trigger] rf[i]).table is None
            &&& forall|i: int| 0 <= i < te.len() ==> (#[trigger] te[i]).table == Some("translation"@)
            &&& forall|i: int| 0 <= i < pe.len() ==> (#[trigger] pe[i]).table == Some("pdf"@)
            &&& forall|i: int| 0 <= i < de.len() ==> (#[trigger] de[i]).table == Some(dk)
        }),
{
    let rf = flag_resets(v.engine_schemas) + active_flag(v);
    let r = flag_resets(v.engine_schemas);
    assert forall|i: int| 0 <= i < rf.len() implies (#[trigger] rf[i]).table is None by {
        if i < r.len() {
            assert(rf[i] == r[i]);
        }
    }
    let de = detail_edits(v);
    assert forall|i: int| 0 <= i < de.len() implies #[trigger] de[i].table == Some(
        detail_key(v.engine_schemas[v.engine_idx as int].cli_flag),
    ) by {}
    let pe = pdf_edits(v);
    assert forall|i: int| 0 <= i < pe.len() implies #[trigger] pe[i].table == Some("pdf"@) by {}
    let te = translation_edits(v);
    assert forall|i: int| 0 <= i < te.len() implies #[trigger] te[i].table == Some("translation"@) by {}
}

/// What a save leaves under an engine flag at the top level: `true` for the
/// selected engine's flag, `false` for the other offered flags, and what
/// was there before for any other.
proof fn lemma_top_after_save(v: AppView, t: Seq<(Seq<char>, ItemView)>, k: int)
    requires
        0 <= k < 23,
        v.engine_idx < v.engine_schemas.len(),
    ensures
        ({
            let f = engine_flag(k);
            let t1 = edits_applied(t, saved_config(v));
            top_value(t1, f) == if f == v.engine_schemas[v.engine_idx as int].cli_flag {
                Some(ScalarView::Bool(true))
            } else if offers_flag(v.engine_schemas, f) {
                Some(ScalarView::Bool(false))
            } else {
                top_value(t, f)
            }
        }),
{
    let f = engine_flag(k);
    let cf = v.engine_schemas[v.engine_idx as int].cli_flag;
    let r = flag_resets(v.engine_schemas);
    let a = active_flag(v);
    let rf = r + a;
    let te = translation_edits(v);
    let pe = pdf_edits(v);
    let de = detail_edits(v);
    let sc = saved_config(v);
    lemma_save_parts(v);
    lemma_flag_differs(k, cf);
    assert forall|i: int| 0 <= i < sc.len() implies (#[trigger] sc[i]).table != Some(f) by {
        if i < rf.len() {
            assert(sc[i] == rf[i]);
        } else if i < rf.len() + te.len() {
            assert(sc[i] == te[i - rf.len()]);
        } else if i < rf.len() + te.len() + pe.len() {
            assert(sc[i] == pe[i - rf.len() - te.len()]);
        } else {
            assert(sc[i] == de[i - rf.len() - te.len() - pe.len()]);
        }
    }
    let b = entries_get(t, f);
    lemma_written_top(t, sc, f);
    lemma_written_top_concat(rf + te + pe, de, f, b);
    lemma_written_top_concat(rf + te, pe, f, b);
    lemma_written_top_concat(rf, te, f, b);
    lemma_written_top_concat(r, a, f, b);
    assert forall|i: int| 0 <= i < de.len() implies !overwrites(#[trigger] de[i], f) by {}
    assert forall|i: int| 0 <= i < pe.len() implies !overwrites(#[trigger] pe[i], f) by {}
    assert forall|i: int| 0 <= i < te.len() implies !overwrites(#[trigger] te[i], f) by {}
    lemma_written_top_untouched(de, f, written_top(rf + te + pe, f, b));
    lemma_written_top_untouched(pe, f, written_top(rf + te, f, b));
    lemma_written_top_untouched(te, f, written_top(rf, f, b));
    lemma_resets_top(v.engine_schemas, f, b);
    reveal_with_fuel(written_top, 2);
    assert(a.len() == 1 && a.drop_last().len() == 0);
    if offers_flag(v.engine_schemas, f) {
    }
}

/// The engine the flags pick: the first switched-on flag, from the `s`-th
/// on, that names an engine.
proof fn lemma_chosen_engine(engines: Seq<EngineSchemaView>, t: Seq<(Seq<char>, ItemView)>, s: int, k0: int, idx: int)
    requires
        0 <= s <= k0 < 23,
        top_value(t, engine_flag(k0)) == Some(ScalarView::Bool(true)),
        engine_with_flag(engines, engine_flag(k0)) == Some(idx),
        forall|k: int|
            s <= k < k0 && top_value(t, #[trigger] engine_flag(k)) == Some(ScalarView::Bool(true))
                && engine_with_flag(engines, engine_flag(k)) is Some ==> engine_with_flag(engines, engine_flag(k))
                == Some(idx),
    ensures
        chosen_engine(engines, t, s) == Some(idx),
    decreases k0 - s,
{
    if s < k0 {
        lemma_chosen_engine(engines, t, s + 1, k0, idx);
    }
}

/// The parameter a loaded list holds under `key`: the detail table's text
/// for it, when `key` names one of the engine's parameters.
proof fn lemma_loaded_param(fields: Seq<FieldSchemaView>, d: Seq<(Seq<char>, ScalarView)>, key: Seq<char>)
    ensures
        entries_get(loaded_params(fields, d), key) == if exists|i: int|
            0 <= i < fields.len() && #[trigger] fields[i].name == key {
            param_text(d, key)
        } else {
            None
        },
    decreases fields.len(),
{
    if fields.len() > 0 {
        let fs = fields.drop_last();
        let acc = loaded_params(fs, d);
        let f = fields.last();
        lemma_loaded_param(fs, d, key);
        match param_text(d, f.name) {
            Some(s) => lemma_entries_get_set(acc, f.name, s, key),
            None => {},
        }
        if exists|i: int| 0 <= i < fs.len() && #[trigger] fs[i].name == key {
            let i = choose|i: int| 0 <= i < fs.len() && #[trigger] fs[i].name == key;
            assert(fields[i].name == key);
        }
        if exists|i: int| 0 <= i < fields.len() && #[trigger] fields[i].name == key {
            let i = choose|i: int| 0 <= i < fields.len() && #[trigger] fields[i].name == key;
            if i < fs.len() {
                assert(fs[i].name == key);
            }
        }
    } else {
        lemma_find_key(Seq::<(Seq<char>, Seq<char>)>::empty(), key);
    }
}


/// The detail table a save leaves for the selected engine, as loading reads
/// it: present, with each parameter's saved value.
proof fn lemma_saved_detail(v: AppView, t: Seq<(Seq<char>, ItemView)>, j: int)
    requires
        edits_fit(t, saved_config(v)),
        v.engine_idx < v.engine_schemas.len(),
        0 <= j < v.engine_schemas[v.engine_idx as int].fields.len(),
        ({
            let fs = v.engine_schemas[v.engine_idx as int].fields;
            forall|a: int, b: int| 0 <= a < b < fs.len() ==> fs[a].name != fs[b].name
        }),
    ensures
        ({
            let e = v.engine_schemas[v.engine_idx as int];
            let t1 = edits_applied(t, saved_config(v));
            let d = table_of(t1, detail_key(e.cli_flag));
            &&& section(t1, detail_key(e.cli_flag)) == Some(d)
            &&& value_in(d, e.fields[j].name) == Some(edit_scalar(saved_param(e.fields[j], v.engine_params)))
        }),
{
    let e = v.engine_schemas[v.engine_idx as int];
    let fs = e.fields;
    let dk = detail_key(e.cli_flag);
    let name = fs[j].name;
    let rf = flag_resets(v.engine_schemas) + active_flag(v);
    let te = translation_edits(v);
    let pe = pdf_edits(v);
    let de = detail_edits(v);
    let sc = saved_config(v);
    let t1 = edits_applied(t, sc);
    lemma_save_parts(v);
    let b = entries_get(table_of(t, dk), name);
    lemma_written_value(t, sc, dk, name);
    lemma_written_value_concat(rf + te + pe, de, dk, name, b);
    assert forall|i: int| 2 + j < i < de.len() implies !writes(#[trigger] de[i], dk, name) && !overwrites(de[i], dk) by {
        assert(de[i] == table_edit(dk, fs[i - 2].name, saved_param(fs[i - 2], v.engine_params)));
    }
    assert(de[2 + j] == table_edit(dk, name, saved_param(fs[j], v.engine_params)));
    lemma_written_value_last(de, 2 + j, dk, name, written_value(rf + te + pe, dk, name, b));
    lemma_table_present(t1, dk, name);
}

/// What is saved is what loads back, for the engine: loading the document a
/// save leaves (into a state offering the same engines) selects the saved
/// engine again and gives back each of its parameters. This holds when the
/// saved engine is the one its own flag finds, no flag looked at earlier is
/// left switched on for another engine, the engine's parameters have
/// distinct names, and each parameter loads back as it is.
pub proof fn law_saved_engine_loads_back(v: AppView, w: AppView, t: Seq<(Seq<char>, ItemView)>, k0: int)
    requires
        edits_fit(t, saved_config(v)),
        w.engine_schemas == v.engine_schemas,
        v.engine_idx < v.engine_schemas.len(),
        0 <= k0 < 23,
        engine_flag(k0) == v.engine_schemas[v.engine_idx as int].cli_flag,
        engine_with_flag(v.engine_schemas, engine_flag(k0)) == Some(v.engine_idx as int),
        no_earlier_switch(t, v.engine_schemas, v.engine_idx as int, k0),
        ({
            let fs = v.engine_schemas[v.engine_idx as int].fields;
            &&& forall|a: int, b: int| 0 <= a < b < fs.len() ==> fs[a].name != fs[b].name
            &&& forall|j: int| 0 <= j < fs.len() ==> param_reloads(#[trigger] fs[j], v.engine_params)
        }),
    ensures
        ({
            let u = config_loaded(w, edits_applied(t, saved_config(v)));
            let fs = v.engine_schemas[v.engine_idx as int].fields;
            &&& u.engine_idx == v.engine_idx
            &&& forall|j: int| 0 <= j < fs.len() ==> entries_get(u.engine_params, #[trigger] fs[j].name) == entries_get(
                v.engine_params,
                fs[j].name,
            )
        }),
{
    let engines = v.engine_schemas;
    let idx = v.engine_idx as int;
    let e = engines[idx];
    let fs = e.fields;
    let t1 = edits_applied(t, saved_config(v));
    lemma_top_after_save(v, t, k0);
    assert forall|k: int|
        0 <= k < k0 && top_value(t1, #[trigger] engine_flag(k)) == Some(ScalarView::Bool(true)) && engine_with_flag(
            engines,
            engine_flag(k),
        ) is Some implies engine_with_flag(engines, engine_flag(k)) == Some(idx) by {
        lemma_top_after_save(v, t, k);
    }
    lemma_chosen_engine(engines, t1, 0, k0, idx);
    let v1 = sections_loaded(w, t1);
    assert(v1.engine_schemas == engines);
    let v2 = engine_selected(v1, t1);
    assert(v2.engine_idx == v.engine_idx);
    let dk = detail_key(e.cli_flag);
    let d = table_of(t1, dk);
    lemma_setting_keys();
    reveal_strlit("true");
    reveal_strlit("false");
    reveal_strlit("bool");
    reveal_strlit("int");
    assert("bool"@.len() == 4 && "int"@.len() == 3 && "true"@.len() == 4 && "false"@.len() == 5);
    if fs.len() > 0 {
        lemma_saved_detail(v, t, 0);
    } else {
        lemma_save_parts(v);
        let rf = flag_resets(v.engine_schemas) + active_flag(v);
        let te = translation_edits(v);
        let pe = pdf_edits(v);
        let de = detail_edits(v);
        let tk = "translate_engine_type"@;
        let b = entries_get(table_of(t, dk), tk);
        lemma_written_value(t, saved_config(v), dk, tk);
        lemma_written_value_concat(rf + te + pe, de, dk, tk, b);
        lemma_written_value_some(de, 0, dk, tk, written_value(rf + te + pe, dk, tk, b));
        lemma_table_present(t1, dk, tk);
    }
    let u = config_loaded(w, t1);
    assert(u.engine_params == loaded_params(fs, d));
    assert forall|j: int| 0 <= j < fs.len() implies entries_get(u.engine_params, #[trigger] fs[j].name)
        == entries_get(v.engine_params, fs[j].name) by {
        lemma_saved_detail(v, t, j);
        lemma_loaded_param(fs, d, fs[j].name);
        assert(param_reloads(fs[j], v.engine_params));
        match entries_get(v.engine_params, fs[j].name) {
            Some(val) => {
                if fs[j].field_type == "int"@ {
                    match parse_i64_spec(val) {
                        Some(n) => {},
                        None => {},
                    }
                }
            },
            None => {},
        }
    }
}


/// Tables with the same contents read the same.
proof fn lemma_same_table_reads(a: Seq<(Seq<char>, ScalarView)>, b: Seq<(Seq<char>, ScalarView)>)
    requires
        crate::toml_model::same_table(a, b),
    ensures
        forall|k: Seq<char>| #[trigger] value_in(a, k) == value_in(b, k),
{
    assert forall|k: Seq<char>| #[trigger] value_in(a, k) == value_in(b, k) by {
        assert(entries_get(a, k) == entries_get(b, k));
    }
}

/// Parameters loaded from tables with the same contents are the same.
proof fn lemma_same_params(fields: Seq<FieldSchemaView>, a: Seq<(Seq<char>, ScalarView)>, b: Seq<(Seq<char>, ScalarView)>)
    requires
        forall|k: Seq<char>| #[trigger] value_in(a, k) == value_in(b, k),
    ensures
        loaded_params(fields, a) == loaded_params(fields, b),
    decreases fields.len(),
{
    if fields.len() > 0 {
        lemma_same_params(fields.drop_last(), a, b);
        assert(value_in(a, fields.last().name) == value_in(b, fields.last().name));
    }
}

/// The engine chosen from documents with the same entries is the same.
proof fn lemma_same_choice(engines: Seq<EngineSchemaView>, a: Seq<(Seq<char>, ItemView)>, b: Seq<(Seq<char>, ItemView)>, k: int)
    requires
        crate::toml_model::same_document(a, b),
    ensures
        chosen_engine(engines, a, k) == chosen_engine(engines, b, k),
    decreases 23 - k,
{
    if 0 <= k < 23 {
        crate::toml_model::lemma_same_reads(a, b, engine_flag(k), engine_flag(k));
        lemma_same_choice(engines, a, b, k + 1);
    }
}

/// Tables that read the same load the same `[translation]` settings.
proof fn lemma_same_translation(w: AppView, a: Seq<(Seq<char>, ScalarView)>, b: Seq<(Seq<char>, ScalarView)>)
    requires
        forall|k: Seq<char>| #[trigger] value_in(a, k) == value_in(b, k),
    ensures
        translation_loaded(w, a) == translation_loaded(w, b),
{
    assert(value_in(a, "lang_in"@) == value_in(b, "lang_in"@));
    assert(value_in(a, "lang_out"@) == value_in(b, "lang_out"@));
    assert(value_in(a, "qps"@) == value_in(b, "qps"@));
    assert(value_in(a, "custom_system_prompt"@) == value_in(b, "custom_system_prompt"@));
    assert(value_in(a, "min_text_length"@) == value_in(b, "min_text_length"@));
    assert(value_in(a, "pool_max_workers"@) == value_in(b, "pool_max_workers"@));
    assert(value_in(a, "term_qps"@) == value_in(b, "term_qps"@));
    assert(value_in(a, "term_pool_max_workers"@) == value_in(b, "term_pool_max_workers"@));
    assert(value_in(a, "output"@) == value_in(b, "output"@));
    assert(value_in(a, "glossaries"@) == value_in(b, "glossaries"@));
    assert(value_in(a, "save_auto_extracted_glossary"@) == value_in(b, "save_auto_extracted_glossary"@));
    assert(value_in(a, "no_auto_extract_glossary"@) == value_in(b, "no_auto_extract_glossary"@));
}

/// Tables that read the same load the same `[pdf]` settings.
proof fn lemma_same_pdf(w: AppView, a: Seq<(Seq<char>, ScalarView)>, b: Seq<(Seq<char>, ScalarView)>)
    requires
        forall|k: Seq<char>| #[trigger] value_in(a, k) == value_in(b, k),
    ensures
        pdf_loaded(w, a) == pdf_loaded(w, b),
{
    assert(value_in(a, "no_dual"@) == value_in(b, "no_dual"@));
    assert(value_in(a, "no_mono"@) == value_in(b, "no_mono"@));
    assert(value_in(a, "dual_translate_first"@) == value_in(b, "dual_translate_first"@));
    assert(value_in(a, "skip_clean"@) == value_in(b, "skip_clean"@));
    assert(value_in(a, "max_pages_per_part"@) == value_in(b, "max_pages_per_part"@));
    assert(value_in(a, "skip_scanned_detection"@) == value_in(b, "skip_scanned_detection"@));
    assert(value_in(a, "only_include_translated_page"@) == value_in(b, "only_include_translated_page"@));
}

/// A table of documents with the same entries reads the same in both.
proof fn lemma_same_section(a: Seq<(Seq<char>, ItemView)>, b: Seq<(Seq<char>, ItemView)>, n: Seq<char>)
    requires
        crate::toml_model::same_document(a, b),
    ensures
        section(a, n) is Some == section(b, n) is Some,
        section(a, n) is Some ==> forall|k: Seq<char>| #[trigger] value_in(section(a, n)->0, k) == value_in(
            section(b, n)->0,
            k,
        ),
{
    crate::toml_model::lemma_same_reads(a, b, n, n);
    if section(a, n) is Some {
        crate::toml_model::lemma_same_table_of(a, b, n);
        assert(section(a, n)->0 == table_of(a, n) && section(b, n)->0 == table_of(b, n));
        lemma_same_table_reads(table_of(a, n), table_of(b, n));
    }
}

/// Documents with the same entries load the same `[translation]` and
/// `[pdf]` settings.
proof fn lemma_same_sections(w: AppView, a: Seq<(Seq<char>, ItemView)>, b: Seq<(Seq<char>, ItemView)>)
    requires
        crate::toml_model::same_document(a, b),
    ensures
        sections_loaded(w, a) == sections_loaded(w, b),
{
    let tr = "translation"@;
    let pdf = "pdf"@;
    lemma_same_section(a, b, tr);
    lemma_same_section(a, b, pdf);
    let w1 = match section(a, tr) {
        Some(x) => translation_loaded(w, x),
        None => w,
    };
    if section(a, tr) is Some {
        lemma_same_translation(w, section(a, tr)->0, section(b, tr)->0);
    }
    if section(a, pdf) is Some {
        lemma_same_pdf(w1, section(a, pdf)->0, section(b, pdf)->0);
    }
}

/// Documents with the same entries load the same engine parameters.
proof fn lemma_same_params_loaded(v: AppView, a: Seq<(Seq<char>, ItemView)>, b: Seq<(Seq<char>, ItemView)>)
    requires
        crate::toml_model::same_document(a, b),
    ensures
        params_loaded(v, a) == params_loaded(v, b),
{
    if v.engine_idx < v.engine_schemas.len() {
        let dk = detail_key(v.engine_schemas[v.engine_idx as int].cli_flag);
        lemma_same_section(a, b, dk);
        if section(a, dk) is Some {
            lemma_same_params(v.engine_schemas[v.engine_idx as int].fields, section(a, dk)->0, section(b, dk)->0);
        }
    }
}

/// Loading documents with the same entries, whatever their order, gives
/// the same state.
pub proof fn lemma_same_loads(w: AppView, a: Seq<(Seq<char>, ItemView)>, b: Seq<(Seq<char>, ItemView)>)
    requires
        crate::toml_model::same_document(a, b),
    ensures
        config_loaded(w, a) == config_loaded(w, b),
{
    lemma_same_sections(w, a, b);
    let v1 = sections_loaded(w, a);
    lemma_same_choice(v1.engine_schemas, a, b, 0);
    let v2 = engine_selected(v1, a);
    assert(v2 == engine_selected(v1, b));
    lemma_same_params_loaded(v2, a, b);
}

/// Loads a configuration file's text into the state: an error, with the
/// state unchanged, when the text is not TOML; otherwise the state that
/// loading its entries gives.
pub fn load_config_text(app: &mut App, text: &str) -> (r: Result<(), String>)
    ensures
        r is Ok <==> parsed_config(text@) is Some,
        r is Ok ==> final(app)@ == config_loaded(old(app)@, parsed_config(text@)->0),
        r is Err ==> final(app)@ == old(app)@,
{
    match parse_config(text) {
        Ok(t) => {
            apply_config(app, &t);
            Ok(())
        },
        Err(m) => Err(m),
    }
}

/// The text of the configuration file after saving the state into it (the
/// file's text, or none when there is no file): the rest of the file is
/// kept. Text that is not TOML, or a table of the file written as a plain
/// value where the save writes a table, is an error.
pub fn save_config_text(app: &App, existing: Option<&str>) -> (r: Result<String, String>)
    ensures
        (existing matches Some(t) && parsed_config(t@) is None) ==> r is Err,
        ({
            let start = saved_over(
                match existing {
                    Some(t) => Some(t@),
                    None => None,
                },
            );
            r matches Ok(text) ==> parsed_config(text@) is Some && edits_fit(start, saved_config(app@))
                && same_document(parsed_config(text@)->0, edits_applied(start, saved_config(app@)))
        }),
        (existing matches Some(t) ==> parsed_config(t@) is Some) && edits_fit(
            saved_over(
                match existing {
                    Some(t) => Some(t@),
                    None => None,
                },
            ),
            saved_config(app@),
        ) ==> r is Ok,
{
    let edits = config_edits(app);
    edit_config_text(&edits, existing)
}

/// What is saved is what loads back, through the file's text: for text a
/// save gave (over the file's old text, or none), loading it into a state
/// `w` with the same language table gives back the settings as
/// [`law_saved_settings_load_back`] states.
pub proof fn law_saved_text_loads_back(v: AppView, w: AppView, existing: Option<Seq<char>>, text: Seq<char>)
    requires
        parsed_config(text) is Some,
        edits_fit(saved_over(existing), saved_config(v)),
        same_document(parsed_config(text)->0, edits_applied(saved_over(existing), saved_config(v))),
        w.language_map == v.language_map,
    ensures
        config_loaded(w, parsed_config(text)->0) == config_loaded(w, edits_applied(saved_over(existing), saved_config(v))),
        ({
            let u = config_loaded(w, parsed_config(text)->0);
            let q: u32 = if v.qps < 1 { 1 } else { v.qps };
            &&& language_reloads(v.language_map, v.lang_in_idx) ==> u.lang_in_idx == v.lang_in_idx
            &&& language_reloads(v.language_map, v.lang_out_idx) ==> u.lang_out_idx == v.lang_out_idx
            &&& u.qps == q
            &&& u.qps_input == decimal(q as nat)
            &&& u.custom_prompt == (if plain_text(v.custom_prompt) { v.custom_prompt } else { w.custom_prompt })
            &&& u.no_dual == v.no_dual
            &&& u.no_mono == v.no_mono
            &&& u.dual_translate_first == v.dual_translate_first
            &&& u.skip_clean == v.skip_clean
            &&& u.skip_scanned_detection == v.skip_scanned_detection
            &&& u.only_include_translated_page == v.only_include_translated_page
            &&& u.save_auto_extracted_glossary == v.save_auto_extracted_glossary
            &&& u.disable_auto_extract_glossary == v.disable_auto_extract_glossary
        }),
{
    lemma_same_loads(w, parsed_config(text)->0, edits_applied(saved_over(existing), saved_config(v)));
    law_saved_settings_load_back(v, w, saved_over(existing));
}


/// A save names the selected engine: among the edits it makes is setting
/// `translate_engine_type` in the engine's `<flag>_detail` table to the
/// engine's name.
pub proof fn law_save_names_the_engine(v: AppView)
    requires
        v.engine_idx < v.engine_schemas.len(),
    ensures
        saved_config(v).contains(
            EditView {
                table: Some(v.engine_schemas[v.engine_idx as int].cli_flag + "_detail"@),
                key: "translate_engine_type"@,
                value: EditValueView::Str(v.engine_schemas[v.engine_idx as int].name),
            },
        ),
{
    lemma_save_parts(v);
    let rf = flag_resets(v.engine_schemas) + active_flag(v);
    let k = (rf + translation_edits(v) + pdf_edits(v)).len() as int;
    assert(saved_config(v)[k] == detail_edits(v)[0]);
}


/// A save writes language codes: `lang_in` and `lang_out` in
/// `[translation]` are set to the codes (not the names) of the chosen
/// entries of the language table.
pub proof fn law_save_writes_language_codes(v: AppView)
    requires
        v.lang_in_idx < v.language_map.len(),
        v.lang_out_idx < v.language_map.len(),
    ensures
        saved_config(v).contains(
            EditView {
                table: Some("translation"@),
                key: "lang_in"@,
                value: EditValueView::Str(v.language_map[v.lang_in_idx as int].1),
            },
        ),
        saved_config(v).contains(
            EditView {
                table: Some("translation"@),
                key: "lang_out"@,
                value: EditValueView::Str(v.language_map[v.lang_out_idx as int].1),
            },
        ),
{
    let rf = flag_resets(v.engine_schemas) + active_flag(v);
    let sc = saved_config(v);
    assert(sc == rf + translation_edits(v) + pdf_edits(v) + detail_edits(v));
    assert(sc[rf.len() as int] == translation_edits(v)[0]);
    assert(sc[rf.len() as int + 1] == translation_edits(v)[1]);
}

} // verus!

//! The desktop shell's backend bridge: its saved preferences, the start-up
//! handshake with the backend, and the status it reports.

use vstd::prelude::*;
use vstd::string::*;
use crate::config::{bool_or, clamp_qps, detail_key, pdf_edit, plain_text, table_edit, text_or, text_or_null, top_edit, tr_edit};
use crate::json::{entries_get, entries_set, find_key, lemma_entries_get_set, lemma_find_key};
use crate::ordered_map::{map_get_index, map_insert, map_len, map_new, string_map_entries};
use crate::protocol::{EngineSchema, PythonEvent};
use crate::text::{str_eq, string_of};
use crate::toml_file::{edit_config_text, parse_config, parsed_config, saved_over};
use crate::toml_model::{same_document, 
    edits_view, engine_flag, engine_flag_name, get_bool, get_int, get_str, get_text, scalar_string, scalar_text,
    scalars_view, section, str_in, text_in, top_value, int_in, bool_in, ConfigEdit, EditValue, EditValueView,
    EditView, ItemView, ScalarView, TomlScalar, TomlTable, ENGINE_FLAG_COUNT, edits_applied, keys_distinct,
    lemma_written_top, lemma_written_top_concat, lemma_written_top_off, lemma_written_top_untouched, overwrites,
    table_of, value_in, written_top, edit_scalar, edits_fit, lemma_table_present, lemma_written_value,
    lemma_written_value_concat, lemma_written_value_untouched, lemma_written_value_last, writes, written_value,
    lemma_edits_keep_keys_distinct};

verus! {

/// Whether the backend runs, and the version it announced.
pub struct BackendStatus {
    pub running: bool,
    pub version: Option<String>,
}

/// The engines and languages the backend offers, as cached for the
/// desktop front end.
pub struct ConfigSchemaData {
    pub engines: Vec<EngineSchema>,
    pub languages: indexmap::IndexMap<String, String>,
}

/// Saved user preferences of the desktop front end (the same file as the
/// terminal front end's).
pub struct AppConfig {
    pub engine_name: String,
    pub engine_cli_flag: String,
    pub lang_in: String,
    pub lang_out: String,
    pub qps: u32,
    pub custom_prompt: String,
    pub no_dual: bool,
    pub no_mono: bool,
    pub dual_translate_first: bool,
    pub skip_clean: bool,
    pub engine_params: indexmap::IndexMap<String, String>,
}

/// The mathematical form of an [`AppConfig`].
pub struct AppConfigView {
    pub engine_name: Seq<char>,
    pub engine_cli_flag: Seq<char>,
    pub lang_in: Seq<char>,
    pub lang_out: Seq<char>,
    pub qps: u32,
    pub custom_prompt: Seq<char>,
    pub no_dual: bool,
    pub no_mono: bool,
    pub dual_translate_first: bool,
    pub skip_clean: bool,
    pub engine_params: Seq<(Seq<char>, Seq<char>)>,
}

impl View for AppConfig {
    type V = AppConfigView;

    open spec fn view(&self) -> AppConfigView {
        AppConfigView {
            engine_name: self.engine_name@,
            engine_cli_flag: self.engine_cli_flag@,
            lang_in: self.lang_in@,
            lang_out: self.lang_out@,
            qps: self.qps,
            custom_prompt: self.custom_prompt@,
            no_dual: self.no_dual,
            no_mono: self.no_mono,
            dual_translate_first: self.dual_translate_first,
            skip_clean: self.skip_clean,
            engine_params: string_map_entries(self.engine_params),
        }
    }
}

/// The all-empty preferences (`AppConfig::default`).
pub open spec fn empty_config() -> AppConfigView {
    AppConfigView {
        engine_name: Seq::empty(),
        engine_cli_flag: Seq::empty(),
        lang_in: Seq::empty(),
        lang_out: Seq::empty(),
        qps: 0,
        custom_prompt: Seq::empty(),
        no_dual: false,
        no_mono: false,
        dual_translate_first: false,
        skip_clean: false,
        engine_params: Seq::empty(),
    }
}

/// The preferences used when nothing is saved: 4 QPS, English to
/// Simplified Chinese.
pub open spec fn default_config() -> AppConfigView {
    AppConfigView {qps: 4, lang_in: "en"@, lang_out: "zh-CN"@, ..empty_config() }
}

impl Default for AppConfig {
    fn default() -> (r: AppConfig)
        ensures
            r@ == empty_config(),
    {
        AppConfig {
            engine_name: String::new(),
            engine_cli_flag: String::new(),
            lang_in: String::new(),
            lang_out: String::new(),
            qps: 0,
            custom_prompt: String::new(),
            no_dual: false,
            no_mono: false,
            dual_translate_first: false,
            skip_clean: false,
            engine_params: map_new(),
        }
    }
}

impl AppConfig {
    /// The preferences used when nothing is saved.
    pub fn with_defaults() -> (r: AppConfig)
        ensures
            r@ == default_config(),
    {
        AppConfig {
            qps: 4,
            lang_in: string_of("en"),
            lang_out: string_of("zh-CN"),
            ..AppConfig::default()
        }
    }
}

/// The first engine flag, from the `k`-th on, that is `true` at the top
/// level.
pub open spec fn first_flag_on(t: Seq<(Seq<char>, ItemView)>, k: int) -> Option<int>
    decreases 23 - k,
{
    if k < 0 || k >= 23 {
        None
    } else if top_value(t, engine_flag(k)) == Some(ScalarView::Bool(true)) {
        Some(k)
    } else {
        first_flag_on(t, k + 1)
    }
}

/// Is the key one of the engine description entries of a detail table?
pub open spec fn is_engine_key(k: Seq<char>) -> bool {
    k == "translate_engine_type"@ || k == "support_llm"@
}

/// The parameters of a detail table: every entry but the engine
/// description that stands for a text, in order.
pub open spec fn detail_params(d: Seq<(Seq<char>, ScalarView)>) -> Seq<(Seq<char>, Seq<char>)>
    decreases d.len(),
{
    if d.len() == 0 {
        Seq::empty()
    } else {
        let acc = detail_params(d.drop_last());
        let (k, x) = d.last();
        if is_engine_key(k) {
            acc
        } else {
            match scalar_text(x) {
                Some(s) => entries_set(acc, k, s),
                None => acc,
            }
        }
    }
}

/// The preferences after reading the engine switched on by `flag`.
pub open spec fn engine_loaded(c: AppConfigView, t: Seq<(Seq<char>, ItemView)>, flag: Seq<char>) -> AppConfigView {
    let c1 = AppConfigView {engine_cli_flag: flag, ..c };
    match section(t, detail_key(flag)) {
        Some(d) => AppConfigView {
            engine_params: detail_params(d),
            engine_name: match str_in(d, "translate_engine_type"@) {
                Some(n) => n,
                None => c1.engine_name,
            },
            ..c1
        },
        None => c1,
    }
}

/// The preferences a configuration file holds, over the defaults: the
/// languages, QPS and prompt of `[translation]`; the four switches of
/// `[pdf]` (off when missing from a present table); the first engine
/// switched on and its detail table.
pub open spec fn config_from_table(t: Seq<(Seq<char>, ItemView)>) -> AppConfigView {
    let c0 = default_config();
    let c1 = match section(t, "translation"@) {
        Some(tr) => AppConfigView {
            lang_in: text_or(text_in(tr, "lang_in"@), c0.lang_in),
            lang_out: text_or(text_in(tr, "lang_out"@), c0.lang_out),
            qps: match int_in(tr, "qps"@) {
                Some(q) => clamp_qps(q),
                None => c0.qps,
            },
            custom_prompt: text_or(text_in(tr, "custom_system_prompt"@), c0.custom_prompt),
            ..c0
        },
        None => c0,
    };
    let c2 = match section(t, "pdf"@) {
        Some(p) => AppConfigView {
            no_dual: bool_or(bool_in(p, "no_dual"@), false),
            no_mono: bool_or(bool_in(p, "no_mono"@), false),
            dual_translate_first: bool_or(bool_in(p, "dual_translate_first"@), false),
            skip_clean: bool_or(bool_in(p, "skip_clean"@), false),
            ..c1
        },
        None => c1,
    };
    match first_flag_on(t, 0) {
        Some(k) => engine_loaded(c2, t, engine_flag(k)),
        None => c2,
    }
}

/// The parameters of a detail table.
fn params_of_detail(d: &Vec<(String, TomlScalar)>) -> (r: indexmap::IndexMap<String, String>)
    ensures
        string_map_entries(r) == detail_params(scalars_view(d@)),
{
    let ghost dv = scalars_view(d@);
    let mut m = map_new();
    let mut i: usize = 0;
    assert(dv.take(0) =~= Seq::<(Seq<char>, ScalarView)>::empty());
    while i < d.len()
        invariant
            dv == scalars_view(d@),
            dv.len() == d@.len(),
            i <= d@.len(),
            string_map_entries(m) == detail_params(dv.take(i as int)),
        decreases d@.len() - i,
    {
        proof {
            assert(dv.take(i + 1).drop_last() =~= dv.take(i as int));
            assert(dv.take(i + 1).last() == dv[i as int]);
            assert(dv[i as int] == (d@[i as int].0@, d@[i as int].1@));
        }
        let k = d[i].0.as_str();
        if !(str_eq(k, "translate_engine_type") || str_eq(k, "support_llm")) {
            match scalar_string(&d[i].1) {
                Some(s) => map_insert(&mut m, d[i].0.clone(), s),
                None => {},
            }
        }
        i = i + 1;
    }
    assert(dv.take(d@.len() as int) =~= dv);
    m
}

/// The first engine flag that is `true` at the top level.
fn flag_on(t: &TomlTable) -> (r: Option<usize>)
    ensures
        match r {
            Some(k) => first_flag_on(t@, 0) == Some(k as int) && k < 23,
            None => first_flag_on(t@, 0) is None,
        },
{
    let mut k: usize = 0;
    while k < ENGINE_FLAG_COUNT
        invariant
            k <= 23,
            first_flag_on(t@, 0) == first_flag_on(t@, k as int),
        decreases 23 - k,
    {
        let on = match t.top_value(engine_flag_name(k)) {
            Some(TomlScalar::Bool(b)) => *b,
            _ => false,
        };
        if on {
            return Some(k);
        }
        k = k + 1;
    }
    None
}

/// Reads the engine switched on by flag `k`.
#[verifier::spinoff_prover]
fn load_engine(cfg: &mut AppConfig, t: &TomlTable, k: usize)
    requires
        k < 23,
    ensures
        final(cfg)@ == engine_loaded(old(cfg)@, t@, engine_flag(k as int)),
{
    let flag = engine_flag_name(k);
    cfg.engine_cli_flag = string_of(flag);
    let key = crate::config::detail_table_name(flag);
    match t.section(key.as_str()) {
        Some(d) => {
            cfg.engine_params = params_of_detail(d);
            match get_str(d, "translate_engine_type") {
                Some(n) => cfg.engine_name = n,
                None => {},
            }
        },
        None => {},
    }
}

/// The preferences a parsed configuration file holds.
#[verifier::spinoff_prover]
#[verifier::rlimit(40)]
pub fn config_from_toml(t: &TomlTable) -> (r: AppConfig)
    ensures
        r@ == config_from_table(t@),
{
    let mut cfg = AppConfig::with_defaults();
    match t.section("translation") {
        Some(tr) => {
            match get_text(tr, "lang_in") {
                Some(v) => cfg.lang_in = v,
                None => {},
            }
            match get_text(tr, "lang_out") {
                Some(v) => cfg.lang_out = v,
                None => {},
            }
            match get_int(tr, "qps") {
                Some(q) => {
                    let x: i64 = if q < 1 {1 } else { q };
                    cfg.qps = x as u32;
                },
                None => {},
            }
            match get_text(tr, "custom_system_prompt") {
                Some(v) => cfg.custom_prompt = v,
                None => {},
            }
        },
        None => {},
    }
    let ghost c1 = cfg@;
    match t.section("pdf") {
        Some(p) => {
            cfg.no_dual = match get_bool(p, "no_dual") {
                Some(b) => b,
                None => false,
            };
            cfg.no_mono = match get_bool(p, "no_mono") {
                Some(b) => b,
                None => false,
            };
            cfg.dual_translate_first = match get_bool(p, "dual_translate_first") {
                Some(b) => b,
                None => false,
            };
            cfg.skip_clean = match get_bool(p, "skip_clean") {
                Some(b) => b,
                None => false,
            };
        },
        None => {},
    }
    match flag_on(t) {
        Some(k) => load_engine(&mut cfg, t, k),
        None => {},
    }
    cfg
}

/// The edits that save the desktop preferences, in the order they are
/// made: every known engine flag off, the chosen one on, `[translation]`,
/// `[pdf]`, then the chosen engine's detail table (its name when known,
/// and each parameter, `null` when empty).
pub open spec fn saved_app_config(c: AppConfigView) -> Seq<EditView> {
    Seq::new(23, |k: int| top_edit(engine_flag(k), EditValueView::Bool(false))) + (if c.engine_cli_flag.len() > 0 {
        seq![top_edit(c.engine_cli_flag, EditValueView::Bool(true))]
    } else {
        Seq::empty()
    }) + seq![
        tr_edit("lang_in"@, EditValueView::Str(c.lang_in)),
        tr_edit("lang_out"@, EditValueView::Str(c.lang_out)),
        tr_edit("qps"@, EditValueView::Int(c.qps as i64)),
        tr_edit("custom_system_prompt"@, text_or_null(c.custom_prompt)),
        pdf_edit("no_dual"@, EditValueView::Bool(c.no_dual)),
        pdf_edit("no_mono"@, EditValueView::Bool(c.no_mono)),
        pdf_edit("dual_translate_first"@, EditValueView::Bool(c.dual_translate_first)),
        pdf_edit("skip_clean"@, EditValueView::Bool(c.skip_clean)),
    ] + if c.engine_cli_flag.len() > 0 {
        let d = detail_key(c.engine_cli_flag);
        (if c.engine_name.len() > 0 {
            seq![table_edit(d, "translate_engine_type"@, EditValueView::Str(c.engine_name))]
        } else {
            Seq::empty()
        }) + c.engine_params.map_values(|e: (Seq<char>, Seq<char>)| table_edit(d, e.0, text_or_null(e.1)))
    } else {
        Seq::empty()
    }
}

/// Appends an edit.
fn add_edit(edits: &mut Vec<ConfigEdit>, table: Option<&str>, key: &str, value: EditValue)
    ensures
        edits_view(final(edits)@) == edits_view(old(edits)@).push(
            EditView {
                table: match table {
                    Some(t) => Some(t@),
                    None => None,
                },
                key: key@,
                value: value@,
            },
        ),
{
    let t = match table {
        Some(t) => Some(string_of(t)),
        None => None,
    };
    let ghost before = edits@;
    edits.push(ConfigEdit {table: t, key: string_of(key), value });
    proof {
        assert(edits_view(edits@) =~= edits_view(before).push(edits@.last()@));
    }
}

/// The word `null` for an empty text, else the text.
fn null_if_empty(s: &str) -> (r: EditValue)
    ensures
        r@ == text_or_null(s@),
{
    if s.unicode_len() == 0 {
        EditValue::Str(string_of("null"))
    } else {
        EditValue::Str(string_of(s))
    }
}

/// The edits that save the desktop preferences.
#[verifier::spinoff_prover]
#[verifier::rlimit(60)]
pub fn app_config_edits(cfg: &AppConfig) -> (r: Vec<ConfigEdit>)
    ensures
        edits_view(r@) == saved_app_config(cfg@),
{
    let mut edits: Vec<ConfigEdit> = Vec::new();
    let ghost resets = Seq::new(23, |k: int| top_edit(engine_flag(k), EditValueView::Bool(false)));
    let mut k: usize = 0;
    while k < ENGINE_FLAG_COUNT
        invariant
            k <= 23,
            resets == Seq::new(23, |k: int| top_edit(engine_flag(k), EditValueView::Bool(false))),
            edits_view(edits@) == resets.take(k as int),
        decreases 23 - k,
    {
        add_edit(&mut edits, None, engine_flag_name(k), EditValue::Bool(false));
        assert(resets.take(k + 1) =~= resets.take(k as int).push(resets[k as int]));
        k = k + 1;
    }
    assert(resets.take(23) =~= resets);
    let ghost s0 = edits_view(edits@);
    let has_engine = cfg.engine_cli_flag.as_str().unicode_len() > 0;
    if has_engine {
        add_edit(&mut edits, None, cfg.engine_cli_flag.as_str(), EditValue::Bool(true));
    }
    let ghost s1 = edits_view(edits@);
    let t = Some("translation");
    add_edit(&mut edits, t, "lang_in", EditValue::Str(cfg.lang_in.clone()));
    add_edit(&mut edits, t, "lang_out", EditValue::Str(cfg.lang_out.clone()));
    add_edit(&mut edits, t, "qps", EditValue::Int(cfg.qps as i64));
    add_edit(&mut edits, t, "custom_system_prompt", null_if_empty(cfg.custom_prompt.as_str()));
    let p = Some("pdf");
    add_edit(&mut edits, p, "no_dual", EditValue::Bool(cfg.no_dual));
    add_edit(&mut edits, p, "no_mono", EditValue::Bool(cfg.no_mono));
    add_edit(&mut edits, p, "dual_translate_first", EditValue::Bool(cfg.dual_translate_first));
    add_edit(&mut edits, p, "skip_clean", EditValue::Bool(cfg.skip_clean));
    let ghost s2 = edits_view(edits@);
    if has_engine {
        let d = crate::config::detail_table_name(cfg.engine_cli_flag.as_str());
        if cfg.engine_name.as_str().unicode_len() > 0 {
            add_edit(&mut edits, Some(d.as_str()), "translate_engine_type", EditValue::Str(cfg.engine_name.clone()));
        }
        let ghost s3 = edits_view(edits@);
        let ghost pv = string_map_entries(cfg.engine_params);
        let ghost mk = |e: (Seq<char>, Seq<char>)| table_edit(d@, e.0, text_or_null(e.1));
        let n = map_len(&cfg.engine_params);
        let mut i: usize = 0;
        while i < n
            invariant
                n == pv.len(),
                pv == string_map_entries(cfg.engine_params),
                i <= n,
                mk == (|e: (Seq<char>, Seq<char>)| table_edit(d@, e.0, text_or_null(e.1))),
                edits_view(edits@) == s3 + pv.take(i as int).map_values(mk),
            decreases n - i,
        {
            match map_get_index(&cfg.engine_params, i) {
                Some(e) => {
                    add_edit(&mut edits, Some(d.as_str()), e.0.as_str(), null_if_empty(e.1.as_str()));
                    proof {
                        assert(pv.take(i + 1).map_values(mk) =~= pv.take(i as int).map_values(mk).push(mk(pv[i as int])));
                        assert(s3 + pv.take(i + 1).map_values(mk) =~= (s3 + pv.take(i as int).map_values(mk)).push(
                            mk(pv[i as int]),
                        ));
                    }
                },
                None => {},
            }
            i = i + 1;
        }
        proof {
            assert(pv.take(n as int) =~= pv);
        }
    }
    proof {
        let c = cfg@;
        assert(s1 =~= s0 + (if c.engine_cli_flag.len() > 0 {
            seq![top_edit(c.engine_cli_flag, EditValueView::Bool(true))]
        } else {
            Seq::empty()
        }));
        assert(edits_view(edits@) =~= saved_app_config(c));
    }
    edits
}

/// What the start-up handshake does with the next thing the backend
/// sends.
pub enum StartupStep {
    /// Keep waiting (the backend announced its version).
    Wait,
    /// Pass the event on to the front end, and keep waiting.
    Forward(PythonEvent),
    /// The engines and languages arrived: publish and cache them; the
    /// backend is up.
    Schema(ConfigSchemaData),
    /// The backend is gone before it was ready.
    Failed(String),
}

/// The message for a backend that exits during the handshake.
pub open spec fn exited_early_message() -> Seq<char> {
    "Python backend exited before sending ready event"@
}

/// One step of the start-up handshake: a version announcement is kept, the
/// schema ends the handshake, anything else is passed on, and the end of
/// the event stream fails it.
pub fn startup_step(version: &mut Option<String>, event: Option<PythonEvent>) -> (r: StartupStep)
    ensures
        match event {
            Some(PythonEvent::Ready {version: v, .. }) => r is Wait && *final(version) == Some(v),
            Some(PythonEvent::ConfigSchema {engines, languages }) => *final(version) == *old(version) && match r {
                StartupStep::Schema(d) => d.engines@ == engines@ && string_map_entries(d.languages)
                    == string_map_entries(languages),
                _ => false,
            },
            Some(e) => *final(version) == *old(version) && r == StartupStep::Forward(e),
            None => *final(version) == *old(version) && match r {
                StartupStep::Failed(m) => m@ == exited_early_message(),
                _ => false,
            },
        },
{
    match event {
        Some(PythonEvent::Ready {version: v, .. }) => {
            *version = Some(v);
            StartupStep::Wait
        },
        Some(PythonEvent::ConfigSchema {engines, languages }) => StartupStep::Schema(
            ConfigSchemaData {engines, languages },
        ),
        Some(other) => StartupStep::Forward(other),
        None => StartupStep::Failed(string_of("Python backend exited before sending ready event")),
    }
}

/// The status a finished handshake reports: running, with the version the
/// backend announced, if any.
pub fn started_status(version: Option<String>) -> (r: BackendStatus)
    ensures
        r.running,
        r.version == version,
{
    BackendStatus {running: true, version }
}

/// The status reported on request: running exactly when a command channel
/// to the backend is held; no version.
pub fn get_backend_status(channel_open: bool) -> (r: BackendStatus)
    ensures
        r.running == channel_open,
        r.version is None,
{
    BackendStatus {running: channel_open, version: None }
}


/// Is `f` one of the engine flags a configuration file can switch on?
pub open spec fn known_flag(f: Seq<char>) -> bool {
    exists|k: int| 0 <= k < 23 && #[trigger] engine_flag(k) == f
}

/// The preferences `c` load back as they are from the document a save
/// leaves over `t`: the languages and the prompt are not the word `null`,
/// the QPS is at least 1; without an engine flag there is no engine name or
/// parameter; with one, the flag is a known one, the parameters have
/// distinct names, none of them an engine description entry, and texts that
/// are neither empty nor `null`, the old detail table has distinct keys,
/// and an empty engine name is not contradicted by a name left in that
/// table.
pub open spec fn preferences_reload(c: AppConfigView, t: Seq<(Seq<char>, ItemView)>) -> bool {
    &&& c.lang_in != "null"@
    &&& c.lang_out != "null"@
    &&& 1 <= c.qps
    &&& c.custom_prompt != "null"@
    &&& if c.engine_cli_flag.len() == 0 {
        c.engine_name.len() == 0 && c.engine_params.len() == 0
    } else {
        let d = table_of(t, detail_key(c.engine_cli_flag));
        &&& known_flag(c.engine_cli_flag)
        &&& keys_distinct(c.engine_params)
        &&& keys_distinct(d)
        &&& forall|i: int|
            0 <= i < c.engine_params.len() ==> !is_engine_key((#[trigger] c.engine_params[i]).0) && plain_text(
                c.engine_params[i].1,
            )
        &&& c.engine_name.len() > 0 || match str_in(d, "translate_engine_type"@) {
            Some(n) => n.len() == 0,
            None => true,
        }
    }
}

/// A detail table's parameter, for distinct keys: the text of its value,
/// unless it is an engine description entry.
proof fn lemma_detail_params_get(d: Seq<(Seq<char>, ScalarView)>, key: Seq<char>)
    requires
        keys_distinct(d),
    ensures
        entries_get(detail_params(d), key) == if is_engine_key(key) {
            None
        } else {
            match value_in(d, key) {
                Some(x) => scalar_text(x),
                None => None,
            }
        },
    decreases d.len(),
{
    if d.len() == 0 {
        lemma_find_key(Seq::<(Seq<char>, Seq<char>)>::empty(), key);
        lemma_find_key(d, key);
    } else {
        let dl = d.drop_last();
        assert(keys_distinct(dl)) by {
            assert forall|i: int, j: int| 0 <= i < j < dl.len() implies (#[trigger] dl[i]).0 != (#[trigger] dl[j]).0 by {
                assert(dl[i] == d[i] && dl[j] == d[j]);
            }
        }
        lemma_detail_params_get(dl, key);
        lemma_find_key(d, key);
        lemma_find_key(dl, key);
        let (k, x) = d.last();
        let acc = detail_params(dl);
        if !is_engine_key(k) {
            match scalar_text(x) {
                Some(s) => lemma_entries_get_set(acc, k, s, key),
                None => {},
            }
        }
        if k == key {
            match find_key(dl, key) {
                Some(i) => {
                    assert(d[i].0 == d[d.len() - 1].0);
                },
                None => {},
            }
        } else {
            match find_key(dl, key) {
                Some(i) => {
                    assert(dl[i] == d[i]);
                },
                None => {
                    assert forall|j: int| 0 <= j < d.len() implies #[trigger] d[j].0 != key by {
                        if j < dl.len() {
                            assert(dl[j] == d[j]);
                        }
                    }
                },
            }
        }
    }
}

/// The parts of a save of the preferences: the flags switched off, the
/// chosen one switched on, the `[translation]` and `[pdf]` entries, and the
/// detail table.
proof fn lemma_app_save_parts(c: AppConfigView)
    ensures
        ({
            let r = Seq::new(23, |k: int| top_edit(engine_flag(k), EditValueView::Bool(false)));
            let f = if c.engine_cli_flag.len() > 0 {
                seq![top_edit(c.engine_cli_flag, EditValueView::Bool(true))]
            } else {
                Seq::empty()
            };
            let p = seq![
                tr_edit("lang_in"@, EditValueView::Str(c.lang_in)),
                tr_edit("lang_out"@, EditValueView::Str(c.lang_out)),
                tr_edit("qps"@, EditValueView::Int(c.qps as i64)),
                tr_edit("custom_system_prompt"@, text_or_null(c.custom_prompt)),
                pdf_edit("no_dual"@, EditValueView::Bool(c.no_dual)),
                pdf_edit("no_mono"@, EditValueView::Bool(c.no_mono)),
                pdf_edit("dual_translate_first"@, EditValueView::Bool(c.dual_translate_first)),
                pdf_edit("skip_clean"@, EditValueView::Bool(c.skip_clean)),
            ];
            let dk = detail_key(c.engine_cli_flag);
            let n = if c.engine_name.len() > 0 {
                seq![table_edit(dk, "translate_engine_type"@, EditValueView::Str(c.engine_name))]
            } else {
                Seq::empty()
            };
            let m = c.engine_params.map_values(|e: (Seq<char>, Seq<char>)| table_edit(dk, e.0, text_or_null(e.1)));
            let de = if c.engine_cli_flag.len() > 0 { n + m } else { Seq::empty() };
            &&& saved_app_config(c) == r + f + p + de
            &&& forall|i: int| 0 <= i < p.len() ==> (#[trigger] p[i]).table == Some("translation"@) || p[i].table == Some("pdf"@)
            &&& forall|i: int| 0 <= i < de.len() ==> (#[trigger] de[i]).table == Some(dk)
            &&& forall|i: int| 0 <= i < m.len() ==> (#[trigger] m[i]) == table_edit(dk, c.engine_params[i].0, text_or_null(c.engine_params[i].1))
        }),
{
    let dk = detail_key(c.engine_cli_flag);
    let n = if c.engine_name.len() > 0 {
        seq![table_edit(dk, "translate_engine_type"@, EditValueView::Str(c.engine_name))]
    } else {
        Seq::empty()
    };
    let m = c.engine_params.map_values(|e: (Seq<char>, Seq<char>)| table_edit(dk, e.0, text_or_null(e.1)));
    if c.engine_cli_flag.len() > 0 {
        assert forall|i: int| 0 <= i < (n + m).len() implies (#[trigger] (n + m)[i]).table == Some(dk) by {
            if i < n.len() {
                assert((n + m)[i] == n[i]);
            } else {
                assert((n + m)[i] == m[i - n.len()]);
            }
        }
    }
}


/// What a save of the preferences leaves under each engine flag: `true`
/// for the chosen flag, `false` for the others.
proof fn lemma_app_top(c: AppConfigView, t: Seq<(Seq<char>, ItemView)>, k: int)
    requires
        0 <= k < 23,
    ensures
        top_value(edits_applied(t, saved_app_config(c)), engine_flag(k)) == Some(
            ScalarView::Bool(c.engine_cli_flag.len() > 0 && engine_flag(k) == c.engine_cli_flag),
        ),
{
    let cf = c.engine_cli_flag;
    let fl = engine_flag(k);
    let r = Seq::new(23, |k: int| top_edit(engine_flag(k), EditValueView::Bool(false)));
    let f = if cf.len() > 0 {
        seq![top_edit(cf, EditValueView::Bool(true))]
    } else {
        Seq::empty()
    };
    let p = seq![
        tr_edit("lang_in"@, EditValueView::Str(c.lang_in)),
        tr_edit("lang_out"@, EditValueView::Str(c.lang_out)),
        tr_edit("qps"@, EditValueView::Int(c.qps as i64)),
        tr_edit("custom_system_prompt"@, text_or_null(c.custom_prompt)),
        pdf_edit("no_dual"@, EditValueView::Bool(c.no_dual)),
        pdf_edit("no_mono"@, EditValueView::Bool(c.no_mono)),
        pdf_edit("dual_translate_first"@, EditValueView::Bool(c.dual_translate_first)),
        pdf_edit("skip_clean"@, EditValueView::Bool(c.skip_clean)),
    ];
    let dk = detail_key(cf);
    let n = if c.engine_name.len() > 0 {
        seq![table_edit(dk, "translate_engine_type"@, EditValueView::Str(c.engine_name))]
    } else {
        Seq::empty()
    };
    let m = c.engine_params.map_values(|e: (Seq<char>, Seq<char>)| table_edit(dk, e.0, text_or_null(e.1)));
    let de = if cf.len() > 0 { n + m } else { Seq::empty() };
    let sc = saved_app_config(c);
    lemma_app_save_parts(c);
    crate::config::lemma_flag_differs(k, cf);
    assert forall|i: int| 0 <= i < sc.len() implies (#[trigger] sc[i]).table != Some(fl) by {
        if i < r.len() {
            assert(sc[i] == r[i]);
        } else if i < r.len() + f.len() {
            assert(sc[i] == f[i - r.len()]);
        } else if i < r.len() + f.len() + p.len() {
            assert(sc[i] == p[i - r.len() - f.len()]);
        } else {
            assert(sc[i] == de[i - r.len() - f.len() - p.len()]);
        }
    }
    let b = entries_get(t, fl);
    lemma_written_top(t, sc, fl);
    lemma_written_top_concat(r + f + p, de, fl, b);
    lemma_written_top_concat(r + f, p, fl, b);
    lemma_written_top_concat(r, f, fl, b);
    assert forall|i: int| 0 <= i < de.len() implies !overwrites(#[trigger] de[i], fl) by {}
    assert forall|i: int| 0 <= i < p.len() implies !overwrites(#[trigger] p[i], fl) by {}
    lemma_written_top_untouched(de, fl, written_top(r + f + p, fl, b));
    lemma_written_top_untouched(p, fl, written_top(r + f, fl, b));
    assert(r[k] == top_edit(fl, EditValueView::Bool(false)));
    lemma_written_top_off(r, k, fl, b);
    reveal_with_fuel(written_top, 2);
    if cf.len() > 0 {
        assert(f.len() == 1 && f.drop_last().len() == 0);
    }
}

/// The first flag switched on, from the `s`-th, when exactly the flags
/// equal to `cf` are.
proof fn lemma_first_flag(t: Seq<(Seq<char>, ItemView)>, s: int, cf: Seq<char>)
    requires
        0 <= s <= 23,
        forall|k: int| s <= k < 23 ==> top_value(t, #[trigger] engine_flag(k)) == Some(ScalarView::Bool(engine_flag(k) == cf)),
    ensures
        match first_flag_on(t, s) {
            Some(k) => s <= k < 23 && engine_flag(k) == cf,
            None => forall|k: int| s <= k < 23 ==> #[trigger] engine_flag(k) != cf,
        },
    decreases 23 - s,
{
    if s < 23 {
        assert(top_value(t, engine_flag(s)) == Some(ScalarView::Bool(engine_flag(s) == cf)));
        lemma_first_flag(t, s + 1, cf);
        assert forall|k: int| s <= k < 23 && engine_flag(s) != cf && first_flag_on(t, s + 1) is None implies #[trigger] engine_flag(k) != cf by {
            if k > s {
                assert(engine_flag(k) != cf);
            }
        }
    }
}


/// The value a key of `[translation]` or `[pdf]` gets from a save of the
/// preferences: what the section edits write over what the flag edits left.
proof fn lemma_app_table_key(c: AppConfigView, t: Seq<(Seq<char>, ItemView)>, n: Seq<char>, key: Seq<char>)
    requires
        edits_fit(t, saved_app_config(c)),
        n == "translation"@ || n == "pdf"@,
    ensures
        ({
            let r = Seq::new(23, |k: int| top_edit(engine_flag(k), EditValueView::Bool(false)));
            let f = if c.engine_cli_flag.len() > 0 {
                seq![top_edit(c.engine_cli_flag, EditValueView::Bool(true))]
            } else {
                Seq::empty()
            };
            let p = seq![
                tr_edit("lang_in"@, EditValueView::Str(c.lang_in)),
                tr_edit("lang_out"@, EditValueView::Str(c.lang_out)),
                tr_edit("qps"@, EditValueView::Int(c.qps as i64)),
                tr_edit("custom_system_prompt"@, text_or_null(c.custom_prompt)),
                pdf_edit("no_dual"@, EditValueView::Bool(c.no_dual)),
                pdf_edit("no_mono"@, EditValueView::Bool(c.no_mono)),
                pdf_edit("dual_translate_first"@, EditValueView::Bool(c.dual_translate_first)),
                pdf_edit("skip_clean"@, EditValueView::Bool(c.skip_clean)),
            ];
            entries_get(table_of(edits_applied(t, saved_app_config(c)), n), key) == written_value(
                p,
                n,
                key,
                written_value(r + f, n, key, entries_get(table_of(t, n), key)),
            )
        }),
{
    let cf = c.engine_cli_flag;
    let r = Seq::new(23, |k: int| top_edit(engine_flag(k), EditValueView::Bool(false)));
    let f = if cf.len() > 0 {
        seq![top_edit(cf, EditValueView::Bool(true))]
    } else {
        Seq::empty()
    };
    let p = seq![
        tr_edit("lang_in"@, EditValueView::Str(c.lang_in)),
        tr_edit("lang_out"@, EditValueView::Str(c.lang_out)),
        tr_edit("qps"@, EditValueView::Int(c.qps as i64)),
        tr_edit("custom_system_prompt"@, text_or_null(c.custom_prompt)),
        pdf_edit("no_dual"@, EditValueView::Bool(c.no_dual)),
        pdf_edit("no_mono"@, EditValueView::Bool(c.no_mono)),
        pdf_edit("dual_translate_first"@, EditValueView::Bool(c.dual_translate_first)),
        pdf_edit("skip_clean"@, EditValueView::Bool(c.skip_clean)),
    ];
    let dk = detail_key(cf);
    let n1 = if c.engine_name.len() > 0 {
        seq![table_edit(dk, "translate_engine_type"@, EditValueView::Str(c.engine_name))]
    } else {
        Seq::empty()
    };
    let m = c.engine_params.map_values(|e: (Seq<char>, Seq<char>)| table_edit(dk, e.0, text_or_null(e.1)));
    let de = if cf.len() > 0 { n1 + m } else { Seq::empty() };
    let sc = saved_app_config(c);
    lemma_app_save_parts(c);
    crate::config::lemma_detail_key_differs(cf);
    let b = entries_get(table_of(t, n), key);
    lemma_written_value(t, sc, n, key);
    lemma_written_value_concat(r + f + p, de, n, key, b);
    lemma_written_value_concat(r + f, p, n, key, b);
    assert forall|i: int| 0 <= i < de.len() implies !writes(#[trigger] de[i], n, key) && !overwrites(de[i], n) by {}
    lemma_written_value_untouched(de, n, key, written_value(r + f + p, n, key, b));
}

/// The `[translation]` and `[pdf]` tables a save of the preferences leaves,
/// as loading reads them.
proof fn lemma_app_tables(c: AppConfigView, t: Seq<(Seq<char>, ItemView)>)
    requires
        edits_fit(t, saved_app_config(c)),
    ensures
        ({
            let t1 = edits_applied(t, saved_app_config(c));
            let s = table_of(t1, "translation"@);
            let q = table_of(t1, "pdf"@);
            &&& section(t1, "translation"@) == Some(s)
            &&& section(t1, "pdf"@) == Some(q)
            &&& value_in(s, "lang_in"@) == Some(ScalarView::Str(c.lang_in))
            &&& value_in(s, "lang_out"@) == Some(ScalarView::Str(c.lang_out))
            &&& value_in(s, "qps"@) == Some(ScalarView::Int(c.qps as i64))
            &&& value_in(s, "custom_system_prompt"@) == Some(edit_scalar(text_or_null(c.custom_prompt)))
            &&& value_in(q, "no_dual"@) == Some(ScalarView::Bool(c.no_dual))
            &&& value_in(q, "no_mono"@) == Some(ScalarView::Bool(c.no_mono))
            &&& value_in(q, "dual_translate_first"@) == Some(ScalarView::Bool(c.dual_translate_first))
            &&& value_in(q, "skip_clean"@) == Some(ScalarView::Bool(c.skip_clean))
        }),
{
    crate::config::lemma_setting_keys();
    let n1 = "translation"@;
    let n2 = "pdf"@;
    lemma_app_table_key(c, t, n1, "lang_in"@);
    lemma_app_table_key(c, t, n1, "lang_out"@);
    lemma_app_table_key(c, t, n1, "qps"@);
    lemma_app_table_key(c, t, n1, "custom_system_prompt"@);
    lemma_app_table_key(c, t, n2, "no_dual"@);
    lemma_app_table_key(c, t, n2, "no_mono"@);
    lemma_app_table_key(c, t, n2, "dual_translate_first"@);
    lemma_app_table_key(c, t, n2, "skip_clean"@);
    reveal_with_fuel(written_value, 9);
    let t1 = edits_applied(t, saved_app_config(c));
    lemma_table_present(t1, n1, "lang_in"@);
    lemma_table_present(t1, n2, "no_dual"@);
}


/// The detail table a save of the preferences leaves for the chosen engine,
/// as loading reads it.
proof fn lemma_app_detail(c: AppConfigView, t: Seq<(Seq<char>, ItemView)>)
    requires
        edits_fit(t, saved_app_config(c)),
        preferences_reload(c, t),
        c.engine_cli_flag.len() > 0,
    ensures
        ({
            let dk = detail_key(c.engine_cli_flag);
            let t1 = edits_applied(t, saved_app_config(c));
            let d1 = table_of(t1, dk);
            let tk = "translate_engine_type"@;
            &&& keys_distinct(d1)
            &&& c.engine_name.len() > 0 ==> value_in(d1, tk) == Some(ScalarView::Str(c.engine_name))
            &&& c.engine_name.len() == 0 ==> value_in(d1, tk) == value_in(table_of(t, dk), tk)
            &&& forall|i: int|
                0 <= i < c.engine_params.len() ==> value_in(d1, (#[trigger] c.engine_params[i]).0) == Some(
                    ScalarView::Str(c.engine_params[i].1),
                )
            &&& (c.engine_name.len() > 0 || c.engine_params.len() > 0) ==> section(t1, dk) == Some(d1)
        }),
{
    let cf = c.engine_cli_flag;
    let r = Seq::new(23, |k: int| top_edit(engine_flag(k), EditValueView::Bool(false)));
    let f = seq![top_edit(cf, EditValueView::Bool(true))];
    let p = seq![
        tr_edit("lang_in"@, EditValueView::Str(c.lang_in)),
        tr_edit("lang_out"@, EditValueView::Str(c.lang_out)),
        tr_edit("qps"@, EditValueView::Int(c.qps as i64)),
        tr_edit("custom_system_prompt"@, text_or_null(c.custom_prompt)),
        pdf_edit("no_dual"@, EditValueView::Bool(c.no_dual)),
        pdf_edit("no_mono"@, EditValueView::Bool(c.no_mono)),
        pdf_edit("dual_translate_first"@, EditValueView::Bool(c.dual_translate_first)),
        pdf_edit("skip_clean"@, EditValueView::Bool(c.skip_clean)),
    ];
    let dk = detail_key(cf);
    let tk = "translate_engine_type"@;
    let n1 = if c.engine_name.len() > 0 {
        seq![table_edit(dk, tk, EditValueView::Str(c.engine_name))]
    } else {
        Seq::empty()
    };
    let m = c.engine_params.map_values(|e: (Seq<char>, Seq<char>)| table_edit(dk, e.0, text_or_null(e.1)));
    let sc = saved_app_config(c);
    let t1 = edits_applied(t, sc);
    let d1 = table_of(t1, dk);
    lemma_app_save_parts(c);
    crate::config::lemma_detail_key_differs(cf);
    crate::config::lemma_setting_keys();
    lemma_edits_keep_keys_distinct(t, sc, dk);
    assert(dk.len() == cf.len() + 7);
    assert forall|i: int| 0 <= i < r.len() implies !overwrites(#[trigger] r[i], dk) by {
        crate::config::lemma_flag_differs(i, cf);
    }
    reveal_strlit("translate_engine_type");
    reveal_strlit("support_llm");
    assert(tk.len() == 21);
    assert forall|i: int| 0 <= i < m.len() implies (#[trigger] m[i]).key != tk && !overwrites(m[i], dk) by {
        assert(!is_engine_key(c.engine_params[i].0));
    }
    // The description entry.
    let bt = entries_get(table_of(t, dk), tk);
    lemma_written_value(t, sc, dk, tk);
    lemma_written_value_concat(r + f + p, n1 + m, dk, tk, bt);
    lemma_written_value_concat(r + f, p, dk, tk, bt);
    lemma_written_value_concat(r, f, dk, tk, bt);
    lemma_written_value_concat(n1, m, dk, tk, written_value(r + f + p, dk, tk, bt));
    lemma_written_value_untouched(r, dk, tk, bt);
    lemma_written_value_untouched(f, dk, tk, bt);
    lemma_written_value_untouched(p, dk, tk, bt);
    lemma_written_value_untouched(m, dk, tk, written_value(n1, dk, tk, written_value(r + f + p, dk, tk, bt)));
    reveal_with_fuel(written_value, 2);
    if c.engine_name.len() > 0 {
        lemma_table_present(t1, dk, tk);
    }
    // The parameters.
    assert forall|i: int| 0 <= i < c.engine_params.len() implies value_in(d1, (#[trigger] c.engine_params[i]).0)
        == Some(ScalarView::Str(c.engine_params[i].1)) by {
        let key = c.engine_params[i].0;
        let b = entries_get(table_of(t, dk), key);
        lemma_written_value(t, sc, dk, key);
        lemma_written_value_concat(r + f + p, n1 + m, dk, key, b);
        lemma_written_value_concat(n1, m, dk, key, written_value(r + f + p, dk, key, b));
        assert forall|j: int| i < j < m.len() implies !writes(#[trigger] m[j], dk, key) && !overwrites(m[j], dk) by {
            assert(c.engine_params[i].0 != c.engine_params[j].0);
        }
        lemma_written_value_last(m, i, dk, key, written_value(n1, dk, key, written_value(r + f + p, dk, key, b)));
        assert(plain_text(c.engine_params[i].1));
    }
    if c.engine_params.len() > 0 {
        assert(value_in(d1, c.engine_params[0].0) is Some);
        lemma_table_present(t1, dk, c.engine_params[0].0);
    }
}

/// What is saved is what loads back, for the desktop preferences: loading
/// the document a save leaves gives back the languages, QPS, prompt, PDF
/// switches, engine flag and name, and every engine parameter, for
/// preferences that load back as they are.
pub proof fn law_saved_preferences_load_back(c: AppConfigView, t: Seq<(Seq<char>, ItemView)>)
    requires
        edits_fit(t, saved_app_config(c)),
        preferences_reload(c, t),
    ensures
        ({
            let u = config_from_table(edits_applied(t, saved_app_config(c)));
            &&& u.lang_in == c.lang_in
            &&& u.lang_out == c.lang_out
            &&& u.qps == c.qps
            &&& u.custom_prompt == c.custom_prompt
            &&& u.no_dual == c.no_dual
            &&& u.no_mono == c.no_mono
            &&& u.dual_translate_first == c.dual_translate_first
            &&& u.skip_clean == c.skip_clean
            &&& u.engine_cli_flag == c.engine_cli_flag
            &&& u.engine_name == c.engine_name
            &&& forall|i: int|
                0 <= i < c.engine_params.len() ==> entries_get(u.engine_params, (#[trigger] c.engine_params[i]).0)
                    == Some(c.engine_params[i].1)
        }),
{
    let cf = c.engine_cli_flag;
    let t1 = edits_applied(t, saved_app_config(c));
    lemma_app_tables(c, t);
    reveal_strlit("null");
    assert forall|k: int| 0 <= k < 23 implies top_value(t1, #[trigger] engine_flag(k)) == Some(
        ScalarView::Bool(engine_flag(k) == cf),
    ) by {
        lemma_app_top(c, t, k);
        crate::config::lemma_flag_differs(k, cf);
    }
    lemma_first_flag(t1, 0, cf);
    if cf.len() > 0 {
        let k0 = choose|k: int| 0 <= k < 23 && #[trigger] engine_flag(k) == cf;
        let dk = detail_key(cf);
        let d1 = table_of(t1, dk);
        lemma_app_detail(c, t);
        assert forall|i: int| 0 <= i < c.engine_params.len() implies entries_get(
            detail_params(d1),
            (#[trigger] c.engine_params[i]).0,
        ) == Some(c.engine_params[i].1) by {
            lemma_detail_params_get(d1, c.engine_params[i].0);
        }
        if c.engine_name.len() == 0 {
            assert(c.engine_name =~= Seq::<char>::empty());
            match str_in(table_of(t, dk), "translate_engine_type"@) {
                Some(n) => assert(n =~= Seq::<char>::empty()),
                None => {},
            }
            match section(t1, dk) {
                Some(d) => assert(d == d1),
                None => {},
            }
        }
    } else {
        assert(c.engine_name =~= Seq::<char>::empty());
        match first_flag_on(t1, 0) {
            Some(k) => crate::config::lemma_flag_differs(k, cf),
            None => {},
        }
    }
}


/// The preferences a configuration file's text holds, over the defaults;
/// an error when the text is not TOML.
pub fn config_from_text(text: &str) -> (r: Result<AppConfig, String>)
    ensures
        r is Ok <==> parsed_config(text@) is Some,
        r matches Ok(c) ==> c@ == config_from_table(parsed_config(text@)->0),
{
    match parse_config(text) {
        Ok(t) => Ok(config_from_toml(&t)),
        Err(m) => Err(m),
    }
}

/// The text of the configuration file after saving the preferences into it
/// (the file's text, or none when there is no file), the rest of the file
/// kept. Text that is not TOML, or a table of the file written as a plain
/// value where the save writes a table, is an error.
pub fn save_app_config_text(cfg: &AppConfig, existing: Option<&str>) -> (r: Result<String, String>)
    ensures
        (existing matches Some(t) && parsed_config(t@) is None) ==> r is Err,
        ({
            let start = saved_over(
                match existing {
                    Some(t) => Some(t@),
                    None => None,
                },
            );
            r matches Ok(text) ==> parsed_config(text@) is Some && edits_fit(start, saved_app_config(cfg@))
                && same_document(parsed_config(text@)->0, edits_applied(start, saved_app_config(cfg@)))
        }),
        (existing matches Some(t) ==> parsed_config(t@) is Some) && edits_fit(
            saved_over(
                match existing {
                    Some(t) => Some(t@),
                    None => None,
                },
            ),
            saved_app_config(cfg@),
        ) ==> r is Ok,
{
    let edits = app_config_edits(cfg);
    edit_config_text(&edits, existing)
}


/// The first flag switched on is the same in documents with the same
/// entries.
proof fn lemma_same_first_flag(a: Seq<(Seq<char>, ItemView)>, b: Seq<(Seq<char>, ItemView)>, k: int)
    requires
        same_document(a, b),
    ensures
        first_flag_on(a, k) == first_flag_on(b, k),
    decreases 23 - k,
{
    if 0 <= k < 23 {
        crate::toml_model::lemma_same_reads(a, b, engine_flag(k), engine_flag(k));
        lemma_same_first_flag(a, b, k + 1);
    }
}

/// A table read the same way in documents with the same entries.
proof fn lemma_same_table_read(a: Seq<(Seq<char>, ItemView)>, b: Seq<(Seq<char>, ItemView)>, n: Seq<char>)
    requires
        same_document(a, b),
    ensures
        section(a, n) is Some == section(b, n) is Some,
        section(a, n) is Some ==> section(a, n)->0 == table_of(a, n) && section(b, n)->0 == table_of(b, n),
        forall|k: Seq<char>| #[trigger] value_in(table_of(a, n), k) == value_in(table_of(b, n), k),
{
    crate::toml_model::lemma_same_reads(a, b, n, n);
    crate::toml_model::lemma_same_table_of(a, b, n);
    assert forall|k: Seq<char>| #[trigger] value_in(table_of(a, n), k) == value_in(table_of(b, n), k) by {
        assert(entries_get(table_of(a, n), k) == entries_get(table_of(b, n), k));
    }
}

/// Documents with the same entries give the same preferences, the engine
/// parameters the same under every name when the detail tables' keys are
/// distinct.
proof fn lemma_same_preferences(a: Seq<(Seq<char>, ItemView)>, b: Seq<(Seq<char>, ItemView)>)
    requires
        same_document(a, b),
    ensures
        ({
            let ca = config_from_table(a);
            let cb = config_from_table(b);
            &&& AppConfigView { engine_params: cb.engine_params, ..ca } == cb
            &&& keys_distinct(table_of(a, detail_key(ca.engine_cli_flag))) && keys_distinct(
                table_of(b, detail_key(ca.engine_cli_flag)),
            ) ==> forall|k: Seq<char>| #[trigger] entries_get(ca.engine_params, k) == entries_get(cb.engine_params, k)
        }),
{
    let tr = "translation"@;
    let pdf = "pdf"@;
    lemma_same_table_read(a, b, tr);
    lemma_same_table_read(a, b, pdf);
    lemma_same_first_flag(a, b, 0);
    match first_flag_on(a, 0) {
        Some(k) => {
            let dk = detail_key(engine_flag(k));
            lemma_same_table_read(a, b, dk);
            let da = table_of(a, dk);
            let db = table_of(b, dk);
            if keys_distinct(da) && keys_distinct(db) {
                assert forall|key: Seq<char>| #[trigger] entries_get(detail_params(da), key) == entries_get(
                    detail_params(db),
                    key,
                ) by {
                    lemma_detail_params_get(da, key);
                    lemma_detail_params_get(db, key);
                    assert(value_in(da, key) == value_in(db, key));
                }
            }
            assert(str_in(da, "translate_engine_type"@) == str_in(db, "translate_engine_type"@)) by {
                assert(value_in(da, "translate_engine_type"@) == value_in(db, "translate_engine_type"@));
            }
        },
        None => {},
    }
}

/// What is saved is what loads back, through the file's text, for the
/// desktop preferences: for text a save gave (over the file's old text, or
/// none), reading it gives back the preferences as
/// [`law_saved_preferences_load_back`] states, each engine parameter when
/// the text's detail table has distinct keys (as `toml` reads every table).
pub proof fn law_saved_preferences_text_loads_back(c: AppConfigView, existing: Option<Seq<char>>, text: Seq<char>)
    requires
        parsed_config(text) is Some,
        edits_fit(saved_over(existing), saved_app_config(c)),
        same_document(parsed_config(text)->0, edits_applied(saved_over(existing), saved_app_config(c))),
        preferences_reload(c, saved_over(existing)),
    ensures
        ({
            let u = config_from_table(parsed_config(text)->0);
            &&& u.lang_in == c.lang_in
            &&& u.lang_out == c.lang_out
            &&& u.qps == c.qps
            &&& u.custom_prompt == c.custom_prompt
            &&& u.no_dual == c.no_dual
            &&& u.no_mono == c.no_mono
            &&& u.dual_translate_first == c.dual_translate_first
            &&& u.skip_clean == c.skip_clean
            &&& u.engine_cli_flag == c.engine_cli_flag
            &&& u.engine_name == c.engine_name
            &&& keys_distinct(table_of(parsed_config(text)->0, detail_key(c.engine_cli_flag))) ==> forall|i: int|
                0 <= i < c.engine_params.len() ==> entries_get(u.engine_params, (#[trigger] c.engine_params[i]).0)
                    == Some(c.engine_params[i].1)
        }),
{
    let p = parsed_config(text)->0;
    let e = edits_applied(saved_over(existing), saved_app_config(c));
    law_saved_preferences_load_back(c, saved_over(existing));
    lemma_same_preferences(p, e);
    let ue = config_from_table(e);
    if c.engine_cli_flag.len() > 0 {
        lemma_edits_keep_keys_distinct(saved_over(existing), saved_app_config(c), detail_key(c.engine_cli_flag));
    } else {
        assert(c.engine_params.len() == 0);
    }
}


/// A save of the preferences names the chosen engine: with an engine flag
/// and a name, `translate_engine_type` in the engine's `<flag>_detail`
/// table is set to the engine's name, and the flag itself is switched on.
pub proof fn law_preferences_save_names_the_engine(c: AppConfigView)
    requires
        c.engine_cli_flag.len() > 0,
        c.engine_name.len() > 0,
    ensures
        saved_app_config(c).contains(
            EditView {
                table: Some(c.engine_cli_flag + "_detail"@),
                key: "translate_engine_type"@,
                value: EditValueView::Str(c.engine_name),
            },
        ),
        saved_app_config(c).contains(
            EditView { table: None, key: c.engine_cli_flag, value: EditValueView::Bool(true) },
        ),
{
    lemma_app_save_parts(c);
    let sc = saved_app_config(c);
    assert(sc[23] == top_edit(c.engine_cli_flag, EditValueView::Bool(true)));
    assert(sc[32] == table_edit(detail_key(c.engine_cli_flag), "translate_engine_type"@, EditValueView::Str(c.engine_name)));
}

} // verus!

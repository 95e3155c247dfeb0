use pdf2zh::action::Action;
use pdf2zh::app::{App, KeyCode, KeyEvent, Screen};
use pdf2zh::backend::{backend_command_list, pick_first_found, python_command_list, search_path};
use pdf2zh::config::{apply_config, config_edits};
use pdf2zh::desktop::{app_config_edits, config_from_toml, get_backend_status, started_status, startup_step, AppConfig, StartupStep};
use pdf2zh::json::JsonValue;
use pdf2zh::protocol::{EngineSchema, FieldSchema, PythonEvent};
use pdf2zh::session::{cli_files, config_load_line, lines_of, pasted_path_of, send_failed_text, summary, KeyRoute};
use pdf2zh::toml_model::{ConfigEdit, EditValue, TomlItem, TomlScalar, TomlTable};
use pdf2zh::translation::translation_problem;

fn s(x: &str) -> String {
    x.to_string()
}

fn app_with_engines() -> App {
    let mut app = App::new();
    app.language_map.insert(s("English"), s("en"));
    app.language_map.insert(s("Simplified Chinese"), s("zh-CN"));
    app.language_map.insert(s("German"), s("de"));
    app.engine_schemas.push(EngineSchema { name: s("Google"), support_llm: false, cli_flag: s("google"), fields: vec![] });
    app.engine_schemas.push(EngineSchema {
        name: s("DeepSeek"),
        support_llm: true,
        cli_flag: s("deepseek"),
        fields: vec![
            FieldSchema { name: s("deepseek_model"), field_type: s("str"), default: JsonValue::Null, printed_default: s("null"), description: String::new(), sensitive: false, password: false },
            FieldSchema { name: s("deepseek_api_key"), field_type: s("str"), default: JsonValue::Null, printed_default: s("null"), description: String::new(), sensitive: true, password: true },
            FieldSchema { name: s("deepseek_retries"), field_type: s("int"), default: JsonValue::Null, printed_default: s("null"), description: String::new(), sensitive: false, password: false },
        ],
    });
    app
}

fn table() -> TomlTable {
    TomlTable {
        entries: vec![
            (s("google"), TomlItem::Value(TomlScalar::Bool(false))),
            (s("deepseek"), TomlItem::Value(TomlScalar::Bool(true))),
            (
                s("translation"),
                TomlItem::Table(vec![
                    (s("lang_in"), TomlScalar::Str(s("de"))),
                    (s("lang_out"), TomlScalar::Str(s("null"))),
                    (s("qps"), TomlScalar::Int(0)),
                    (s("custom_system_prompt"), TomlScalar::Str(s("null"))),
                    (s("min_text_length"), TomlScalar::Int(9)),
                    (s("term_qps"), TomlScalar::Int(-2)),
                    (s("output"), TomlScalar::Str(s("/out"))),
                    (s("no_auto_extract_glossary"), TomlScalar::Bool(true)),
                ]),
            ),
            (s("pdf"), TomlItem::Table(vec![(s("no_mono"), TomlScalar::Bool(false)), (s("max_pages_per_part"), TomlScalar::Int(30))])),
            (
                s("deepseek_detail"),
                TomlItem::Table(vec![
                    (s("translate_engine_type"), TomlScalar::Str(s("DeepSeek"))),
                    (s("support_llm"), TomlScalar::Str(s("yes"))),
                    (s("deepseek_model"), TomlScalar::Str(s("deepseek-chat"))),
                    (s("deepseek_api_key"), TomlScalar::Str(s("null"))),
                    (s("deepseek_retries"), TomlScalar::Int(3)),
                ]),
            ),
        ],
    }
}

#[test]
fn loading_a_config_applies_its_tables() {
    let mut app = app_with_engines();
    apply_config(&mut app, &table());
    assert_eq!(app.lang_in_idx, 2);
    assert_eq!(app.lang_out_idx, 1);
    assert_eq!(app.qps, 1);
    assert_eq!(app.qps_input, "1");
    assert_eq!(app.custom_prompt, "");
    assert_eq!(app.min_text_length, "9");
    assert_eq!(app.term_qps_input, "-2");
    assert_eq!(app.output_dir, "/out");
    assert!(app.disable_auto_extract_glossary);
    assert!(!app.no_mono);
    assert_eq!(app.max_pages_per_part_input, "30");
    assert_eq!(app.engine_idx, 1);
    assert_eq!(app.engine_params.get("deepseek_model").map(|x| x.as_str()), Some("deepseek-chat"));
    assert!(app.engine_params.get("deepseek_api_key").is_none());
    assert_eq!(app.engine_params.get("deepseek_retries").map(|x| x.as_str()), Some("3"));
}

#[test]
fn engines_match_by_lower_cased_name() {
    let mut app = App::new();
    app.engine_schemas.push(EngineSchema { name: s("OpenAI"), support_llm: true, cli_flag: s("oai"), fields: vec![] });
    app.engine_schemas.push(EngineSchema { name: s("Bing"), support_llm: false, cli_flag: s("b"), fields: vec![] });
    let t = TomlTable { entries: vec![(s("google"), TomlItem::Value(TomlScalar::Bool(true))), (s("openai"), TomlItem::Value(TomlScalar::Bool(true)))] };
    apply_config(&mut app, &t);
    assert_eq!(app.engine_idx, 0);
}

fn edit_of<'a>(edits: &'a [ConfigEdit], table: Option<&str>, key: &str) -> Option<&'a EditValue> {
    edits.iter().rev().find(|e| e.table.as_deref() == table && e.key == key).map(|e| &e.value)
}

#[test]
fn saving_writes_flags_tables_and_details() {
    let mut app = app_with_engines();
    app.engine_idx = 1;
    app.lang_in_idx = 2;
    app.lang_out_idx = 7;
    app.min_text_length = String::new();
    app.pool_max_workers_input = s("x");
    app.engine_params.insert(s("deepseek_model"), s("chat"));
    app.engine_params.insert(s("deepseek_retries"), s("two"));
    let edits = config_edits(&app);
    assert!(matches!(edits[0].value, EditValue::Bool(false)));
    assert_eq!(edits[0].key, "google");
    assert!(matches!(edit_of(&edits, None, "deepseek"), Some(EditValue::Bool(true))));
    assert!(matches!(edit_of(&edits, Some("translation"), "lang_in"), Some(EditValue::Str(c)) if c == "de"));
    assert!(matches!(edit_of(&edits, Some("translation"), "lang_out"), Some(EditValue::Str(c)) if c == "zh-CN"));
    assert!(matches!(edit_of(&edits, Some("translation"), "min_text_length"), Some(EditValue::Int(5))));
    assert!(matches!(edit_of(&edits, Some("translation"), "pool_max_workers"), Some(EditValue::Str(c)) if c == "null"));
    assert!(matches!(edit_of(&edits, Some("translation"), "custom_system_prompt"), Some(EditValue::Str(c)) if c == "null"));
    assert!(matches!(edit_of(&edits, Some("deepseek_detail"), "support_llm"), Some(EditValue::Str(c)) if c == "yes"));
    assert!(matches!(edit_of(&edits, Some("deepseek_detail"), "deepseek_model"), Some(EditValue::Str(c)) if c == "chat"));
    assert!(matches!(edit_of(&edits, Some("deepseek_detail"), "deepseek_api_key"), Some(EditValue::Str(c)) if c == "null"));
    assert!(matches!(edit_of(&edits, Some("deepseek_detail"), "deepseek_retries"), Some(EditValue::Str(c)) if c == "two"));
    assert_eq!(edits.len(), 2 + 1 + 12 + 7 + 2 + 3);
}

#[test]
fn desktop_preferences_load_and_save() {
    let c = config_from_toml(&table());
    assert_eq!(c.lang_in, "de");
    assert_eq!(c.lang_out, "zh-CN");
    assert_eq!(c.qps, 1);
    assert!(!c.no_mono);
    assert!(!c.no_dual);
    assert_eq!(c.engine_cli_flag, "deepseek");
    assert_eq!(c.engine_name, "DeepSeek");
    assert_eq!(c.engine_params.len(), 2);
    assert_eq!(c.engine_params.get("deepseek_retries").map(|x| x.as_str()), Some("3"));
    let empty = config_from_toml(&TomlTable { entries: vec![] });
    assert_eq!(empty.qps, 4);
    assert_eq!(empty.lang_in, "en");
    assert_eq!(empty.engine_cli_flag, "");
    let d = AppConfig::default();
    assert_eq!(d.qps, 0);
    let edits = app_config_edits(&c);
    assert_eq!(edits.len(), 23 + 1 + 8 + 1 + 2);
    assert_eq!(edits[7].key, "gemini");
    assert!(matches!(edit_of(&edits, Some("deepseek_detail"), "translate_engine_type"), Some(EditValue::Str(n)) if n == "DeepSeek"));
    let defaults = app_config_edits(&AppConfig::with_defaults());
    assert_eq!(defaults.len(), 23 + 8);
}

#[test]
fn startup_handshake() {
    let mut version = None;
    assert!(matches!(startup_step(&mut version, Some(PythonEvent::Ready { version: s("3.1"), engines: vec![] })), StartupStep::Wait));
    assert_eq!(version, Some(s("3.1")));
    assert!(matches!(startup_step(&mut version, Some(PythonEvent::ValidationResult { valid: true, error: None })), StartupStep::Forward(_)));
    let schema = PythonEvent::ConfigSchema { engines: vec![], languages: indexmap::IndexMap::new() };
    assert!(matches!(startup_step(&mut version, Some(schema)), StartupStep::Schema(_)));
    match startup_step(&mut version, None) {
        StartupStep::Failed(m) => assert_eq!(m, "Python backend exited before sending ready event"),
        _ => panic!(),
    }
    let st = started_status(version.clone());
    assert!(st.running);
    assert_eq!(st.version, Some(s("3.1")));
    let idle = get_backend_status(false);
    assert!(!idle.running && idle.version.is_none());
}

#[test]
fn backend_search_lists() {
    assert_eq!(search_path("/home/u", Some(s("/bin"))), "/home/u/.local/bin:/home/u/.cargo/bin:/usr/local/bin:/opt/homebrew/bin:/opt/homebrew/sbin:/bin");
    assert_eq!(search_path("", None), ".local/bin:.cargo/bin:/usr/local/bin:/opt/homebrew/bin:/opt/homebrew/sbin");
    let c = backend_command_list("/h", true);
    assert_eq!(c[0], "/h/.local/share/uv/tools/pdf2zh-next/bin/pdf2zh_next");
    assert_eq!(c.len(), 5);
    assert_eq!(backend_command_list("/h", false)[0], "/h/.local/bin/pdf2zh_next");
    let p = python_command_list("/h");
    assert_eq!(p[0], "/h/.local/bin/python3");
    assert_eq!(pick_first_found(&p, &vec![false, false, true, true, false]), Ok(s("/usr/local/bin/python3")));
    assert_eq!(
        pick_first_found(&p, &vec![false; 5]),
        Err(s("Python 3 not found. Please install Python 3.10+ and ensure it's in your PATH."))
    );
}

#[test]
fn pasted_text_becomes_files() {
    assert_eq!(lines_of("a\r\nb\n\nc"), vec![s("a"), s("b"), s(""), s("c")]);
    assert_eq!(lines_of("a\n"), vec![s("a")]);
    assert!(lines_of("").is_empty());
    assert_eq!(pasted_path_of("  '/tmp/my\\ file.pdf' "), "/tmp/my file.pdf");
    assert_eq!(pasted_path_of("\"/tmp/x.pdf\""), "/tmp/x.pdf");
    let mut app = App::new();
    app.screen = Screen::Configure;
    app.focused_field = 9;
    app.process_paste("/tmp/a.pdf\n\n'/tmp/b\\ c.pdf'\n/tmp/a.pdf\n");
    assert_eq!(app.selected_files, vec![s("/tmp/a.pdf"), s("/tmp/b c.pdf")]);
    assert_eq!(app.focused_field, 0);
}

#[test]
fn keys_route_through_the_paste_buffer() {
    let mut app = App::new();
    app.screen = Screen::Configure;
    let c = KeyEvent { code: KeyCode::Char('x'), control: false };
    let down = KeyEvent { code: KeyCode::Down, control: false };
    assert_eq!(app.route_key(c, false), KeyRoute::Buffer('x'));
    assert_eq!(app.route_key(KeyEvent { code: KeyCode::Char('s'), control: true }, true), KeyRoute::Handle);
    assert_eq!(app.route_key(down, true), KeyRoute::FlushThenHandle);
    assert_eq!(app.route_key(down, false), KeyRoute::Handle);
    app.editing = true;
    assert_eq!(app.route_key(c, true), KeyRoute::Handle);
}

#[test]
fn leaving_the_file_field_adds_the_typed_path() {
    let mut app = App::new();
    app.screen = Screen::Configure;
    app.focused_field = 0;
    app.editing = true;
    app.file_input = s("  /tmp/typed.pdf ");
    app.apply_key_action(Action::ExitField);
    assert_eq!(app.selected_files, vec![s("/tmp/typed.pdf")]);
    assert_eq!(app.file_input, "");
    assert!(!app.editing);
}

#[test]
fn session_messages() {
    assert_eq!(send_failed_text("closed"), "无法发送翻译命令: closed\nPython 进程可能已崩溃");
    assert_eq!(config_load_line(Ok(true)), "已加载配置文件");
    assert_eq!(config_load_line(Ok(false)), "未找到配置文件，使用默认值");
    assert_eq!(config_load_line(Err(s("bad"))), "加载配置失败: bad");
    assert_eq!(cli_files(&vec![s("pt"), s("-v"), s("a.pdf"), s("--x"), s("b.pdf")]), vec![s("a.pdf"), s("b.pdf")]);
    let mut r = JsonValue::empty_object();
    r.set("dual_pdf_path", JsonValue::from_str("/o/d.pdf"));
    r.set("mono_pdf_path", JsonValue::from_str(""));
    assert_eq!(summary(&vec![r], "00:42"), vec![s("双语PDF: /o/d.pdf"), s("翻译完成 (00:42)")]);
    let mut app = App::new();
    app.screen = Screen::Translating;
    app.translation_cancelled();
    assert_eq!(app.screen, Screen::Configure);
    assert_eq!(app.log_lines.back().map(|x| x.as_str()), Some("翻译已取消"));
    app.config_saved(Err(s("disk full")));
    assert!(matches!(&app.popup, Some(pdf2zh::app::Popup::Error(m)) if m == "保存配置失败: disk full"));
}

#[test]
fn translation_needs_existing_pdfs() {
    assert_eq!(translation_problem(&vec![], &vec![]), Some(s("请先选择要翻译的 PDF 文件")));
    let files = vec![s("/a.pdf"), s("/b.txt"), s("/c.PDF")];
    assert_eq!(translation_problem(&files, &vec![true, true, true]), Some(s("不是 PDF 文件: /b.txt")));
    assert_eq!(translation_problem(&files, &vec![true, false, true]), Some(s("文件不存在: /b.txt")));
    let ok = vec![s("/a.pdf"), s("/c.PDF")];
    assert_eq!(translation_problem(&ok, &vec![true, true]), None);
    let mut app = App::new();
    assert_eq!(app.prepare_translation(), Some(s("请先选择要翻译的 PDF 文件")));
    app.selected_files = vec![s("/definitely/not/here.pdf")];
    assert_eq!(app.prepare_translation(), Some(s("文件不存在: /definitely/not/here.pdf")));
    assert_eq!(app.screen, Screen::Loading);
}

#[test]
fn a_run_starts_with_fresh_progress() {
    let mut app = App::new();
    app.selected_files = vec![s("/x/first.pdf"), s("/x/second.pdf")];
    app.push_log(s("old"));
    app.begin_translation(std::time::Instant::now());
    assert_eq!(app.screen, Screen::Translating);
    assert_eq!(app.progress.total_files, 2);
    assert_eq!(app.progress.current_file, "first.pdf");
    assert_eq!(app.log_lines.len(), 1);
    assert_eq!(app.log_lines[0], "开始翻译 2 个文件...");
    assert!(app.elapsed_time().is_some());
    assert_eq!(app.elapsed_display().len(), 5);
}

fn edit_document(edits: &[ConfigEdit]) -> String {
    let mut doc = toml_edit::DocumentMut::new();
    for e in edits {
        let item = match &e.value {
            EditValue::Str(x) => toml_edit::value(x.as_str()),
            EditValue::Int(i) => toml_edit::value(*i),
            EditValue::Bool(b) => toml_edit::value(*b),
        };
        match &e.table {
            None => doc[e.key.as_str()] = item,
            Some(t) => {
                let table = doc[t.as_str()].or_insert(toml_edit::Item::Table(toml_edit::Table::new())).as_table_mut().unwrap();
                table[e.key.as_str()] = item;
            }
        }
    }
    doc.to_string()
}

fn scalar_of(v: &toml::Value) -> TomlScalar {
    match v {
        toml::Value::String(x) => TomlScalar::Str(x.clone()),
        toml::Value::Integer(i) => TomlScalar::Int(*i),
        toml::Value::Float(f) => TomlScalar::Float(f.to_string()),
        toml::Value::Boolean(b) => TomlScalar::Bool(*b),
        _ => TomlScalar::Other,
    }
}

fn parsed(text: &str) -> TomlTable {
    let t: toml::Table = text.parse().unwrap();
    TomlTable {
        entries: t
            .iter()
            .map(|(k, v)| {
                let item = match v {
                    toml::Value::Table(inner) => TomlItem::Table(inner.iter().map(|(k2, v2)| (k2.clone(), scalar_of(v2))).collect()),
                    other => TomlItem::Value(scalar_of(other)),
                };
                (k.clone(), item)
            })
            .collect(),
    }
}

#[test]
fn saved_settings_load_back() {
    let mut saved = app_with_engines();
    saved.lang_in_idx = 2;
    saved.lang_out_idx = 0;
    saved.qps = 7;
    saved.qps_input = s("7");
    saved.custom_prompt = s("Be terse");
    saved.min_text_length = s("12");
    saved.pool_max_workers_input = s("3");
    saved.term_qps_input = s("-4");
    saved.term_pool_max_workers_input = s("9");
    saved.output_dir = s("/tmp/out");
    saved.glossary_files = s("a.csv");
    saved.save_auto_extracted_glossary = true;
    saved.no_mono = true;
    saved.skip_clean = true;
    saved.max_pages_per_part_input = s("40");
    saved.engine_idx = 1;
    saved.engine_params.insert(s("deepseek_model"), s("deepseek-chat"));
    saved.engine_params.insert(s("deepseek_retries"), s("5"));
    let text = edit_document(&config_edits(&saved));
    let mut loaded = app_with_engines();
    apply_config(&mut loaded, &parsed(&text));
    assert_eq!(loaded.lang_in_idx, 2);
    assert_eq!(loaded.lang_out_idx, 0);
    assert_eq!(loaded.qps, 7);
    assert_eq!(loaded.qps_input, "7");
    assert_eq!(loaded.custom_prompt, "Be terse");
    assert_eq!(loaded.min_text_length, "12");
    assert_eq!(loaded.pool_max_workers_input, "3");
    assert_eq!(loaded.term_qps_input, "-4");
    assert_eq!(loaded.term_pool_max_workers_input, "9");
    assert_eq!(loaded.output_dir, "/tmp/out");
    assert_eq!(loaded.glossary_files, "a.csv");
    assert!(loaded.save_auto_extracted_glossary);
    assert!(loaded.no_mono);
    assert!(loaded.skip_clean);
    assert_eq!(loaded.max_pages_per_part_input, "40");
    assert_eq!(loaded.engine_idx, 1);
    assert_eq!(loaded.engine_params.get("deepseek_model").map(|x| x.as_str()), Some("deepseek-chat"));
    assert_eq!(loaded.engine_params.get("deepseek_retries").map(|x| x.as_str()), Some("5"));
    assert_eq!(loaded.engine_params.get("deepseek_api_key"), None);
}

#[test]
fn saved_preferences_load_back() {
    let mut c = AppConfig::with_defaults();
    c.engine_name = s("DeepSeek");
    c.engine_cli_flag = s("deepseek");
    c.lang_in = s("de");
    c.lang_out = s("fr");
    c.qps = 9;
    c.custom_prompt = s("Keep names");
    c.no_dual = true;
    c.skip_clean = true;
    c.engine_params.insert(s("deepseek_model"), s("deepseek-chat"));
    c.engine_params.insert(s("deepseek_retries"), s("3"));
    let text = edit_document(&app_config_edits(&c));
    let back = config_from_toml(&parsed(&text));
    assert_eq!(back.engine_name, "DeepSeek");
    assert_eq!(back.engine_cli_flag, "deepseek");
    assert_eq!(back.lang_in, "de");
    assert_eq!(back.lang_out, "fr");
    assert_eq!(back.qps, 9);
    assert_eq!(back.custom_prompt, "Keep names");
    assert!(back.no_dual);
    assert!(!back.no_mono);
    assert!(!back.dual_translate_first);
    assert!(back.skip_clean);
    assert_eq!(back.engine_params.get("deepseek_model").map(|x| x.as_str()), Some("deepseek-chat"));
    assert_eq!(back.engine_params.get("deepseek_retries").map(|x| x.as_str()), Some("3"));
}

#[test]
fn config_text_round_trip_keeps_other_content() {
    let mut saved = app_with_engines();
    saved.qps = 6;
    saved.qps_input = s("6");
    saved.custom_prompt = s("Be brief");
    saved.no_dual = true;
    saved.engine_idx = 1;
    saved.engine_params.insert(s("deepseek_model"), s("deepseek-chat"));
    let existing = "# my settings\nother = 1\n\n[translation]\nqps = 2\nextra = \"kept\"\n";
    let text = pdf2zh::config::save_config_text(&saved, Some(existing)).unwrap();
    assert!(text.contains("# my settings"));
    assert!(text.contains("other = 1"));
    assert!(text.contains("extra = \"kept\""));
    let mut loaded = app_with_engines();
    assert!(pdf2zh::config::load_config_text(&mut loaded, &text).is_ok());
    assert_eq!(loaded.qps, 6);
    assert_eq!(loaded.qps_input, "6");
    assert_eq!(loaded.custom_prompt, "Be brief");
    assert!(loaded.no_dual);
    assert_eq!(loaded.engine_idx, 1);
    assert_eq!(loaded.engine_params.get("deepseek_model").map(|x| x.as_str()), Some("deepseek-chat"));
}

#[test]
fn config_text_errors() {
    let mut app = app_with_engines();
    app.qps = 3;
    assert!(pdf2zh::config::load_config_text(&mut app, "not = [valid").is_err());
    assert_eq!(app.qps, 3);
    assert!(pdf2zh::config::save_config_text(&app, Some("not = [valid")).is_err());
    assert!(pdf2zh::config::save_config_text(&app, Some("translation = 3\n")).is_err());
    assert!(pdf2zh::config::save_config_text(&app, None).is_ok());
}

#[test]
fn desktop_config_text_round_trip() {
    let mut c = AppConfig::with_defaults();
    c.engine_name = s("DeepSeek");
    c.engine_cli_flag = s("deepseek");
    c.qps = 7;
    c.engine_params.insert(s("deepseek_model"), s("deepseek-chat"));
    let text = pdf2zh::desktop::save_app_config_text(&c, Some("keep = true\n")).unwrap();
    assert!(text.contains("keep = true"));
    let back = pdf2zh::desktop::config_from_text(&text).unwrap();
    assert_eq!(back.qps, 7);
    assert_eq!(back.engine_cli_flag, "deepseek");
    assert_eq!(back.engine_name, "DeepSeek");
    assert_eq!(back.engine_params.get("deepseek_model").map(|x| x.as_str()), Some("deepseek-chat"));
    assert!(pdf2zh::desktop::config_from_text("[[").is_err());
}

#[test]
fn saving_writes_into_an_inline_table() {
    let mut app = app_with_engines();
    app.qps = 5;
    app.qps_input = s("5");
    let text = pdf2zh::config::save_config_text(&app, Some("translation = { extra = 1 }\n")).unwrap();
    let mut loaded = app_with_engines();
    assert!(pdf2zh::config::load_config_text(&mut loaded, &text).is_ok());
    assert_eq!(loaded.qps, 5);
    assert!(text.contains("extra = 1"));
}

use pdf2zh::app::App;
use pdf2zh::json::JsonValue;
use pdf2zh::protocol::{EngineSchema, FieldSchema};
use pdf2zh::settings::parse_positive_i64;

fn member<'a>(v: &'a JsonValue, path: &[&str]) -> &'a JsonValue {
    let mut cur = v;
    for key in path {
        cur = cur.get(key).expect("member present");
    }
    cur
}

fn is_true(v: &JsonValue) -> bool {
    matches!(v, JsonValue::Bool(true))
}

fn field(name: &str, field_type: &str, default: JsonValue, password: bool) -> FieldSchema {
    FieldSchema {
        name: name.to_string(),
        field_type: field_type.to_string(),
        printed_default: match (default.as_str(), default.as_i64()) {
            (Some(t), _) => format!("\"{}\"", t),
            (None, Some(i)) => i.to_string(),
            _ => "null".to_string(),
        },
        default,
        description: String::new(),
        sensitive: false,
        password,
    }
}

#[test]
fn build_settings_json_includes_advanced_translation_and_pdf_options() {
    let mut app = App::new();
    app.qps = 5;
    app.pool_max_workers_input = "6".to_string();
    app.term_qps_input = "4".to_string();
    app.term_pool_max_workers_input = "3".to_string();
    app.output_dir = "/tmp/pdf2zh-output".to_string();
    app.glossary_files = "/tmp/glossary.csv".to_string();
    app.max_pages_per_part_input = "50".to_string();
    app.skip_scanned_detection = true;
    app.save_auto_extracted_glossary = true;
    app.only_include_translated_page = true;
    app.disable_auto_extract_glossary = true;

    let settings = app.build_settings_json();

    assert_eq!(member(&settings, &["translation", "qps"]).as_i64(), Some(5));
    assert_eq!(member(&settings, &["translation", "pool_max_workers"]).as_i64(), Some(6));
    assert_eq!(member(&settings, &["translation", "term_qps"]).as_i64(), Some(4));
    assert_eq!(member(&settings, &["translation", "term_pool_max_workers"]).as_i64(), Some(3));
    assert_eq!(member(&settings, &["translation", "output"]).as_str(), Some("/tmp/pdf2zh-output"));
    assert_eq!(member(&settings, &["translation", "glossaries"]).as_str(), Some("/tmp/glossary.csv"));
    assert!(is_true(member(&settings, &["translation", "save_auto_extracted_glossary"])));
    assert!(is_true(member(&settings, &["translation", "no_auto_extract_glossary"])));
    assert_eq!(member(&settings, &["pdf", "max_pages_per_part"]).as_i64(), Some(50));
    assert!(is_true(member(&settings, &["pdf", "skip_scanned_detection"])));
    assert!(is_true(member(&settings, &["pdf", "only_include_translated_page"])));
}

#[test]
fn settings_default_to_english_and_simplified_chinese() {
    let app = App::new();
    let settings = app.build_settings_json();
    assert_eq!(member(&settings, &["translation", "lang_in"]).as_str(), Some("en"));
    assert_eq!(member(&settings, &["translation", "lang_out"]).as_str(), Some("zh-CN"));
    assert_eq!(member(&settings, &["translation", "qps"]).as_i64(), Some(4));
    assert!(!is_true(member(&settings, &["pdf", "no_dual"])));
    assert!(is_true(member(&settings, &["pdf", "no_mono"])));
    assert!(member(&settings, &["basic", "debug"]).get("x").is_none());
    assert!(settings.get("translate_engine_settings").is_none());
    assert!(member(&settings, &["translation"]).get("pool_max_workers").is_none());
    assert!(member(&settings, &["pdf"]).get("pages").is_none());
}

#[test]
fn settings_skip_numbers_that_are_not_positive() {
    let mut app = App::new();
    app.pool_max_workers_input = "0".to_string();
    app.term_qps_input = "-3".to_string();
    app.term_pool_max_workers_input = "abc".to_string();
    app.max_pages_per_part_input = " 7 ".to_string();
    app.min_text_length = "12".to_string();
    app.pages_input = "1-3".to_string();
    app.custom_prompt = "be brief".to_string();
    app.output_dir = "   ".to_string();
    let settings = app.build_settings_json();
    let tr = member(&settings, &["translation"]);
    assert!(tr.get("pool_max_workers").is_none());
    assert!(tr.get("term_qps").is_none());
    assert!(tr.get("term_pool_max_workers").is_none());
    assert!(tr.get("output").is_none());
    assert_eq!(tr.get("min_text_length").and_then(|v| v.as_i64()), Some(12));
    assert_eq!(tr.get("custom_system_prompt").and_then(|v| v.as_str()), Some("be brief"));
    assert_eq!(member(&settings, &["pdf", "max_pages_per_part"]).as_i64(), Some(7));
    assert_eq!(member(&settings, &["pdf", "pages"]).as_str(), Some("1-3"));
}

#[test]
fn positive_numbers_are_trimmed_and_checked() {
    assert_eq!(parse_positive_i64(" 42 "), Some(42));
    assert_eq!(parse_positive_i64("0"), None);
    assert_eq!(parse_positive_i64("-1"), None);
    assert_eq!(parse_positive_i64("+8"), Some(8));
    assert_eq!(parse_positive_i64(""), None);
    assert_eq!(parse_positive_i64("9223372036854775808"), None);
}

#[test]
fn engine_section_types_parameters() {
    let mut app = App::new();
    app.engine_schemas.push(EngineSchema {
        name: "OpenAI".to_string(),
        support_llm: true,
        cli_flag: "openai".to_string(),
        fields: vec![
            field("openai_model", "str", JsonValue::from_str("gpt-4o"), false),
            field("openai_api_key", "str", JsonValue::Null, true),
            field("openai_temperature", "int", JsonValue::from_i64(1), false),
            field("openai_reasoning", "bool", JsonValue::Null, false),
            field("openai_timeout", "int", JsonValue::Null, false),
        ],
    });
    app.engine_idx = 0;
    let mut params = indexmap::IndexMap::new();
    params.insert("openai_api_key".to_string(), "sk-123".to_string());
    params.insert("openai_temperature".to_string(), "x".to_string());
    params.insert("openai_reasoning".to_string(), "true".to_string());
    params.insert("openai_timeout".to_string(), "30".to_string());
    app.engine_params = params;
    let settings = app.build_settings_json();
    let e = member(&settings, &["translate_engine_settings"]);
    assert_eq!(e.get("translate_engine_type").and_then(|v| v.as_str()), Some("OpenAI"));
    assert_eq!(e.get("openai_model").and_then(|v| v.as_str()), Some("gpt-4o"));
    assert_eq!(e.get("openai_api_key").and_then(|v| v.as_str()), Some("sk-123"));
    assert!(e.get("openai_temperature").is_none());
    assert!(is_true(e.get("openai_reasoning").unwrap()));
    assert_eq!(e.get("openai_timeout").and_then(|v| v.as_i64()), Some(30));
}

use pdf2zh::app::{App, DropdownTarget, Screen};
use pdf2zh::form_view::{
    bracketed_value, checkbox_row_text, numeric_display, pad_to, text_display, truncate_to_width, FieldLine, FormRow,
    Look,
};
use pdf2zh::json::JsonValue;
use pdf2zh::panels::{contains_text, help_text, ResultRow, Tone};
use pdf2zh::protocol::{EngineSchema, FieldSchema};
use pdf2zh::text::{eq_ignore_ascii_case, i64_to_string, parse_i64, parse_u32, trim, trim_char, u64_to_string};
use pdf2zh::translation::clock_display;
use pdf2zh::update::{display_name_of, resolve_path};

#[test]
fn numeric_display_shows_default_or_value() {
    assert_eq!(numeric_display(false, ""), "默认");
    assert_eq!(numeric_display(false, "8"), "8");
    assert_eq!(numeric_display(true, "8"), "8|");
    assert_eq!(numeric_display(true, ""), "|");
}

#[test]
fn text_display_shows_label_or_value() {
    assert_eq!(text_display(false, "", "(未设置)"), "(未设置)");
    assert_eq!(text_display(false, "/out", "默认"), "/out");
    assert_eq!(text_display(true, "/out", "默认"), "/out|");
}

#[test]
fn numbers_and_text() {
    assert_eq!(u64_to_string(0), "0");
    assert_eq!(u64_to_string(18446744073709551615), "18446744073709551615");
    assert_eq!(i64_to_string(-42), "-42");
    assert_eq!(i64_to_string(i64::MIN), "-9223372036854775808");
    assert_eq!(parse_u32("4294967295"), Some(4294967295));
    assert_eq!(parse_u32("4294967296"), None);
    assert_eq!(parse_u32("+7"), Some(7));
    assert_eq!(parse_u32("-7"), None);
    assert_eq!(parse_i64("-9223372036854775808"), Some(i64::MIN));
    assert_eq!(parse_i64("1 "), None);
    assert_eq!(trim("\u{3000} a b \n"), "a b");
    assert_eq!(trim_char("''x''", '\''), "x");
    assert!(eq_ignore_ascii_case("GeMiNi", "gemini"));
    assert!(!eq_ignore_ascii_case("gemin", "gemini"));
    assert!(contains_text("openai_api_key", "key"));
    assert!(!contains_text("model", "token"));
    assert!(contains_text("x", ""));
}

#[test]
fn paths_use_the_last_component_and_home() {
    assert_eq!(display_name_of("/a/b/c.pdf"), "c.pdf");
    assert_eq!(display_name_of("c.pdf"), "c.pdf");
    assert_eq!(resolve_path(" ~/docs/a.pdf ", Some("/home/u".to_string())), "/home/u/docs/a.pdf");
    assert_eq!(resolve_path("~/a.pdf", None), "~/a.pdf");
    assert_eq!(resolve_path("/x/~/a.pdf", Some("/home/u".to_string())), "/x/~/a.pdf");
}

#[test]
fn clock_is_minutes_and_seconds() {
    assert_eq!(clock_display(None), "--:--");
    assert_eq!(clock_display(Some(0)), "00:00");
    assert_eq!(clock_display(Some(65)), "01:05");
    assert_eq!(clock_display(Some(6000)), "100:00");
    let app = App::new();
    assert_eq!(app.elapsed_display(), "--:--");
    assert!(app.elapsed_time().is_none());
}

#[test]
fn truncation_counts_display_columns() {
    assert_eq!(truncate_to_width("abc", 3), "abc");
    assert_eq!(truncate_to_width("abcdef", 4), "abc…");
    assert_eq!(truncate_to_width("你好世界", 5), "你好…");
    assert_eq!(truncate_to_width("abc", 0), "");
    assert_eq!(truncate_to_width("abc", 1), "…");
    assert_eq!(pad_to("ab: ", 6), "ab:   ");
    assert_eq!(pad_to("abcdefgh", 3), "abcdefgh");
}

#[test]
fn labeled_values_fit_their_row() {
    assert_eq!(bracketed_value("QPS: ", "12345", 10), "[12…]");
    assert_eq!(bracketed_value("QPS: ", "1", 10), "[1]");
    assert_eq!(bracketed_value("源语言: ", "English ▼", 4), "[]");
    assert_eq!(bracketed_value("源语言: ", "English ▼", 13), "[En…]");
    assert_eq!(checkbox_row_text(true, "跳过清理"), "  ☑ 跳过清理");
    assert_eq!(checkbox_row_text(false, "跳过清理"), "  ☐ 跳过清理");
}

fn gemini() -> EngineSchema {
    EngineSchema {
        name: "Gemini".to_string(),
        support_llm: true,
        cli_flag: "gemini".to_string(),
        fields: vec![
            FieldSchema {
                name: "gemini_api_key".to_string(),
                field_type: "str".to_string(),
                default: JsonValue::Null,
                printed_default: "null".to_string(),
                description: String::new(),
                sensitive: true,
                password: true,
            },
            FieldSchema {
                name: "temp".to_string(),
                field_type: "int".to_string(),
                default: JsonValue::from_i64(3),
                printed_default: "3".to_string(),
                description: String::new(),
                sensitive: false,
                password: false,
            },
        ],
    }
}

fn labeled(line: &FieldLine) -> (String, String, Look) {
    match line {
        FieldLine::Labeled { label, value, look } => (label.clone(), value.clone(), *look),
        _ => panic!("expected a labeled line"),
    }
}

#[test]
fn field_lines_show_labels_values_and_focus() {
    let mut app = App::new();
    app.engine_schemas.push(gemini());
    let n = app.engine_param_count();
    assert_eq!(labeled(&app.field_line(0, n, true)), ("文件路径: ".to_string(), "<输入PDF路径后按Enter添加>".to_string(), Look::Focused));
    assert_eq!(labeled(&app.field_line(0, n, false)).2, Look::Plain);
    assert_eq!(labeled(&app.field_line(1, n, true)).1, "English ▼");
    assert_eq!(labeled(&app.field_line(2, n, true)).1, "Simplified Chinese ▼");
    assert_eq!(labeled(&app.field_line(4, n, true)).1, "Gemini ▼");
    assert_eq!(labeled(&app.field_line(5, n, true)).1, "4");
    assert_eq!(labeled(&app.field_line(6, n, true)), ("gemini_api_key: ".to_string(), "(未设置)".to_string(), Look::Plain));
    assert_eq!(labeled(&app.field_line(7, n, true)), ("temp:     ".to_string(), "3 (默认)".to_string(), Look::Plain));
    app.engine_params.insert("gemini_api_key".to_string(), "sk".to_string());
    assert_eq!(labeled(&app.field_line(6, n, true)).1, "********");
    app.focused_field = 6;
    app.editing = true;
    assert_eq!(labeled(&app.field_line(6, n, true)), ("gemini_api_key: ".to_string(), "sk|".to_string(), Look::Editing));
    match app.field_line(6 + n, n, true) {
        FieldLine::Checkbox { checked, label, focused } => {
            assert!(checked);
            assert_eq!(label, "输出双语PDF");
            assert!(!focused);
        },
        _ => panic!("expected a checkbox"),
    }
    assert!(matches!(app.field_line(22 + n, n, true), FieldLine::Blank));
}

#[test]
fn form_rows_follow_the_layout() {
    let mut app = App::new();
    app.engine_schemas.push(gemini());
    app.selected_files = vec!["/a/x.pdf".to_string(), "/b/y.pdf".to_string()];
    let rows = app.form_rows();
    assert_eq!(rows.len(), 2 + 2 + 1 + 3 + 1 + 4 + 1 + 4 + 1 + 12);
    match &rows[2] {
        FormRow::File(t) => assert_eq!(t, "  1. x.pdf"),
        _ => panic!("expected a file row"),
    }
    for f in 0..app.max_fields() {
        app.focused_field = f;
        app.scroll_offset = 0;
        app.ensure_visible(1);
        match rows[app.scroll_offset] {
            FormRow::Field(i) => assert_eq!(i, f),
            _ => panic!("field {f} is not where the scrolling puts it"),
        }
    }
}

#[test]
fn status_panel_masks_secrets() {
    let mut app = App::new();
    app.engine_params.insert("api_key".to_string(), "sk".to_string());
    app.engine_params.insert("model".to_string(), "m1".to_string());
    app.engine_params.insert("empty".to_string(), String::new());
    let lines = app.status_lines();
    let texts: Vec<&str> = lines.iter().map(|l| l.text.as_str()).collect();
    assert_eq!(texts[0], "状态: 就绪");
    assert_eq!(texts[2], "已选文件: 0 个");
    assert!(texts.contains(&"  api_key: ****"));
    assert!(texts.contains(&"  model: m1"));
    assert!(!texts.iter().any(|t| t.starts_with("  empty")));
    assert_eq!(*texts.last().unwrap(), "请在左侧添加 PDF 文件");
    assert_eq!(lines[0].tone, Tone::Good);
}

#[test]
fn progress_and_results_text() {
    let mut app = App::new();
    assert_eq!(app.file_info(), "准备中...");
    app.progress.total_files = 3;
    app.progress.current_file_idx = 1;
    app.progress.current_file = "b.pdf".to_string();
    app.progress.finished_count = 1;
    assert_eq!(app.file_info(), "[2/3] b.pdf  (已完成 1)");
    assert_eq!(app.stage_info("00:07"), "正在启动...    已用时间: 00:07");
    app.progress.stage = "Parse".to_string();
    app.progress.stage_total = 4;
    app.progress.stage_current = 2;
    assert_eq!(app.stage_info("00:07"), "阶段: Parse (2/4)    已用时间: 00:07");
    assert!(app.part_info().is_none());
    app.progress.total_parts = 3;
    assert_eq!(app.part_info(), Some("Part 1/3".to_string()));
    app.push_log("a".to_string());
    app.push_log("b".to_string());
    app.push_log("c".to_string());
    assert_eq!(app.log_tail(2), vec!["b".to_string(), "c".to_string()]);
    let mut r = JsonValue::empty_object();
    r.set("mono_pdf_path", JsonValue::from_str("/o/a.mono.pdf"));
    r.set("dual_pdf_path", JsonValue::from_str("null"));
    r.set("total_seconds", JsonValue::from_i64(12));
    app.results.push(r);
    let rows = app.results_rows("01:00");
    match &rows[1] {
        ResultRow::Line(t, _) => assert_eq!(t, "总用时: 01:00"),
        _ => panic!(),
    }
    match &rows[3] {
        ResultRow::Line(t, _) => assert_eq!(t, "单语PDF: /o/a.mono.pdf"),
        _ => panic!(),
    }
    assert!(matches!(rows[4], ResultRow::Seconds(_)));
}

#[test]
fn footer_and_titles() {
    let mut app = App::new();
    assert_eq!(app.footer_text(), "正在加载...");
    app.screen = Screen::Configure;
    app.editing = true;
    assert_eq!(app.footer_text(), "[输入文本] [Enter/Esc]完成");
    app.screen = Screen::Results;
    assert_eq!(app.right_title(), " 翻译结果 ");
    app.python_version = "1.2".to_string();
    assert_eq!(app.header_title(), " PDFMathTranslate TUI v1.2 ");
    assert_eq!(help_text().len(), 11);
}

#[test]
fn dropdown_layout_places_the_list() {
    let mut app = App::new();
    for i in 0..20 {
        app.language_map.insert(format!("Language {i}"), format!("l{i}"));
    }
    app.dropdown_open = Some(DropdownTarget::LangIn);
    app.dropdown_cursor = 15;
    let l = app.dropdown_layout(DropdownTarget::LangIn, 100, 40).unwrap();
    assert_eq!(l.width, 20);
    assert_eq!(l.height, 14);
    assert_eq!(l.x, (45 - 20) / 2 + 1);
    assert_eq!(l.y, 13);
    assert_eq!(l.items.len(), 12);
    assert_eq!(l.items[0].0, "  Language 4");
    assert!(l.items[11].1);
    let ind = l.indicator.unwrap();
    assert_eq!(ind.text, " 16/20 ");
    assert_eq!(l.title, " 源语言 ");
    let empty = App::new();
    assert!(empty.dropdown_layout(DropdownTarget::Engine, 100, 40).is_none());
}

fn counters(total: i64, prompt: i64, completion: i64, cache: i64) -> JsonValue {
    let mut o = JsonValue::empty_object();
    o.set("total", JsonValue::from_i64(total));
    o.set("prompt", JsonValue::from_i64(prompt));
    o.set("completion", JsonValue::from_i64(completion));
    o.set("cache_hit_prompt", JsonValue::from_i64(cache));
    o
}

fn counter(v: &JsonValue, model: &str, field: &str) -> Option<i64> {
    v.get(model).and_then(|m| m.get(field)).and_then(|x| x.as_i64())
}

#[test]
fn usage_counters_add_up_per_model() {
    let mut existing = JsonValue::empty_object();
    existing.set("gpt", counters(100, 60, 40, 10));
    existing.set("other", counters(1, 1, 0, 0));
    let mut reported = JsonValue::empty_object();
    reported.set("gpt", counters(50, 30, 20, 5));
    reported.set("new", counters(7, 4, 3, 0));
    let merged = pdf2zh::usage::merge_token_usage(existing, reported);
    assert_eq!(counter(&merged, "gpt", "total"), Some(150));
    assert_eq!(counter(&merged, "gpt", "prompt"), Some(90));
    assert_eq!(counter(&merged, "gpt", "completion"), Some(60));
    assert_eq!(counter(&merged, "gpt", "cache_hit_prompt"), Some(15));
    assert_eq!(counter(&merged, "other", "total"), Some(1));
    assert_eq!(counter(&merged, "new", "total"), Some(7));
    assert_eq!(counter(&merged, "new", "completion"), Some(3));
}

#[test]
fn usage_merge_into_null_copies_the_report() {
    let mut reported = JsonValue::empty_object();
    reported.set("m", counters(3, 2, 1, 0));
    let merged = pdf2zh::usage::merge_token_usage(JsonValue::Null, reported);
    assert_eq!(counter(&merged, "m", "total"), Some(3));
    assert_eq!(counter(&merged, "m", "prompt"), Some(2));
}

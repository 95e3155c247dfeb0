use pdf2zh::action::Action;
use pdf2zh::app::{ActivePanel, App, DropdownTarget, KeyCode, KeyEvent, Popup, Screen};
use pdf2zh::json::JsonValue;
use pdf2zh::protocol::{EngineSchema, FieldSchema, ProgressData, PythonEvent, TokenUsage, F64Bits};

fn key(code: KeyCode) -> KeyEvent {
    KeyEvent { code, control: false }
}

fn ctrl(c: char) -> KeyEvent {
    KeyEvent { code: KeyCode::Char(c), control: true }
}

fn is(a: &Action, name: &str) -> bool {
    let n = match a {
        Action::Nothing => "Nothing",
        Action::Quit => "Quit",
        Action::DismissPopup => "DismissPopup",
        Action::ShowHelp => "ShowHelp",
        Action::StartTranslation => "StartTranslation",
        Action::CancelTranslation => "CancelTranslation",
        Action::SaveConfig => "SaveConfig",
        Action::FocusNext => "FocusNext",
        Action::FocusPrev => "FocusPrev",
        Action::EnterField => "EnterField",
        Action::ExitField => "ExitField",
        Action::SwitchPanel => "SwitchPanel",
        Action::DeleteFocusedFile => "DeleteFocusedFile",
        Action::DropdownUp => "DropdownUp",
        Action::DropdownDown => "DropdownDown",
        Action::CloseDropdown => "CloseDropdown",
        Action::BackToConfigure => "BackToConfigure",
        Action::Backspace => "Backspace",
        Action::CharInput(_) => "CharInput",
        Action::SelectDropdownItem(_) => "SelectDropdownItem",
        _ => "other",
    };
    n == name
}

fn schema_event() -> PythonEvent {
    let mut languages = indexmap::IndexMap::new();
    languages.insert("English".to_string(), "en".to_string());
    languages.insert("Simplified Chinese".to_string(), "zh-CN".to_string());
    languages.insert("Japanese".to_string(), "ja".to_string());
    PythonEvent::ConfigSchema {
        engines: vec![
            EngineSchema { name: "Google".to_string(), support_llm: false, cli_flag: "google".to_string(), fields: vec![] },
            EngineSchema {
                name: "Gemini".to_string(),
                support_llm: true,
                cli_flag: "gemini".to_string(),
                fields: vec![
                    FieldSchema {
                        name: "gemini_model".to_string(),
                        field_type: "str".to_string(),
                        default: JsonValue::from_str("gemini-2.0-flash"),
                        printed_default: "\"gemini-2.0-flash\"".to_string(),
                        description: String::new(),
                        sensitive: false,
                        password: false,
                    },
                    FieldSchema {
                        name: "gemini_api_key".to_string(),
                        field_type: "str".to_string(),
                        default: JsonValue::Null,
                        printed_default: "null".to_string(),
                        description: String::new(),
                        sensitive: true,
                        password: true,
                    },
                ],
            },
        ],
        languages,
    }
}

fn ready_app() -> App {
    let mut app = App::new();
    app.apply(Action::PythonEvent(PythonEvent::Ready { version: "2.0.0".to_string(), engines: vec![] }));
    app.apply(Action::PythonEvent(schema_event()));
    app
}

#[test]
fn fresh_state_is_loading_with_defaults() {
    let app = App::new();
    assert_eq!(app.screen, Screen::Loading);
    assert_eq!(app.qps, 4);
    assert_eq!(app.qps_input, "4");
    assert_eq!(app.lang_out_idx, 1);
    assert!(app.no_mono);
    assert_eq!(app.max_fields(), 22);
    assert_eq!(app.engine_param_count(), 0);
}

#[test]
fn schema_selects_gemini_and_simplified_chinese() {
    let app = ready_app();
    assert_eq!(app.screen, Screen::Configure);
    assert_eq!(app.python_version, "2.0.0");
    assert_eq!(app.engine_idx, 1);
    assert_eq!(app.lang_out_idx, 1);
    assert_eq!(app.engine_param_count(), 2);
    assert_eq!(app.max_fields(), 24);
    assert_eq!(app.engine_params.get("gemini_model").map(|s| s.as_str()), Some("gemini-2.0-flash"));
    assert!(app.engine_params.get("gemini_api_key").is_none());
}

#[test]
fn popup_takes_every_key() {
    let mut app = ready_app();
    app.popup = Some(Popup::Help);
    assert!(is(&app.handle_key(key(KeyCode::Esc)), "DismissPopup"));
    assert!(is(&app.handle_key(key(KeyCode::Enter)), "DismissPopup"));
    assert!(is(&app.handle_key(ctrl('q')), "Nothing"));
    assert!(is(&app.handle_key(key(KeyCode::Down)), "Nothing"));
}

#[test]
fn control_shortcuts() {
    let mut app = ready_app();
    assert!(is(&app.handle_key(ctrl('t')), "StartTranslation"));
    assert!(is(&app.handle_key(ctrl('s')), "SaveConfig"));
    assert!(is(&app.handle_key(ctrl('q')), "Quit"));
    assert!(is(&app.handle_key(ctrl('c')), "Quit"));
    assert!(!is(&app.handle_key(ctrl('x')), "CancelTranslation"));
    app.screen = Screen::Translating;
    assert!(is(&app.handle_key(ctrl('x')), "CancelTranslation"));
    assert!(is(&app.handle_key(key(KeyCode::Char('q'))), "CancelTranslation"));
    assert!(!is(&app.handle_key(ctrl('t')), "StartTranslation"));
    app.screen = Screen::Results;
    assert!(is(&app.handle_key(key(KeyCode::Enter)), "BackToConfigure"));
    app.screen = Screen::Loading;
    assert!(is(&app.handle_key(key(KeyCode::Enter)), "Nothing"));
    assert!(is(&app.handle_key(key(KeyCode::F(1))), "ShowHelp"));
}

#[test]
fn configure_keys_by_mode() {
    let mut app = ready_app();
    assert!(is(&app.handle_key(key(KeyCode::Down)), "FocusNext"));
    assert!(is(&app.handle_key(key(KeyCode::Up)), "FocusPrev"));
    assert!(is(&app.handle_key(key(KeyCode::Enter)), "EnterField"));
    assert!(is(&app.handle_key(key(KeyCode::Left)), "SwitchPanel"));
    assert!(is(&app.handle_key(key(KeyCode::Delete)), "DeleteFocusedFile"));
    assert!(is(&app.handle_key(key(KeyCode::Char('?'))), "ShowHelp"));
    app.editing = true;
    assert!(is(&app.handle_key(key(KeyCode::Char('?'))), "CharInput"));
    assert!(is(&app.handle_key(key(KeyCode::Up)), "ExitField"));
    assert!(is(&app.handle_key(key(KeyCode::Backspace)), "Backspace"));
    app.editing = false;
    app.dropdown_open = Some(DropdownTarget::LangIn);
    app.dropdown_cursor = 2;
    match app.handle_key(key(KeyCode::Enter)) {
        Action::SelectDropdownItem(i) => assert_eq!(i, 2),
        _ => panic!("expected a selection"),
    }
    assert!(is(&app.handle_key(key(KeyCode::Esc)), "CloseDropdown"));
}

#[test]
fn switching_panels_twice_restores_the_panel() {
    let mut app = ready_app();
    app.editing = true;
    app.apply(Action::SwitchPanel);
    assert_eq!(app.active_panel, ActivePanel::Right);
    assert!(!app.editing);
    app.apply(Action::SwitchPanel);
    assert_eq!(app.active_panel, ActivePanel::Left);
}

#[test]
fn focus_stays_within_the_form() {
    let mut app = ready_app();
    app.apply(Action::FocusPrev);
    assert_eq!(app.focused_field, 0);
    for _ in 0..40 {
        app.apply(Action::FocusNext);
    }
    assert_eq!(app.focused_field, app.max_fields() - 1);
}

#[test]
fn checkbox_toggles_back() {
    let mut app = ready_app();
    let n = app.engine_param_count();
    app.focused_field = 6 + n;
    let before = app.no_dual;
    app.apply(Action::EnterField);
    assert_eq!(app.no_dual, !before);
    app.apply(Action::EnterField);
    assert_eq!(app.no_dual, before);
    app.focused_field = 21 + n;
    app.apply(Action::EnterField);
    assert!(app.disable_auto_extract_glossary);
}

#[test]
fn typing_then_deleting_restores_the_field() {
    let mut app = ready_app();
    app.focused_field = 3;
    app.apply(Action::EnterField);
    assert!(app.editing);
    app.apply(Action::CharInput('5'));
    assert_eq!(app.pages_input, "5");
    app.apply(Action::Backspace);
    assert_eq!(app.pages_input, "");
    app.apply(Action::Backspace);
    assert_eq!(app.pages_input, "");
}

#[test]
fn numeric_fields_take_digits_only() {
    let mut app = ready_app();
    let n = app.engine_param_count();
    app.focused_field = 12 + n;
    app.apply(Action::EnterField);
    app.apply(Action::CharInput('a'));
    app.apply(Action::CharInput('8'));
    assert_eq!(app.pool_max_workers_input, "8");
}

#[test]
fn qps_edit_keeps_at_least_one() {
    let mut app = ready_app();
    app.focused_field = 5;
    app.apply(Action::EnterField);
    assert_eq!(app.qps_input, "4");
    app.apply(Action::Backspace);
    app.apply(Action::CharInput('0'));
    app.apply(Action::ExitField);
    assert_eq!(app.qps, 1);
    assert_eq!(app.qps_input, "1");
    app.apply(Action::EnterField);
    app.apply(Action::CharInput('2'));
    app.apply(Action::ExitField);
    assert_eq!(app.qps, 12);
    assert_eq!(app.qps_input, "12");
}

#[test]
fn engine_parameter_typing_creates_the_value() {
    let mut app = ready_app();
    app.focused_field = 7;
    app.apply(Action::EnterField);
    app.apply(Action::CharInput('k'));
    assert_eq!(app.engine_params.get("gemini_api_key").map(|s| s.as_str()), Some("k"));
    app.apply(Action::Backspace);
    assert_eq!(app.engine_params.get("gemini_api_key").map(|s| s.as_str()), Some(""));
}

#[test]
fn dropdown_selection_and_type_search() {
    let mut app = ready_app();
    app.focused_field = 1;
    app.apply(Action::EnterField);
    assert_eq!(app.dropdown_open, Some(DropdownTarget::LangIn));
    assert_eq!(app.dropdown_cursor, 0);
    app.apply(Action::CharInput('J'));
    assert_eq!(app.dropdown_cursor, 2);
    app.apply(Action::CharInput('x'));
    assert_eq!(app.dropdown_cursor, 2);
    app.apply(Action::DropdownDown);
    assert_eq!(app.dropdown_cursor, 2);
    app.apply(Action::DropdownUp);
    assert_eq!(app.dropdown_cursor, 1);
    app.apply(Action::SelectDropdownItem(1));
    assert_eq!(app.lang_in_idx, 1);
    assert!(app.dropdown_open.is_none());
}

#[test]
fn switching_engine_resets_parameters() {
    let mut app = ready_app();
    app.engine_params.insert("gemini_api_key".to_string(), "secret".to_string());
    app.focused_field = 4;
    app.apply(Action::EnterField);
    app.apply(Action::SelectDropdownItem(0));
    assert_eq!(app.engine_idx, 0);
    assert_eq!(app.engine_params.len(), 0);
    app.apply(Action::OpenDropdown);
    app.apply(Action::SelectDropdownItem(7));
    assert_eq!(app.engine_idx, 0);
}

#[test]
fn files_are_added_once_and_removed() {
    let mut app = ready_app();
    app.apply(Action::AddFile("  /tmp/a.pdf ".to_string()));
    app.apply(Action::AddFile("/tmp/a.pdf".to_string()));
    app.apply(Action::AddFile("/tmp/b.pdf".to_string()));
    app.apply(Action::AddFile("   ".to_string()));
    assert_eq!(app.selected_files, vec!["/tmp/a.pdf".to_string(), "/tmp/b.pdf".to_string()]);
    app.apply(Action::RemoveFile(5));
    assert_eq!(app.selected_files.len(), 2);
    app.apply(Action::RemoveFile(0));
    assert_eq!(app.selected_files, vec!["/tmp/b.pdf".to_string()]);
    app.focused_field = 1;
    app.apply(Action::DeleteFocusedFile);
    assert_eq!(app.selected_files.len(), 1);
    app.focused_field = 0;
    app.apply(Action::DeleteFocusedFile);
    assert!(app.selected_files.is_empty());
}

#[test]
fn progress_events_and_finish() {
    let mut app = ready_app();
    app.selected_files = vec!["/x/one.pdf".to_string(), "/x/two.pdf".to_string()];
    app.screen = Screen::Translating;
    app.progress.total_files = 2;
    let data = ProgressData {
        stage: "Translate".to_string(),
        stage_progress: F64Bits { bits: 0x4049000000000000 },
        stage_current: 3,
        stage_total: 10,
        overall_progress: F64Bits { bits: 0x4024000000000000 },
        part_index: 0,
        total_parts: 1,
    };
    app.apply(Action::PythonEvent(PythonEvent::ProgressUpdate(data)));
    assert_eq!(app.progress.stage, "Translate");
    assert_eq!(app.progress.stage_current, 3);
    let usage = vec![("main".to_string(), TokenUsage { total: 10, prompt: 7, completion: 3, cache_hit_prompt: 0 })];
    app.apply(Action::PythonEvent(PythonEvent::Finish { translate_result: JsonValue::empty_object(), token_usage: Some(usage) }));
    assert_eq!(app.progress.finished_count, 1);
    assert_eq!(app.screen, Screen::Translating);
    assert_eq!(app.progress.current_file, "two.pdf");
    assert_eq!(app.progress.stage, "等待下一个文件...");
    assert_eq!(app.log_lines.back().map(|s| s.as_str()), Some("文件 1/2 翻译完成"));
    let usage2 = vec![("main".to_string(), TokenUsage { total: 5, prompt: 4, completion: 1, cache_hit_prompt: 2 })];
    app.apply(Action::PythonEvent(PythonEvent::Finish { translate_result: JsonValue::empty_object(), token_usage: Some(usage2) }));
    assert_eq!(app.screen, Screen::Results);
    assert_eq!(app.results.len(), 2);
    let main = app.token_usage.as_ref().unwrap().get("main").unwrap();
    assert_eq!(main.get("total").and_then(|v| v.as_i64()), Some(15));
    assert_eq!(main.get("prompt").and_then(|v| v.as_i64()), Some(11));
    assert_eq!(main.get("cache_hit_prompt").and_then(|v| v.as_i64()), Some(2));
    app.apply(Action::BackToConfigure);
    assert_eq!(app.screen, Screen::Configure);
    assert!(app.results.is_empty());
    assert!(app.token_usage.is_none());
}

#[test]
fn backend_errors_show_a_popup() {
    let mut app = ready_app();
    app.screen = Screen::Translating;
    app.apply(Action::PythonEvent(PythonEvent::Error {
        error: "boom".to_string(),
        error_type: "RuntimeError".to_string(),
        details: "trace".to_string(),
    }));
    assert_eq!(app.screen, Screen::Configure);
    match &app.popup {
        Some(Popup::Error(m)) => assert_eq!(m, "[RuntimeError] boom\ntrace"),
        _ => panic!("expected an error popup"),
    }
    app.apply(Action::DismissPopup);
    assert!(app.popup.is_none());
    app.apply(Action::PythonEvent(PythonEvent::ValidationResult { valid: false, error: None }));
    match &app.popup {
        Some(Popup::Error(m)) => assert_eq!(m, "Validation failed"),
        _ => panic!("expected an error popup"),
    }
}

#[test]
fn log_keeps_two_hundred_lines() {
    let mut app = App::new();
    for i in 0..205 {
        app.push_log(format!("line {i}"));
    }
    assert_eq!(app.log_lines.len(), 200);
    assert_eq!(app.log_lines.front().map(|s| s.as_str()), Some("line 5"));
    assert_eq!(app.log_lines.back().map(|s| s.as_str()), Some("line 204"));
}

#[test]
fn ensure_visible_scrolls_to_the_focus() {
    let mut app = ready_app();
    app.focused_field = 20;
    app.ensure_visible(10);
    assert_eq!(app.scroll_offset, 17);
    app.focused_field = 0;
    app.ensure_visible(10);
    assert_eq!(app.scroll_offset, 1);
}

#[test]
fn type_search_jumps_to_the_first_match() {
    let mut app = ready_app();
    app.language_map = indexmap::IndexMap::new();
    app.language_map.insert("Ab".to_string(), "ab".to_string());
    app.language_map.insert("Ac".to_string(), "ac".to_string());
    app.language_map.insert("Bd".to_string(), "bd".to_string());
    app.lang_in_idx = 1;
    app.focused_field = 1;
    app.apply(Action::EnterField);
    assert_eq!(app.dropdown_cursor, 1);
    app.apply(Action::CharInput('a'));
    assert_eq!(app.dropdown_cursor, 0);
    app.apply(Action::CharInput('A'));
    assert_eq!(app.dropdown_cursor, 0);
    app.apply(Action::CharInput('b'));
    assert_eq!(app.dropdown_cursor, 2);
    app.apply(Action::CharInput('z'));
    assert_eq!(app.dropdown_cursor, 2);
}

#[test]
fn typing_into_a_parameter_and_deleting_gives_it_back() {
    let mut app = ready_app();
    app.focused_field = 6;
    app.apply(Action::EnterField);
    assert!(app.editing);
    let before = app.engine_params.get("gemini_model").cloned();
    app.apply(Action::CharInput('x'));
    assert_eq!(app.engine_params.get("gemini_model").map(|x| x.as_str()), Some("gemini-2.0-flashx"));
    app.apply(Action::Backspace);
    assert_eq!(app.engine_params.get("gemini_model").cloned(), before);
}

//! How actions and backend events change the front end's state.

use vstd::prelude::*;
use crate::action::{Action, ActionView};
use crate::app::{dropdown_of, dropdown_size, is_checkbox, max_items, param_count, ActivePanel, App,
    AppView, DropdownTarget, PopupView, ProgressView, Screen};
use crate::json::{entries_get, entries_set, find_key, Json, JsonValue};
use crate::platform::{file_name_of, joined_path};
use crate::protocol::{EventView, F64Bits, ProgressDataView, TokenUsage};
use crate::usage::{merge_usage, merge_usage_ok, usage_json};
use crate::text::{eq_ignore_ascii_case_spec, str_eq, string_of, trim, trim_spec};
use crate::platform::{char_lowercase, path_file_name, path_join};
use vstd::string::*;
use crate::ordered_map::{map_get, map_get_index, map_insert, map_len};
use crate::protocol::{EngineSchemaView, FieldSchemaView};
use crate::text::{decimal, is_digit, parse_u32, parse_u32_spec, string_pop, string_push, u64_to_string};

verus! {

/// `s` without its last character, if it has one.
pub open spec fn pop_text(s: Seq<char>) -> Seq<char> {
    if s.len() > 0 {
        s.drop_last()
    } else {
        s
    }
}

/// The value under `key`, or the empty text.
pub open spec fn value_or_empty(v: Option<Seq<char>>) -> Seq<char> {
    match v {
        Some(s) => s,
        None => Seq::empty(),
    }
}

/// The name of the `i`-th parameter of the selected engine.
pub open spec fn param_name(v: AppView, i: int) -> Seq<char> {
    v.engine_schemas[v.engine_idx as int].fields[i].name
}

/// The text fields of the configure page.
#[derive(Debug, Clone, Copy, PartialEq, Eq, Structural)]
pub enum TextField {
    FileInput,
    Pages,
    Qps,
    CustomPrompt,
    MinTextLength,
    PoolMaxWorkers,
    TermQps,
    TermPoolMaxWorkers,
    OutputDir,
    GlossaryFiles,
    MaxPagesPerPart,
}

/// The checkboxes of the configure page.
#[derive(Debug, Clone, Copy, PartialEq, Eq, Structural)]
pub enum Checkbox {
    NoDual,
    NoMono,
    DualTranslateFirst,
    SkipClean,
    SkipScannedDetection,
    SaveAutoExtractedGlossary,
    OnlyIncludeTranslatedPage,
    DisableAutoExtractGlossary,
}

/// The text of a text field.
pub open spec fn text_of(v: AppView, t: TextField) -> Seq<char> {
    match t {
        TextField::FileInput => v.file_input,
        TextField::Pages => v.pages_input,
        TextField::Qps => v.qps_input,
        TextField::CustomPrompt => v.custom_prompt,
        TextField::MinTextLength => v.min_text_length,
        TextField::PoolMaxWorkers => v.pool_max_workers_input,
        TextField::TermQps => v.term_qps_input,
        TextField::TermPoolMaxWorkers => v.term_pool_max_workers_input,
        TextField::OutputDir => v.output_dir,
        TextField::GlossaryFiles => v.glossary_files,
        TextField::MaxPagesPerPart => v.max_pages_per_part_input,
    }
}

/// The state with a text field holding `s`.
pub open spec fn with_text(v: AppView, t: TextField, s: Seq<char>) -> AppView {
    match t {
        TextField::FileInput => AppView {file_input: s, ..v },
        TextField::Pages => AppView {pages_input: s, ..v },
        TextField::Qps => AppView {qps_input: s, ..v },
        TextField::CustomPrompt => AppView {custom_prompt: s, ..v },
        TextField::MinTextLength => AppView {min_text_length: s, ..v },
        TextField::PoolMaxWorkers => AppView {pool_max_workers_input: s, ..v },
        TextField::TermQps => AppView {term_qps_input: s, ..v },
        TextField::TermPoolMaxWorkers => AppView {term_pool_max_workers_input: s, ..v },
        TextField::OutputDir => AppView {output_dir: s, ..v },
        TextField::GlossaryFiles => AppView {glossary_files: s, ..v },
        TextField::MaxPagesPerPart => AppView {max_pages_per_part_input: s, ..v },
    }
}

/// Does a text field take digits only?
pub open spec fn digits_only(t: TextField) -> bool {
    match t {
        TextField::FileInput | TextField::Pages | TextField::CustomPrompt | TextField::OutputDir
        | TextField::GlossaryFiles => false,
        _ => true,
    }
}

/// The text field at index `f` when the engine has `n` parameters.
pub open spec fn text_field_at(f: int, n: int) -> Option<TextField> {
    if f == 0 {
        Some(TextField::FileInput)
    } else if f == 3 {
        Some(TextField::Pages)
    } else if f == 5 {
        Some(TextField::Qps)
    } else if f == 10 + n {
        Some(TextField::CustomPrompt)
    } else if f == 11 + n {
        Some(TextField::MinTextLength)
    } else if f == 12 + n {
        Some(TextField::PoolMaxWorkers)
    } else if f == 13 + n {
        Some(TextField::TermQps)
    } else if f == 14 + n {
        Some(TextField::TermPoolMaxWorkers)
    } else if f == 15 + n {
        Some(TextField::OutputDir)
    } else if f == 16 + n {
        Some(TextField::GlossaryFiles)
    } else if f == 17 + n {
        Some(TextField::MaxPagesPerPart)
    } else {
        None
    }
}

/// The focused text field, if the focus is on one.
pub open spec fn focused_text(v: AppView) -> Option<TextField> {
    text_field_at(v.focused_field as int, param_count(v) as int)
}

/// Is the focus on an engine parameter?
pub open spec fn focus_on_param(v: AppView) -> bool {
    6 <= v.focused_field < 6 + param_count(v)
}

/// The value of a checkbox.
pub open spec fn flag_of(v: AppView, b: Checkbox) -> bool {
    match b {
        Checkbox::NoDual => v.no_dual,
        Checkbox::NoMono => v.no_mono,
        Checkbox::DualTranslateFirst => v.dual_translate_first,
        Checkbox::SkipClean => v.skip_clean,
        Checkbox::SkipScannedDetection => v.skip_scanned_detection,
        Checkbox::SaveAutoExtractedGlossary => v.save_auto_extracted_glossary,
        Checkbox::OnlyIncludeTranslatedPage => v.only_include_translated_page,
        Checkbox::DisableAutoExtractGlossary => v.disable_auto_extract_glossary,
    }
}

/// The state with a checkbox set to `x`.
pub open spec fn with_flag(v: AppView, b: Checkbox, x: bool) -> AppView {
    match b {
        Checkbox::NoDual => AppView {no_dual: x, ..v },
        Checkbox::NoMono => AppView {no_mono: x, ..v },
        Checkbox::DualTranslateFirst => AppView {dual_translate_first: x, ..v },
        Checkbox::SkipClean => AppView {skip_clean: x, ..v },
        Checkbox::SkipScannedDetection => AppView {skip_scanned_detection: x, ..v },
        Checkbox::SaveAutoExtractedGlossary => AppView {save_auto_extracted_glossary: x, ..v },
        Checkbox::OnlyIncludeTranslatedPage => AppView {only_include_translated_page: x, ..v },
        Checkbox::DisableAutoExtractGlossary => AppView {disable_auto_extract_glossary: x, ..v },
    }
}

/// The checkbox at index `f` when the engine has `n` parameters.
pub open spec fn checkbox_at(f: int, n: int) -> Option<Checkbox> {
    if f == 6 + n {
        Some(Checkbox::NoDual)
    } else if f == 7 + n {
        Some(Checkbox::NoMono)
    } else if f == 8 + n {
        Some(Checkbox::DualTranslateFirst)
    } else if f == 9 + n {
        Some(Checkbox::SkipClean)
    } else if f == 18 + n {
        Some(Checkbox::SkipScannedDetection)
    } else if f == 19 + n {
        Some(Checkbox::SaveAutoExtractedGlossary)
    } else if f == 20 + n {
        Some(Checkbox::OnlyIncludeTranslatedPage)
    } else if f == 21 + n {
        Some(Checkbox::DisableAutoExtractGlossary)
    } else {
        None
    }
}

/// The state after typing `c` into the focused field: text fields take it
/// (numeric ones digits only), an engine parameter appends it to its value
/// (creating the value when missing), other fields take nothing.
pub open spec fn char_input(v: AppView, c: char) -> AppView {
    if focus_on_param(v) {
        let name = param_name(v, v.focused_field - 6);
        AppView {
            engine_params: entries_set(
                v.engine_params,
                name,
                value_or_empty(entries_get(v.engine_params, name)).push(c),
            ),
            ..v
        }
    } else {
        match focused_text(v) {
            Some(t) => if digits_only(t) && !is_digit(c) {
                v
            } else {
                with_text(v, t, text_of(v, t).push(c))
            },
            None => v,
        }
    }
}

/// The state after deleting the last character of the focused field.
pub open spec fn backspace(v: AppView) -> AppView {
    if focus_on_param(v) {
        let name = param_name(v, v.focused_field - 6);
        match entries_get(v.engine_params, name) {
            Some(val) => AppView {engine_params: entries_set(v.engine_params, name, pop_text(val)), ..v },
            None => v,
        }
    } else {
        match focused_text(v) {
            Some(t) => with_text(v, t, pop_text(text_of(v, t))),
            None => v,
        }
    }
}

/// The state after toggling the focused checkbox.
pub open spec fn toggle(v: AppView) -> AppView {
    match checkbox_at(v.focused_field as int, param_count(v) as int) {
        Some(b) => with_flag(v, b, !flag_of(v, b)),
        None => v,
    }
}

/// The text a parameter starts with: a string default as it is, nothing for
/// `null`, the printed JSON text of any other default.
pub open spec fn default_text(d: Json, printed: Seq<char>) -> Seq<char> {
    match d {
        Json::Str(s) => s,
        Json::Null => Seq::empty(),
        _ => printed,
    }
}

/// The parameters an engine starts with: each field with a non-empty default.
pub open spec fn default_params(fields: Seq<FieldSchemaView>) -> Seq<(Seq<char>, Seq<char>)>
    decreases fields.len(),
{
    if fields.len() == 0 {
        Seq::empty()
    } else {
        let acc = default_params(fields.drop_last());
        let f = fields.last();
        let d = default_text(f.default, f.printed_default);
        if d.len() > 0 {
            entries_set(acc, f.name, d)
        } else {
            acc
        }
    }
}

/// The state after resetting the engine parameters to the selected engine's
/// defaults.
pub open spec fn reset_params(v: AppView) -> AppView {
    AppView {
        engine_params: if v.engine_idx < v.engine_schemas.len() {
            default_params(v.engine_schemas[v.engine_idx as int].fields)
        } else {
            Seq::empty()
        },
        ..v
    }
}

/// The cursor position a dropdown opens at: the current choice.
pub open spec fn current_choice(v: AppView, t: DropdownTarget) -> usize {
    match t {
        DropdownTarget::LangIn => v.lang_in_idx,
        DropdownTarget::LangOut => v.lang_out_idx,
        DropdownTarget::Engine => v.engine_idx,
    }
}

/// The state after opening dropdown `t` at its current choice.
pub open spec fn open_dropdown(v: AppView, t: DropdownTarget) -> AppView {
    AppView {dropdown_cursor: current_choice(v, t), dropdown_open: Some(t), ..v }
}

/// The names a dropdown lists.
pub open spec fn dropdown_names(v: AppView, t: DropdownTarget) -> Seq<Seq<char>> {
    match t {
        DropdownTarget::LangIn | DropdownTarget::LangOut => v.language_map.map_values(
            |e: (Seq<char>, Seq<char>)| e.0,
        ),
        DropdownTarget::Engine => v.engine_schemas.map_values(|s: EngineSchemaView| s.name),
    }
}

/// Does the item start with a character that lower-cases to `c`?
pub open spec fn item_matches(item: Seq<char>, c: char) -> bool {
    item.len() > 0 && crate::platform::lowercase_first(item[0]) == c
}

/// The first item, from the `from`-th on, whose first character lower-cases
/// to `c`.
pub open spec fn first_match(items: Seq<Seq<char>>, c: char, from: int) -> Option<int>
    decreases items.len() - from,
{
    if from < 0 || from >= items.len() {
        None
    } else if item_matches(items[from], c) {
        Some(from)
    } else {
        first_match(items, c, from + 1)
    }
}

/// The state after typing `c` in an open dropdown: the cursor jumps to the
/// first item starting with that letter (both lower-cased); nothing changes
/// when no item does.
pub open spec fn type_search(v: AppView, c: char) -> AppView {
    match v.dropdown_open {
        Some(t) => match first_match(dropdown_names(v, t), crate::platform::lowercase_first(c), 0) {
            Some(i) => AppView {dropdown_cursor: i as usize, ..v },
            None => v,
        },
        None => v,
    }
}

/// The QPS value an edit leaves: the typed number (at least 1) when it
/// parses, else the old value.
pub open spec fn qps_after_edit(v: AppView) -> u32 {
    match parse_u32_spec(v.qps_input) {
        Some(x) => if x < 1 {1 } else { x },
        None => v.qps,
    }
}

/// The state after `Action::EnterField`.
pub open spec fn enter_field(v: AppView) -> AppView {
    let f = v.focused_field as int;
    if is_checkbox(f, param_count(v) as int) {
        toggle(v)
    } else if dropdown_of(f) is Some {
        open_dropdown(v, dropdown_of(f)->0)
    } else if f == 5 {
        AppView {editing: true, qps_input: decimal(v.qps as nat), ..v }
    } else {
        AppView {editing: true, ..v }
    }
}

/// The state after `Action::ExitField`.
pub open spec fn exit_field(v: AppView) -> AppView {
    if v.focused_field == 5 {
        let q = qps_after_edit(v);
        AppView {editing: false, qps: q, qps_input: decimal(q as nat), ..v }
    } else {
        AppView {editing: false, ..v }
    }
}

/// The state after choosing item `idx` of the open dropdown.
pub open spec fn select_item(v: AppView, idx: usize) -> AppView {
    match v.dropdown_open {
        Some(t) => {
            let v1 = AppView {dropdown_open: None, ..v };
            match t {
                DropdownTarget::LangIn => if idx < v.language_map.len() {
                    AppView {lang_in_idx: idx, ..v1 }
                } else {
                    v1
                },
                DropdownTarget::LangOut => if idx < v.language_map.len() {
                    AppView {lang_out_idx: idx, ..v1 }
                } else {
                    v1
                },
                DropdownTarget::Engine => if idx < v.engine_schemas.len() && idx != v.engine_idx {
                    reset_params(AppView {engine_idx: idx, ..v1 })
                } else {
                    v1
                },
            }
        },
        None => v,
    }
}

/// The log after adding a line: at most 200 lines are kept.
pub open spec fn log_push(lines: Seq<Seq<char>>, line: Seq<char>) -> Seq<Seq<char>> {
    (if lines.len() >= 200 {lines.drop_first() } else { lines }).push(line)
}

/// Deletes the last character of `s`, if any.
fn pop_char(s: &mut String)
    ensures
        final(s)@ == pop_text(old(s)@),
{
    string_pop(s);
}

/// The path a typed or pasted file name stands for: trimmed, with a
/// leading `~/` resolved against the home directory when one is known.
pub open spec fn resolved_path(path: Seq<char>, home: Option<Seq<char>>) -> Seq<char> {
    let t = trim_spec(path);
    if t.len() >= 2 && t[0] == '~' && t[1] == '/' {
        match home {
            Some(h) => joined_path(h, t.skip(2)),
            None => t,
        }
    } else {
        t
    }
}

/// The state after adding a file: a non-empty path not yet selected is
/// appended to the selection.
pub open spec fn add_file(v: AppView, path: Seq<char>, home: Option<Seq<char>>) -> AppView {
    let p = resolved_path(path, home);
    if p.len() > 0 && !v.selected_files.contains(p) {
        AppView {selected_files: v.selected_files.push(p), ..v }
    } else {
        v
    }
}

/// The index of the first engine that is Gemini by name or by flag.
pub open spec fn gemini_index(engines: Seq<EngineSchemaView>) -> Option<int>
    decreases engines.len(),
{
    if engines.len() == 0 {
        None
    } else {
        match gemini_index(engines.drop_last()) {
            Some(i) => Some(i),
            None => {
                let e = engines.last();
                if eq_ignore_ascii_case_spec(e.name, "gemini"@) || e.cli_flag == "gemini"@ {
                    Some(engines.len() - 1)
                } else {
                    None
                }
            },
        }
    }
}

/// The state after the backend described its engines and languages: Gemini
/// becomes the engine when offered, parameters take that engine's defaults,
/// and Simplified Chinese becomes the target language when offered.
pub open spec fn schema_received(
    v: AppView,
    engines: Seq<EngineSchemaView>,
    languages: Seq<(Seq<char>, Seq<char>)>,
) -> AppView {
    let v1 = AppView {engine_schemas: engines, language_map: languages, ..v };
    let v2 = match gemini_index(engines) {
        Some(i) => AppView {engine_idx: i as usize, ..v1 },
        None => v1,
    };
    let v3 = reset_params(v2);
    match find_key(languages, "Simplified Chinese"@) {
        Some(i) => AppView {lang_out_idx: i as usize, ..v3 },
        None => v3,
    }
}

/// The name shown for a file: the last component of its path when there is
/// one, else the whole path.
pub open spec fn display_name(path: Seq<char>) -> Seq<char> {
    match file_name_of(path) {
        Some(n) => n,
        None => path,
    }
}

/// The log line written when one of several files is done.
pub open spec fn file_done_line(done: nat, total: nat) -> Seq<char> {
    "文件 "@ + decimal(done) + "/"@ + decimal(total) + " 翻译完成"@
}

/// The state after a file finished: its result is kept, its token usage
/// added to the totals, and either the results screen shows (all done) or
/// the next file is announced.
pub open spec fn file_finished(v: AppView, result: Json, usage: Option<Seq<(Seq<char>, TokenUsage)>>) -> AppView {
    let v1 = AppView {results: v.results.push(result), ..v };
    let v2 = match usage {
        Some(u) => {
            let nv = usage_json(u);
            AppView {
                token_usage: Some(
                    match v1.token_usage {
                        Some(e) => merge_usage(e, nv),
                        None => nv,
                    },
                ),
                ..v1
            }
        },
        None => v1,
    };
    let fin = (v.progress.finished_count + 1) as usize;
    let p2 = ProgressView {finished_count: fin, ..v2.progress };
    if fin >= v.progress.total_files {
        AppView {progress: p2, screen: Screen::Results, ..v2 }
    } else {
        let cur = if fin < v.selected_files.len() {
            display_name(v.selected_files[fin as int])
        } else {
            p2.current_file
        };
        let p3 = ProgressView {
            current_file_idx: fin,
            current_file: cur,
            stage: "等待下一个文件..."@,
            stage_progress: F64Bits::zero_spec(),
            ..p2
        };
        AppView {
            progress: p3,
            log_lines: log_push(v2.log_lines, file_done_line(fin as nat, v.progress.total_files as nat)),
            ..v2
        }
    }
}

/// The message shown for a backend error.
pub open spec fn error_message(error: Seq<char>, error_type: Seq<char>, details: Seq<char>) -> Seq<char> {
    let head = "["@ + error_type + "] "@ + error;
    if details.len() == 0 {
        head
    } else {
        head + "\n"@ + details
    }
}

/// The state after a progress report.
pub open spec fn progress_reported(v: AppView, d: ProgressDataView) -> AppView {
    AppView {
        progress: ProgressView {
            stage: d.stage,
            stage_progress: d.stage_progress,
            overall_progress: d.overall_progress,
            stage_current: d.stage_current,
            stage_total: d.stage_total,
            part_index: d.part_index,
            total_parts: d.total_parts,
            ..v.progress
        },
        ..v
    }
}

/// The state after a backend event.
pub open spec fn event_update(v: AppView, e: EventView) -> AppView {
    match e {
        EventView::Ready {version, .. } => AppView { python_version: version, screen: Screen::Configure, ..v },
        EventView::ConfigSchema {engines, languages } => schema_received(v, engines, languages),
        EventView::StageSummary {part_index, total_parts, .. } => AppView {
            progress: ProgressView {part_index, total_parts, ..v.progress },
            ..v
        },
        EventView::ProgressStart(d) => progress_reported(v, d),
        EventView::ProgressUpdate(d) => progress_reported(v, d),
        EventView::ProgressEnd(d) => AppView {
            progress: ProgressView {
                stage: d.stage,
                stage_progress: F64Bits::hundred_spec(),
                overall_progress: d.overall_progress,
                ..v.progress
            },
            ..v
        },
        EventView::Finish {translate_result, token_usage } => file_finished(v, translate_result, token_usage),
        EventView::Error {error, error_type, details } => AppView {
            popup: Some(PopupView::Error(error_message(error, error_type, details))),
            screen: if v.screen == Screen::Translating {Screen::Configure } else { v.screen },
            ..v
        },
        EventView::ValidationResult {valid, error } => if valid {
            v
        } else {
            AppView {
                popup: Some(
                    PopupView::Error(
                        match error {
                            Some(m) => m,
                            None => "Validation failed"@,
                        },
                    ),
                ),
                ..v
            }
        },
    }
}

/// When can a backend event be taken in without an overflow: the engine
/// lists are within the machine's limits, and a finished run neither
/// overflows the file counter nor the token totals.
pub open spec fn event_ok(v: AppView, e: EventView) -> bool {
    match e {
        EventView::ConfigSchema {engines, .. } => forall|i: int|
            0 <= i < engines.len() ==> (#[trigger] engines[i]).fields.len() <= max_items(),
        EventView::Finish {token_usage, .. } => {
            &&& v.progress.finished_count < usize::MAX
            &&& (token_usage is Some && v.token_usage is Some) ==> merge_usage_ok(
                v.token_usage->0,
                usage_json(token_usage->0),
            )
        },
        _ => true,
    }
}

/// When can an action be applied without an arithmetic overflow or a
/// vector outgrowing memory?
pub open spec fn action_ok(v: AppView, a: ActionView) -> bool {
    match a {
        ActionView::FocusNext => v.focused_field < usize::MAX,
        ActionView::DropdownDown => v.dropdown_open is Some ==> v.dropdown_cursor < usize::MAX,
        ActionView::AddFile(_) => v.selected_files.len() < max_items(),
        ActionView::PythonEvent(e) => event_ok(v, e),
        _ => true,
    }
}

/// The state after an action, for every action but `AddFile` (see
/// [`add_file`], which depends on the home directory).
pub open spec fn apply_action(v: AppView, a: ActionView) -> AppView {
    match a {
        ActionView::Quit => AppView {should_quit: true, ..v },
        ActionView::SwitchPanel => AppView {
            active_panel: match v.active_panel {
                ActivePanel::Left => ActivePanel::Right,
                ActivePanel::Right => ActivePanel::Left,
            },
            editing: false,
            dropdown_open: None,
            ..v
        },
        ActionView::FocusNext => if v.focused_field + 1 < 22 + param_count(v) {
            AppView {focused_field: (v.focused_field + 1) as usize, ..v }
        } else {
            v
        },
        ActionView::FocusPrev => AppView {
            focused_field: if v.focused_field > 0 {(v.focused_field - 1) as usize } else { 0 },
            ..v
        },
        ActionView::EnterField => enter_field(v),
        ActionView::ExitField => exit_field(v),
        ActionView::CharInput(c) => if v.dropdown_open is Some {
            type_search(v, c)
        } else if v.editing {
            char_input(v, c)
        } else {
            v
        },
        ActionView::Backspace => if v.editing {backspace(v) } else { v },
        ActionView::DropdownUp => if v.dropdown_cursor > 0 {
            AppView {dropdown_cursor: (v.dropdown_cursor - 1) as usize, ..v }
        } else {
            v
        },
        ActionView::DropdownDown => match v.dropdown_open {
            Some(t) => if v.dropdown_cursor + 1 < dropdown_size(v, t) {
                AppView {dropdown_cursor: (v.dropdown_cursor + 1) as usize, ..v }
            } else {
                v
            },
            None => v,
        },
        ActionView::SelectDropdownItem(idx) => select_item(v, idx),
        ActionView::CloseDropdown => AppView {dropdown_open: None, ..v },
        ActionView::OpenDropdown => if dropdown_of(v.focused_field as int) is Some {
            open_dropdown(v, dropdown_of(v.focused_field as int)->0)
        } else {
            v
        },
        ActionView::RemoveFile(idx) => if idx < v.selected_files.len() {
            AppView {selected_files: v.selected_files.remove(idx as int), ..v }
        } else {
            v
        },
        ActionView::DeleteFocusedFile => if v.focused_field == 0 && v.selected_files.len() > 0 {
            AppView {selected_files: v.selected_files.drop_last(), ..v }
        } else {
            v
        },
        ActionView::BackToConfigure => AppView {
            screen: Screen::Configure,
            results: Seq::empty(),
            token_usage: None,
            ..v
        },
        ActionView::ShowError(m) => AppView {popup: Some(PopupView::Error(m)), ..v },
        ActionView::ShowHelp => AppView {popup: Some(PopupView::Help), ..v },
        ActionView::DismissPopup => AppView {popup: None, ..v },
        ActionView::PythonEvent(e) => event_update(v, e),
        _ => v,
    }
}

impl App {
    /// The name of the `i`-th parameter of the selected engine.
    fn param_name_at(&self, i: usize) -> (r: String)
        requires
            i < param_count(self@),
        ensures
            r@ == param_name(self@, i as int),
    {
        self.engine_schemas[self.engine_idx].fields[i].name.clone()
    }

    /// The focused text field.
    fn focused_text_field(&self) -> (r: Option<TextField>)
        requires
            self.wf(),
        ensures
            r == focused_text(self@),
    {
        let n = self.engine_param_count();
        proof {
            if self.engine_idx < self.engine_schemas.len() {
                assert(self@.engine_schemas[self.engine_idx as int].fields.len() <= max_items());
            }
        }
        let f = self.focused_field;
        if f == 0 {
            Some(TextField::FileInput)
        } else if f == 3 {
            Some(TextField::Pages)
        } else if f == 5 {
            Some(TextField::Qps)
        } else if f == 10 + n {
            Some(TextField::CustomPrompt)
        } else if f == 11 + n {
            Some(TextField::MinTextLength)
        } else if f == 12 + n {
            Some(TextField::PoolMaxWorkers)
        } else if f == 13 + n {
            Some(TextField::TermQps)
        } else if f == 14 + n {
            Some(TextField::TermPoolMaxWorkers)
        } else if f == 15 + n {
            Some(TextField::OutputDir)
        } else if f == 16 + n {
            Some(TextField::GlossaryFiles)
        } else if f == 17 + n {
            Some(TextField::MaxPagesPerPart)
        } else {
            None
        }
    }

    /// The focused checkbox.
    fn focused_checkbox(&self) -> (r: Option<Checkbox>)
        requires
            self.wf(),
        ensures
            r == checkbox_at(self.focused_field as int, param_count(self@) as int),
    {
        let n = self.engine_param_count();
        proof {
            if self.engine_idx < self.engine_schemas.len() {
                assert(self@.engine_schemas[self.engine_idx as int].fields.len() <= max_items());
            }
        }
        let f = self.focused_field;
        if f == 6 + n {
            Some(Checkbox::NoDual)
        } else if f == 7 + n {
            Some(Checkbox::NoMono)
        } else if f == 8 + n {
            Some(Checkbox::DualTranslateFirst)
        } else if f == 9 + n {
            Some(Checkbox::SkipClean)
        } else if f == 18 + n {
            Some(Checkbox::SkipScannedDetection)
        } else if f == 19 + n {
            Some(Checkbox::SaveAutoExtractedGlossary)
        } else if f == 20 + n {
            Some(Checkbox::OnlyIncludeTranslatedPage)
        } else if f == 21 + n {
            Some(Checkbox::DisableAutoExtractGlossary)
        } else {
            None
        }
    }

    /// Is the focus on an engine parameter?
    fn focus_on_param_exec(&self) -> (r: bool)
        requires
            self.wf(),
        ensures
            r == focus_on_param(self@),
    {
        let n = self.engine_param_count();
        proof {
            if self.engine_idx < self.engine_schemas.len() {
                assert(self@.engine_schemas[self.engine_idx as int].fields.len() <= max_items());
            }
        }
        6 <= self.focused_field && self.focused_field < 6 + n
    }

    /// Appends `c` to a text field.
    fn push_text(&mut self, t: TextField, c: char)
        ensures
            final(self)@ == with_text(old(self)@, t, text_of(old(self)@, t).push(c)),
    {
        match t {
            TextField::FileInput => string_push(&mut self.file_input, c),
            TextField::Pages => string_push(&mut self.pages_input, c),
            TextField::Qps => string_push(&mut self.qps_input, c),
            TextField::CustomPrompt => string_push(&mut self.custom_prompt, c),
            TextField::MinTextLength => string_push(&mut self.min_text_length, c),
            TextField::PoolMaxWorkers => string_push(&mut self.pool_max_workers_input, c),
            TextField::TermQps => string_push(&mut self.term_qps_input, c),
            TextField::TermPoolMaxWorkers => string_push(&mut self.term_pool_max_workers_input, c),
            TextField::OutputDir => string_push(&mut self.output_dir, c),
            TextField::GlossaryFiles => string_push(&mut self.glossary_files, c),
            TextField::MaxPagesPerPart => string_push(&mut self.max_pages_per_part_input, c),
        }
    }

    /// Deletes the last character of a text field.
    fn pop_text_field(&mut self, t: TextField)
        ensures
            final(self)@ == with_text(old(self)@, t, pop_text(text_of(old(self)@, t))),
    {
        match t {
            TextField::FileInput => pop_char(&mut self.file_input),
            TextField::Pages => pop_char(&mut self.pages_input),
            TextField::Qps => pop_char(&mut self.qps_input),
            TextField::CustomPrompt => pop_char(&mut self.custom_prompt),
            TextField::MinTextLength => pop_char(&mut self.min_text_length),
            TextField::PoolMaxWorkers => pop_char(&mut self.pool_max_workers_input),
            TextField::TermQps => pop_char(&mut self.term_qps_input),
            TextField::TermPoolMaxWorkers => pop_char(&mut self.term_pool_max_workers_input),
            TextField::OutputDir => pop_char(&mut self.output_dir),
            TextField::GlossaryFiles => pop_char(&mut self.glossary_files),
            TextField::MaxPagesPerPart => pop_char(&mut self.max_pages_per_part_input),
        }
    }

    /// Sets a checkbox.
    #[verifier::spinoff_prover]
    fn set_flag(&mut self, b: Checkbox, x: bool)
        ensures
            final(self)@ == with_flag(old(self)@, b, x),
    {
        match b {
            Checkbox::NoDual => self.no_dual = x,
            Checkbox::NoMono => self.no_mono = x,
            Checkbox::DualTranslateFirst => self.dual_translate_first = x,
            Checkbox::SkipClean => self.skip_clean = x,
            Checkbox::SkipScannedDetection => self.skip_scanned_detection = x,
            Checkbox::SaveAutoExtractedGlossary => self.save_auto_extracted_glossary = x,
            Checkbox::OnlyIncludeTranslatedPage => self.only_include_translated_page = x,
            Checkbox::DisableAutoExtractGlossary => self.disable_auto_extract_glossary = x,
        }
    }

    /// The value of a checkbox.
    fn flag(&self, b: Checkbox) -> (r: bool)
        ensures
            r == flag_of(self@, b),
    {
        match b {
            Checkbox::NoDual => self.no_dual,
            Checkbox::NoMono => self.no_mono,
            Checkbox::DualTranslateFirst => self.dual_translate_first,
            Checkbox::SkipClean => self.skip_clean,
            Checkbox::SkipScannedDetection => self.skip_scanned_detection,
            Checkbox::SaveAutoExtractedGlossary => self.save_auto_extracted_glossary,
            Checkbox::OnlyIncludeTranslatedPage => self.only_include_translated_page,
            Checkbox::DisableAutoExtractGlossary => self.disable_auto_extract_glossary,
        }
    }

    /// Types `c` into the focused field.
    pub(crate) fn handle_char_input(&mut self, c: char)
        requires
            old(self).wf(),
        ensures
            final(self)@ == char_input(old(self)@, c),
    {
        if self.focus_on_param_exec() {
            let name = self.param_name_at(self.focused_field - 6);
            let mut val = match map_get(&self.engine_params, name.as_str()) {
                Some(v) => v,
                None => String::new(),
            };
            string_push(&mut val, c);
            map_insert(&mut self.engine_params, name, val);
        } else {
            match self.focused_text_field() {
                Some(t) => {
                    let numeric = match t {
                        TextField::FileInput | TextField::Pages | TextField::CustomPrompt
                        | TextField::OutputDir | TextField::GlossaryFiles => false,
                        _ => true,
                    };
                    if !(numeric && !('0' <= c && c <= '9')) {
                        self.push_text(t, c);
                    }
                },
                None => {},
            }
        }
    }

    /// Deletes the last character of the focused field.
    pub(crate) fn handle_backspace(&mut self)
        requires
            old(self).wf(),
        ensures
            final(self)@ == backspace(old(self)@),
    {
        if self.focus_on_param_exec() {
            let name = self.param_name_at(self.focused_field - 6);
            match map_get(&self.engine_params, name.as_str()) {
                Some(v) => {
                    let mut val = v;
                    pop_char(&mut val);
                    map_insert(&mut self.engine_params, name, val);
                },
                None => {},
            }
        } else {
            match self.focused_text_field() {
                Some(t) => self.pop_text_field(t),
                None => {},
            }
        }
    }

    /// Toggles the focused checkbox.
    fn toggle_checkbox(&mut self)
        requires
            old(self).wf(),
        ensures
            final(self)@ == toggle(old(self)@),
    {
        match self.focused_checkbox() {
            Some(b) => {
                let x = self.flag(b);
                self.set_flag(b, !x);
            },
            None => {},
        }
    }

    /// Resets the engine parameters to the selected engine's defaults.
    pub(crate) fn reset_engine_params(&mut self)
        ensures
            final(self)@ == reset_params(old(self)@),
    {
        let mut m = crate::ordered_map::map_new();
        if self.engine_idx < self.engine_schemas.len() {
            let fields = &self.engine_schemas[self.engine_idx].fields;
            let ghost fv = self@.engine_schemas[self.engine_idx as int].fields;
            let mut i: usize = 0;
            assert(fv.take(0) =~= Seq::<FieldSchemaView>::empty());
            while i < fields.len()
                invariant
                    i <= fields@.len(),
                    fv == fields@.map_values(|f: crate::protocol::FieldSchema| f@),
                    crate::ordered_map::string_map_entries(m) == default_params(fv.take(i as int)),
                decreases fields@.len() - i,
            {
                let field = &fields[i];
                let d: String = match &field.default {
                    JsonValue::String(s) => s.clone(),
                    JsonValue::Null => String::new(),
                    _ => field.printed_default.clone(),
                };
                proof {
                    assert(fv.take(i + 1).drop_last() =~= fv.take(i as int));
                    assert(fv.take(i + 1).last() == field@);
                    assert(d@ == default_text(field@.default, field@.printed_default));
                }
                if d.as_str().unicode_len() > 0 {
                    map_insert(&mut m, field.name.clone(), d);
                }
                i = i + 1;
            }
            assert(fv.take(fields@.len() as int) =~= fv);
        }
        self.engine_params = m;
    }

    /// Adds a line to the log, dropping the oldest once 200 are kept.
    pub fn push_log(&mut self, line: String)
        ensures
            final(self)@ == (AppView {log_lines: log_push(old(self)@.log_lines, line@), ..old(self)@ }),
    {
        let ghost before = self.log_lines@;
        if self.log_lines.len() >= 200 {
            self.log_lines.pop_front();
        }
        self.log_lines.push_back(line);
        proof {
            let a = if before.len() >= 200 {before.drop_first() } else { before };
            assert(self.log_lines@ =~= a.push(line));
            assert(crate::protocol::strings_view(self.log_lines@) =~= log_push(crate::protocol::strings_view(before), line@));
        }
    }
}

/// Is `p` one of `files`?
fn contains_path(files: &Vec<String>, p: &str) -> (r: bool)
    ensures
        r == crate::protocol::strings_view(files@).contains(p@),
{
    let ghost fv = crate::protocol::strings_view(files@);
    let mut i: usize = 0;
    while i < files.len()
        invariant
            i <= files@.len(),
            fv == crate::protocol::strings_view(files@),
            fv.len() == files@.len(),
            forall|k: int| 0 <= k < i ==> fv[k] != p@,
        decreases files@.len() - i,
    {
        assert(fv[i as int] == files@[i as int]@);
        if str_eq(files[i].as_str(), p) {
            assert(fv.contains(p@));
            return true;
        }
        i = i + 1;
    }
    false
}

/// The name shown for a file.
pub fn display_name_of(path: &str) -> (r: String)
    ensures
        r@ == display_name(path@),
{
    match path_file_name(path) {
        Some(n) => n,
        None => string_of(path),
    }
}

/// The path a typed or pasted file name stands for, given the home
/// directory.
pub fn resolve_path(path: &str, home: Option<String>) -> (r: String)
    ensures
        r@ == resolved_path(path@, match home {
            Some(h) => Some(h@),
            None => None,
        }),
{
    let t = trim(path);
    let n = t.as_str().unicode_len();
    if n >= 2 && t.as_str().get_char(0) == '~' && t.as_str().get_char(1) == '/' {
        match home {
            Some(h) => {
                let rest = t.as_str().substring_char(2, n);
                assert(rest@ =~= t@.skip(2));
                path_join(h.as_str(), rest)
            },
            None => t,
        }
    } else {
        t
    }
}

impl App {
    /// Adds a file to the selection, `~/` standing for `home`.
    pub fn add_file_with_home(&mut self, path: &str, home: Option<String>)
        requires
            old(self).selected_files@.len() < max_items(),
        ensures
            final(self)@ == add_file(old(self)@, path@, match home {
                Some(h) => Some(h@),
                None => None,
            }),
    {
        let p = resolve_path(path, home);
        if p.as_str().unicode_len() > 0 && !contains_path(&self.selected_files, p.as_str()) {
            let ghost before = self.selected_files@;
            self.selected_files.push(p);
            proof {
                assert(crate::protocol::strings_view(self.selected_files@) =~= crate::protocol::strings_view(before).push(p@));
            }
        }
    }

    /// Opens dropdown `t` at its current choice.
    #[verifier::spinoff_prover]
    pub(crate) fn open_dropdown_at(&mut self, t: DropdownTarget)
        ensures
            final(self)@ == open_dropdown(old(self)@, t),
    {
        self.dropdown_cursor = match t {
            DropdownTarget::LangIn => self.lang_in_idx,
            DropdownTarget::LangOut => self.lang_out_idx,
            DropdownTarget::Engine => self.engine_idx,
        };
        self.dropdown_open = Some(t);
    }

    /// `Action::EnterField`: toggles a checkbox, opens a dropdown, or starts
    /// editing a text field.
    pub(crate) fn enter_field(&mut self)
        requires
            old(self).wf(),
        ensures
            final(self)@ == enter_field(old(self)@),
    {
        if self.is_checkbox_field() {
            self.toggle_checkbox();
        } else if self.is_dropdown_field() {
            let t = self.dropdown_target();
            match t {
                Some(t) => self.open_dropdown_at(t),
                None => {},
            }
        } else {
            self.editing = true;
            if self.focused_field == 5 {
                self.qps_input = u64_to_string(self.qps as u64);
            }
        }
    }

    /// `Action::ExitField`: stops editing; the QPS field takes its typed
    /// value (at least 1) when it parses.
    #[verifier::spinoff_prover]
    pub(crate) fn exit_field(&mut self)
        ensures
            final(self)@ == exit_field(old(self)@),
    {
        self.editing = false;
        if self.focused_field == 5 {
            match parse_u32(self.qps_input.as_str()) {
                Some(v) => {
                    self.qps = if v < 1 {1 } else { v };
                },
                None => {},
            }
            self.qps_input = u64_to_string(self.qps as u64);
        }
    }

    /// `Action::SelectDropdownItem`.
    #[verifier::spinoff_prover]
    #[verifier::rlimit(40)]
    pub(crate) fn select_dropdown_item(&mut self, idx: usize)
        ensures
            final(self)@ == select_item(old(self)@, idx),
    {
        match self.dropdown_open {
            Some(t) => {
                self.dropdown_open = None;
                match t {
                    DropdownTarget::LangIn => {
                        if idx < map_len(&self.language_map) {
                            self.lang_in_idx = idx;
                        }
                    },
                    DropdownTarget::LangOut => {
                        if idx < map_len(&self.language_map) {
                            self.lang_out_idx = idx;
                        }
                    },
                    DropdownTarget::Engine => {
                        if idx < self.engine_schemas.len() && idx != self.engine_idx {
                            self.engine_idx = idx;
                            self.reset_engine_params();
                        }
                    },
                }
            },
            None => {},
        }
    }

    /// The name of item `idx` of a dropdown.
    pub(crate) fn dropdown_item(&self, t: DropdownTarget, idx: usize) -> (r: String)
        requires
            idx < dropdown_size(self@, t),
        ensures
            r@ == dropdown_names(self@, t)[idx as int],
    {
        match t {
            DropdownTarget::LangIn | DropdownTarget::LangOut => {
                match map_get_index(&self.language_map, idx) {
                    Some(e) => e.0,
                    None => String::new(),
                }
            },
            DropdownTarget::Engine => self.engine_schemas[idx].name.clone(),
        }
    }

    /// Jumps to the first dropdown item starting with the typed letter.
    pub(crate) fn dropdown_type_search(&mut self, c: char)
        ensures
            final(self)@ == type_search(old(self)@, c),
    {
        let c_lower = char_lowercase(c);
        match self.dropdown_open {
            Some(target) => {
                let len = self.dropdown_len(target);
                let ghost names = dropdown_names(self@, target);
                let ghost v0 = self@;
                let mut k: usize = 0;
                while k < len
                    invariant
                        self@ == v0,
                        v0 == old(self)@,
                        self.dropdown_open == Some(target),
                        names == dropdown_names(v0, target),
                        names.len() == len,
                        len == dropdown_size(v0, target),
                        k <= len,
                        c_lower == crate::platform::lowercase_first(c),
                        first_match(names, c_lower, 0) == first_match(names, c_lower, k as int),
                    decreases len - k,
                {
                    let name = self.dropdown_item(target, k);
                    if name.as_str().unicode_len() > 0 {
                        let first = name.as_str().get_char(0);
                        if char_lowercase(first) == c_lower {
                            proof {
                                assert(names[k as int] == name@);
                            }
                            self.dropdown_cursor = k;
                            proof {
                                assert(self@ == (AppView {dropdown_cursor: k, ..v0 }));
                            }
                            return;
                        }
                    }
                    proof {
                        assert(names[k as int] == name@);
                    }
                    k = k + 1;
                }
            },
            None => {},
        }
    }
}

} // verus!

//! Properties that hold across the front end's operations.

use vstd::prelude::*;
use crate::action::ActionView;
use crate::app::{dropdown_size, field_row, is_checkbox, key_action, param_count,
    visible_scroll, AppView, KeyCode, KeyEvent, Screen};
use crate::text::{decimal, is_digit};
use crate::translation::{file_problem, first_file_problem, is_pdf_path, start_problem};
use crate::update::{
    add_file, apply_action, backspace, char_input, checkbox_at, digits_only, dropdown_names, enter_field,
    exit_field, file_finished, first_match, item_matches, focus_on_param, focused_text, log_push, text_of, type_search,
    with_flag, flag_of, toggle};

use crate::json::{entries_get, entries_set, find_key, lemma_entries_get_set, lemma_find_key, lemma_find_key_same_keys};

verus! {

/// While a popup is shown, a key either dismisses it (Esc or Enter) or does
/// nothing.
pub proof fn law_popup_takes_every_key(v: AppView, key: KeyEvent)
    requires
        v.popup is Some,
    ensures
        key_action(v, key) == (if key.code == KeyCode::Esc || key.code == KeyCode::Enter {
            ActionView::DismissPopup
        } else {
            ActionView::Nothing
        }),
{
}

/// Without a popup, Ctrl+Q and Ctrl+C quit on every screen.
pub proof fn law_control_q_quits(v: AppView, c: char)
    requires
        v.popup is None,
        c == 'q' || c == 'c',
    ensures
        key_action(v, KeyEvent {code: KeyCode::Char(c), control: true }) == ActionView::Quit,
{
}

/// Switching panels twice gives back the active panel, with editing ended
/// and no dropdown open.
pub proof fn law_switch_panel_twice(v: AppView)
    ensures
        ({
            let w = apply_action(apply_action(v, ActionView::SwitchPanel), ActionView::SwitchPanel);
            &&& w.active_panel == v.active_panel
            &&& !w.editing
            &&& w.dropdown_open is None
        }),
{
}

/// Moving the focus up or down keeps it on one of the form's fields.
pub proof fn law_focus_stays_on_form(v: AppView)
    requires
        v.focused_field < 22 + param_count(v),
    ensures
        apply_action(v, ActionView::FocusNext).focused_field < 22 + param_count(v),
        apply_action(v, ActionView::FocusPrev).focused_field < 22 + param_count(v),
        param_count(apply_action(v, ActionView::FocusNext)) == param_count(v),
        param_count(apply_action(v, ActionView::FocusPrev)) == param_count(v),
{
}

/// Moving the dropdown cursor keeps it on one of the list's items.
pub proof fn law_dropdown_cursor_stays_on_list(v: AppView)
    requires
        v.dropdown_open is Some,
        v.dropdown_cursor < dropdown_size(v, v.dropdown_open->0),
    ensures
        apply_action(v, ActionView::DropdownDown).dropdown_cursor < dropdown_size(v, v.dropdown_open->0),
        apply_action(v, ActionView::DropdownUp).dropdown_cursor < dropdown_size(v, v.dropdown_open->0),
{
}

/// Setting a checkbox and setting it back gives back the state.
#[verifier::spinoff_prover]
#[verifier::rlimit(80)]
proof fn lemma_with_flag(v: AppView, b: crate::update::Checkbox, x: bool)
    ensures
        flag_of(with_flag(v, b, x), b) == x,
        with_flag(with_flag(v, b, x), b, flag_of(v, b)) == v,
        with_flag(v, b, x).engine_schemas == v.engine_schemas,
        with_flag(v, b, x).engine_idx == v.engine_idx,
        with_flag(v, b, x).focused_field == v.focused_field,
{
    match b {
        crate::update::Checkbox::NoDual => {},
        crate::update::Checkbox::NoMono => {},
        crate::update::Checkbox::DualTranslateFirst => {},
        crate::update::Checkbox::SkipClean => {},
        crate::update::Checkbox::SkipScannedDetection => {},
        crate::update::Checkbox::SaveAutoExtractedGlossary => {},
        crate::update::Checkbox::OnlyIncludeTranslatedPage => {},
        crate::update::Checkbox::DisableAutoExtractGlossary => {},
    }
}

/// Pressing Enter twice on a checkbox gives back the state it started from.
pub proof fn law_checkbox_toggles_back(v: AppView)
    requires
        is_checkbox(v.focused_field as int, param_count(v) as int),
    ensures
        enter_field(enter_field(v)) == v,
{
    let n = param_count(v) as int;
    let f = v.focused_field as int;
    assert(checkbox_at(f, n) is Some);
    let b = checkbox_at(f, n)->0;
    let w = with_flag(v, b, !flag_of(v, b));
    lemma_with_flag(v, b, !flag_of(v, b));
    assert(toggle(v) == w);
    assert(enter_field(v) == w);
    assert(param_count(w) == param_count(v));
    assert(checkbox_at(w.focused_field as int, param_count(w) as int) == Some(b));
    assert(toggle(w) == with_flag(w, b, !flag_of(w, b)));
    assert(enter_field(w) == toggle(w));
}

/// Setting a text field and setting it back gives back the state.
proof fn lemma_with_text(v: AppView, t: crate::update::TextField, s: Seq<char>)
    ensures
        text_of(crate::update::with_text(v, t, s), t) == s,
        crate::update::with_text(crate::update::with_text(v, t, s), t, text_of(v, t)) == v,
        crate::update::with_text(v, t, s).engine_schemas == v.engine_schemas,
        crate::update::with_text(v, t, s).engine_idx == v.engine_idx,
        crate::update::with_text(v, t, s).focused_field == v.focused_field,
        crate::update::with_text(v, t, s).editing == v.editing,
        crate::update::with_text(v, t, s).dropdown_open == v.dropdown_open,
{
    match t {
        crate::update::TextField::FileInput => {},
        crate::update::TextField::Pages => {},
        crate::update::TextField::Qps => {},
        crate::update::TextField::CustomPrompt => {},
        crate::update::TextField::MinTextLength => {},
        crate::update::TextField::PoolMaxWorkers => {},
        crate::update::TextField::TermQps => {},
        crate::update::TextField::TermPoolMaxWorkers => {},
        crate::update::TextField::OutputDir => {},
        crate::update::TextField::GlossaryFiles => {},
        crate::update::TextField::MaxPagesPerPart => {},
    }
}

/// Typing a character into a text field and deleting it again gives back
/// the state (for a character the field takes).
pub proof fn law_type_then_delete(v: AppView, c: char)
    requires
        v.editing,
        v.dropdown_open is None,
        !focus_on_param(v),
        focused_text(v) is Some,
        !digits_only(focused_text(v)->0) || is_digit(c),
    ensures
        apply_action(apply_action(v, ActionView::CharInput(c)), ActionView::Backspace) == v,
{
    let t = focused_text(v)->0;
    let w = crate::update::with_text(v, t, text_of(v, t).push(c));
    lemma_with_text(v, t, text_of(v, t).push(c));
    assert(char_input(v, c) == w);
    assert(apply_action(v, ActionView::CharInput(c)) == w);
    assert(param_count(w) == param_count(v));
    assert(!focus_on_param(w));
    assert(focused_text(w) == Some(t));
    assert(crate::update::pop_text(text_of(w, t)) =~= text_of(v, t));
    assert(backspace(w) == crate::update::with_text(w, t, text_of(v, t)));
    assert(apply_action(w, ActionView::Backspace) == backspace(w));
}

/// Typing a character into an engine parameter that has a value and deleting
/// it again gives back the state.
pub proof fn law_type_then_delete_param(v: AppView, c: char)
    requires
        v.editing,
        v.dropdown_open is None,
        focus_on_param(v),
        entries_get(v.engine_params, crate::update::param_name(v, v.focused_field - 6)) is Some,
    ensures
        apply_action(apply_action(v, ActionView::CharInput(c)), ActionView::Backspace) == v,
{
    let name = crate::update::param_name(v, v.focused_field - 6);
    let p = v.engine_params;
    let val = entries_get(p, name)->0;
    let p1 = entries_set(p, name, val.push(c));
    let w = AppView { engine_params: p1, ..v };
    assert(apply_action(v, ActionView::CharInput(c)) == w);
    assert(param_count(w) == param_count(v));
    assert(crate::update::param_name(w, w.focused_field - 6) == name);
    lemma_entries_get_set(p, name, val.push(c), name);
    assert(crate::update::pop_text(val.push(c)) =~= val);
    lemma_find_key(p, name);
    let i = find_key(p, name)->0;
    assert forall|j: int| 0 <= j < p1.len() implies (#[trigger] p1[j]).0 == p[j].0 by {}
    lemma_find_key_same_keys(p1, p, name);
    assert(p1.update(i, (name, val)) =~= p);
    assert(apply_action(w, ActionView::Backspace) == AppView { engine_params: entries_set(p1, name, val), ..w });
}

/// Adding a file keeps the selection free of repeats and of empty paths,
/// and keeps the files already selected in their order: the resolved path
/// is appended when it is not empty and not yet selected, and nothing
/// changes otherwise.
pub proof fn law_selection_has_no_repeats(v: AppView, path: Seq<char>, home: Option<Seq<char>>)
    requires
        forall|i: int, j: int|
            0 <= i < j < v.selected_files.len() ==> v.selected_files[i] != v.selected_files[j],
        forall|i: int| 0 <= i < v.selected_files.len() ==> (#[trigger] v.selected_files[i]).len() > 0,
    ensures
        ({
            let w = add_file(v, path, home);
            let p = crate::update::resolved_path(path, home);
            &&& forall|i: int, j: int|
                0 <= i < j < w.selected_files.len() ==> w.selected_files[i] != w.selected_files[j]
            &&& forall|i: int| 0 <= i < w.selected_files.len() ==> (#[trigger] w.selected_files[i]).len() > 0
            &&& w.selected_files == if p.len() > 0 && !v.selected_files.contains(p) {
                v.selected_files.push(p)
            } else {
                v.selected_files
            }
            &&& w == (AppView { selected_files: w.selected_files, ..v })
        }),
{
    let w = add_file(v, path, home);
    let p = crate::update::resolved_path(path, home);
    if p.len() > 0 && !v.selected_files.contains(p) {
        assert forall|i: int, j: int| 0 <= i < j < w.selected_files.len() implies w.selected_files[i]
            != w.selected_files[j] by {
            if j == v.selected_files.len() {
                assert(w.selected_files[j] == p);
                assert(w.selected_files[i] == v.selected_files[i]);
            }
        }
        assert forall|i: int| 0 <= i < w.selected_files.len() implies (#[trigger] w.selected_files[i]).len() > 0 by {
            if i < v.selected_files.len() {
                assert(w.selected_files[i] == v.selected_files[i]);
            }
        }
    }
}

/// Adding the same file twice is the same as adding it once.
pub proof fn law_add_file_twice(v: AppView, path: Seq<char>, home: Option<Seq<char>>)
    ensures
        add_file(add_file(v, path, home), path, home) == add_file(v, path, home),
{
    let p = crate::update::resolved_path(path, home);
    let w = add_file(v, path, home);
    if p.len() > 0 && !v.selected_files.contains(p) {
        assert(w.selected_files[v.selected_files.len() as int] == p);
        assert(w.selected_files.contains(p));
    }
}

/// The log never holds more than 200 lines, and its last line is the one
/// added last.
pub proof fn law_log_is_bounded(lines: Seq<Seq<char>>, line: Seq<char>)
    requires
        lines.len() <= 200,
    ensures
        log_push(lines, line).len() <= 200,
        log_push(lines, line).last() == line,
{
}

/// After `ensure_visible(rows)` the focused field's row is on screen.
pub proof fn law_focus_is_visible(v: AppView, rows: int)
    requires
        rows > 0,
    ensures
        ({
            let s = visible_scroll(v, rows);
            let r = field_row(v, v.focused_field as int);
            s <= r < s + rows
        }),
{
}

/// Keeping the focus visible twice is keeping it visible once: after the
/// first adjustment the second changes nothing.
pub proof fn law_ensure_visible_twice(v: AppView, rows: int)
    requires
        rows > 0,
        0 <= visible_scroll(v, rows) <= usize::MAX,
    ensures
        ({
            let w = AppView { scroll_offset: visible_scroll(v, rows) as usize, ..v };
            visible_scroll(w, rows) == w.scroll_offset
        }),
{
}

/// Pressing Enter on a switch of the form flips exactly that switch and
/// changes nothing else; flipping it again gives the state back.
#[verifier::spinoff_prover]
#[verifier::rlimit(40)]
pub proof fn law_toggle_flips_one_switch(v: AppView)
    ensures
        ({
            let n = param_count(v) as int;
            let f = v.focused_field as int;
            let w = toggle(v);
            &&& f == 6 + n ==> w == AppView { no_dual: !v.no_dual, ..v }
            &&& f == 7 + n ==> w == AppView { no_mono: !v.no_mono, ..v }
            &&& f == 8 + n ==> w == AppView { dual_translate_first: !v.dual_translate_first, ..v }
            &&& f == 9 + n ==> w == AppView { skip_clean: !v.skip_clean, ..v }
            &&& f == 18 + n ==> w == AppView { skip_scanned_detection: !v.skip_scanned_detection, ..v }
            &&& f == 19 + n ==> w == AppView { save_auto_extracted_glossary: !v.save_auto_extracted_glossary, ..v }
            &&& f == 20 + n ==> w == AppView { only_include_translated_page: !v.only_include_translated_page, ..v }
            &&& f == 21 + n ==> w == AppView { disable_auto_extract_glossary: !v.disable_auto_extract_glossary, ..v }
            &&& checkbox_at(f, n) is None ==> w == v
            &&& toggle(w) == v
        }),
{
    let w = toggle(v);
    assert(param_count(w) == param_count(v));
    match checkbox_at(v.focused_field as int, param_count(v) as int) {
        Some(b) => {
            assert(w == with_flag(v, b, !flag_of(v, b)));
            assert(flag_of(w, b) == !flag_of(v, b));
            assert(with_flag(w, b, !flag_of(w, b)) == v);
        },
        None => {},
    }
}

/// Typing a letter in an open dropdown jumps to the first item whose first
/// letter matches it (both lower-cased); when no item matches, nothing
/// changes.
pub proof fn law_type_search_matches(v: AppView, c: char)
    requires
        v.dropdown_open is Some,
        dropdown_size(v, v.dropdown_open->0) <= usize::MAX,
    ensures
        ({
            let names = dropdown_names(v, v.dropdown_open->0);
            let c0 = crate::platform::lowercase_first(c);
            let u = type_search(v, c);
            if exists|i: int| 0 <= i < names.len() && #[trigger] item_matches(names[i], c0) {
                &&& 0 <= u.dropdown_cursor < names.len()
                &&& item_matches(names[u.dropdown_cursor as int], c0)
                &&& forall|j: int| 0 <= j < u.dropdown_cursor ==> !#[trigger] item_matches(names[j], c0)
                &&& u == (AppView { dropdown_cursor: u.dropdown_cursor, ..v })
            } else {
                u == v
            }
        }),
{
    let t = v.dropdown_open->0;
    let names = dropdown_names(v, t);
    let c0 = crate::platform::lowercase_first(c);
    assert(names.len() == dropdown_size(v, t));
    lemma_first_match_found(names, c0, 0);
    if exists|i: int| 0 <= i < names.len() && #[trigger] item_matches(names[i], c0) {
        let i = choose|i: int| 0 <= i < names.len() && #[trigger] item_matches(names[i], c0);
        assert(first_match(names, c0, 0) is Some);
        let k = first_match(names, c0, 0)->0;
        assert(k as usize == k);
    }
}

/// What `first_match` finds from `from` on is the first matching item from
/// there; it finds nothing exactly when no item from there matches.
pub proof fn lemma_first_match_found(items: Seq<Seq<char>>, c: char, from: int)
    requires
        0 <= from,
    ensures
        match first_match(items, c, from) {
            Some(i) => from <= i < items.len() && item_matches(items[i], c) && forall|j: int|
                from <= j < i ==> !#[trigger] item_matches(items[j], c),
            None => forall|j: int| from <= j < items.len() ==> !#[trigger] item_matches(items[j], c),
        },
    decreases items.len() - from,
{
    if from < items.len() && !item_matches(items[from], c) {
        lemma_first_match_found(items, c, from + 1);
    }
}

/// Once the last file of a run is finished the results screen shows;
/// before that the screen stays as it was.
pub proof fn law_last_file_shows_results(
    v: AppView,
    result: crate::json::Json,
    usage: Option<Seq<(Seq<char>, crate::protocol::TokenUsage)>>,
)
    requires
        v.progress.finished_count < usize::MAX,
    ensures
        ({
            let w = file_finished(v, result, usage);
            &&& w.progress.finished_count == v.progress.finished_count + 1
            &&& w.results == v.results.push(result)
            &&& (v.progress.finished_count + 1 >= v.progress.total_files ==> w.screen == Screen::Results)
            &&& (v.progress.finished_count + 1 < v.progress.total_files ==> w.screen == v.screen)
        }),
{
}

/// A run only starts with a non-empty selection of existing PDF files.
pub proof fn law_run_needs_existing_pdfs(files: Seq<Seq<char>>, present: Seq<bool>)
    requires
        present.len() == files.len(),
        start_problem(files, present) is None,
    ensures
        files.len() > 0,
        forall|i: int| 0 <= i < files.len() ==> #[trigger] present[i],
        forall|i: int| 0 <= i < files.len() ==> is_pdf_path(#[trigger] files[i]),
{
    lemma_no_problem(files, present);
}

/// No problem in a list means none in any of its files.
proof fn lemma_no_problem(files: Seq<Seq<char>>, present: Seq<bool>)
    requires
        present.len() == files.len(),
        first_file_problem(files, present) is None,
    ensures
        forall|i: int| 0 <= i < files.len() ==> #[trigger] present[i],
        forall|i: int| 0 <= i < files.len() ==> is_pdf_path(#[trigger] files[i]),
    decreases files.len(),
{
    if files.len() > 0 {
        assert(file_problem(files[0], present[0]) is None);
        let f1 = files.drop_first();
        let p1 = present.drop_first();
        lemma_no_problem(f1, p1);
        assert forall|i: int| 0 <= i < files.len() implies #[trigger] present[i] by {
            if i > 0 {
                assert(p1[i - 1] == present[i]);
            }
        }
        assert forall|i: int| 0 <= i < files.len() implies is_pdf_path(#[trigger] files[i]) by {
            if i > 0 {
                assert(f1[i - 1] == files[i]);
            }
        }
    }
}

/// Leaving the QPS field leaves its text showing the QPS in effect.
pub proof fn law_qps_text_matches_value(v: AppView)
    requires
        v.focused_field == 5,
    ensures
        exit_field(v).qps_input == decimal(exit_field(v).qps as nat),
        !exit_field(v).editing,
{
}


/// The settings sent with a run carry language codes: `translation.lang_in`
/// and `translation.lang_out` are the codes (not the names) of the chosen
/// entries of the language table.
pub proof fn law_settings_send_language_codes(v: AppView)
    requires
        v.lang_in_idx < v.language_map.len(),
        v.lang_out_idx < v.language_map.len(),
    ensures
        ({
            let tr = crate::json::json_get(crate::settings::settings_json(v), "translation"@);
            &&& tr is Some
            &&& crate::json::json_get(tr->0, "lang_in"@) == Some(
                crate::json::Json::Str(v.language_map[v.lang_in_idx as int].1),
            )
            &&& crate::json::json_get(tr->0, "lang_out"@) == Some(
                crate::json::Json::Str(v.language_map[v.lang_out_idx as int].1),
            )
        }),
{
    reveal_strlit("basic");
    reveal_strlit("translation");
    reveal_strlit("lang_in");
    reveal_strlit("lang_out");
    assert("basic"@.len() == 5 && "translation"@.len() == 11);
    assert("lang_in"@.len() == 7 && "lang_out"@.len() == 8);
    let top = match crate::settings::settings_json(v) {
        crate::json::Json::Object(e) => e,
        _ => Seq::empty(),
    };
    lemma_find_key(top, "translation"@);
    assert(top[1].0 == "translation"@);
    let te = crate::settings::translation_entries(v);
    lemma_find_key(te, "lang_in"@);
    lemma_find_key(te, "lang_out"@);
    assert(te[0].0 == "lang_in"@);
    assert(te[1].0 == "lang_out"@);
}

/// A progress event shows what it reports: after `ProgressStart` or
/// `ProgressUpdate`, the stage, both percentages and the counters are the
/// event's own.
pub proof fn law_progress_shows_the_event(v: AppView, d: crate::protocol::ProgressDataView)
    ensures
        ({
            let a = crate::update::event_update(v, crate::protocol::EventView::ProgressStart(d)).progress;
            let b = crate::update::event_update(v, crate::protocol::EventView::ProgressUpdate(d)).progress;
            &&& a.overall_progress == d.overall_progress && b.overall_progress == d.overall_progress
            &&& a.stage_progress == d.stage_progress && b.stage_progress == d.stage_progress
            &&& a.stage == d.stage && b.stage == d.stage
            &&& a.stage_current == d.stage_current && b.stage_current == d.stage_current
            &&& a.stage_total == d.stage_total && b.stage_total == d.stage_total
        }),
{
}

/// While a field is being edited on the configure screen (no popup, no
/// open dropdown), Enter and Esc both end the edit.
pub proof fn law_enter_ends_editing(v: AppView)
    requires
        v.screen == Screen::Configure,
        v.popup is None,
        v.dropdown_open is None,
        v.editing,
    ensures
        key_action(v, KeyEvent { code: KeyCode::Enter, control: false }) == ActionView::ExitField,
        key_action(v, KeyEvent { code: KeyCode::Esc, control: false }) == ActionView::ExitField,
{
}

/// The status panel says which outputs are made: its outputs line reads
/// 是 after 双语 exactly when the bilingual file is made (`no_dual` off),
/// and 是 after 单语 exactly when the single-language file is made.
pub proof fn law_status_shows_outputs(v: AppView)
    ensures
        exists|i: int|
            0 <= i < crate::panels::status_lines(v).len() && (#[trigger] crate::panels::status_lines(v)[i]).0
                == "双语: "@ + (if v.no_dual { "否"@ } else { "是"@ }) + "  单语: "@ + (if v.no_mono {
                "否"@
            } else {
                "是"@
            }),
{
    let count = v.selected_files.len() as int;
    let p: int = if v.pages_input.len() > 0 { 1 } else { 0 };
    let i = 3 + count + 4 + p + 1;
    let lines = crate::panels::status_lines(v);
    assert(lines[i].0 == "双语: "@ + crate::panels::yes_no(v.no_dual) + "  单语: "@ + crate::panels::yes_no(v.no_mono));
}


/// The settings sent with a run say which outputs to make: `pdf.no_dual`,
/// `pdf.no_mono` and `pdf.dual_translate_first` are the state's switches.
pub proof fn law_settings_send_output_switches(v: AppView)
    ensures
        ({
            let pdf = crate::json::json_get(crate::settings::settings_json(v), "pdf"@);
            &&& pdf is Some
            &&& crate::json::json_get(pdf->0, "no_dual"@) == Some(crate::json::Json::Bool(v.no_dual))
            &&& crate::json::json_get(pdf->0, "no_mono"@) == Some(crate::json::Json::Bool(v.no_mono))
            &&& crate::json::json_get(pdf->0, "dual_translate_first"@) == Some(
                crate::json::Json::Bool(v.dual_translate_first),
            )
        }),
{
    reveal_strlit("basic");
    reveal_strlit("translation");
    reveal_strlit("pdf");
    reveal_strlit("no_dual");
    reveal_strlit("no_mono");
    reveal_strlit("dual_translate_first");
    assert("basic"@.len() == 5 && "translation"@.len() == 11 && "pdf"@.len() == 3);
    assert("no_dual"@[3] != "no_mono"@[3]);
    assert("dual_translate_first"@.len() == 20);
    let top = match crate::settings::settings_json(v) {
        crate::json::Json::Object(e) => e,
        _ => Seq::empty(),
    };
    lemma_find_key(top, "pdf"@);
    assert(top[2].0 == "pdf"@);
    let pe = crate::settings::pdf_entries(v);
    lemma_find_key(pe, "no_dual"@);
    lemma_find_key(pe, "no_mono"@);
    lemma_find_key(pe, "dual_translate_first"@);
    assert(pe[0].0 == "no_dual"@ && pe[1].0 == "no_mono"@ && pe[2].0 == "dual_translate_first"@);
}

} // verus!

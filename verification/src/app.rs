//! The state of the terminal front end, the key map and the field layout.

use vstd::prelude::*;
use crate::action::{Action, ActionView};
use crate::json::{Json, JsonValue};
use crate::ordered_map::{map_len, map_new, string_map_entries};
use crate::protocol::{engines_view, strings_view, EngineSchema, EngineSchemaView, F64Bits};
use crate::text::string_of;

verus! {

/// Current application screen.
#[derive(Debug, Clone, Copy, PartialEq, Eq, Structural)]
pub enum Screen {
    Loading,
    Configure,
    Translating,
    Results,
}

/// Which panel is active.
#[derive(Debug, Clone, Copy, PartialEq, Eq, Structural)]
pub enum ActivePanel {
    Left,
    Right,
}

/// Identifies which dropdown is currently open.
#[derive(Debug, Clone, Copy, PartialEq, Eq, Structural)]
pub enum DropdownTarget {
    LangIn,
    LangOut,
    Engine,
}

/// Popup types.
pub enum Popup {
    Error(String),
    Help,
}

/// The mathematical form of a [`Popup`].
pub enum PopupView {
    Error(Seq<char>),
    Help,
}

impl View for Popup {
    type V = PopupView;

    open spec fn view(&self) -> PopupView {
        match self {
            Popup::Error(m) => PopupView::Error(m@),
            Popup::Help => PopupView::Help,
        }
    }
}

/// A key of the keyboard.
#[derive(Debug, Clone, Copy, PartialEq, Eq, Structural)]
pub enum KeyCode {
    Backspace,
    Enter,
    Left,
    Right,
    Up,
    Down,
    Delete,
    Esc,
    F(u8),
    Char(char),
    Other,
}

/// A key press: the key, and whether Control was held.
#[derive(Debug, Clone, Copy, PartialEq, Eq, Structural)]
pub struct KeyEvent {
    pub code: KeyCode,
    pub control: bool,
}

/// Translation progress tracking.
pub struct ProgressState {
    pub stage: String,
    pub stage_progress: F64Bits,
    pub overall_progress: F64Bits,
    pub stage_current: u32,
    pub stage_total: u32,
    pub part_index: u32,
    pub total_parts: u32,
    pub current_file_idx: usize,
    pub total_files: usize,
    pub current_file: String,
    pub start_time: Option<std::time::Instant>,
    pub finished_count: usize,
}

/// The mathematical form of a [`ProgressState`].
pub struct ProgressView {
    pub stage: Seq<char>,
    pub stage_progress: F64Bits,
    pub overall_progress: F64Bits,
    pub stage_current: u32,
    pub stage_total: u32,
    pub part_index: u32,
    pub total_parts: u32,
    pub current_file_idx: usize,
    pub total_files: usize,
    pub current_file: Seq<char>,
    pub start_time: Option<std::time::Instant>,
    pub finished_count: usize,
}

impl View for ProgressState {
    type V = ProgressView;

    open spec fn view(&self) -> ProgressView {
        ProgressView {
            stage: self.stage@,
            stage_progress: self.stage_progress,
            overall_progress: self.overall_progress,
            stage_current: self.stage_current,
            stage_total: self.stage_total,
            part_index: self.part_index,
            total_parts: self.total_parts,
            current_file_idx: self.current_file_idx,
            total_files: self.total_files,
            current_file: self.current_file@,
            start_time: self.start_time,
            finished_count: self.finished_count,
        }
    }
}

/// The progress of a run that has not started.
pub open spec fn initial_progress() -> ProgressView {
    ProgressView {
        stage: Seq::empty(),
        stage_progress: F64Bits::zero_spec(),
        overall_progress: F64Bits::zero_spec(),
        stage_current: 0,
        stage_total: 0,
        part_index: 0,
        total_parts: 0,
        current_file_idx: 0,
        total_files: 0,
        current_file: Seq::empty(),
        start_time: None,
        finished_count: 0,
    }
}

impl ProgressState {
    /// `ProgressState::default`.
    pub fn new() -> (r: ProgressState)
        ensures
            r@ == initial_progress(),
    {
        ProgressState {
            stage: String::new(),
            stage_progress: F64Bits::zero(),
            overall_progress: F64Bits::zero(),
            stage_current: 0,
            stage_total: 0,
            part_index: 0,
            total_parts: 0,
            current_file_idx: 0,
            total_files: 0,
            current_file: String::new(),
            start_time: None,
            finished_count: 0,
        }
    }
}

impl Default for ProgressState {
    fn default() -> (r: ProgressState)
        ensures
            r@ == initial_progress(),
    {
        ProgressState::new()
    }
}

/// Main application state.
///
/// Fields (one scrolling page; N is the current engine's parameter count):
/// 0 file input, 1 source language, 2 target language, 3 pages, 4 engine,
/// 5 QPS, 6..6+N engine parameters, 6+N no-dual, 7+N no-mono,
/// 8+N dual-translate-first, 9+N skip-clean, 10+N custom prompt,
/// 11+N min text length, 12+N..17+N advanced text fields, 18+N..21+N
/// advanced checkboxes.
pub struct App {
    pub screen: Screen,
    pub active_panel: ActivePanel,
    pub should_quit: bool,
    pub popup: Option<Popup>,
    pub python_version: String,
    pub engine_schemas: Vec<EngineSchema>,
    pub language_map: indexmap::IndexMap<String, String>,
    pub selected_files: Vec<String>,
    pub file_input: String,
    pub lang_in_idx: usize,
    pub lang_out_idx: usize,
    pub pages_input: String,
    pub no_dual: bool,
    pub no_mono: bool,
    pub dual_translate_first: bool,
    pub engine_idx: usize,
    pub engine_params: indexmap::IndexMap<String, String>,
    pub qps: u32,
    pub qps_input: String,
    pub custom_prompt: String,
    pub min_text_length: String,
    pub skip_clean: bool,
    pub pool_max_workers_input: String,
    pub term_qps_input: String,
    pub term_pool_max_workers_input: String,
    pub output_dir: String,
    pub glossary_files: String,
    pub max_pages_per_part_input: String,
    pub skip_scanned_detection: bool,
    pub save_auto_extracted_glossary: bool,
    pub only_include_translated_page: bool,
    pub disable_auto_extract_glossary: bool,
    pub progress: ProgressState,
    pub results: Vec<JsonValue>,
    pub token_usage: Option<JsonValue>,
    pub log_lines: std::collections::VecDeque<String>,
    pub focused_field: usize,
    pub editing: bool,
    pub scroll_offset: usize,
    pub dropdown_open: Option<DropdownTarget>,
    pub dropdown_cursor: usize,
}

/// The mathematical form of an [`App`].
pub struct AppView {
    pub screen: Screen,
    pub active_panel: ActivePanel,
    pub should_quit: bool,
    pub popup: Option<PopupView>,
    pub python_version: Seq<char>,
    pub engine_schemas: Seq<EngineSchemaView>,
    pub language_map: Seq<(Seq<char>, Seq<char>)>,
    pub selected_files: Seq<Seq<char>>,
    pub file_input: Seq<char>,
    pub lang_in_idx: usize,
    pub lang_out_idx: usize,
    pub pages_input: Seq<char>,
    pub no_dual: bool,
    pub no_mono: bool,
    pub dual_translate_first: bool,
    pub engine_idx: usize,
    pub engine_params: Seq<(Seq<char>, Seq<char>)>,
    pub qps: u32,
    pub qps_input: Seq<char>,
    pub custom_prompt: Seq<char>,
    pub min_text_length: Seq<char>,
    pub skip_clean: bool,
    pub pool_max_workers_input: Seq<char>,
    pub term_qps_input: Seq<char>,
    pub term_pool_max_workers_input: Seq<char>,
    pub output_dir: Seq<char>,
    pub glossary_files: Seq<char>,
    pub max_pages_per_part_input: Seq<char>,
    pub skip_scanned_detection: bool,
    pub save_auto_extracted_glossary: bool,
    pub only_include_translated_page: bool,
    pub disable_auto_extract_glossary: bool,
    pub progress: ProgressView,
    pub results: Seq<Json>,
    pub token_usage: Option<Json>,
    pub log_lines: Seq<Seq<char>>,
    pub focused_field: usize,
    pub editing: bool,
    pub scroll_offset: usize,
    pub dropdown_open: Option<DropdownTarget>,
    pub dropdown_cursor: usize,
}

/// The views of a list of JSON values.
pub open spec fn jsons_view(v: Seq<JsonValue>) -> Seq<Json> {
    v.map_values(|j: JsonValue| j@)
}

impl View for App {
    type V = AppView;

    open spec fn view(&self) -> AppView {
        AppView {
            screen: self.screen,
            active_panel: self.active_panel,
            should_quit: self.should_quit,
            popup: match self.popup {
                Some(p) => Some(p@),
                None => None,
            },
            python_version: self.python_version@,
            engine_schemas: engines_view(self.engine_schemas@),
            language_map: string_map_entries(self.language_map),
            selected_files: strings_view(self.selected_files@),
            file_input: self.file_input@,
            lang_in_idx: self.lang_in_idx,
            lang_out_idx: self.lang_out_idx,
            pages_input: self.pages_input@,
            no_dual: self.no_dual,
            no_mono: self.no_mono,
            dual_translate_first: self.dual_translate_first,
            engine_idx: self.engine_idx,
            engine_params: string_map_entries(self.engine_params),
            qps: self.qps,
            qps_input: self.qps_input@,
            custom_prompt: self.custom_prompt@,
            min_text_length: self.min_text_length@,
            skip_clean: self.skip_clean,
            pool_max_workers_input: self.pool_max_workers_input@,
            term_qps_input: self.term_qps_input@,
            term_pool_max_workers_input: self.term_pool_max_workers_input@,
            output_dir: self.output_dir@,
            glossary_files: self.glossary_files@,
            max_pages_per_part_input: self.max_pages_per_part_input@,
            skip_scanned_detection: self.skip_scanned_detection,
            save_auto_extracted_glossary: self.save_auto_extracted_glossary,
            only_include_translated_page: self.only_include_translated_page,
            disable_auto_extract_glossary: self.disable_auto_extract_glossary,
            progress: self.progress@,
            results: jsons_view(self.results@),
            token_usage: match self.token_usage {
                Some(t) => Some(t@),
                None => None,
            },
            log_lines: strings_view(self.log_lines@),
            focused_field: self.focused_field,
            editing: self.editing,
            scroll_offset: self.scroll_offset,
            dropdown_open: self.dropdown_open,
            dropdown_cursor: self.dropdown_cursor,
        }
    }
}

/// The most items a vector of this state can hold: vectors of items of 24
/// bytes or more never hold more than `isize::MAX / 24` of them.
pub open spec fn max_items() -> nat {
    (usize::MAX / 32) as nat
}

/// Machine limits the state always keeps: lists sized as memory allows.
pub open spec fn app_wf(v: AppView) -> bool {
    &&& v.selected_files.len() <= max_items()
    &&& forall|i: int| 0 <= i < v.engine_schemas.len() ==> (#[trigger] v.engine_schemas[i]).fields.len() <= max_items()
}

impl App {
    /// Machine limits the state always keeps.
    pub open spec fn wf(&self) -> bool {
        app_wf(self@)
    }
}

/// The state of a freshly started front end.
pub open spec fn initial_app() -> AppView {
    AppView {
        screen: Screen::Loading,
        active_panel: ActivePanel::Left,
        should_quit: false,
        popup: None,
        python_version: Seq::empty(),
        engine_schemas: Seq::empty(),
        language_map: Seq::empty(),
        selected_files: Seq::empty(),
        file_input: Seq::empty(),
        lang_in_idx: 0,
        lang_out_idx: 1,
        pages_input: Seq::empty(),
        no_dual: false,
        no_mono: true,
        dual_translate_first: false,
        engine_idx: 0,
        engine_params: Seq::empty(),
        qps: 4,
        qps_input: seq!['4'],
        custom_prompt: Seq::empty(),
        min_text_length: Seq::empty(),
        skip_clean: false,
        pool_max_workers_input: Seq::empty(),
        term_qps_input: Seq::empty(),
        term_pool_max_workers_input: Seq::empty(),
        output_dir: Seq::empty(),
        glossary_files: Seq::empty(),
        max_pages_per_part_input: Seq::empty(),
        skip_scanned_detection: false,
        save_auto_extracted_glossary: false,
        only_include_translated_page: false,
        disable_auto_extract_glossary: false,
        progress: initial_progress(),
        results: Seq::empty(),
        token_usage: None,
        log_lines: Seq::empty(),
        focused_field: 0,
        editing: false,
        scroll_offset: 0,
        dropdown_open: None,
        dropdown_cursor: 0,
    }
}

/// Number of parameter fields of the selected engine.
pub open spec fn param_count(v: AppView) -> nat {
    if v.engine_idx < v.engine_schemas.len() {
        v.engine_schemas[v.engine_idx as int].fields.len()
    } else {
        0
    }
}

/// Is field `f` one of the checkboxes?
pub open spec fn is_checkbox(f: int, n: int) -> bool {
    f == 6 + n || f == 7 + n || f == 8 + n || f == 9 + n || f == 18 + n || f == 19 + n || f == 20 + n
        || f == 21 + n
}

/// The dropdown that field `f` opens, if it is one.
pub open spec fn dropdown_of(f: int) -> Option<DropdownTarget> {
    if f == 1 {
        Some(DropdownTarget::LangIn)
    } else if f == 2 {
        Some(DropdownTarget::LangOut)
    } else if f == 4 {
        Some(DropdownTarget::Engine)
    } else {
        None
    }
}

/// The number of items in a dropdown.
pub open spec fn dropdown_size(v: AppView, t: DropdownTarget) -> nat {
    match t {
        DropdownTarget::LangIn | DropdownTarget::LangOut => v.language_map.len(),
        DropdownTarget::Engine => v.engine_schemas.len(),
    }
}

/// The layout row of field `f`, counting section titles and the file list
/// (shown as at least one line).
pub open spec fn field_row(v: AppView, f: int) -> int {
    let n = param_count(v) as int;
    let x = if v.selected_files.len() > 1 {v.selected_files.len() as int } else { 1 };
    if f == 0 {
        1
    } else if f == 1 {
        2 + x + 1
    } else if f == 2 {
        2 + x + 2
    } else if f == 3 {
        2 + x + 3
    } else if f == 4 {
        2 + x + 5
    } else if f == 5 {
        2 + x + 6
    } else if f < 6 + n {
        2 + x + 7 + (f - 6)
    } else if 6 + n <= f <= 9 + n {
        2 + x + 7 + n + (f - 5 - n)
    } else if 10 + n <= f <= 21 + n {
        2 + x + 7 + n + (f - 4 - n)
    } else {
        0
    }
}

/// The scroll offset after `ensure_visible(rows)`.
pub open spec fn visible_scroll(v: AppView, rows: int) -> int {
    let row = field_row(v, v.focused_field as int);
    if row < v.scroll_offset {
        row
    } else if row >= v.scroll_offset + rows {
        row - rows + 1
    } else {
        v.scroll_offset as int
    }
}

impl App {
    /// A fresh state: loading screen, default options.
    pub fn new() -> (r: App)
        ensures
            r@ == initial_app(),
            r.wf(),
    {
        let r = App {
            screen: Screen::Loading,
            active_panel: ActivePanel::Left,
            should_quit: false,
            popup: None,
            python_version: String::new(),
            engine_schemas: Vec::new(),
            language_map: map_new(),
            selected_files: Vec::new(),
            file_input: String::new(),
            lang_in_idx: 0,
            lang_out_idx: 1,
            pages_input: String::new(),
            no_dual: false,
            no_mono: true,
            dual_translate_first: false,
            engine_idx: 0,
            engine_params: map_new(),
            qps: 4,
            qps_input: string_of("4"),
            custom_prompt: String::new(),
            min_text_length: String::new(),
            skip_clean: false,
            pool_max_workers_input: String::new(),
            term_qps_input: String::new(),
            term_pool_max_workers_input: String::new(),
            output_dir: String::new(),
            glossary_files: String::new(),
            max_pages_per_part_input: String::new(),
            skip_scanned_detection: false,
            save_auto_extracted_glossary: false,
            only_include_translated_page: false,
            disable_auto_extract_glossary: false,
            progress: ProgressState::new(),
            results: Vec::new(),
            token_usage: None,
            log_lines: std::collections::VecDeque::with_capacity(200),
            focused_field: 0,
            editing: false,
            scroll_offset: 0,
            dropdown_open: None,
            dropdown_cursor: 0,
        };
        proof {
            reveal_strlit("4");
            assert(r@.engine_schemas =~= Seq::<EngineSchemaView>::empty());
            assert(r@.selected_files =~= Seq::<Seq<char>>::empty());
            assert(r@.results =~= Seq::<Json>::empty());
            assert(r@.log_lines =~= Seq::<Seq<char>>::empty());
            assert(r@.qps_input =~= seq!['4']);
        }
        r
    }

    /// Number of engine-specific parameter fields.
    pub fn engine_param_count(&self) -> (n: usize)
        ensures
            n == param_count(self@),
    {
        if self.engine_idx < self.engine_schemas.len() {
            self.engine_schemas[self.engine_idx].fields.len()
        } else {
            0
        }
    }

    /// Total number of focusable fields.
    pub fn max_fields(&self) -> (n: usize)
        requires
            self.wf(),
        ensures
            n == 22 + param_count(self@),
    {
        proof {
            if self.engine_idx < self.engine_schemas.len() {
                assert(self@.engine_schemas[self.engine_idx as int].fields.len() <= max_items());
            }
        }
        22 + self.engine_param_count()
    }

    /// Is the focused field a dropdown?
    pub(crate) fn is_dropdown_field(&self) -> (r: bool)
        ensures
            r == (dropdown_of(self.focused_field as int) is Some),
    {
        self.focused_field == 1 || self.focused_field == 2 || self.focused_field == 4
    }

    /// Is the focused field a checkbox?
    pub(crate) fn is_checkbox_field(&self) -> (r: bool)
        requires
            self.wf(),
        ensures
            r == is_checkbox(self.focused_field as int, param_count(self@) as int),
    {
        let n = self.engine_param_count();
        proof {
            if self.engine_idx < self.engine_schemas.len() {
                assert(self@.engine_schemas[self.engine_idx as int].fields.len() <= max_items());
            }
        }
        let f = self.focused_field;
        f == 6 + n || f == 7 + n || f == 8 + n || f == 9 + n || f == 18 + n || f == 19 + n || f == 20 + n
            || f == 21 + n
    }

    /// The dropdown the focused field opens.
    pub(crate) fn dropdown_target(&self) -> (r: Option<DropdownTarget>)
        ensures
            r == dropdown_of(self.focused_field as int),
    {
        match self.focused_field {
            1 => Some(DropdownTarget::LangIn),
            2 => Some(DropdownTarget::LangOut),
            4 => Some(DropdownTarget::Engine),
            _ => None,
        }
    }

    /// The number of items in a dropdown.
    pub(crate) fn dropdown_len(&self, target: DropdownTarget) -> (r: usize)
        ensures
            r == dropdown_size(self@, target),
    {
        match target {
            DropdownTarget::LangIn | DropdownTarget::LangOut => map_len(&self.language_map),
            DropdownTarget::Engine => self.engine_schemas.len(),
        }
    }

    /// The layout row of a field.
    fn field_to_row(&self, field: usize) -> (r: usize)
        requires
            self.wf(),
        ensures
            r == field_row(self@, field as int),
    {
        let n = self.engine_param_count();
        proof {
            if self.engine_idx < self.engine_schemas.len() {
                assert(self@.engine_schemas[self.engine_idx as int].fields.len() <= max_items());
            }
        }
        let x = if self.selected_files.len() > 1 {self.selected_files.len() } else { 1 };
        if field == 0 {
            1
        } else if field == 1 {
            2 + x + 1
        } else if field == 2 {
            2 + x + 2
        } else if field == 3 {
            2 + x + 3
        } else if field == 4 {
            2 + x + 5
        } else if field == 5 {
            2 + x + 6
        } else if field < 6 + n {
            2 + x + 7 + (field - 6)
        } else if field <= 9 + n {
            2 + x + 7 + n + (field - 5 - n)
        } else if field <= 21 + n {
            2 + x + 7 + n + (field - 4 - n)
        } else {
            0
        }
    }

    /// Adjusts the scroll offset so that the focused field is within the
    /// `visible_rows` rows shown.
    pub fn ensure_visible(&mut self, visible_rows: usize)
        requires
            old(self).wf(),
        ensures
            final(self)@ == (AppView {scroll_offset: visible_scroll(old(self)@, visible_rows as int) as usize, ..old(self)@ }),
            final(self).wf(),
    {
        let row = self.field_to_row(self.focused_field);
        if row < self.scroll_offset {
            self.scroll_offset = row;
        } else if row - self.scroll_offset >= visible_rows {
            self.scroll_offset = row - visible_rows + 1;
        }
    }
}

/// The action a key press asks for on the configure screen.
pub open spec fn configure_key_action(v: AppView, key: KeyEvent) -> ActionView {
    if v.dropdown_open is Some {
        match key.code {
            KeyCode::Up => ActionView::DropdownUp,
            KeyCode::Down => ActionView::DropdownDown,
            KeyCode::Enter => ActionView::SelectDropdownItem(v.dropdown_cursor),
            KeyCode::Esc => ActionView::CloseDropdown,
            KeyCode::Char(c) => ActionView::CharInput(c),
            _ => ActionView::Nothing,
        }
    } else if v.editing {
        match key.code {
            KeyCode::Esc | KeyCode::Enter => ActionView::ExitField,
            KeyCode::Backspace => ActionView::Backspace,
            KeyCode::Char(c) => ActionView::CharInput(c),
            KeyCode::Up | KeyCode::Down => ActionView::ExitField,
            _ => ActionView::Nothing,
        }
    } else {
        match key.code {
            KeyCode::Up => ActionView::FocusPrev,
            KeyCode::Down => ActionView::FocusNext,
            KeyCode::Enter => ActionView::EnterField,
            KeyCode::Left | KeyCode::Right => ActionView::SwitchPanel,
            KeyCode::Delete | KeyCode::Backspace => ActionView::DeleteFocusedFile,
            _ => ActionView::Nothing,
        }
    }
}

/// The action a key press asks for: popups first, then the global
/// shortcuts, then help, then what the current screen makes of it.
pub open spec fn key_action(v: AppView, key: KeyEvent) -> ActionView {
    if v.popup is Some {
        match key.code {
            KeyCode::Esc | KeyCode::Enter => ActionView::DismissPopup,
            _ => ActionView::Nothing,
        }
    } else if key.control && key.code == KeyCode::Char('t') && v.screen == Screen::Configure {
        ActionView::StartTranslation
    } else if key.control && key.code == KeyCode::Char('x') && v.screen == Screen::Translating {
        ActionView::CancelTranslation
    } else if key.control && key.code == KeyCode::Char('s') {
        ActionView::SaveConfig
    } else if key.control && (key.code == KeyCode::Char('c') || key.code == KeyCode::Char('q')) {
        ActionView::Quit
    } else if key.code == KeyCode::F(1) {
        ActionView::ShowHelp
    } else if key.code == KeyCode::Char('?') && !v.editing && v.dropdown_open is None {
        ActionView::ShowHelp
    } else {
        match v.screen {
            Screen::Loading => ActionView::Nothing,
            Screen::Configure => configure_key_action(v, key),
            Screen::Translating => match key.code {
                KeyCode::Esc | KeyCode::Char('q') => ActionView::CancelTranslation,
                _ => ActionView::Nothing,
            },
            Screen::Results => match key.code {
                KeyCode::Enter | KeyCode::Esc => ActionView::BackToConfigure,
                _ => ActionView::Nothing,
            },
        }
    }
}

impl App {
    /// Maps a key press to an action.
    pub fn handle_key(&self, key: KeyEvent) -> (r: Action)
        ensures
            r@ == key_action(self@, key),
    {
        if self.popup.is_some() {
            return match key.code {
                KeyCode::Esc | KeyCode::Enter => Action::DismissPopup,
                _ => Action::Nothing,
            };
        }
        if key.control {
            match key.code {
                KeyCode::Char('t') if self.screen == Screen::Configure => {
                    return Action::StartTranslation;
                },
                KeyCode::Char('x') if self.screen == Screen::Translating => {
                    return Action::CancelTranslation;
                },
                KeyCode::Char('s') => return Action::SaveConfig,
                KeyCode::Char('c') | KeyCode::Char('q') => return Action::Quit,
                _ => {},
            }
        }
        match key.code {
            KeyCode::F(1) => return Action::ShowHelp,
            KeyCode::Char('?') if !self.editing && self.dropdown_open.is_none() => {
                return Action::ShowHelp;
            },
            _ => {},
        }
        match self.screen {
            Screen::Loading => Action::Nothing,
            Screen::Configure => self.handle_configure_key(key),
            Screen::Translating => self.handle_translating_key(key),
            Screen::Results => self.handle_results_key(key),
        }
    }

    fn handle_configure_key(&self, key: KeyEvent) -> (r: Action)
        ensures
            r@ == configure_key_action(self@, key),
    {
        if self.dropdown_open.is_some() {
            return match key.code {
                KeyCode::Up => Action::DropdownUp,
                KeyCode::Down => Action::DropdownDown,
                KeyCode::Enter => Action::SelectDropdownItem(self.dropdown_cursor),
                KeyCode::Esc => Action::CloseDropdown,
                KeyCode::Char(c) => Action::CharInput(c),
                _ => Action::Nothing,
            };
        }
        if self.editing {
            return match key.code {
                KeyCode::Esc | KeyCode::Enter => Action::ExitField,
                KeyCode::Backspace => Action::Backspace,
                KeyCode::Char(c) => Action::CharInput(c),
                KeyCode::Up => Action::ExitField,
                KeyCode::Down => Action::ExitField,
                _ => Action::Nothing,
            };
        }
        match key.code {
            KeyCode::Up => Action::FocusPrev,
            KeyCode::Down => Action::FocusNext,
            KeyCode::Enter => Action::EnterField,
            KeyCode::Left | KeyCode::Right => Action::SwitchPanel,
            KeyCode::Delete | KeyCode::Backspace => Action::DeleteFocusedFile,
            _ => Action::Nothing,
        }
    }

    fn handle_translating_key(&self, key: KeyEvent) -> (r: Action)
        ensures
            r@ == (match key.code {
                KeyCode::Esc | KeyCode::Char('q') => ActionView::CancelTranslation,
                _ => ActionView::Nothing,
            }),
    {
        match key.code {
            KeyCode::Esc | KeyCode::Char('q') => Action::CancelTranslation,
            _ => Action::Nothing,
        }
    }

    fn handle_results_key(&self, key: KeyEvent) -> (r: Action)
        ensures
            r@ == (match key.code {
                KeyCode::Enter | KeyCode::Esc => ActionView::BackToConfigure,
                _ => ActionView::Nothing,
            }),
    {
        match key.code {
            KeyCode::Enter | KeyCode::Esc => Action::BackToConfigure,
            _ => Action::Nothing,
        }
    }
}

} // verus!

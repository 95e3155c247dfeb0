//! What the configure panel shows: its rows, each field's label and value,
//! and how a value is cut to the room left for it.

use vstd::prelude::*;
use vstd::string::*;
use crate::app::{field_row, max_items, param_count, App, AppView};
use crate::json::{Json, JsonValue};
use crate::ordered_map::{map_get, map_get_index};
use crate::platform::{text_width, text_width_of};
use crate::protocol::FieldSchemaView;
use crate::text::{decimal, string_of, string_push, u64_to_string};
use crate::update::{display_name, display_name_of, value_or_empty};
use crate::json::entries_get;

verus! {

/// How a field is highlighted.
#[derive(Debug, Clone, Copy, PartialEq, Eq, Structural)]
pub enum Look {
    Plain,
    Focused,
    Editing,
}

/// What one field of the form shows.
pub enum FieldLine {
    /// `label [value]`.
    Labeled {label: String, value: String, look: Look },
    /// `☑ label` or `☐ label`.
    Checkbox {checked: bool, label: String, focused: bool },
    /// Nothing (an index past the fields).
    Blank,
}

/// The mathematical form of a [`FieldLine`].
pub enum FieldLineView {
    Labeled {label: Seq<char>, value: Seq<char>, look: Look },
    Checkbox {checked: bool, label: Seq<char>, focused: bool },
    Blank,
}

impl View for FieldLine {
    type V = FieldLineView;

    open spec fn view(&self) -> FieldLineView {
        match self {
            FieldLine::Labeled {label, value, look } => FieldLineView::Labeled {
                label: label@,
                value: value@,
                look: *look,
            },
            FieldLine::Checkbox {checked, label, focused } => FieldLineView::Checkbox {
                checked: *checked,
                label: label@,
                focused: *focused,
            },
            FieldLine::Blank => FieldLineView::Blank,
        }
    }
}

/// The look of a text field.
pub open spec fn field_look(focused: bool, editing: bool) -> Look {
    if focused {
        if editing {
            Look::Editing
        } else {
            Look::Focused
        }
    } else {
        Look::Plain
    }
}

/// The look of a dropdown field.
pub open spec fn dropdown_look(focused: bool) -> Look {
    if focused {
        Look::Focused
    } else {
        Look::Plain
    }
}

/// A value with the text cursor after it.
pub open spec fn with_cursor(s: Seq<char>) -> Seq<char> {
    s.push('|')
}

/// A numeric field's text: with the cursor while edited, `默认` when empty.
pub open spec fn numeric_text(editing: bool, value: Seq<char>) -> Seq<char> {
    if editing {
        with_cursor(value)
    } else if value.len() == 0 {
        "默认"@
    } else {
        value
    }
}

/// A text field's text: with the cursor while edited, `empty_label` when
/// empty.
pub open spec fn text_field_text(editing: bool, value: Seq<char>, empty_label: Seq<char>) -> Seq<char> {
    if editing {
        with_cursor(value)
    } else if value.len() == 0 {
        empty_label
    } else {
        value
    }
}

/// `s` padded with spaces to `w` characters.
pub open spec fn pad_right(s: Seq<char>, w: nat) -> Seq<char> {
    if s.len() < w {
        s + Seq::new((w - s.len()) as nat, |i: int| ' ')
    } else {
        s
    }
}

/// The name of language entry `i`, or `default`.
pub open spec fn lang_name(v: AppView, i: int, default: Seq<char>) -> Seq<char> {
    if 0 <= i < v.language_map.len() {
        v.language_map[i].0
    } else {
        default
    }
}

/// The name of the selected engine, or `default`.
pub open spec fn engine_name(v: AppView, default: Seq<char>) -> Seq<char> {
    if v.engine_idx < v.engine_schemas.len() {
        v.engine_schemas[v.engine_idx as int].name
    } else {
        default
    }
}

/// What an unset parameter shows: its default (marked as such) when there
/// is a non-empty one, else `(未设置)`.
pub open spec fn default_hint(d: Json, printed: Seq<char>) -> Seq<char> {
    match d {
        Json::Str(s) => if s.len() > 0 {
            s + " (默认)"@
        } else {
            "(未设置)"@
        },
        Json::Null => "(未设置)"@,
        _ => printed + " (默认)"@,
    }
}

/// What a parameter shows: with the cursor while edited; a set password
/// masked; an unset parameter its default hint; else its value.
pub open spec fn param_text(f: FieldSchemaView, value: Seq<char>, editing: bool) -> Seq<char> {
    if editing {
        with_cursor(value)
    } else if f.password && value.len() > 0 {
        "********"@
    } else if value.len() == 0 {
        default_hint(f.default, f.printed_default)
    } else {
        value
    }
}

/// A labeled line.
pub open spec fn labeled(label: Seq<char>, value: Seq<char>, look: Look) -> FieldLineView {
    FieldLineView::Labeled {label, value, look }
}

/// A checkbox line.
pub open spec fn checkbox(checked: bool, label: Seq<char>, focused: bool) -> FieldLineView {
    FieldLineView::Checkbox {checked, label, focused }
}

/// What one of the first six fields (`f` below 6) shows.
pub open spec fn head_line(v: AppView, f: int, focused: bool, editing: bool) -> FieldLineView {
    let look = field_look(focused, editing);
    if f == 0 {
        labeled(
            "文件路径: "@,
            if editing {
                with_cursor(v.file_input)
            } else if v.file_input.len() == 0 {
                "<输入PDF路径后按Enter添加>"@
            } else {
                v.file_input
            },
            look,
        )
    } else if f == 1 {
        labeled("源语言:   "@, lang_name(v, v.lang_in_idx as int, "English"@) + " ▼"@, dropdown_look(focused))
    } else if f == 2 {
        labeled(
            "目标语言: "@,
            lang_name(v, v.lang_out_idx as int, "Simplified Chinese"@) + " ▼"@,
            dropdown_look(focused),
        )
    } else if f == 3 {
        labeled("页面范围: "@, text_field_text(editing, v.pages_input, "全部"@), look)
    } else if f == 4 {
        labeled("翻译引擎: "@, engine_name(v, "(无)"@) + " ▼"@, dropdown_look(focused))
    } else {
        labeled("QPS:      "@, if editing {v.qps_input } else { decimal(v.qps as nat) }, look)
    }
}

/// What the field `k` places after the engine parameters shows (`k` from
/// 6 on: the PDF switches, then the advanced options).
pub open spec fn tail_line(v: AppView, k: int, focused: bool, editing: bool) -> FieldLineView {
    let look = field_look(focused, editing);
    if k == 6 {
        checkbox(!v.no_dual, "输出双语PDF"@, focused)
    } else if k == 7 {
        checkbox(!v.no_mono, "输出单语PDF"@, focused)
    } else if k == 8 {
        checkbox(v.dual_translate_first, "双语翻译优先"@, focused)
    } else if k == 9 {
        checkbox(v.skip_clean, "跳过清理"@, focused)
    } else if k == 10 {
        labeled("自定义提示: "@, text_field_text(editing, v.custom_prompt, "(使用默认)"@), look)
    } else if k == 11 {
        labeled("最小文本长度: "@, text_field_text(editing, v.min_text_length, "默认"@), look)
    } else if k == 12 {
        labeled("翻译线程: "@, numeric_text(editing, v.pool_max_workers_input), look)
    } else if k == 13 {
        labeled("术语QPS:  "@, numeric_text(editing, v.term_qps_input), look)
    } else if k == 14 {
        labeled("术语线程: "@, numeric_text(editing, v.term_pool_max_workers_input), look)
    } else if k == 15 {
        labeled("输出目录: "@, text_field_text(editing, v.output_dir, "默认"@), look)
    } else if k == 16 {
        labeled("术语表CSV: "@, text_field_text(editing, v.glossary_files, "(未设置)"@), look)
    } else if k == 17 {
        labeled("每部分页数: "@, numeric_text(editing, v.max_pages_per_part_input), look)
    } else if k == 18 {
        checkbox(v.skip_scanned_detection, "跳过扫描检测"@, focused)
    } else if k == 19 {
        checkbox(v.save_auto_extracted_glossary, "保存自动术语表"@, focused)
    } else if k == 20 {
        checkbox(v.only_include_translated_page, "仅输出选中页"@, focused)
    } else if k == 21 {
        checkbox(v.disable_auto_extract_glossary, "禁用自动术语抽取"@, focused)
    } else {
        FieldLineView::Blank
    }
}

/// What engine parameter `i` shows.
pub open spec fn param_field_line(v: AppView, i: int, focused: bool, editing: bool) -> FieldLineView {
    if v.engine_idx < v.engine_schemas.len() && i < v.engine_schemas[v.engine_idx as int].fields.len() {
        let field = v.engine_schemas[v.engine_idx as int].fields[i];
        labeled(
            pad_right(field.name + ": "@, 10),
            param_text(field, value_or_empty(entries_get(v.engine_params, field.name)), editing),
            field_look(focused, editing),
        )
    } else {
        FieldLineView::Blank
    }
}

/// What field `f` shows, with `n` engine parameters, when the form panel
/// is active or not: the field is focused when the panel is active and the
/// focus is on it, and edited when focused while editing.
pub open spec fn field_line(v: AppView, f: int, n: int, active: bool) -> FieldLineView {
    let focused = active && v.focused_field == f;
    let editing = v.editing && focused;
    if 0 <= f <= 5 {
        head_line(v, f, focused, editing)
    } else if 6 <= f < 6 + n {
        param_field_line(v, f - 6, focused, editing)
    } else if f >= 6 + n {
        tail_line(v, f - n, focused, editing)
    } else {
        FieldLineView::Blank
    }
}

/// A value with the text cursor after it.
fn cursor_text(s: &str) -> (r: String)
    ensures
        r@ == with_cursor(s@),
{
    let mut t = string_of(s);
    string_push(&mut t, '|');
    t
}

/// A numeric field's text: the value followed by the cursor while it is
/// edited, `默认` (default) when it is empty, else the value.
pub fn numeric_display(editing: bool, value: &str) -> (r: String)
    ensures
        r@ == numeric_text(editing, value@),
{
    if editing {
        cursor_text(value)
    } else if value.unicode_len() == 0 {
        string_of("默认")
    } else {
        string_of(value)
    }
}

/// A text field's text: the value followed by the cursor while it is
/// edited, `empty_label` when it is empty, else the value.
pub fn text_display(editing: bool, value: &str, empty_label: &str) -> (r: String)
    ensures
        r@ == text_field_text(editing, value@, empty_label@),
{
    if editing {
        cursor_text(value)
    } else if value.unicode_len() == 0 {
        string_of(empty_label)
    } else {
        string_of(value)
    }
}

/// `s` padded with spaces to `w` characters.
pub fn pad_to(s: &str, w: usize) -> (r: String)
    ensures
        r@ == pad_right(s@, w as nat),
{
    let mut t = string_of(s);
    let n = s.unicode_len();
    if n < w {
        let mut k: usize = n;
        while k < w
            invariant
                n == s@.len(),
                n <= k <= w,
                t@ == s@ + Seq::new((k - n) as nat, |i: int| ' '),
            decreases w - k,
        {
            string_push(&mut t, ' ');
            assert(s@ + Seq::new((k + 1 - n) as nat, |i: int| ' ') =~= (s@ + Seq::new((k - n) as nat, |i: int| ' ')).push(' '));
            k = k + 1;
        }
    }
    t
}

/// What an unset parameter shows.
fn default_hint_text(d: &JsonValue, printed: &String) -> (r: String)
    ensures
        r@ == default_hint(d@, printed@),
{
    match d {
        JsonValue::String(s) => if s.as_str().unicode_len() > 0 {
            let mut t = s.clone();
            t.append(" (默认)");
            t
        } else {
            string_of("(未设置)")
        },
        JsonValue::Null => string_of("(未设置)"),
        _ => {
            let mut t = printed.clone();
            t.append(" (默认)");
            t
        },
    }
}

/// The look of a text field.
pub fn look_of(focused: bool, editing: bool) -> (r: Look)
    ensures
        r == field_look(focused, editing),
{
    if focused {
        if editing {
            Look::Editing
        } else {
            Look::Focused
        }
    } else {
        Look::Plain
    }
}

/// A labeled line.
fn labeled_line(label: &str, value: String, look: Look) -> (r: FieldLine)
    ensures
        r@ == labeled(label@, value@, look),
{
    FieldLine::Labeled {label: string_of(label), value, look }
}

/// A checkbox line.
fn checkbox_line(checked: bool, label: &str, focused: bool) -> (r: FieldLine)
    ensures
        r@ == checkbox(checked, label@, focused),
{
    FieldLine::Checkbox {checked, label: string_of(label), focused }
}

impl App {
    /// The name of language entry `i`, or `default`.
    fn lang_name_or(&self, i: usize, default: &str) -> (r: String)
        ensures
            r@ == lang_name(self@, i as int, default@),
    {
        match map_get_index(&self.language_map, i) {
            Some(e) => e.0,
            None => string_of(default),
        }
    }

    /// The name of the selected engine, or `default`.
    fn engine_name_or(&self, default: &str) -> (r: String)
        ensures
            r@ == engine_name(self@, default@),
    {
        if self.engine_idx < self.engine_schemas.len() {
            self.engine_schemas[self.engine_idx].name.clone()
        } else {
            string_of(default)
        }
    }

    /// What parameter `i` of the selected engine shows.
    fn param_line(&self, i: usize, look: Look, editing: bool) -> (r: FieldLine)
        requires
            self.engine_idx < self@.engine_schemas.len(),
            i < self@.engine_schemas[self.engine_idx as int].fields.len(),
        ensures
            ({
                let field = self@.engine_schemas[self.engine_idx as int].fields[i as int];
                r@ == labeled(
                    pad_right(field.name + ": "@, 10),
                    param_text(field, value_or_empty(entries_get(self@.engine_params, field.name)), editing),
                    look,
                )
            }),
    {
        let field = &self.engine_schemas[self.engine_idx].fields[i];
        proof {
            assert(self@.engine_schemas[self.engine_idx as int].fields[i as int] == field@);
        }
        let value = match map_get(&self.engine_params, field.name.as_str()) {
            Some(v) => v,
            None => String::new(),
        };
        let shown = if editing {
            cursor_text(value.as_str())
        } else if field.password && value.as_str().unicode_len() > 0 {
            string_of("********")
        } else if value.as_str().unicode_len() == 0 {
            default_hint_text(&field.default, &field.printed_default)
        } else {
            value
        };
        let mut name = field.name.clone();
        name.append(": ");
        let label = pad_to(name.as_str(), 10);
        FieldLine::Labeled {label, value: shown, look }
    }

    /// What one of the first six fields shows.
    #[verifier::spinoff_prover]
    fn head_field_line(&self, f: usize, focused: bool, editing: bool) -> (r: FieldLine)
        requires
            f <= 5,
        ensures
            r@ == head_line(self@, f as int, focused, editing),
    {
        let look = look_of(focused, editing);
        if f == 0 {
            let shown = if editing {
                cursor_text(self.file_input.as_str())
            } else if self.file_input.as_str().unicode_len() == 0 {
                string_of("<输入PDF路径后按Enter添加>")
            } else {
                self.file_input.clone()
            };
            labeled_line("文件路径: ", shown, look)
        } else if f == 1 {
            let mut s = self.lang_name_or(self.lang_in_idx, "English");
            s.append(" ▼");
            labeled_line("源语言:   ", s, if focused {Look::Focused } else { Look::Plain })
        } else if f == 2 {
            let mut s = self.lang_name_or(self.lang_out_idx, "Simplified Chinese");
            s.append(" ▼");
            labeled_line("目标语言: ", s, if focused {Look::Focused } else { Look::Plain })
        } else if f == 3 {
            labeled_line("页面范围: ", text_display(editing, self.pages_input.as_str(), "全部"), look)
        } else if f == 4 {
            let mut s = self.engine_name_or("(无)");
            s.append(" ▼");
            labeled_line("翻译引擎: ", s, if focused {Look::Focused } else { Look::Plain })
        } else {
            let shown = if editing {
                self.qps_input.clone()
            } else {
                u64_to_string(self.qps as u64)
            };
            labeled_line("QPS:      ", shown, look)
        }
    }

    /// What a field after the engine parameters shows.
    #[verifier::spinoff_prover]
    #[verifier::rlimit(40)]
    fn tail_field_line(&self, k: usize, focused: bool, editing: bool) -> (r: FieldLine)
        ensures
            r@ == tail_line(self@, k as int, focused, editing),
    {
        let look = look_of(focused, editing);
        if k == 6 {
            checkbox_line(!self.no_dual, "输出双语PDF", focused)
        } else if k == 7 {
            checkbox_line(!self.no_mono, "输出单语PDF", focused)
        } else if k == 8 {
            checkbox_line(self.dual_translate_first, "双语翻译优先", focused)
        } else if k == 9 {
            checkbox_line(self.skip_clean, "跳过清理", focused)
        } else if k == 10 {
            labeled_line("自定义提示: ", text_display(editing, self.custom_prompt.as_str(), "(使用默认)"), look)
        } else if k == 11 {
            labeled_line("最小文本长度: ", text_display(editing, self.min_text_length.as_str(), "默认"), look)
        } else if k == 12 {
            labeled_line("翻译线程: ", numeric_display(editing, self.pool_max_workers_input.as_str()), look)
        } else if k == 13 {
            labeled_line("术语QPS:  ", numeric_display(editing, self.term_qps_input.as_str()), look)
        } else if k == 14 {
            labeled_line("术语线程: ", numeric_display(editing, self.term_pool_max_workers_input.as_str()), look)
        } else if k == 15 {
            labeled_line("输出目录: ", text_display(editing, self.output_dir.as_str(), "默认"), look)
        } else if k == 16 {
            labeled_line("术语表CSV: ", text_display(editing, self.glossary_files.as_str(), "(未设置)"), look)
        } else if k == 17 {
            labeled_line("每部分页数: ", numeric_display(editing, self.max_pages_per_part_input.as_str()), look)
        } else if k == 18 {
            checkbox_line(self.skip_scanned_detection, "跳过扫描检测", focused)
        } else if k == 19 {
            checkbox_line(self.save_auto_extracted_glossary, "保存自动术语表", focused)
        } else if k == 20 {
            checkbox_line(self.only_include_translated_page, "仅输出选中页", focused)
        } else if k == 21 {
            checkbox_line(self.disable_auto_extract_glossary, "禁用自动术语抽取", focused)
        } else {
            FieldLine::Blank
        }
    }

    /// What field `field_idx` of the form shows, `n` being the number of
    /// engine parameters and `active` whether the form panel is active.
    pub fn field_line(&self, field_idx: usize, n: usize, active: bool) -> (r: FieldLine)
        requires
            n <= max_items(),
        ensures
            r@ == field_line(self@, field_idx as int, n as int, active),
    {
        let focused = active && self.focused_field == field_idx;
        let editing = self.editing && focused;
        let f = field_idx;
        if f <= 5 {
            self.head_field_line(f, focused, editing)
        } else if f - 6 < n {
            if self.engine_idx < self.engine_schemas.len() && f - 6 < self.engine_schemas[self.engine_idx].fields.len() {
                self.param_line(f - 6, look_of(focused, editing), editing)
            } else {
                FieldLine::Blank
            }
        } else {
            self.tail_field_line(f - n, focused, editing)
        }
    }
}

/// Does the first `k` characters of `s` with `…` after them fit in `max`
/// display columns?
pub open spec fn cut_fits(s: Seq<char>, max: int, k: int) -> bool {
    text_width_of(s.take(k).push('…')) <= max
}

/// The longest first part, of at most `k` characters, that fits with `…`
/// after it.
pub open spec fn longest_cut(s: Seq<char>, max: int, k: int) -> Option<int>
    decreases k + 1,
{
    if k < 0 {
        None
    } else if cut_fits(s, max, k) {
        Some(k)
    } else {
        longest_cut(s, max, k - 1)
    }
}

/// The cut found fits, and no longer one (up to `k`) does.
pub proof fn lemma_longest_cut(s: Seq<char>, max: int, k: int)
    ensures
        match longest_cut(s, max, k) {
            Some(j) => 0 <= j <= k && cut_fits(s, max, j) && forall|i: int| j < i <= k ==> !#[trigger] cut_fits(s, max, i),
            None => forall|i: int| 0 <= i <= k ==> !#[trigger] cut_fits(s, max, i),
        },
    decreases k + 1,
{
    if k >= 0 && !cut_fits(s, max, k) {
        lemma_longest_cut(s, max, k - 1);
    }
}

/// `s` cut to `max` display columns: unchanged when it fits, else its
/// longest first part that fits with `…` after it, else nothing.
pub open spec fn truncated(s: Seq<char>, max: int) -> Seq<char> {
    if text_width_of(s) <= max {
        s
    } else {
        match longest_cut(s, max, s.len() as int) {
            Some(k) => s.take(k).push('…'),
            None => Seq::empty(),
        }
    }
}

/// `s` cut to `max_width` display columns, with `…` in place of what does
/// not fit.
pub fn truncate_to_width(s: &str, max_width: usize) -> (r: String)
    ensures
        r@ == truncated(s@, max_width as int),
        text_width_of(r@) <= max_width || r@.len() == 0,
        text_width_of(s@) <= max_width ==> r@ == s@,
{
    let w = text_width(s);
    if w <= max_width {
        return string_of(s);
    }
    let n = s.unicode_len();
    let mut result = String::new();
    let mut prefix = String::new();
    let mut i: usize = 0;
    loop
        invariant_except_break
            n == s@.len(),
            i <= n,
            prefix@ == s@.take(i as int),
            result@ == match longest_cut(s@, max_width as int, i as int - 1) {
                Some(k) => s@.take(k).push('…'),
                None => Seq::<char>::empty(),
            },
        ensures
            result@ == match longest_cut(s@, max_width as int, n as int) {
                Some(k) => s@.take(k).push('…'),
                None => Seq::<char>::empty(),
            },
        decreases n - i,
    {
        let mut candidate = string_of(prefix.as_str());
        string_push(&mut candidate, '…');
        if text_width(candidate.as_str()) <= max_width {
            result = candidate;
        }
        if i == n {
            break;
        }
        let c = s.get_char(i);
        string_push(&mut prefix, c);
        proof {
            assert(s@.take(i + 1) =~= s@.take(i as int).push(c));
        }
        i = i + 1;
    }
    proof {
        lemma_longest_cut(s@, max_width as int, n as int);
    }
    result
}

/// The columns left for a value after its label and the brackets.
pub open spec fn value_room(width: int, label_width: int) -> int {
    if width - (label_width + 2) > 0 {
        width - (label_width + 2)
    } else {
        0
    }
}

/// A field's value as shown: cut to the room its label leaves, in
/// brackets.
pub open spec fn bracketed(label: Seq<char>, value: Seq<char>, width: int) -> Seq<char> {
    "["@ + truncated(value, value_room(width, text_width_of(label) as int)) + "]"@
}

/// A field's value as shown in a row `width` columns wide after `label`.
pub fn bracketed_value(label: &str, value: &str, width: usize) -> (r: String)
    ensures
        r@ == bracketed(label@, value@, width as int),
{
    let lw = text_width(label);
    let room = if lw >= width {
        0
    } else if width - lw > 2 {
        width - lw - 2
    } else {
        0
    };
    let mut t = string_of("[");
    t.append(truncate_to_width(value, room).as_str());
    t.append("]");
    t
}

/// A checkbox row's text.
pub open spec fn checkbox_text(checked: bool, label: Seq<char>) -> Seq<char> {
    "  "@ + (if checked {"☑"@ } else { "☐"@ }) + " "@ + label
}

/// A checkbox row's text.
pub fn checkbox_row_text(checked: bool, label: &str) -> (r: String)
    ensures
        r@ == checkbox_text(checked, label@),
{
    let mut t = string_of("  ");
    t.append(if checked {"☑" } else { "☐" });
    t.append(" ");
    t.append(label);
    t
}

/// A row of the configure panel.
pub enum FormRow {
    /// A section title.
    Section(String),
    /// A dimmed note.
    Note(String),
    /// A selected file: its text.
    File(String),
    /// A field, by index.
    Field(usize),
}

/// The mathematical form of a [`FormRow`].
pub enum FormRowView {
    Section(Seq<char>),
    Note(Seq<char>),
    File(Seq<char>),
    Field(usize),
}

impl View for FormRow {
    type V = FormRowView;

    open spec fn view(&self) -> FormRowView {
        match self {
            FormRow::Section(s) => FormRowView::Section(s@),
            FormRow::Note(s) => FormRowView::Note(s@),
            FormRow::File(s) => FormRowView::File(s@),
            FormRow::Field(i) => FormRowView::Field(*i),
        }
    }
}

/// The views of a list of rows.
pub open spec fn rows_view(r: Seq<FormRow>) -> Seq<FormRowView> {
    r.map_values(|x: FormRow| x@)
}

/// The text of the `i`-th selected file's row.
pub open spec fn file_row_text(i: int, path: Seq<char>) -> Seq<char> {
    "  "@ + decimal((i + 1) as nat) + ". "@ + display_name(path)
}

/// Field rows `from`, `from + 1`, ... (`count` of them).
pub open spec fn field_rows(from: int, count: nat) -> Seq<FormRowView> {
    Seq::new(count, |i: int| FormRowView::Field((from + i) as usize))
}

/// The rows of the configure panel: each section's title, then its fields;
/// under the file field the selected files, or a note when there are none.
pub open spec fn form_rows(v: AppView) -> Seq<FormRowView> {
    let n = param_count(v) as int;
    seq![FormRowView::Section("── 文件 ──"@), FormRowView::Field(0)] + (if v.selected_files.len() == 0 {
        seq![FormRowView::Note("  (未选择文件，输入路径后按Enter添加，按Del删除)"@)]
    } else {
        Seq::new(v.selected_files.len(), |i: int| FormRowView::File(file_row_text(i, v.selected_files[i])))
    }) + seq![FormRowView::Section("── 语言 ──"@)] + field_rows(1, 3) + seq![FormRowView::Section("── 翻译引擎 ──"@)]
        + field_rows(4, (2 + n) as nat) + seq![FormRowView::Section("── PDF 选项 ──"@)] + field_rows(6 + n, 4)
        + seq![FormRowView::Section("── 高级 ──"@)] + field_rows(10 + n, 12)
}

/// Appends field rows `from` .. `from + count`.
fn push_fields(rows: &mut Vec<FormRow>, from: usize, count: usize)
    requires
        from + count <= usize::MAX,
    ensures
        rows_view(final(rows)@) == rows_view(old(rows)@) + field_rows(from as int, count as nat),
{
    let ghost start = rows_view(rows@);
    let mut i: usize = 0;
    while i < count
        invariant
            from + count <= usize::MAX,
            i <= count,
            rows_view(rows@) == start + field_rows(from as int, i as nat),
        decreases count - i,
    {
        let ghost before = rows@;
        rows.push(FormRow::Field(from + i));
        proof {
            assert(rows_view(rows@) =~= rows_view(before).push(FormRowView::Field((from + i) as usize)));
            assert(field_rows(from as int, (i + 1) as nat) =~= field_rows(from as int, i as nat).push(
                FormRowView::Field((from + i) as usize),
            ));
            assert(start + field_rows(from as int, (i + 1) as nat) =~= (start + field_rows(from as int, i as nat)).push(
                FormRowView::Field((from + i) as usize),
            ));
        }
        i = i + 1;
    }
}

/// Appends a row.
fn push_row(rows: &mut Vec<FormRow>, row: FormRow)
    ensures
        rows_view(final(rows)@) == rows_view(old(rows)@) + seq![row@],
{
    let ghost before = rows@;
    rows.push(row);
    assert(rows_view(rows@) =~= rows_view(before) + seq![row@]);
}

/// The text of the `i`-th selected file's row.
fn file_row(i: usize, path: &str) -> (r: String)
    requires
        i < usize::MAX,
    ensures
        r@ == file_row_text(i as int, path@),
{
    let mut t = string_of("  ");
    t.append(u64_to_string((i + 1) as u64).as_str());
    t.append(". ");
    t.append(display_name_of(path).as_str());
    t
}

impl App {
    /// The rows of the configure panel.
    #[verifier::rlimit(40)]
    pub fn form_rows(&self) -> (r: Vec<FormRow>)
        requires
            self.wf(),
        ensures
            rows_view(r@) == form_rows(self@),
    {
        let n = self.engine_param_count();
        proof {
            if self.engine_idx < self.engine_schemas.len() {
                assert(self@.engine_schemas[self.engine_idx as int].fields.len() <= max_items());
            }
        }
        let mut rows: Vec<FormRow> = Vec::new();
        push_row(&mut rows, FormRow::Section(string_of("── 文件 ──")));
        push_row(&mut rows, FormRow::Field(0));
        let ghost head = rows_view(rows@);
        if self.selected_files.len() == 0 {
            push_row(&mut rows, FormRow::Note(string_of("  (未选择文件，输入路径后按Enter添加，按Del删除)")));
        } else {
            let ghost files = self@.selected_files;
            let ghost mk = |i: int| FormRowView::File(file_row_text(i, files[i]));
            let mut i: usize = 0;
            while i < self.selected_files.len()
                invariant
                    files == self@.selected_files,
                    files.len() == self.selected_files@.len(),
                    files.len() <= max_items(),
                    i <= files.len(),
                    mk == (|i: int| FormRowView::File(file_row_text(i, files[i]))),
                    rows_view(rows@) == head + Seq::new(i as nat, mk),
                decreases files.len() - i,
            {
                let t = file_row(i, self.selected_files[i].as_str());
                proof {
                    assert(files[i as int] == self.selected_files@[i as int]@);
                }
                push_row(&mut rows, FormRow::File(t));
                proof {
                    assert(head + Seq::new((i + 1) as nat, mk) =~= head + Seq::new(i as nat, mk) + seq![mk(i as int)]);
                }
                i = i + 1;
            }
        }
        push_row(&mut rows, FormRow::Section(string_of("── 语言 ──")));
        push_fields(&mut rows, 1, 3);
        push_row(&mut rows, FormRow::Section(string_of("── 翻译引擎 ──")));
        push_fields(&mut rows, 4, 2 + n);
        push_row(&mut rows, FormRow::Section(string_of("── PDF 选项 ──")));
        push_fields(&mut rows, 6 + n, 4);
        push_row(&mut rows, FormRow::Section(string_of("── 高级 ──")));
        push_fields(&mut rows, 10 + n, 12);
        assert(rows_view(rows@) =~= form_rows(self@));
        rows
    }
}

/// The row the focus scrolling assumes for a field is the row the panel
/// draws it on: for every field of the form, row `field_row` of the panel
/// holds that field.
pub proof fn law_field_row_matches_form(v: AppView, f: int)
    requires
        0 <= f < 22 + param_count(v),
    ensures
        0 <= field_row(v, f) < form_rows(v).len(),
        form_rows(v)[field_row(v, f)] == FormRowView::Field(f as usize),
{
    let n = param_count(v) as int;
    let x = if v.selected_files.len() > 1 {v.selected_files.len() as int } else { 1 };
    let files = if v.selected_files.len() == 0 {
        seq![FormRowView::Note("  (未选择文件，输入路径后按Enter添加，按Del删除)"@)]
    } else {
        Seq::new(v.selected_files.len(), |i: int| FormRowView::File(file_row_text(i, v.selected_files[i])))
    };
    assert(files.len() == x);
    let a = seq![FormRowView::Section("── 文件 ──"@), FormRowView::Field(0)];
    let b = seq![FormRowView::Section("── 语言 ──"@)];
    let c = field_rows(1, 3);
    let d = seq![FormRowView::Section("── 翻译引擎 ──"@)];
    let e = field_rows(4, (2 + n) as nat);
    let g = seq![FormRowView::Section("── PDF 选项 ──"@)];
    let h = field_rows(6 + n, 4);
    let k = seq![FormRowView::Section("── 高级 ──"@)];
    let l = field_rows(10 + n, 12);
    let rows = a + files + b + c + d + e + g + h + k + l;
    assert(form_rows(v) == rows);
    assert(rows.len() == 2 + x + 1 + 3 + 1 + 2 + n + 1 + 4 + 1 + 12);
    let r = field_row(v, f);
    if f == 0 {
        assert(rows[1] == FormRowView::Field(0));
    } else if f <= 3 {
        assert(rows[r] == c[f - 1]);
    } else if f < 6 + n {
        assert(rows[r] == e[f - 4]);
    } else if f <= 9 + n {
        assert(rows[r] == h[f - 6 - n]);
    } else {
        assert(rows[r] == l[f - 10 - n]);
    }
}

} // verus!

//! What the other panels show: the status panel, the progress panel, the
//! results panel, the header and footer, the dropdown overlay and the help.

use vstd::prelude::*;
use vstd::string::*;
use crate::app::{App, AppView, ProgressView, Screen};
use crate::form_view::{engine_name, lang_name};
use crate::json::{json_as_i64, json_get, Json, JsonNumber, JsonValue, NumberSpec};
use crate::ordered_map::{map_get_index, map_len, string_map_entries};
use crate::protocol::strings_view;
use crate::session::shown_path;
use crate::text::{decimal, i64_to_string, signed_decimal, string_of, u64_to_string};
use crate::update::{display_name, display_name_of};

verus! {

/// The colour a line is drawn in.
#[derive(Debug, Clone, Copy, PartialEq, Eq, Structural)]
pub enum Tone {
    /// The terminal's default.
    Plain,
    /// White.
    Bright,
    /// Dark grey.
    Dim,
    /// Green.
    Good,
    /// Green and bold.
    GoodBold,
    /// Yellow.
    Heading,
    /// Cyan and bold.
    Accent,
}

/// A line of text and its colour.
pub struct ToneLine {
    pub text: String,
    pub tone: Tone,
}

/// The views of toned lines.
pub open spec fn tone_lines(v: Seq<ToneLine>) -> Seq<(Seq<char>, Tone)> {
    v.map_values(|l: ToneLine| (l.text@, l.tone))
}

/// Does `t` occur in `s`?
pub open spec fn has_infix(s: Seq<char>, t: Seq<char>) -> bool {
    exists|i: int| 0 <= i && i + t.len() <= s.len() && #[trigger] s.subrange(i, i + t.len()) == t
}

/// Does `t` occur in `s`?
pub fn contains_text(s: &str, t: &str) -> (r: bool)
    ensures
        r == has_infix(s@, t@),
{
    let n = s.unicode_len();
    let m = t.unicode_len();
    if m > n {
        proof {
            assert forall|i: int| 0 <= i && i + t@.len() <= s@.len() implies #[trigger] s@.subrange(i, i + t@.len()) != t@ by {}
        }
        return false;
    }
    let mut i: usize = 0;
    while i <= n - m
        invariant
            n == s@.len(),
            m == t@.len(),
            m <= n,
            i <= n - m + 1,
            forall|k: int| 0 <= k < i ==> #[trigger] s@.subrange(k, k + m) != t@,
        decreases n - m + 1 - i,
    {
        let mut j: usize = 0;
        let mut same = true;
        while j < m
            invariant
                n == s@.len(),
                m == t@.len(),
                i + m <= n,
                j <= m,
                same == (forall|q: int| 0 <= q < j ==> s@[i + q] == t@[q]),
            decreases m - j,
        {
            if s.get_char(i + j) != t.get_char(j) {
                same = false;
            }
            j = j + 1;
        }
        if same {
            assert(s@.subrange(i as int, i + m) =~= t@);
            return true;
        }
        proof {
            let q = choose|q: int| 0 <= q < m && s@[i + q] != t@[q];
            assert(s@.subrange(i as int, i + m)[q] != t@[q]);
        }
        i = i + 1;
    }
    proof {
        assert forall|k: int| 0 <= k && k + t@.len() <= s@.len() implies #[trigger] s@.subrange(k, k + t@.len()) != t@ by {
            assert(k < i);
        }
    }
    false
}

/// Is a parameter secret by its name: one holding `key`, `secret` or
/// `token`?
pub open spec fn is_secret_name(k: Seq<char>) -> bool {
    has_infix(k, "key"@) || has_infix(k, "secret"@) || has_infix(k, "token"@)
}

/// `是` (yes) or `否` (no) for an output that is on when `off` is false.
pub open spec fn yes_no(off: bool) -> Seq<char> {
    if off {
        "否"@
    } else {
        "是"@
    }
}

/// The status panel's line for one engine parameter (empty values are not
/// shown).
pub open spec fn param_status(e: (Seq<char>, Seq<char>)) -> Seq<(Seq<char>, Tone)> {
    if e.1.len() == 0 {
        Seq::empty()
    } else if is_secret_name(e.0) {
        seq![("  "@ + e.0 + ": ****"@, Tone::Dim)]
    } else {
        seq![("  "@ + e.0 + ": "@ + e.1, Tone::Dim)]
    }
}

/// The status panel's lines for the engine parameters.
pub open spec fn params_status(ps: Seq<(Seq<char>, Seq<char>)>) -> Seq<(Seq<char>, Tone)>
    decreases ps.len(),
{
    if ps.len() == 0 {
        Seq::empty()
    } else {
        params_status(ps.drop_last()) + param_status(ps.last())
    }
}

/// The status panel: readiness, the selected files, engine, languages,
/// QPS, pages when set, the outputs, the non-empty engine parameters (secret
/// ones masked), and what to do next.
pub open spec fn status_lines(v: AppView) -> Seq<(Seq<char>, Tone)> {
    let count = v.selected_files.len();
    seq![
        ("状态: 就绪"@, Tone::Good),
        (Seq::empty(), Tone::Plain),
        ("已选文件: "@ + decimal(count) + " 个"@, if count > 0 {Tone::Bright } else { Tone::Dim }),
    ] + Seq::new(count, |i: int| ("  - "@ + display_name(v.selected_files[i]), Tone::Dim)) + seq![
        (Seq::empty(), Tone::Plain),
        ("引擎: "@ + engine_name(v, "(未选择)"@), Tone::Plain),
        ("语言: "@ + lang_name(v, v.lang_in_idx as int, "?"@) + " → "@ + lang_name(v, v.lang_out_idx as int, "?"@), Tone::Plain),
        ("QPS:  "@ + decimal(v.qps as nat), Tone::Plain),
    ] + (if v.pages_input.len() > 0 {
        seq![("页面: "@ + v.pages_input, Tone::Plain)]
    } else {
        Seq::empty()
    }) + seq![
        (Seq::empty(), Tone::Plain),
        ("双语: "@ + yes_no(v.no_dual) + "  单语: "@ + yes_no(v.no_mono), Tone::Dim),
    ] + (if v.engine_params.len() > 0 {
        seq![(Seq::empty(), Tone::Plain), ("引擎参数:"@, Tone::Dim)] + params_status(v.engine_params)
    } else {
        Seq::empty()
    }) + seq![(Seq::empty(), Tone::Plain)] + if count > 0 {
        seq![("按 Ctrl+T 开始翻译"@, Tone::Accent)]
    } else {
        seq![("请在左侧添加 PDF 文件"@, Tone::Dim)]
    }
}

/// Appends a line.
fn push_line(out: &mut Vec<ToneLine>, text: String, tone: Tone)
    ensures
        tone_lines(final(out)@) == tone_lines(old(out)@) + seq![(text@, tone)],
{
    let ghost before = out@;
    out.push(ToneLine {text, tone });
    assert(tone_lines(out@) =~= tone_lines(before) + seq![(text@, tone)]);
}

/// The status line of one engine parameter.
fn push_param_status(out: &mut Vec<ToneLine>, k: &str, v: &str)
    ensures
        tone_lines(final(out)@) == tone_lines(old(out)@) + param_status((k@, v@)),
{
    if v.unicode_len() == 0 {
        assert(tone_lines(out@) + Seq::<(Seq<char>, Tone)>::empty() =~= tone_lines(out@));
    } else if contains_text(k, "key") || contains_text(k, "secret") || contains_text(k, "token") {
        let mut t = string_of("  ");
        t.append(k);
        t.append(": ****");
        push_line(out, t, Tone::Dim);
    } else {
        let mut t = string_of("  ");
        t.append(k);
        t.append(": ");
        t.append(v);
        push_line(out, t, Tone::Dim);
    }
}

impl App {
    /// The lines of the status panel.
    #[verifier::rlimit(60)]
    pub fn status_lines(&self) -> (r: Vec<ToneLine>)
        ensures
            tone_lines(r@) == status_lines(self@),
    {
        let v = self;
        let mut out: Vec<ToneLine> = Vec::new();
        let count = self.selected_files.len();
        push_line(&mut out, string_of("状态: 就绪"), Tone::Good);
        push_line(&mut out, String::new(), Tone::Plain);
        let mut badge = string_of("已选文件: ");
        badge.append(u64_to_string(count as u64).as_str());
        badge.append(" 个");
        push_line(&mut out, badge, if count > 0 {Tone::Bright } else { Tone::Dim });
        let ghost s0 = tone_lines(out@);
        let ghost files = self@.selected_files;
        let ghost mk = |i: int| ("  - "@ + display_name(files[i]), Tone::Dim);
        let mut i: usize = 0;
        while i < count
            invariant
                count == files.len(),
                files == self@.selected_files,
                i <= count,
                mk == (|i: int| ("  - "@ + display_name(files[i]), Tone::Dim)),
                tone_lines(out@) == s0 + Seq::new(i as nat, mk),
            decreases count - i,
        {
            let mut t = string_of("  - ");
            t.append(display_name_of(self.selected_files[i].as_str()).as_str());
            assert(files[i as int] == self.selected_files@[i as int]@);
            push_line(&mut out, t, Tone::Dim);
            assert(s0 + Seq::new((i + 1) as nat, mk) =~= s0 + Seq::new(i as nat, mk) + seq![mk(i as int)]);
            i = i + 1;
        }
        let ghost s1 = tone_lines(out@);
        push_line(&mut out, String::new(), Tone::Plain);
        let mut e = string_of("引擎: ");
        let en = if self.engine_idx < self.engine_schemas.len() {
            self.engine_schemas[self.engine_idx].name.clone()
        } else {
            string_of("(未选择)")
        };
        e.append(en.as_str());
        push_line(&mut out, e, Tone::Plain);
        let mut l = string_of("语言: ");
        let li = match map_get_index(&self.language_map, self.lang_in_idx) {
            Some(p) => p.0,
            None => string_of("?"),
        };
        let lo = match map_get_index(&self.language_map, self.lang_out_idx) {
            Some(p) => p.0,
            None => string_of("?"),
        };
        l.append(li.as_str());
        l.append(" → ");
        l.append(lo.as_str());
        push_line(&mut out, l, Tone::Plain);
        let mut q = string_of("QPS:  ");
        q.append(u64_to_string(self.qps as u64).as_str());
        push_line(&mut out, q, Tone::Plain);
        let ghost s2 = tone_lines(out@);
        if self.pages_input.as_str().unicode_len() > 0 {
            let mut p = string_of("页面: ");
            p.append(self.pages_input.as_str());
            push_line(&mut out, p, Tone::Plain);
        }
        let ghost s3 = tone_lines(out@);
        push_line(&mut out, String::new(), Tone::Plain);
        let mut d = string_of("双语: ");
        d.append(if self.no_dual {"否" } else { "是" });
        d.append("  单语: ");
        d.append(if self.no_mono {"否" } else { "是" });
        push_line(&mut out, d, Tone::Dim);
        let ghost s4 = tone_lines(out@);
        let np = map_len(&self.engine_params);
        if np > 0 {
            push_line(&mut out, String::new(), Tone::Plain);
            push_line(&mut out, string_of("引擎参数:"), Tone::Dim);
            let ghost s5 = tone_lines(out@);
            let ghost ps = string_map_entries(self.engine_params);
            let mut k: usize = 0;
            while k < np
                invariant
                    np == ps.len(),
                    ps == string_map_entries(self.engine_params),
                    k <= np,
                    tone_lines(out@) == s5 + params_status(ps.take(k as int)),
                decreases np - k,
            {
                match map_get_index(&self.engine_params, k) {
                    Some(pair) => {
                        push_param_status(&mut out, pair.0.as_str(), pair.1.as_str());
                        proof {
                            assert(ps.take(k + 1).drop_last() =~= ps.take(k as int));
                            assert(ps.take(k + 1).last() == ps[k as int]);
                            assert(s5 + params_status(ps.take(k + 1)) =~= s5 + params_status(ps.take(k as int))
                                + param_status(ps[k as int]));
                        }
                    },
                    None => {},
                }
                k = k + 1;
            }
            assert(ps.take(np as int) =~= ps);
        }
        let ghost s6 = tone_lines(out@);
        push_line(&mut out, String::new(), Tone::Plain);
        if count > 0 {
            push_line(&mut out, string_of("按 Ctrl+T 开始翻译"), Tone::Accent);
        } else {
            push_line(&mut out, string_of("请在左侧添加 PDF 文件"), Tone::Dim);
        }
        proof {
            let vv = self@;
            assert(s1 =~= seq![
                ("状态: 就绪"@, Tone::Good),
                (Seq::<char>::empty(), Tone::Plain),
                ("已选文件: "@ + decimal(count as nat) + " 个"@, if count > 0 {Tone::Bright } else { Tone::Dim }),
            ] + Seq::new(count as nat, mk));
            assert(tone_lines(out@) =~= status_lines(vv));
        }
        out
    }
}

/// The progress panel's first line: which file of how many (and how many
/// are done) for a batch, else the file's name, else that the run is
/// starting.
pub open spec fn file_info(p: ProgressView) -> Seq<char> {
    if p.total_files > 1 {
        "["@ + decimal((p.current_file_idx + 1) as nat) + "/"@ + decimal(p.total_files as nat) + "] "@
            + p.current_file + "  (已完成 "@ + decimal(p.finished_count as nat) + ")"@
    } else if p.current_file.len() > 0 {
        p.current_file
    } else {
        "准备中..."@
    }
}

/// The progress panel's second line: the stage (with its step count when
/// known) and the time taken.
pub open spec fn stage_info(p: ProgressView, elapsed: Seq<char>) -> Seq<char> {
    if p.stage_total > 0 {
        "阶段: "@ + p.stage + " ("@ + decimal(p.stage_current as nat) + "/"@ + decimal(p.stage_total as nat)
            + ")    已用时间: "@ + elapsed
    } else if p.stage.len() > 0 {
        "阶段: "@ + p.stage + "    已用时间: "@ + elapsed
    } else {
        "正在启动...    已用时间: "@ + elapsed
    }
}

/// The part line, for a document split into parts.
pub open spec fn part_info(p: ProgressView) -> Option<Seq<char>> {
    if p.total_parts > 1 {
        Some("Part "@ + decimal((p.part_index + 1) as nat) + "/"@ + decimal(p.total_parts as nat))
    } else {
        None
    }
}

/// The last `n` lines of the log.
pub open spec fn log_tail(lines: Seq<Seq<char>>, n: nat) -> Seq<Seq<char>> {
    if lines.len() > n {
        lines.skip(lines.len() - n)
    } else {
        lines
    }
}

impl App {
    /// The progress panel's first line.
    pub fn file_info(&self) -> (r: String)
        requires
            self.progress.current_file_idx < usize::MAX,
        ensures
            r@ == file_info(self@.progress),
    {
        let p = &self.progress;
        if p.total_files > 1 {
            let mut t = string_of("[");
            t.append(u64_to_string((p.current_file_idx + 1) as u64).as_str());
            t.append("/");
            t.append(u64_to_string(p.total_files as u64).as_str());
            t.append("] ");
            t.append(p.current_file.as_str());
            t.append("  (已完成 ");
            t.append(u64_to_string(p.finished_count as u64).as_str());
            t.append(")");
            t
        } else if p.current_file.as_str().unicode_len() > 0 {
            p.current_file.clone()
        } else {
            string_of("准备中...")
        }
    }

    /// The progress panel's second line, with the time taken as given.
    pub fn stage_info(&self, elapsed: &str) -> (r: String)
        ensures
            r@ == stage_info(self@.progress, elapsed@),
    {
        let p = &self.progress;
        if p.stage_total > 0 {
            let mut t = string_of("阶段: ");
            t.append(p.stage.as_str());
            t.append(" (");
            t.append(u64_to_string(p.stage_current as u64).as_str());
            t.append("/");
            t.append(u64_to_string(p.stage_total as u64).as_str());
            t.append(")    已用时间: ");
            t.append(elapsed);
            t
        } else if p.stage.as_str().unicode_len() > 0 {
            let mut t = string_of("阶段: ");
            t.append(p.stage.as_str());
            t.append("    已用时间: ");
            t.append(elapsed);
            t
        } else {
            let mut t = string_of("正在启动...    已用时间: ");
            t.append(elapsed);
            t
        }
    }

    /// The part line, for a document split into parts.
    pub fn part_info(&self) -> (r: Option<String>)
        ensures
            match r {
                Some(t) => part_info(self@.progress) == Some(t@),
                None => part_info(self@.progress) is None,
            },
    {
        if self.progress.total_parts > 1 {
            let mut t = string_of("Part ");
            t.append(u64_to_string(self.progress.part_index as u64 + 1).as_str());
            t.append("/");
            t.append(u64_to_string(self.progress.total_parts as u64).as_str());
            Some(t)
        } else {
            None
        }
    }

    /// The last `n` lines of the log, oldest first.
    pub fn log_tail(&self, n: usize) -> (r: Vec<String>)
        ensures
            strings_view(r@) == log_tail(self@.log_lines, n as nat),
    {
        let len = self.log_lines.len();
        let start = if len > n {
            len - n
        } else {
            0
        };
        let ghost lv = self@.log_lines;
        let mut out: Vec<String> = Vec::new();
        let mut i: usize = start;
        while i < len
            invariant
                lv == strings_view(self.log_lines@),
                lv.len() == len,
                start <= i <= len,
                strings_view(out@) == lv.subrange(start as int, i as int),
            decreases len - i,
        {
            let ghost before = out@;
            out.push(self.log_lines[i].clone());
            proof {
                assert(strings_view(out@) =~= strings_view(before).push(lv[i as int]));
                assert(lv.subrange(start as int, i + 1) =~= lv.subrange(start as int, i as int).push(lv[i as int]));
            }
            i = i + 1;
        }
        assert(lv.subrange(start as int, len as int) =~= log_tail(lv, n as nat));
        out
    }
}

/// The footer's shortcuts for the screen and the form's mode.
pub open spec fn footer_text(v: AppView) -> Seq<char> {
    match v.screen {
        Screen::Configure => if v.dropdown_open is Some {
            "[↑↓]选择 [Enter]确认 [Esc]取消"@
        } else if v.editing {
            "[输入文本] [Enter/Esc]完成"@
        } else {
            "[↑↓]导航 [Enter]编辑 [Del]删除文件 [Ctrl+T]翻译 [Ctrl+S]保存 [Ctrl+Q]退出"@
        },
        Screen::Translating => "[Ctrl+X]取消 [Ctrl+Q]退出"@,
        Screen::Results => "[Enter]返回配置 [Ctrl+Q]退出"@,
        Screen::Loading => "正在加载..."@,
    }
}

/// The title of the right panel for the screen.
pub open spec fn right_title(s: Screen) -> Seq<char> {
    match s {
        Screen::Translating => " 翻译进度 "@,
        Screen::Results => " 翻译结果 "@,
        _ => " 状态 "@,
    }
}

impl App {
    /// The footer's shortcuts.
    pub fn footer_text(&self) -> (r: String)
        ensures
            r@ == footer_text(self@),
    {
        match self.screen {
            Screen::Configure => if self.dropdown_open.is_some() {
                string_of("[↑↓]选择 [Enter]确认 [Esc]取消")
            } else if self.editing {
                string_of("[输入文本] [Enter/Esc]完成")
            } else {
                string_of("[↑↓]导航 [Enter]编辑 [Del]删除文件 [Ctrl+T]翻译 [Ctrl+S]保存 [Ctrl+Q]退出")
            },
            Screen::Translating => string_of("[Ctrl+X]取消 [Ctrl+Q]退出"),
            Screen::Results => string_of("[Enter]返回配置 [Ctrl+Q]退出"),
            Screen::Loading => string_of("正在加载..."),
        }
    }

    /// The header's title: the program and the backend's version.
    pub fn header_title(&self) -> (r: String)
        ensures
            r@ == " PDFMathTranslate TUI v"@ + self@.python_version + " "@,
    {
        let mut t = string_of(" PDFMathTranslate TUI v");
        t.append(self.python_version.as_str());
        t.append(" ");
        t
    }

    /// The title of the right panel.
    pub fn right_title(&self) -> (r: String)
        ensures
            r@ == right_title(self@.screen),
    {
        match self.screen {
            Screen::Translating => string_of(" 翻译进度 "),
            Screen::Results => string_of(" 翻译结果 "),
            _ => string_of(" 状态 "),
        }
    }
}

/// The lines of the help popup.
pub open spec fn help_lines() -> Seq<Seq<char>> {
    seq![
        "Ctrl+T   开始翻译"@,
        "Ctrl+X   取消翻译"@,
        "Ctrl+S   保存配置"@,
        "Ctrl+Q   退出"@,
        ""@,
        "↑/↓      导航字段"@,
        "Enter    编辑/确认/切换复选框"@,
        "Esc      取消编辑/关闭下拉"@,
        "Del/⌫    删除最后一个选中文件"@,
        "←/→      切换左右面板"@,
        "?/F1     显示此帮助"@,
    ]
}

/// The lines of the help popup.
pub fn help_text() -> (r: Vec<String>)
    ensures
        strings_view(r@) == help_lines(),
{
    let mut v: Vec<String> = Vec::new();
    v.push(string_of("Ctrl+T   开始翻译"));
    v.push(string_of("Ctrl+X   取消翻译"));
    v.push(string_of("Ctrl+S   保存配置"));
    v.push(string_of("Ctrl+Q   退出"));
    v.push(string_of(""));
    v.push(string_of("↑/↓      导航字段"));
    v.push(string_of("Enter    编辑/确认/切换复选框"));
    v.push(string_of("Esc      取消编辑/关闭下拉"));
    v.push(string_of("Del/⌫    删除最后一个选中文件"));
    v.push(string_of("←/→      切换左右面板"));
    v.push(string_of("?/F1     显示此帮助"));
    assert(strings_view(v@) =~= help_lines());
    v
}

/// A row of the results panel: a line of text, or the time a file took
/// (a number of seconds, shown with one decimal).
pub enum ResultRow {
    Line(String, Tone),
    Seconds(JsonNumber),
}

/// The mathematical form of a [`ResultRow`].
pub enum ResultRowView {
    Line(Seq<char>, Tone),
    Seconds(NumberSpec),
}

impl View for ResultRow {
    type V = ResultRowView;

    open spec fn view(&self) -> ResultRowView {
        match self {
            ResultRow::Line(t, k) => ResultRowView::Line(t@, *k),
            ResultRow::Seconds(n) => ResultRowView::Seconds(n@),
        }
    }
}

/// The views of result rows.
pub open spec fn result_rows_view(r: Seq<ResultRow>) -> Seq<ResultRowView> {
    r.map_values(|x: ResultRow| x@)
}

/// `label` + a result path, when it is worth showing.
pub open spec fn result_path_row(result: Json, key: Seq<char>, label: Seq<char>) -> Seq<ResultRowView> {
    match shown_path(result, key) {
        Some(p) => seq![ResultRowView::Line(label + p, Tone::Plain)],
        None => Seq::empty(),
    }
}

/// The rows for file `i` of `count` results: a heading when there are
/// several, its output files, the time it took when reported, a blank line.
pub open spec fn file_result_rows(result: Json, i: int, count: nat) -> Seq<ResultRowView> {
    (if count > 1 {
        seq![ResultRowView::Line("--- 文件 "@ + decimal((i + 1) as nat) + " ---"@, Tone::Heading)]
    } else {
        Seq::empty()
    }) + result_path_row(result, "mono_pdf_path"@, "单语PDF: "@) + result_path_row(result, "dual_pdf_path"@, "双语PDF: "@)
        + result_path_row(result, "auto_extracted_glossary_path"@, "术语表:  "@) + seconds_row(result) + seq![
        ResultRowView::Line(Seq::empty(), Tone::Plain),
    ]
}

/// The rows of results `from` on.
pub open spec fn results_rows_from(results: Seq<Json>, from: int) -> Seq<ResultRowView>
    decreases results.len() - from,
{
    if from < 0 || from >= results.len() {
        Seq::empty()
    } else {
        file_result_rows(results[from], from, results.len()) + results_rows_from(results, from + 1)
    }
}

/// A counter of a usage entry, 0 when missing.
pub open spec fn counter(entry: Json, key: Seq<char>) -> int {
    match json_get(entry, key) {
        Some(x) => match json_as_i64(x) {
            Some(i) => i as int,
            None => 0,
        },
        None => 0,
    }
}

/// The usage line of one model, when it is reported.
pub open spec fn usage_row(usage: Json, key: Seq<char>, label: Seq<char>) -> Seq<ResultRowView> {
    match json_get(usage, key) {
        Some(e) => seq![
            ResultRowView::Line(
                label + "总计 "@ + signed_decimal(counter(e, "total"@)) + ", 输入 "@ + signed_decimal(
                    counter(e, "prompt"@),
                ) + ", 输出 "@ + signed_decimal(counter(e, "completion"@)),
                Tone::Plain,
            ),
        ],
        None => Seq::empty(),
    }
}

/// The results panel: the completion and the time taken, each file's
/// rows, the token usage of the main and terminology models when known,
/// and how to go back.
pub open spec fn results_rows(v: AppView, elapsed: Seq<char>) -> Seq<ResultRowView> {
    seq![
        ResultRowView::Line("翻译完成!"@, Tone::GoodBold),
        ResultRowView::Line("总用时: "@ + elapsed, Tone::Bright),
        ResultRowView::Line(Seq::empty(), Tone::Plain),
    ] + results_rows_from(v.results, 0) + (match v.token_usage {
        Some(u) => seq![ResultRowView::Line("Token 用量:"@, Tone::Heading)] + usage_row(u, "main"@, "  主翻译: "@)
            + usage_row(u, "term"@, "  术语:   "@),
        None => Seq::empty(),
    }) + seq![
        ResultRowView::Line(Seq::empty(), Tone::Plain),
        ResultRowView::Line("按 Enter 或 Esc 返回配置页面"@, Tone::Dim),
    ]
}

/// Appends a row.
fn push_result_row(out: &mut Vec<ResultRow>, row: ResultRow)
    ensures
        result_rows_view(final(out)@) == result_rows_view(old(out)@) + seq![row@],
{
    let ghost before = out@;
    out.push(row);
    assert(result_rows_view(out@) =~= result_rows_view(before) + seq![row@]);
}

/// Appends `label` + a result path, when it is worth showing.
fn push_result_path(out: &mut Vec<ResultRow>, result: &JsonValue, key: &str, label: &str)
    ensures
        result_rows_view(final(out)@) == result_rows_view(old(out)@) + result_path_row(result@, key@, label@),
{
    match crate::session::shown_path_of(result, key) {
        Some(p) => {
            let mut t = string_of(label);
            t.append(p.as_str());
            push_result_row(out, ResultRow::Line(t, Tone::Plain));
        },
        None => {
            assert(result_rows_view(out@) + Seq::<ResultRowView>::empty() =~= result_rows_view(out@));
        },
    }
}

/// A counter of a usage entry, 0 when missing.
fn counter_of(entry: &JsonValue, key: &str) -> (r: i64)
    ensures
        r as int == counter(entry@, key@),
{
    match entry.get(key) {
        Some(x) => match x.as_i64() {
            Some(i) => i,
            None => 0,
        },
        None => 0,
    }
}

/// Appends the usage line of one model, when it is reported.
fn push_usage_row(out: &mut Vec<ResultRow>, usage: &JsonValue, key: &str, label: &str)
    ensures
        result_rows_view(final(out)@) == result_rows_view(old(out)@) + usage_row(usage@, key@, label@),
{
    match usage.get(key) {
        Some(e) => {
            let mut t = string_of(label);
            t.append("总计 ");
            t.append(i64_to_string(counter_of(e, "total")).as_str());
            t.append(", 输入 ");
            t.append(i64_to_string(counter_of(e, "prompt")).as_str());
            t.append(", 输出 ");
            t.append(i64_to_string(counter_of(e, "completion")).as_str());
            push_result_row(out, ResultRow::Line(t, Tone::Plain));
        },
        None => {
            assert(result_rows_view(out@) + Seq::<ResultRowView>::empty() =~= result_rows_view(out@));
        },
    }
}

/// The time a file took, when its result reports one.
pub open spec fn seconds_row(result: Json) -> Seq<ResultRowView> {
    match json_get(result, "total_seconds"@) {
        Some(Json::Number(n)) => seq![ResultRowView::Seconds(n)],
        _ => Seq::empty(),
    }
}

/// Appends the time a file took, when its result reports one.
#[verifier::spinoff_prover]
fn push_seconds(out: &mut Vec<ResultRow>, result: &JsonValue)
    ensures
        result_rows_view(final(out)@) == result_rows_view(old(out)@) + seconds_row(result@),
{
    match result.get("total_seconds") {
        Some(x) => match x {
            JsonValue::Number(n) => {
                let c = match n {
                    JsonNumber::Int(v) => JsonNumber::Int(*v),
                    JsonNumber::UInt(v) => JsonNumber::UInt(*v),
                    JsonNumber::Float(t) => JsonNumber::Float(t.clone()),
                };
                push_result_row(out, ResultRow::Seconds(c));
            },
            _ => {
                assert(result_rows_view(out@) + Seq::<ResultRowView>::empty() =~= result_rows_view(out@));
            },
        },
        None => {
            assert(result_rows_view(out@) + Seq::<ResultRowView>::empty() =~= result_rows_view(out@));
        },
    }
}

/// Appends the rows of file `i` of `count` results.
#[verifier::spinoff_prover]
fn push_file_rows(out: &mut Vec<ResultRow>, result: &JsonValue, i: usize, count: usize)
    requires
        i < usize::MAX,
    ensures
        result_rows_view(final(out)@) == result_rows_view(old(out)@) + file_result_rows(result@, i as int, count as nat),
{
    let ghost s0 = result_rows_view(out@);
    if count > 1 {
        let mut t = string_of("--- 文件 ");
        t.append(u64_to_string((i + 1) as u64).as_str());
        t.append(" ---");
        push_result_row(out, ResultRow::Line(t, Tone::Heading));
    }
    let ghost s1 = result_rows_view(out@);
    push_result_path(out, result, "mono_pdf_path", "单语PDF: ");
    push_result_path(out, result, "dual_pdf_path", "双语PDF: ");
    push_result_path(out, result, "auto_extracted_glossary_path", "术语表:  ");
    let ghost s2 = result_rows_view(out@);
    push_seconds(out, result);
    let ghost s3 = result_rows_view(out@);
    push_result_row(out, ResultRow::Line(String::new(), Tone::Plain));
    proof {
        let r = result@;
        let h = if count > 1 {
            seq![ResultRowView::Line("--- 文件 "@ + decimal((i + 1) as nat) + " ---"@, Tone::Heading)]
        } else {
            Seq::empty()
        };
        assert(s1 =~= s0 + h);
        assert(s3 =~= s2 + seconds_row(r));
        assert(result_rows_view(out@) =~= s0 + file_result_rows(r, i as int, count as nat));
    }
}

impl App {
    /// The rows of the results panel, with the time taken as given.
    pub fn results_rows(&self, elapsed: &str) -> (r: Vec<ResultRow>)
        ensures
            result_rows_view(r@) == results_rows(self@, elapsed@),
    {
        let mut out: Vec<ResultRow> = Vec::new();
        push_result_row(&mut out, ResultRow::Line(string_of("翻译完成!"), Tone::GoodBold));
        let mut t = string_of("总用时: ");
        t.append(elapsed);
        push_result_row(&mut out, ResultRow::Line(t, Tone::Bright));
        push_result_row(&mut out, ResultRow::Line(String::new(), Tone::Plain));
        let ghost s0 = result_rows_view(out@);
        let ghost rv = self@.results;
        let count = self.results.len();
        let mut i: usize = 0;
        while i < count
            invariant
                rv == self@.results,
                rv.len() == count,
                i <= count,
                s0 + results_rows_from(rv, 0) == result_rows_view(out@) + results_rows_from(rv, i as int),
            decreases count - i,
        {
            let ghost before = result_rows_view(out@);
            assert(rv[i as int] == self.results@[i as int]@);
            push_file_rows(&mut out, &self.results[i], i, count);
            proof {
                assert(results_rows_from(rv, i as int) == file_result_rows(rv[i as int], i as int, count as nat)
                    + results_rows_from(rv, i + 1));
                assert(before + results_rows_from(rv, i as int) =~= result_rows_view(out@) + results_rows_from(
                    rv,
                    i + 1,
                ));
            }
            i = i + 1;
        }
        let ghost s1 = result_rows_view(out@);
        match &self.token_usage {
            Some(u) => {
                push_result_row(&mut out, ResultRow::Line(string_of("Token 用量:"), Tone::Heading));
                push_usage_row(&mut out, u, "main", "  主翻译: ");
                push_usage_row(&mut out, u, "term", "  术语:   ");
            },
            None => {},
        }
        let ghost s2 = result_rows_view(out@);
        push_result_row(&mut out, ResultRow::Line(String::new(), Tone::Plain));
        push_result_row(&mut out, ResultRow::Line(string_of("按 Enter 或 Esc 返回配置页面"), Tone::Dim));
        proof {
            assert(results_rows_from(rv, count as int) =~= Seq::<ResultRowView>::empty());
            assert(s1 =~= s0 + results_rows_from(rv, 0));
            let tail = match self@.token_usage {
                Some(u) => seq![ResultRowView::Line("Token 用量:"@, Tone::Heading)] + usage_row(u, "main"@, "  主翻译: "@)
                    + usage_row(u, "term"@, "  术语:   "@),
                None => Seq::empty(),
            };
            assert(s2 =~= s1 + tail);
            assert(result_rows_view(out@) =~= results_rows(self@, elapsed@));
        }
        out
    }
}

} // verus!

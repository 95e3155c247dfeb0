//! The decisions of the terminal front end's main loop: pasted paths, where
//! a key press goes, the typed file path, and the messages of a session.

use vstd::prelude::*;
use vstd::string::*;
use crate::action::{Action, ActionView};
use crate::app::{max_items, App, AppView, KeyCode, KeyEvent, Screen};
use crate::json::{json_as_str, json_get, Json, JsonValue};
use crate::protocol::strings_view;
use crate::text::{starts_with, str_eq, string_of, string_push, trim, trim_char, trim_char_spec, trim_spec};
use crate::update::{action_ok, add_file, apply_action};

verus! {

/// A line without the `\r` that ended it.
pub open spec fn strip_cr(l: Seq<char>) -> Seq<char> {
    if l.len() > 0 && l.last() == '\r' {
        l.drop_last()
    } else {
        l
    }
}

/// The finished lines, and the line being read, after reading `s`.
pub open spec fn line_state(s: Seq<char>) -> (Seq<Seq<char>>, Seq<char>)
    decreases s.len(),
{
    if s.len() == 0 {
        (Seq::empty(), Seq::empty())
    } else {
        let (ls, cur) = line_state(s.drop_last());
        if s.last() == '\n' {
            (ls.push(strip_cr(cur)), Seq::empty())
        } else {
            (ls, cur.push(s.last()))
        }
    }
}

/// `str::lines`: the text split at each `\n`, a `\r` before it dropped,
/// with no empty line after a final `\n`.
pub open spec fn text_lines(s: Seq<char>) -> Seq<Seq<char>> {
    let (ls, cur) = line_state(s);
    if cur.len() > 0 {
        ls.push(cur)
    } else {
        ls
    }
}

/// `s` with each `\ ` (an escaped space) read as a space, left to right.
pub open spec fn unescape_spaces(s: Seq<char>) -> Seq<char>
    decreases s.len(),
{
    if s.len() == 0 {
        Seq::empty()
    } else if s.len() >= 2 && s[0] == '\\' && s[1] == ' ' {
        seq![' '] + unescape_spaces(s.skip(2))
    } else {
        seq![s[0]] + unescape_spaces(s.drop_first())
    }
}

/// The path a pasted line stands for: trimmed, spaces unescaped, shell
/// quotes removed.
pub open spec fn pasted_path(line: Seq<char>) -> Seq<char> {
    trim_char_spec(trim_char_spec(unescape_spaces(trim_spec(line)), '\''), '"')
}

/// The state after adding the paths of the pasted lines, the `i`-th line
/// resolving `~/` against `homes[i]`.
pub open spec fn paste_apply(v: AppView, lines: Seq<Seq<char>>, homes: Seq<Option<Seq<char>>>) -> AppView
    decreases lines.len(),
{
    if lines.len() == 0 {
        v
    } else {
        let v1 = paste_apply(v, lines.drop_last(), homes.drop_last());
        let p = pasted_path(lines.last());
        if p.len() > 0 {
            add_file(v1, p, homes.last())
        } else {
            v1
        }
    }
}

/// After a paste the focus goes to the file field, on the configure screen.
pub open spec fn paste_done(v: AppView) -> AppView {
    if v.screen == Screen::Configure {
        AppView {focused_field: 0, ..v }
    } else {
        v
    }
}

/// There are never more lines than characters.
pub proof fn lemma_line_state_len(s: Seq<char>)
    ensures
        line_state(s).0.len() + line_state(s).1.len() <= s.len(),
    decreases s.len(),
{
    if s.len() > 0 {
        lemma_line_state_len(s.drop_last());
    }
}

/// `str::lines`.
pub fn lines_of(text: &str) -> (r: Vec<String>)
    ensures
        strings_view(r@) == text_lines(text@),
{
    let n = text.unicode_len();
    let mut lines: Vec<String> = Vec::new();
    let mut cur = String::new();
    let mut i: usize = 0;
    while i < n
        invariant
            n == text@.len(),
            i <= n,
            (strings_view(lines@), cur@) == line_state(text@.take(i as int)),
        decreases n - i,
    {
        let c = text.get_char(i);
        proof {
            assert(text@.take(i + 1).drop_last() =~= text@.take(i as int));
            assert(text@.take(i + 1).last() == c);
        }
        if c == '\n' {
            let ghost before = lines@;
            let mut l = String::new();
            std::mem::swap(&mut l, &mut cur);
            let k = l.as_str().unicode_len();
            let line = if k > 0 && l.as_str().get_char(k - 1) == '\r' {
                let t = string_of(l.as_str().substring_char(0, k - 1));
                assert(t@ =~= l@.drop_last());
                t
            } else {
                l
            };
            lines.push(line);
            assert(strings_view(lines@) =~= strings_view(before).push(line@));
        } else {
            string_push(&mut cur, c);
        }
        i = i + 1;
    }
    assert(text@.take(n as int) =~= text@);
    if cur.as_str().unicode_len() > 0 {
        let ghost before = lines@;
        lines.push(cur);
        assert(strings_view(lines@) =~= strings_view(before).push(cur@));
    }
    lines
}

/// `str::replace("\\ ", " ")`.
pub fn unescape_spaces_text(s: &str) -> (r: String)
    ensures
        r@ == unescape_spaces(s@),
{
    let n = s.unicode_len();
    let mut out = String::new();
    let mut i: usize = 0;
    assert(s@.skip(0) =~= s@);
    assert(out@ + unescape_spaces(s@) =~= unescape_spaces(s@));
    while i < n
        invariant
            n == s@.len(),
            i <= n,
            unescape_spaces(s@) == out@ + unescape_spaces(s@.skip(i as int)),
        decreases n - i,
    {
        let ghost rest = s@.skip(i as int);
        if i + 1 < n && s.get_char(i) == '\\' && s.get_char(i + 1) == ' ' {
            string_push(&mut out, ' ');
            proof {
                assert(rest[0] == '\\' && rest[1] == ' ');
                assert(rest.skip(2) =~= s@.skip(i + 2));
                assert(out@ + unescape_spaces(s@.skip(i + 2)) =~= (out@.drop_last()) + (seq![' '] + unescape_spaces(
                    rest.skip(2),
                )));
            }
            i = i + 2;
        } else {
            let c = s.get_char(i);
            string_push(&mut out, c);
            proof {
                assert(rest[0] == c);
                assert(rest.drop_first() =~= s@.skip(i + 1));
                assert(out@ + unescape_spaces(s@.skip(i + 1)) =~= (out@.drop_last()) + (seq![c] + unescape_spaces(
                    rest.drop_first(),
                )));
            }
            i = i + 1;
        }
    }
    assert(s@.skip(n as int) =~= Seq::<char>::empty());
    assert(out@ + Seq::<char>::empty() =~= out@);
    out
}

/// The path a pasted line stands for.
pub fn pasted_path_of(line: &str) -> (r: String)
    ensures
        r@ == pasted_path(line@),
{
    let t = trim(line);
    let u = unescape_spaces_text(t.as_str());
    let q = trim_char(u.as_str(), '\'');
    trim_char(q.as_str(), '"')
}

impl App {
    /// Adds the paths of pasted text, one per line (empty ones skipped), then
    /// moves the focus to the file field on the configure screen. Each line
    /// resolves `~/` against the home directory the environment gives at
    /// that moment.
    pub fn process_paste(&mut self, text: &str)
        requires
            old(self).wf(),
            old(self)@.selected_files.len() + text@.len() < max_items(),
        ensures
            final(self).wf(),
            exists|homes: Seq<Option<Seq<char>>>|
                homes.len() == text_lines(text@).len() && final(self)@ == paste_done(
                    paste_apply(old(self)@, text_lines(text@), homes),
                ),
    {
        let lines = lines_of(text);
        let ghost lv = text_lines(text@);
        let ghost v0 = self@;
        proof {
            lemma_line_state_len(text@);
        }
        let ghost mut homes: Seq<Option<Seq<char>>> = Seq::empty();
        let mut i: usize = 0;
        while i < lines.len()
            invariant
                lv == strings_view(lines@),
                lv.len() <= text@.len(),
                v0.selected_files.len() + text@.len() < max_items(),
                i <= lines@.len(),
                homes.len() == i,
                self.wf(),
                self@.selected_files.len() <= v0.selected_files.len() + i,
                self@ == paste_apply(v0, lv.take(i as int), homes),
            decreases lines@.len() - i,
        {
            let p = pasted_path_of(lines[i].as_str());
            proof {
                assert(lv[i as int] == lines@[i as int]@);
                assert(lv.take(i + 1).drop_last() =~= lv.take(i as int));
                assert(lv.take(i + 1).last() == lv[i as int]);
            }
            let ghost before = self@;
            let ghost prev = homes;
            let ghost pv = p@;
            assert(pv == pasted_path(lv[i as int]));
            if p.as_str().unicode_len() > 0 {
                self.apply(Action::AddFile(p));
                proof {
                    assert(exists|h: Option<Seq<char>>| self@ == add_file(before, pv, h));
                    let h = choose|h: Option<Seq<char>>| self@ == add_file(before, pv, h);
                    homes = homes.push(h);
                    assert(homes.drop_last() =~= prev);
                    assert(homes.last() == h);
                    assert(self@ == paste_apply(v0, lv.take(i + 1), homes));
                }
            } else {
                proof {
                    homes = homes.push(None);
                    assert(homes.drop_last() =~= prev);
                    assert(self@ == paste_apply(v0, lv.take(i + 1), homes));
                }
            }
            i = i + 1;
        }
        proof {
            assert(lv.take(lv.len() as int) =~= lv);
        }
        if self.screen == Screen::Configure {
            self.focused_field = 0;
        }
    }
}

/// The state once a path typed into the file field is added, when the
/// action leaves that field: the field is emptied and its trimmed text
/// added, `~/` resolving against `home`.
pub open spec fn commit_typed(v: AppView, a: ActionView, home: Option<Seq<char>>) -> AppView {
    if a is ExitField && v.focused_field == 0 && v.file_input.len() > 0 {
        add_file(AppView {file_input: Seq::empty(), ..v }, trim_spec(v.file_input), home)
    } else {
        v
    }
}

/// Where a key press goes in the main loop.
#[derive(Debug, Clone, Copy, PartialEq, Eq, Structural)]
pub enum KeyRoute {
    /// A character typed on the configure form while nothing is edited:
    /// collected as possibly pasted text.
    Buffer(char),
    /// Another key there, with collected text pending: the text is taken
    /// as a paste first, then the key is handled.
    FlushThenHandle,
    /// The key is handled.
    Handle,
}

/// Where a key press goes, given whether collected text is pending.
pub open spec fn key_route(v: AppView, key: KeyEvent, pending: bool) -> KeyRoute {
    if v.screen == Screen::Configure && !v.editing && v.dropdown_open is None && v.popup is None {
        match key.code {
            KeyCode::Char(c) => if !key.control {
                KeyRoute::Buffer(c)
            } else {
                KeyRoute::Handle
            },
            _ => if pending {
                KeyRoute::FlushThenHandle
            } else {
                KeyRoute::Handle
            },
        }
    } else {
        KeyRoute::Handle
    }
}

impl App {
    /// Where a key press goes, given whether collected text is pending.
    pub fn route_key(&self, key: KeyEvent, pending: bool) -> (r: KeyRoute)
        ensures
            r == key_route(self@, key, pending),
    {
        if self.screen == Screen::Configure && !self.editing && self.dropdown_open.is_none()
            && self.popup.is_none() {
            match key.code {
                KeyCode::Char(c) => if !key.control {
                    KeyRoute::Buffer(c)
                } else {
                    KeyRoute::Handle
                },
                _ => if pending {
                    KeyRoute::FlushThenHandle
                } else {
                    KeyRoute::Handle
                },
            }
        } else {
            KeyRoute::Handle
        }
    }

    /// Applies an action from the keyboard. Leaving the file field with a
    /// typed path first adds that path (trimmed) and empties the field.
    pub fn apply_key_action(&mut self, action: Action)
        requires
            old(self).wf(),
            action_ok(old(self)@, action@),
            old(self)@.selected_files.len() + 1 < max_items(),
        ensures
            final(self).wf(),
            exists|h: Option<Seq<char>>|
                #![trigger commit_typed(old(self)@, action@, h)]
                if action@ is AddFile {
                    exists|h2: Option<Seq<char>>|
                        final(self)@ == add_file(commit_typed(old(self)@, action@, h), action@->AddFile_0, h2)
                } else {
                    final(self)@ == apply_action(commit_typed(old(self)@, action@, h), action@)
                },
    {
        let ghost v = self@;
        let ghost a = action@;
        let commit = match &action {
            Action::ExitField => true,
            _ => false,
        } && self.focused_field == 0 && self.file_input.as_str().unicode_len() > 0;
        let ghost mut h: Option<Seq<char>> = None;
        if commit {
            let path = trim(self.file_input.as_str());
            self.file_input = String::new();
            let ghost cleared = self@;
            assert(cleared == (AppView {file_input: Seq::empty(), ..v }));
            self.apply(Action::AddFile(path));
            proof {
                h = choose|h: Option<Seq<char>>| self@ == add_file(cleared, trim_spec(v.file_input), h);
            }
        }
        let ghost v1 = self@;
        proof {
            assert(action_ok(v1, a));
            assert(v1 == commit_typed(v, a, h));
        }
        self.apply(action);
    }

    /// A translate command could not be sent: back to the form, with the
    /// reason shown.
    pub fn translation_not_sent(&mut self, reason: &str)
        ensures
            final(self)@ == (AppView {
                screen: Screen::Configure,
                popup: Some(crate::app::PopupView::Error(send_failed_message(reason@))),
                ..old(self)@
            }),
    {
        self.screen = Screen::Configure;
        self.popup = Some(crate::app::Popup::Error(send_failed_text(reason)));
    }

    /// The run was cancelled: back to the form, and a log line says so.
    pub fn translation_cancelled(&mut self)
        ensures
            final(self)@ == (AppView {
                screen: Screen::Configure,
                log_lines: crate::update::log_push(old(self)@.log_lines, "翻译已取消"@),
                ..old(self)@
            }),
    {
        self.screen = Screen::Configure;
        self.push_log(string_of("翻译已取消"));
    }

    /// The outcome of saving the configuration on request: a log line, or
    /// an error popup.
    pub fn config_saved(&mut self, result: Result<(), String>)
        ensures
            match result {
                Ok(()) => final(self)@ == (AppView {
                    log_lines: crate::update::log_push(old(self)@.log_lines, "配置已保存"@),
                    ..old(self)@
                }),
                Err(e) => final(self)@ == (AppView {
                    popup: Some(crate::app::PopupView::Error("保存配置失败: "@ + e@)),
                    ..old(self)@
                }),
            },
    {
        match result {
            Ok(()) => self.push_log(string_of("配置已保存")),
            Err(e) => {
                let mut m = string_of("保存配置失败: ");
                m.append(e.as_str());
                self.popup = Some(crate::app::Popup::Error(m));
            },
        }
    }
}

/// The message when a translate command could not be sent.
pub open spec fn send_failed_message(reason: Seq<char>) -> Seq<char> {
    "无法发送翻译命令: "@ + reason + "\nPython 进程可能已崩溃"@
}

/// The message when a translate command could not be sent.
pub fn send_failed_text(reason: &str) -> (r: String)
    ensures
        r@ == send_failed_message(reason@),
{
    let mut m = string_of("无法发送翻译命令: ");
    m.append(reason);
    m.append("\nPython 进程可能已崩溃");
    m
}

/// The log line when saving before a run failed.
pub fn autosave_failed_line(reason: &str) -> (r: String)
    ensures
        r@ == "自动保存配置失败: "@ + reason@,
{
    let mut m = string_of("自动保存配置失败: ");
    m.append(reason);
    m
}

/// The log line after trying to load the configuration: loaded, not
/// found, or why it failed.
pub fn config_load_line(result: Result<bool, String>) -> (r: String)
    ensures
        match result {
            Ok(true) => r@ == "已加载配置文件"@,
            Ok(false) => r@ == "未找到配置文件，使用默认值"@,
            Err(e) => r@ == "加载配置失败: "@ + e@,
        },
{
    match result {
        Ok(true) => string_of("已加载配置文件"),
        Ok(false) => string_of("未找到配置文件，使用默认值"),
        Err(e) => {
            let mut m = string_of("加载配置失败: ");
            m.append(e.as_str());
            m
        },
    }
}

/// The message when the backend process is gone.
pub fn backend_exited_message() -> (r: String)
    ensures
        r@ == "Python 进程已退出"@,
{
    string_of("Python 进程已退出")
}

/// The files named on the command line: every argument after the program
/// name that does not start with `-`.
pub open spec fn cli_file_args(args: Seq<Seq<char>>) -> Seq<Seq<char>>
    decreases args.len(),
{
    if args.len() <= 1 {
        Seq::empty()
    } else {
        let rest = cli_file_args(args.drop_last());
        let a = args.last();
        if a.len() > 0 && a[0] == '-' {
            rest
        } else {
            rest.push(a)
        }
    }
}

/// The files named on the command line.
pub fn cli_files(args: &Vec<String>) -> (r: Vec<String>)
    ensures
        strings_view(r@) == cli_file_args(strings_view(args@)),
{
    let ghost av = strings_view(args@);
    let mut files: Vec<String> = Vec::new();
    if args.len() <= 1 {
        return files;
    }
    let mut i: usize = 1;
    assert(av.take(1).len() <= 1);
    while i < args.len()
        invariant
            av == strings_view(args@),
            av.len() == args@.len(),
            1 <= i <= args@.len(),
            strings_view(files@) == cli_file_args(av.take(i as int)),
        decreases args@.len() - i,
    {
        proof {
            assert(av.take(i + 1).drop_last() =~= av.take(i as int));
            assert(av.take(i + 1).last() == args@[i as int]@);
        }
        proof {
            reveal_strlit("-");
            let a = av[i as int];
            if a.len() > 0 && a[0] == '-' {
                assert(a.take(1) =~= "-"@);
            }
        }
        let dash = starts_with(args[i].as_str(), "-");
        proof {
            reveal_strlit("-");
            let a = av[i as int];
            assert(a == args@[i as int]@);
            assert("-"@.len() == 1);
            assert("-"@[0] == '-');
            if dash {
                assert(a.take(1)[0] == a[0]);
            }
            if a.len() > 0 && a[0] == '-' {
                assert(a.take(1) =~= "-"@);
            }
            assert(dash == (a.len() > 0 && a[0] == '-'));
            assert(cli_file_args(av.take(i + 1)) == if dash {
                cli_file_args(av.take(i as int))
            } else {
                cli_file_args(av.take(i as int)).push(a)
            });
        }
        if !dash {
            let ghost before = files@;
            files.push(args[i].clone());
            assert(strings_view(files@) =~= strings_view(before).push(args@[i as int]@));
        }
        i = i + 1;
    }
    assert(av.take(av.len() as int) =~= av);
    files
}

/// A result path worth showing: present, non-empty, and not the word
/// `null`.
pub open spec fn shown_path(result: Json, key: Seq<char>) -> Option<Seq<char>> {
    match json_get(result, key) {
        Some(x) => match json_as_str(x) {
            Some(s) => if s.len() > 0 && s != "null"@ {
                Some(s)
            } else {
                None
            },
            None => None,
        },
        None => None,
    }
}

/// `label` + the path, when it is worth showing.
pub open spec fn path_line(result: Json, key: Seq<char>, label: Seq<char>) -> Seq<Seq<char>> {
    match shown_path(result, key) {
        Some(p) => seq![label + p],
        None => Seq::empty(),
    }
}

/// The summary printed after a command-line run: each result's output
/// files, then the time taken.
pub open spec fn summary_lines(results: Seq<Json>, elapsed: Seq<char>) -> Seq<Seq<char>>
    decreases results.len(),
{
    if results.len() == 0 {
        seq!["翻译完成 ("@ + elapsed + ")"@]
    } else {
        let r = results[0];
        path_line(r, "mono_pdf_path"@, "单语PDF: "@) + path_line(r, "dual_pdf_path"@, "双语PDF: "@)
            + summary_lines(results.drop_first(), elapsed)
    }
}

/// A result path worth showing.
pub fn shown_path_of(result: &JsonValue, key: &str) -> (r: Option<String>)
    ensures
        match r {
            Some(s) => shown_path(result@, key@) == Some(s@),
            None => shown_path(result@, key@) is None,
        },
{
    match result.get(key) {
        Some(x) => match x.as_str() {
            Some(s) => if s.unicode_len() > 0 && !str_eq(s, "null") {
                Some(string_of(s))
            } else {
                None
            },
            None => None,
        },
        None => None,
    }
}

/// Appends `label` + the path, when it is worth showing.
fn push_path_line(out: &mut Vec<String>, result: &JsonValue, key: &str, label: &str)
    ensures
        strings_view(final(out)@) == strings_view(old(out)@) + path_line(result@, key@, label@),
{
    match shown_path_of(result, key) {
        Some(p) => {
            let mut l = string_of(label);
            l.append(p.as_str());
            let ghost before = out@;
            out.push(l);
            assert(strings_view(out@) =~= strings_view(before) + seq![label@ + p@]);
        },
        None => {
            assert(strings_view(out@) + Seq::<Seq<char>>::empty() =~= strings_view(out@));
        },
    }
}

/// Lemma: the summary of the results from `i` on unfolds by one result.
proof fn lemma_summary_step(results: Seq<Json>, elapsed: Seq<char>, i: int)
    requires
        0 <= i < results.len(),
    ensures
        summary_lines(results.skip(i), elapsed) == path_line(results[i], "mono_pdf_path"@, "单语PDF: "@)
            + path_line(results[i], "dual_pdf_path"@, "双语PDF: "@) + summary_lines(results.skip(i + 1), elapsed),
{
    assert(results.skip(i).drop_first() =~= results.skip(i + 1));
    assert(results.skip(i)[0] == results[i]);
}

/// The summary printed after a command-line run.
pub fn summary(results: &Vec<JsonValue>, elapsed: &str) -> (r: Vec<String>)
    ensures
        strings_view(r@) == summary_lines(crate::app::jsons_view(results@), elapsed@),
{
    let ghost rv = crate::app::jsons_view(results@);
    let mut out: Vec<String> = Vec::new();
    let mut i: usize = 0;
    assert(rv.skip(0) =~= rv);
    assert(strings_view(out@) =~= Seq::<Seq<char>>::empty());
    while i < results.len()
        invariant
            rv == crate::app::jsons_view(results@),
            rv.len() == results@.len(),
            i <= results@.len(),
            summary_lines(rv, elapsed@) == strings_view(out@) + summary_lines(rv.skip(i as int), elapsed@),
        decreases results@.len() - i,
    {
        let ghost before = strings_view(out@);
        proof {
            lemma_summary_step(rv, elapsed@, i as int);
            assert(rv[i as int] == results@[i as int]@);
        }
        push_path_line(&mut out, &results[i], "mono_pdf_path", "单语PDF: ");
        push_path_line(&mut out, &results[i], "dual_pdf_path", "双语PDF: ");
        proof {
            let a = path_line(rv[i as int], "mono_pdf_path"@, "单语PDF: "@);
            let b = path_line(rv[i as int], "dual_pdf_path"@, "双语PDF: "@);
            let c = summary_lines(rv.skip(i + 1), elapsed@);
            assert(before + (a + b + c) =~= before + a + b + c);
        }
        i = i + 1;
    }
    let mut last = string_of("翻译完成 (");
    last.append(elapsed);
    last.append(")");
    let ghost before = strings_view(out@);
    out.push(last);
    proof {
        assert(rv.skip(rv.len() as int) =~= Seq::<Json>::empty());
        assert(strings_view(out@) =~= before.push(last@));
        assert(before + seq!["翻译完成 ("@ + elapsed@ + ")"@] =~= before.push(last@));
    }
    out
}

/// Rows left for the form: the terminal height less the header, the footer
/// and the panel border.
pub fn form_height(height: u16) -> (r: usize)
    ensures
        r == if height >= 6 {height - 6 } else { 0 },
{
    if height >= 6 {
        (height - 6) as usize
    } else {
        0
    }
}

/// Does the main loop end: on quit, or once a command-line run shows its
/// results?
pub fn session_over(app: &App, cli_mode: bool) -> (r: bool)
    ensures
        r == (app.should_quit || (cli_mode && app.screen == Screen::Results)),
{
    (cli_mode && app.screen == Screen::Results) || app.should_quit
}

} // verus!

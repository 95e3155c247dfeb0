//! Starting a translation run, and the clock shown while it runs.

use vstd::prelude::*;
use vstd::string::*;
use crate::app::{initial_progress, App, AppView, ProgressState, ProgressView, Screen};
use crate::json::Json;
use crate::platform::{duration_secs, extension_of, instant_elapsed, instant_now, path_exists, path_extension};
use crate::protocol::strings_view;
use crate::text::{decimal, eq_ignore_ascii_case, eq_ignore_ascii_case_spec, string_of, u64_to_string};
use crate::update::{display_name, display_name_of, log_push};

verus! {

/// Does the path name a PDF file: an extension equal to `pdf` in any ASCII
/// case?
pub open spec fn is_pdf_path(f: Seq<char>) -> bool {
    match extension_of(f) {
        Some(e) => eq_ignore_ascii_case_spec(e, "pdf"@),
        None => false,
    }
}

/// What is wrong with one selected file, given whether it exists.
pub open spec fn file_problem(f: Seq<char>, exists: bool) -> Option<Seq<char>> {
    if !exists {
        Some("文件不存在: "@ + f)
    } else if !is_pdf_path(f) {
        Some("不是 PDF 文件: "@ + f)
    } else {
        None
    }
}

/// The first problem among the files, in order, given whether each exists.
pub open spec fn first_file_problem(files: Seq<Seq<char>>, exists: Seq<bool>) -> Option<Seq<char>>
    decreases files.len(),
{
    if files.len() == 0 || exists.len() == 0 {
        None
    } else {
        match file_problem(files[0], exists[0]) {
            Some(m) => Some(m),
            None => first_file_problem(files.drop_first(), exists.drop_first()),
        }
    }
}

/// Why a translation cannot start: nothing selected, or the first file that
/// is missing or not a PDF.
pub open spec fn start_problem(files: Seq<Seq<char>>, exists: Seq<bool>) -> Option<Seq<char>> {
    if files.len() == 0 {
        Some("请先选择要翻译的 PDF 文件"@)
    } else {
        first_file_problem(files, exists)
    }
}

/// The log line that opens a run.
pub open spec fn start_line(n: nat) -> Seq<char> {
    "开始翻译 "@ + decimal(n) + " 个文件..."@
}

/// The state once a run over the selected files has started at `now`.
pub open spec fn translation_started(v: AppView, now: std::time::Instant) -> AppView {
    AppView {
        progress: ProgressView {
            total_files: v.selected_files.len() as usize,
            current_file: if v.selected_files.len() > 0 {
                display_name(v.selected_files[0])
            } else {
                Seq::empty()
            },
            start_time: Some(now),
            ..initial_progress()
        },
        results: Seq::empty(),
        token_usage: None,
        screen: Screen::Translating,
        log_lines: log_push(Seq::empty(), start_line(v.selected_files.len())),
        ..v
    }
}

/// Two digits at least, zero-padded.
pub open spec fn pad2(n: nat) -> Seq<char> {
    if n < 10 {
        seq!['0'] + decimal(n)
    } else {
        decimal(n)
    }
}

/// `MM:SS` for a number of seconds (minutes may run past two digits).
pub open spec fn clock_text(secs: nat) -> Seq<char> {
    pad2(secs / 60) + ":"@ + pad2(secs % 60)
}

/// Is the path a PDF by its extension?
pub fn is_pdf_file(f: &str) -> (r: bool)
    ensures
        r == is_pdf_path(f@),
{
    match path_extension(f) {
        Some(e) => eq_ignore_ascii_case(e.as_str(), "pdf"),
        None => false,
    }
}

/// What is wrong with one selected file, given whether it exists.
pub fn check_file(f: &str, exists: bool) -> (r: Option<String>)
    ensures
        match r {
            Some(m) => file_problem(f@, exists) == Some(m@),
            None => file_problem(f@, exists) is None,
        },
{
    if !exists {
        let mut m = string_of("文件不存在: ");
        m.append(f);
        Some(m)
    } else if !is_pdf_file(f) {
        let mut m = string_of("不是 PDF 文件: ");
        m.append(f);
        Some(m)
    } else {
        None
    }
}

/// Skipping the files checked so far.
proof fn lemma_first_problem_skip(files: Seq<Seq<char>>, exists: Seq<bool>, i: int)
    requires
        0 <= i <= files.len(),
        files.len() == exists.len(),
        forall|k: int| 0 <= k < i ==> (#[trigger] file_problem(files[k], exists[k])) is None,
    ensures
        first_file_problem(files, exists) == first_file_problem(files.skip(i), exists.skip(i)),
    decreases i,
{
    if i > 0 {
        assert(file_problem(files[0], exists[0]) is None);
        let f1 = files.drop_first();
        let e1 = exists.drop_first();
        assert forall|k: int| 0 <= k < i - 1 implies (#[trigger] file_problem(f1[k], e1[k])) is None by {
            assert(f1[k] == files[k + 1]);
            assert(e1[k] == exists[k + 1]);
            assert(file_problem(files[k + 1], exists[k + 1]) is None);
        }
        lemma_first_problem_skip(f1, e1, i - 1);
        assert(f1.skip(i - 1) =~= files.skip(i));
        assert(e1.skip(i - 1) =~= exists.skip(i));
        assert(first_file_problem(files, exists) == first_file_problem(f1, e1));
    } else {
        assert(files.skip(0) =~= files);
        assert(exists.skip(0) =~= exists);
    }
}

/// Why a translation cannot start, given whether each selected file exists.
pub fn translation_problem(files: &Vec<String>, exists: &Vec<bool>) -> (r: Option<String>)
    requires
        exists@.len() == files@.len(),
    ensures
        match r {
            Some(m) => start_problem(strings_view(files@), exists@) == Some(m@),
            None => start_problem(strings_view(files@), exists@) is None,
        },
{
    let ghost fv = strings_view(files@);
    if files.len() == 0 {
        return Some(string_of("请先选择要翻译的 PDF 文件"));
    }
    let mut i: usize = 0;
    while i < files.len()
        invariant
            fv == strings_view(files@),
            fv.len() == files@.len(),
            exists@.len() == files@.len(),
            files@.len() > 0,
            i <= files@.len(),
            forall|k: int| 0 <= k < i ==> (#[trigger] file_problem(fv[k], exists@[k])) is None,
        decreases files@.len() - i,
    {
        let p = check_file(files[i].as_str(), exists[i]);
        proof {
            assert(fv[i as int] == files@[i as int]@);
        }
        match p {
            Some(m) => {
                proof {
                    lemma_first_problem_skip(fv, exists@, i as int);
                    assert(fv.skip(i as int)[0] == fv[i as int]);
                    assert(exists@.skip(i as int)[0] == exists@[i as int]);
                }
                return Some(m);
            },
            None => {},
        }
        i = i + 1;
    }
    proof {
        lemma_first_problem_skip(fv, exists@, i as int);
    }
    None
}

/// The log line that opens a run over `n` files.
pub fn start_text(n: usize) -> (r: String)
    ensures
        r@ == start_line(n as nat),
{
    let mut s = string_of("开始翻译 ");
    s.append(u64_to_string(n as u64).as_str());
    s.append(" 个文件...");
    s
}

/// Two digits at least, zero-padded.
fn pad2_text(n: u64) -> (r: String)
    ensures
        r@ == pad2(n as nat),
{
    if n < 10 {
        let mut s = string_of("0");
        proof {
            reveal_strlit("0");
        }
        s.append(u64_to_string(n).as_str());
        assert(s@ =~= seq!['0'] + decimal(n as nat));
        s
    } else {
        u64_to_string(n)
    }
}

/// `MM:SS` for a number of seconds; `--:--` when the clock has not started.
pub fn clock_display(secs: Option<u64>) -> (r: String)
    ensures
        match secs {
            Some(s) => r@ == clock_text(s as nat),
            None => r@ == "--:--"@,
        },
{
    match secs {
        Some(s) => {
            let mut t = pad2_text(s / 60);
            t.append(":");
            t.append(pad2_text(s % 60).as_str());
            t
        },
        None => string_of("--:--"),
    }
}

impl App {
    /// Starts a run at `now`: fresh progress over the selected files, no
    /// results yet, the translating screen, and a log holding only the
    /// opening line.
    #[verifier::spinoff_prover]
    pub fn begin_translation(&mut self, now: std::time::Instant)
        ensures
            final(self)@ == translation_started(old(self)@, now),
    {
        let ghost v0 = self@;
        let mut p = ProgressState::new();
        p.total_files = self.selected_files.len();
        p.current_file_idx = 0;
        p.start_time = Some(now);
        if self.selected_files.len() > 0 {
            p.current_file = display_name_of(self.selected_files[0].as_str());
        }
        self.progress = p;
        self.results.clear();
        self.token_usage = None;
        self.screen = Screen::Translating;
        self.log_lines.clear();
        proof {
            assert(crate::app::jsons_view(self.results@) =~= Seq::<Json>::empty());
            assert(strings_view(self.log_lines@) =~= Seq::<Seq<char>>::empty());
        }
        let line = start_text(self.selected_files.len());
        self.push_log(line);
    }

    /// Checks the selection and, when every file exists and is a PDF,
    /// starts a run. Returns the message to show when it cannot start.
    /// Whether a file exists is up to the file system at the moment of the
    /// check: the result is the verdict of [`translation_problem`] for some
    /// such answers, and the run starts exactly when that verdict is empty.
    pub fn prepare_translation(&mut self) -> (r: Option<String>)
        ensures
            exists|ex: Seq<bool>|
                ex.len() == old(self)@.selected_files.len() && match r {
                    Some(m) => start_problem(old(self)@.selected_files, ex) == Some(m@),
                    None => start_problem(old(self)@.selected_files, ex) is None,
                },
            r is Some ==> final(self)@ == old(self)@,
            r is None ==> exists|now: std::time::Instant|
                final(self)@ == translation_started(old(self)@, now),
    {
        let mut exists: Vec<bool> = Vec::new();
        let mut i: usize = 0;
        while i < self.selected_files.len()
            invariant
                i <= self.selected_files@.len(),
                exists@.len() == i,
            decreases self.selected_files@.len() - i,
        {
            exists.push(path_exists(self.selected_files[i].as_str()));
            i = i + 1;
        }
        let p = translation_problem(&self.selected_files, &exists);
        proof {
            let ex = exists@;
            assert(ex.len() == old(self)@.selected_files.len());
            assert(match p {
                Some(m) => start_problem(old(self)@.selected_files, ex) == Some(m@),
                None => start_problem(old(self)@.selected_files, ex) is None,
            });
        }
        match p {
            Some(m) => Some(m),
            None => {
                let now = instant_now();
                self.begin_translation(now);
                None
            },
        }
    }

    /// Time since the run started, when it has.
    pub fn elapsed_time(&self) -> (r: Option<std::time::Duration>)
        ensures
            r is Some == self.progress.start_time is Some,
    {
        match &self.progress.start_time {
            Some(t) => Some(instant_elapsed(t)),
            None => None,
        }
    }

    /// The run's clock as `MM:SS`, or `--:--` before a run.
    pub fn elapsed_display(&self) -> (r: String)
        ensures
            self.progress.start_time is None ==> r@ == "--:--"@,
            self.progress.start_time is Some ==> exists|s: u64| r@ == clock_text(s as nat),
    {
        let secs = match self.elapsed_time() {
            Some(d) => Some(duration_secs(&d)),
            None => None,
        };
        clock_display(secs)
    }
}

} // verus!

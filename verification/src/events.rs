//! How the front end takes in what the backend reports.

use vstd::prelude::*;
use vstd::string::*;
use crate::app::{App, AppView, Popup, Screen};
use crate::json::JsonValue;
use crate::ordered_map::{map_get_index_of, string_map_entries};
use crate::protocol::{
    engines_view, usage_view, EngineSchema, EngineSchemaView, F64Bits, ProgressData, PythonEvent,
    TokenUsage,
};
use crate::text::{eq_ignore_ascii_case, str_eq, string_of, u64_to_string};
use crate::update::{
    display_name_of, error_message, event_ok, event_update, file_done_line, file_finished,
    gemini_index, progress_reported, schema_received,
};
use crate::usage::{merge_token_usage, merge_usage_ok, usage_json, usage_to_json};

verus! {

/// Once the first Gemini engine is at `i`, every longer prefix finds it there.
proof fn lemma_gemini_index_extends(ev: Seq<EngineSchemaView>, i: int, k: int)
    requires
        0 <= i < k <= ev.len(),
        gemini_index(ev.take(i + 1)) == Some(i),
    ensures
        gemini_index(ev.take(k)) == Some(i),
    decreases k - i,
{
    if k > i + 1 {
        lemma_gemini_index_extends(ev, i, k - 1);
        assert(ev.take(k).drop_last() =~= ev.take(k - 1));
    }
}

/// The position of the first engine that is Gemini by name (any ASCII case)
/// or by command-line flag.
pub fn gemini_position(engines: &Vec<EngineSchema>) -> (r: Option<usize>)
    ensures
        match r {
            Some(i) => gemini_index(engines_view(engines@)) == Some(i as int),
            None => gemini_index(engines_view(engines@)) is None,
        },
{
    let ghost ev = engines_view(engines@);
    let mut i: usize = 0;
    while i < engines.len()
        invariant
            i <= engines@.len(),
            ev == engines_view(engines@),
            ev.len() == engines@.len(),
            gemini_index(ev.take(i as int)) is None,
        decreases engines@.len() - i,
    {
        proof {
            assert(ev.take(i + 1).drop_last() =~= ev.take(i as int));
            assert(ev.take(i + 1).last() == engines@[i as int]@);
        }
        if eq_ignore_ascii_case(engines[i].name.as_str(), "gemini") || str_eq(
            engines[i].cli_flag.as_str(),
            "gemini",
        ) {
            proof {
                lemma_gemini_index_extends(ev, i as int, ev.len() as int);
                assert(ev.take(ev.len() as int) =~= ev);
            }
            return Some(i);
        }
        i = i + 1;
    }
    assert(ev.take(ev.len() as int) =~= ev);
    None
}

/// The message shown for a backend error: `[type] error`, then the details
/// on a line of their own when there are any.
pub fn error_text(error: &str, error_type: &str, details: &str) -> (r: String)
    ensures
        r@ == error_message(error@, error_type@, details@),
{
    let mut s = string_of("[");
    s.append(error_type);
    s.append("] ");
    s.append(error);
    if details.unicode_len() > 0 {
        s.append("\n");
        s.append(details);
    }
    s
}

/// The log line written when one of several files is done.
pub fn file_done_text(done: usize, total: usize) -> (r: String)
    ensures
        r@ == file_done_line(done as nat, total as nat),
{
    let mut s = string_of("文件 ");
    s.append(u64_to_string(done as u64).as_str());
    s.append("/");
    s.append(u64_to_string(total as u64).as_str());
    s.append(" 翻译完成");
    s
}

impl App {
    /// Takes in the engines and languages the backend offers.
    #[verifier::spinoff_prover]
    fn receive_schema(&mut self, engines: Vec<EngineSchema>, languages: indexmap::IndexMap<String, String>)
        ensures
            final(self)@ == schema_received(old(self)@, engines_view(engines@), string_map_entries(languages)),
    {
        self.engine_schemas = engines;
        self.language_map = languages;
        match gemini_position(&self.engine_schemas) {
            Some(i) => self.engine_idx = i,
            None => {},
        }
        self.reset_engine_params();
        match map_get_index_of(&self.language_map, "Simplified Chinese") {
            Some(i) => self.lang_out_idx = i,
            None => {},
        }
    }

    /// Takes in a progress report.
    #[verifier::spinoff_prover]
    fn take_progress(&mut self, d: ProgressData)
        ensures
            final(self)@ == progress_reported(old(self)@, d@),
    {
        self.progress.stage = d.stage;
        self.progress.stage_progress = d.stage_progress;
        self.progress.overall_progress = d.overall_progress;
        self.progress.stage_current = d.stage_current;
        self.progress.stage_total = d.stage_total;
        self.progress.part_index = d.part_index;
        self.progress.total_parts = d.total_parts;
    }

    /// Adds a file's token usage to the running totals.
    #[verifier::spinoff_prover]
    fn add_usage(&mut self, u: Vec<(String, TokenUsage)>)
        requires
            old(self).token_usage is Some ==> merge_usage_ok(
                old(self)@.token_usage->0,
                usage_json(usage_view(u@)),
            ),
        ensures
            final(self)@ == (AppView {
                token_usage: Some(
                    match old(self)@.token_usage {
                        Some(e) => crate::usage::merge_usage(e, usage_json(usage_view(u@))),
                        None => usage_json(usage_view(u@)),
                    },
                ),
                ..old(self)@
            }),
    {
        let nv = usage_to_json(&u);
        let merged = match self.token_usage.take() {
            Some(e) => merge_token_usage(e, nv),
            None => nv,
        };
        self.token_usage = Some(merged);
    }

    /// Moves on after a file finished: the results screen once all are
    /// done, else the next file is announced.
    #[verifier::spinoff_prover]
    fn advance_file(&mut self)
        requires
            old(self).progress.finished_count < usize::MAX,
        ensures
            ({
                let v = old(self)@;
                let fin = (v.progress.finished_count + 1) as usize;
                let p2 = crate::app::ProgressView {finished_count: fin, ..v.progress };
                if fin >= v.progress.total_files {
                    final(self)@ == (AppView {progress: p2, screen: Screen::Results, ..v })
                } else {
                    let cur = if fin < v.selected_files.len() {
                        crate::update::display_name(v.selected_files[fin as int])
                    } else {
                        p2.current_file
                    };
                    final(self)@ == (AppView {
                        progress: crate::app::ProgressView {
                            current_file_idx: fin,
                            current_file: cur,
                            stage: "等待下一个文件..."@,
                            stage_progress: F64Bits::zero_spec(),
                            ..p2
                        },
                        log_lines: crate::update::log_push(
                            v.log_lines,
                            file_done_line(fin as nat, v.progress.total_files as nat),
                        ),
                        ..v
                    })
                }
            }),
    {
        self.progress.finished_count = self.progress.finished_count + 1;
        if self.progress.finished_count >= self.progress.total_files {
            self.screen = Screen::Results;
        } else {
            let fin = self.progress.finished_count;
            self.progress.current_file_idx = fin;
            if fin < self.selected_files.len() {
                self.progress.current_file = display_name_of(self.selected_files[fin].as_str());
            }
            self.progress.stage = string_of("等待下一个文件...");
            self.progress.stage_progress = F64Bits::zero();
            let line = file_done_text(fin, self.progress.total_files);
            self.push_log(line);
        }
    }

    /// Takes in a finished file: its result, its token usage, and the move
    /// to the next file or to the results screen.
    #[verifier::spinoff_prover]
    #[verifier::rlimit(40)]
    fn finish_file(&mut self, translate_result: JsonValue, token_usage: Option<Vec<(String, TokenUsage)>>)
        requires
            old(self).progress.finished_count < usize::MAX,
            (token_usage is Some && old(self).token_usage is Some) ==> merge_usage_ok(
                old(self)@.token_usage->0,
                usage_json(usage_view(token_usage->0@)),
            ),
        ensures
            final(self)@ == file_finished(
                old(self)@,
                translate_result@,
                match token_usage {
                    Some(u) => Some(usage_view(u@)),
                    None => None,
                },
            ),
    {
        let ghost v0 = self@;
        let ghost u = match &token_usage {
            Some(uv) => Some(usage_view(uv@)),
            None => None,
        };
        let ghost r0 = self.results@;
        self.results.push(translate_result);
        proof {
            assert(crate::app::jsons_view(self.results@) =~= crate::app::jsons_view(r0).push(
                translate_result@,
            ));
            assert(self@ == (AppView {results: v0.results.push(translate_result@), ..v0 }));
        }
        match token_usage {
            Some(u) => self.add_usage(u),
            None => {},
        }
        proof {
            let v1 = AppView {results: v0.results.push(translate_result@), ..v0 };
            let v2 = match u {
                Some(uu) => {
                    let nv = usage_json(uu);
                    AppView {
                        token_usage: Some(
                            match v1.token_usage {
                                Some(e) => crate::usage::merge_usage(e, nv),
                                None => nv,
                            },
                        ),
                        ..v1
                    }
                },
                None => v1,
            };
            assert(self@ == v2);
        }
        self.advance_file();
    }

    /// Takes in a backend event.
    #[verifier::spinoff_prover]
    pub(crate) fn handle_python_event(&mut self, event: PythonEvent)
        requires
            event_ok(old(self)@, event@),
        ensures
            final(self)@ == event_update(old(self)@, event@),
    {
        match event {
            PythonEvent::Ready {version, .. } => {
                self.python_version = version;
                self.screen = Screen::Configure;
            },
            PythonEvent::ConfigSchema {engines, languages } => self.receive_schema(engines, languages),
            PythonEvent::StageSummary {part_index, total_parts, .. } => {
                self.progress.part_index = part_index;
                self.progress.total_parts = total_parts;
            },
            PythonEvent::ProgressStart(d) => self.take_progress(d),
            PythonEvent::ProgressUpdate(d) => self.take_progress(d),
            PythonEvent::ProgressEnd(d) => {
                self.progress.stage = d.stage;
                self.progress.stage_progress = F64Bits::hundred();
                self.progress.overall_progress = d.overall_progress;
            },
            PythonEvent::Finish {translate_result, token_usage } => self.finish_file(
                translate_result,
                token_usage,
            ),
            PythonEvent::Error {error, error_type, details } => {
                let msg = error_text(error.as_str(), error_type.as_str(), details.as_str());
                self.popup = Some(Popup::Error(msg));
                if self.screen == Screen::Translating {
                    self.screen = Screen::Configure;
                }
            },
            PythonEvent::ValidationResult {valid, error } => {
                if !valid {
                    let msg = match error {
                        Some(m) => m,
                        None => string_of("Validation failed"),
                    };
                    self.popup = Some(Popup::Error(msg));
                }
            },
        }
    }
}

} // verus!

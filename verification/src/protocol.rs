//! Messages exchanged with the Python `pdf2zh_next` backend over JSON lines.

use vstd::prelude::*;
use crate::json::{Json, JsonValue};
use crate::ordered_map::string_map_entries;

verus! {

/// A floating-point number carried through unchanged, held as its IEEE-754
/// bit pattern (`f64::to_bits`).
#[derive(Clone, Copy, PartialEq, Eq, Structural)]
pub struct F64Bits {
    pub bits: u64,
}

impl F64Bits {
    /// The bit pattern of `0.0`.
    pub open spec fn zero_spec() -> F64Bits {
        F64Bits {bits: 0 }
    }

    /// The bit pattern of `100.0`.
    pub open spec fn hundred_spec() -> F64Bits {
        F64Bits {bits: 0x4059000000000000 }
    }

    /// `0.0`.
    pub fn zero() -> (r: F64Bits)
        ensures
            r == Self::zero_spec(),
    {
        F64Bits {bits: 0 }
    }

    /// `100.0`.
    pub fn hundred() -> (r: F64Bits)
        ensures
            r == Self::hundred_spec(),
    {
        F64Bits {bits: 0x4059000000000000 }
    }
}

/// One stage of a translation run, as announced by the backend.
pub struct StageDef {
    pub name: String,
    pub percent: F64Bits,
}

/// A progress report.
pub struct ProgressData {
    pub stage: String,
    pub stage_progress: F64Bits,
    pub stage_current: u32,
    pub stage_total: u32,
    pub overall_progress: F64Bits,
    pub part_index: u32,
    pub total_parts: u32,
}

/// Token counts of one model.
#[derive(Clone, Copy, PartialEq, Eq, Structural)]
pub struct TokenUsage {
    pub total: i64,
    pub prompt: i64,
    pub completion: i64,
    pub cache_hit_prompt: i64,
}

/// A translation engine and its parameters.
pub struct EngineSchema {
    pub name: String,
    pub support_llm: bool,
    pub cli_flag: String,
    pub fields: Vec<FieldSchema>,
}

/// One parameter of a translation engine.
pub struct FieldSchema {
    pub name: String,
    pub field_type: String,
    pub default: JsonValue,
    /// The default as the backend's JSON library prints it
    /// (`serde_json::Value::to_string`).
    pub printed_default: String,
    pub description: String,
    pub sensitive: bool,
    pub password: bool,
}

/// Events the backend writes to its standard output.
#[allow(inconsistent_fields)]
pub enum PythonEvent {
    Ready {version: String, engines: Vec<String> },
    ConfigSchema {engines: Vec<EngineSchema>, languages: indexmap::IndexMap<String, String> },
    StageSummary {stages: Vec<StageDef>, part_index: u32, total_parts: u32 },
    ProgressStart(ProgressData),
    ProgressUpdate(ProgressData),
    ProgressEnd(ProgressData),
    Finish {translate_result: JsonValue, token_usage: Option<Vec<(String, TokenUsage)>> },
    Error {error: String, error_type: String, details: String },
    ValidationResult {valid: bool, error: Option<String> },
}

/// Commands written to the backend's standard input.
pub enum PythonCommand {
    Translate {settings: JsonValue, files: Vec<String> },
    Cancel,
    Validate {settings: JsonValue },
    Shutdown,
}

/// The mathematical form of a [`StageDef`].
pub struct StageDefView {
    pub name: Seq<char>,
    pub percent: F64Bits,
}

/// The mathematical form of a [`ProgressData`].
pub struct ProgressDataView {
    pub stage: Seq<char>,
    pub stage_progress: F64Bits,
    pub stage_current: u32,
    pub stage_total: u32,
    pub overall_progress: F64Bits,
    pub part_index: u32,
    pub total_parts: u32,
}

/// The mathematical form of a [`FieldSchema`].
pub struct FieldSchemaView {
    pub name: Seq<char>,
    pub field_type: Seq<char>,
    pub default: Json,
    pub printed_default: Seq<char>,
    pub description: Seq<char>,
    pub sensitive: bool,
    pub password: bool,
}

/// The mathematical form of an [`EngineSchema`].
pub struct EngineSchemaView {
    pub name: Seq<char>,
    pub support_llm: bool,
    pub cli_flag: Seq<char>,
    pub fields: Seq<FieldSchemaView>,
}

/// The mathematical form of a [`PythonEvent`].
#[allow(inconsistent_fields)]
pub enum EventView {
    Ready {version: Seq<char>, engines: Seq<Seq<char>> },
    ConfigSchema {engines: Seq<EngineSchemaView>, languages: Seq<(Seq<char>, Seq<char>)> },
    StageSummary {stages: Seq<StageDefView>, part_index: u32, total_parts: u32 },
    ProgressStart(ProgressDataView),
    ProgressUpdate(ProgressDataView),
    ProgressEnd(ProgressDataView),
    Finish {translate_result: Json, token_usage: Option<Seq<(Seq<char>, TokenUsage)>> },
    Error {error: Seq<char>, error_type: Seq<char>, details: Seq<char> },
    ValidationResult {valid: bool, error: Option<Seq<char>> },
}

/// The mathematical form of a [`PythonCommand`].
pub enum CommandView {
    Translate {settings: Json, files: Seq<Seq<char>> },
    Cancel,
    Validate {settings: Json },
    Shutdown,
}

impl View for StageDef {
    type V = StageDefView;

    open spec fn view(&self) -> StageDefView {
        StageDefView {name: self.name@, percent: self.percent }
    }
}

impl View for ProgressData {
    type V = ProgressDataView;

    open spec fn view(&self) -> ProgressDataView {
        ProgressDataView {
            stage: self.stage@,
            stage_progress: self.stage_progress,
            stage_current: self.stage_current,
            stage_total: self.stage_total,
            overall_progress: self.overall_progress,
            part_index: self.part_index,
            total_parts: self.total_parts,
        }
    }
}

impl View for FieldSchema {
    type V = FieldSchemaView;

    open spec fn view(&self) -> FieldSchemaView {
        FieldSchemaView {
            name: self.name@,
            field_type: self.field_type@,
            default: self.default@,
            printed_default: self.printed_default@,
            description: self.description@,
            sensitive: self.sensitive,
            password: self.password,
        }
    }
}

impl View for EngineSchema {
    type V = EngineSchemaView;

    open spec fn view(&self) -> EngineSchemaView {
        EngineSchemaView {
            name: self.name@,
            support_llm: self.support_llm,
            cli_flag: self.cli_flag@,
            fields: self.fields@.map_values(|f: FieldSchema| f@),
        }
    }
}

/// The views of a list of strings.
pub open spec fn strings_view(v: Seq<String>) -> Seq<Seq<char>> {
    v.map_values(|s: String| s@)
}

/// The views of a list of engines.
pub open spec fn engines_view(v: Seq<EngineSchema>) -> Seq<EngineSchemaView> {
    v.map_values(|s: EngineSchema| s@)
}

/// The views of named token counts.
pub open spec fn usage_view(v: Seq<(String, TokenUsage)>) -> Seq<(Seq<char>, TokenUsage)> {
    v.map_values(|e: (String, TokenUsage)| (e.0@, e.1))
}

impl View for PythonEvent {
    type V = EventView;

    open spec fn view(&self) -> EventView {
        match self {
            PythonEvent::Ready {version, engines } => EventView::Ready {
                version: version@,
                engines: strings_view(engines@),
            },
            PythonEvent::ConfigSchema {engines, languages } => EventView::ConfigSchema {
                engines: engines_view(engines@),
                languages: string_map_entries(*languages),
            },
            PythonEvent::StageSummary {stages, part_index, total_parts } => EventView::StageSummary {
                stages: stages@.map_values(|s: StageDef| s@),
                part_index: *part_index,
                total_parts: *total_parts,
            },
            PythonEvent::ProgressStart(d) => EventView::ProgressStart(d@),
            PythonEvent::ProgressUpdate(d) => EventView::ProgressUpdate(d@),
            PythonEvent::ProgressEnd(d) => EventView::ProgressEnd(d@),
            PythonEvent::Finish {translate_result, token_usage } => EventView::Finish {
                translate_result: translate_result@,
                token_usage: match token_usage {
                    Some(u) => Some(usage_view(u@)),
                    None => None,
                },
            },
            PythonEvent::Error {error, error_type, details } => EventView::Error {
                error: error@,
                error_type: error_type@,
                details: details@,
            },
            PythonEvent::ValidationResult {valid, error } => EventView::ValidationResult {
                valid: *valid,
                error: match error {
                    Some(e) => Some(e@),
                    None => None,
                },
            },
        }
    }
}

impl View for PythonCommand {
    type V = CommandView;

    open spec fn view(&self) -> CommandView {
        match self {
            PythonCommand::Translate {settings, files } => CommandView::Translate {
                settings: settings@,
                files: strings_view(files@),
            },
            PythonCommand::Cancel => CommandView::Cancel,
            PythonCommand::Validate {settings } => CommandView::Validate { settings: settings@ },
            PythonCommand::Shutdown => CommandView::Shutdown,
        }
    }
}

} // verus!

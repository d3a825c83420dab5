//! Value types for the derived feature bundles, the answer tags, and the
//! profile a finalized or previewed session yields.

use crate::ratio::Ratio;
use vstd::prelude::*;

verus! {

/// Where the text of a message came from.
#[derive(Debug, Clone, Copy, PartialEq, Eq, Structural)]
pub enum SourceType {
    TypedOnly,
    PasteOnly,
    Mixed,
}

/// The first significant action of a session.
#[derive(Debug, Clone, Copy, PartialEq, Eq, Structural)]
pub enum FirstAction {
    Paste,
    Typed,
    Other,
}

/// How the writer sourced the text.
#[derive(Debug, Clone, Copy, PartialEq, Eq, Structural)]
pub struct SourceFeatures {
    pub source_type: SourceType,
    /// pasted chars over pasted plus typed chars; zero when both are zero.
    pub paste_ratio: Ratio,
    pub paste_events: u64,
    pub first_action: FirstAction,
}

/// The cadence of the session.
#[derive(Debug, Clone, Copy, PartialEq, Eq, Structural)]
pub struct TimingFeatures {
    pub total_duration_ms: u64,
    /// typed chars per second: `typed * 1000` over the duration in
    /// milliseconds; zero when the duration is zero.
    pub avg_chars_per_sec: Ratio,
    pub typing_bursts: u64,
    pub long_pause_count: u64,
    pub pre_submit_pause_ms: u64,
}

/// How much editing effort the session shows.
#[derive(Debug, Clone, Copy, PartialEq, Eq, Structural)]
pub struct EditingFeatures {
    pub backspace_count: u64,
    pub backspace_burst_count: u64,
    pub undo_count: u64,
    pub redo_count: u64,
    pub selection_edit_count: u64,
    /// final char count over typed chars, clamped to the unit interval; one
    /// when nothing was typed.
    pub efficiency_score: Ratio,
}

/// Structural and linguistic features of the final text alone.
#[derive(Debug, Clone, Copy, PartialEq, Eq, Structural)]
pub struct StructureFeatures {
    pub char_count: u64,
    pub line_count: u64,
    /// chars over lines; zero when there are no lines.
    pub avg_line_length: Ratio,
    pub bullet_lines: u64,
    pub has_code_block: bool,
    pub question_like: bool,
    pub command_like: bool,
    pub japanese_detected: bool,
    pub request_summary: bool,
    pub request_implementation: bool,
    pub is_polite: bool,
    pub is_direct: bool,
}

/// A coarse directive for the response generator.
#[derive(Debug, Clone, Copy, PartialEq, Eq, Structural)]
pub enum AnswerMode {
    Summarize,
    Structure,
    Refine,
    Explore,
    Complete,
    ClarifyQuestion,
}

/// How broad the answer should be.
#[derive(Debug, Clone, Copy, PartialEq, Eq, Structural)]
pub enum ScopeHint {
    Narrow,
    Medium,
    Broad,
}

/// What tone the answer should take.
#[derive(Debug, Clone, Copy, PartialEq, Eq, Structural)]
pub enum ToneHint {
    Direct,
    Gentle,
    Neutral,
}

/// How deep the answer should go.
#[derive(Debug, Clone, Copy, PartialEq, Eq, Structural)]
pub enum DepthHint {
    Shallow,
    Normal,
    Deep,
}

/// A reading of the writer's state while composing.
#[derive(Debug, Clone, Copy, PartialEq, Eq, Structural)]
pub enum UserState {
    Hesitant,
    Flowing,
    Editing,
    Scattered,
    Pasting,
    Focused,
}

/// The rule engine's output. The mode and state lists are kept sorted by
/// declared enum order so that rendered output is reproducible.
#[derive(Debug, Clone)]
pub struct AnswerTags {
    pub answer_mode: Vec<AnswerMode>,
    pub scope_hint: ScopeHint,
    pub tone_hint: ToneHint,
    pub depth_hint: DepthHint,
    pub user_state: Vec<UserState>,
    /// Confidence in the tag bundle, within the unit interval; accumulated in
    /// exact tenths.
    pub confidence: Ratio,
}

/// The mathematical value of an `AnswerTags`.
#[verifier::ext_equal]
pub ghost struct TagsModel {
    pub answer_mode: Seq<AnswerMode>,
    pub scope_hint: ScopeHint,
    pub tone_hint: ToneHint,
    pub depth_hint: DepthHint,
    pub user_state: Seq<UserState>,
    pub confidence: Ratio,
}

impl View for AnswerTags {
    type V = TagsModel;

    open spec fn view(&self) -> TagsModel {
        TagsModel {
            answer_mode: self.answer_mode@,
            scope_hint: self.scope_hint,
            tone_hint: self.tone_hint,
            depth_hint: self.depth_hint,
            user_state: self.user_state@,
            confidence: self.confidence,
        }
    }
}

/// The full bundle a finalized or previewed session yields.
#[derive(Debug, Clone)]
pub struct InputProfile {
    pub message_id: u128,
    pub source: SourceFeatures,
    pub timing: TimingFeatures,
    pub editing: EditingFeatures,
    pub structure: StructureFeatures,
    pub tags: AnswerTags,
    pub ghost_text: Vec<String>,
}

/// The mathematical value of an `InputProfile`.
#[verifier::ext_equal]
pub ghost struct ProfileModel {
    pub message_id: u128,
    pub source: SourceFeatures,
    pub timing: TimingFeatures,
    pub editing: EditingFeatures,
    pub structure: StructureFeatures,
    pub tags: TagsModel,
    pub ghost_text: Seq<Seq<char>>,
}

impl View for InputProfile {
    type V = ProfileModel;

    open spec fn view(&self) -> ProfileModel {
        ProfileModel {
            message_id: self.message_id,
            source: self.source,
            timing: self.timing,
            editing: self.editing,
            structure: self.structure,
            tags: self.tags@,
            ghost_text: self.ghost_text@.map_values(|s: String| s@),
        }
    }
}

/// A profile together with the event log it was derived from.
#[derive(Debug, Clone)]
pub struct SessionSnapshot {
    pub profile: InputProfile,
    pub events: Vec<crate::event::InputEvent>,
}

/// Why a registry operation failed.
#[derive(Debug, Clone, Copy, PartialEq, Eq, Structural)]
pub enum CoreError {
    /// The session id is unknown.
    NotFound,
    /// The caller handed over data the core cannot accept.
    BadInput,
    /// An internal invariant could not be maintained.
    InternalInvariant,
}

} // verus!

//! The rule engine: a pure function from the four feature bundles to the
//! answer tags. Rules fire independently; for the scalar hints (scope, tone,
//! depth) a later rule overwrites an earlier one, and the mode and user-state
//! lists come out sorted by declared enum order.

use crate::profile::{
    AnswerMode, AnswerTags, DepthHint, EditingFeatures, ScopeHint, SourceFeatures, SourceType,
    StructureFeatures, TagsModel, TimingFeatures, ToneHint, UserState,
};
use crate::ratio::Ratio;
use vstd::prelude::*;

verus! {

/// A mostly pasted text of several lines calls for summarizing and
/// structuring.
pub open spec fn rule_paste_heavy(src: SourceFeatures, st: StructureFeatures) -> bool {
    src.paste_ratio.spec_gt_frac(4, 5) && st.line_count >= 3
}

/// A long, purely typed session with many corrections calls for refining.
pub open spec fn rule_long_refine(
    src: SourceFeatures,
    tm: TimingFeatures,
    ed: EditingFeatures,
) -> bool {
    src.source_type == SourceType::TypedOnly && tm.total_duration_ms > 30000 && ed.backspace_count
        > 20
}

/// A short query calls for exploring and clarifying.
pub open spec fn rule_short_query(st: StructureFeatures) -> bool {
    st.line_count <= 2 && st.char_count < 40
}

/// A mixed source with several selection edits calls for completing.
pub open spec fn rule_mixed_complete(src: SourceFeatures, ed: EditingFeatures) -> bool {
    src.source_type == SourceType::Mixed && ed.selection_edit_count > 2
}

/// Several bullet lines call for structuring.
pub open spec fn rule_bullets(st: StructureFeatures) -> bool {
    st.bullet_lines > 2
}

/// Whether the mode list carries `Summarize`.
pub open spec fn has_summarize(src: SourceFeatures, st: StructureFeatures) -> bool {
    rule_paste_heavy(src, st) || st.request_summary
}

/// Whether the mode list carries `Structure`.
pub open spec fn has_structure(src: SourceFeatures, st: StructureFeatures) -> bool {
    rule_paste_heavy(src, st) || rule_bullets(st) || st.request_implementation
}

/// Whether the mode list carries `Refine`.
pub open spec fn has_refine(
    src: SourceFeatures,
    tm: TimingFeatures,
    ed: EditingFeatures,
) -> bool {
    rule_long_refine(src, tm, ed)
}

/// Whether the mode list carries `Complete`.
pub open spec fn has_complete(
    src: SourceFeatures,
    ed: EditingFeatures,
    st: StructureFeatures,
) -> bool {
    rule_mixed_complete(src, ed) || st.request_implementation
}

/// Whether the mode list carries `ClarifyQuestion`.
pub open spec fn has_clarify(
    src: SourceFeatures,
    tm: TimingFeatures,
    ed: EditingFeatures,
    st: StructureFeatures,
) -> bool {
    rule_long_refine(src, tm, ed) || rule_short_query(st) || st.question_like
}

/// Whether the mode list carries `Explore`: a short query suggests it, and it
/// is the fallback when no rule put any mode in.
pub open spec fn has_explore(
    src: SourceFeatures,
    tm: TimingFeatures,
    ed: EditingFeatures,
    st: StructureFeatures,
) -> bool {
    rule_short_query(st) || (!has_summarize(src, st) && !has_structure(src, st) && !has_refine(
        src,
        tm,
        ed,
    ) && !has_complete(src, ed, st) && !has_clarify(src, tm, ed, st))
}

/// The mode list, sorted by declared enum order.
pub open spec fn spec_modes(
    src: SourceFeatures,
    tm: TimingFeatures,
    ed: EditingFeatures,
    st: StructureFeatures,
) -> Seq<AnswerMode> {
    (if has_summarize(src, st) {
        seq![AnswerMode::Summarize]
    } else {
        Seq::empty()
    }) + (if has_structure(src, st) {
        seq![AnswerMode::Structure]
    } else {
        Seq::empty()
    }) + (if has_refine(src, tm, ed) {
        seq![AnswerMode::Refine]
    } else {
        Seq::empty()
    }) + (if has_explore(src, tm, ed, st) {
        seq![AnswerMode::Explore]
    } else {
        Seq::empty()
    }) + (if has_complete(src, ed, st) {
        seq![AnswerMode::Complete]
    } else {
        Seq::empty()
    }) + (if has_clarify(src, tm, ed, st) {
        seq![AnswerMode::ClarifyQuestion]
    } else {
        Seq::empty()
    })
}

/// The scope hint: the last rule that writes it wins.
pub open spec fn spec_scope(src: SourceFeatures, st: StructureFeatures) -> ScopeHint {
    if st.request_summary {
        ScopeHint::Broad
    } else if rule_bullets(st) {
        ScopeHint::Narrow
    } else if rule_short_query(st) {
        ScopeHint::Broad
    } else if rule_paste_heavy(src, st) {
        ScopeHint::Broad
    } else {
        ScopeHint::Medium
    }
}

/// The tone hint: the last rule that writes it wins.
pub open spec fn spec_tone(st: StructureFeatures) -> ToneHint {
    if st.request_implementation {
        ToneHint::Direct
    } else if st.japanese_detected && st.is_polite {
        ToneHint::Gentle
    } else if st.japanese_detected && st.is_direct {
        ToneHint::Direct
    } else if st.command_like {
        ToneHint::Direct
    } else {
        ToneHint::Neutral
    }
}

/// The depth hint: the last rule that writes it wins.
pub open spec fn spec_depth(
    src: SourceFeatures,
    tm: TimingFeatures,
    ed: EditingFeatures,
    st: StructureFeatures,
) -> DepthHint {
    if st.japanese_detected && st.char_count > 500 {
        DepthHint::Deep
    } else if rule_long_refine(src, tm, ed) {
        DepthHint::Deep
    } else {
        DepthHint::Normal
    }
}

/// The accumulated confidence, in exact tenths, before capping.
pub open spec fn spec_confidence_raw(
    src: SourceFeatures,
    tm: TimingFeatures,
    ed: EditingFeatures,
    st: StructureFeatures,
) -> int {
    5 + (if rule_paste_heavy(src, st) {
        2int
    } else {
        0int
    }) + (if rule_long_refine(src, tm, ed) {
        2int
    } else {
        0int
    }) + (if rule_short_query(st) {
        1int
    } else {
        0int
    }) + (if rule_mixed_complete(src, ed) {
        2int
    } else {
        0int
    }) + (if rule_bullets(st) {
        1int
    } else {
        0int
    }) + (if st.question_like {
        1int
    } else {
        0int
    }) + (if st.command_like {
        1int
    } else {
        0int
    }) + (if st.japanese_detected {
        1int
    } else {
        0int
    }) + (if st.request_summary {
        3int
    } else {
        0int
    }) + (if st.request_implementation {
        3int
    } else {
        0int
    })
}

/// The confidence as a ratio in tenths, capped at one.
pub open spec fn spec_confidence(
    src: SourceFeatures,
    tm: TimingFeatures,
    ed: EditingFeatures,
    st: StructureFeatures,
) -> Ratio {
    let raw = spec_confidence_raw(src, tm, ed, st);
    Ratio { num: if raw > 10 { 10 } else { raw as u64 }, den: 10 }
}

/// The writer seems hesitant: slow typing with many long pauses.
pub open spec fn state_hesitant(tm: TimingFeatures) -> bool {
    tm.avg_chars_per_sec.spec_lt_frac(2, 1) && tm.long_pause_count > 2
}

/// The writer is in flow: fast typing without a single long pause.
pub open spec fn state_flowing(tm: TimingFeatures) -> bool {
    tm.avg_chars_per_sec.spec_gt_frac(5, 1) && tm.long_pause_count == 0
}

/// The writer is editing heavily.
pub open spec fn state_editing(ed: EditingFeatures) -> bool {
    ed.backspace_count > 10 || ed.selection_edit_count > 2
}

/// The writer works in many scattered bursts.
pub open spec fn state_scattered(tm: TimingFeatures) -> bool {
    tm.typing_bursts > 5 && tm.avg_chars_per_sec.spec_lt_frac(3, 1)
}

/// The writer mostly pastes.
pub open spec fn state_pasting(src: SourceFeatures) -> bool {
    src.paste_ratio.spec_gt_frac(1, 2)
}

/// The writer is focused: fast typing with few corrections.
pub open spec fn state_focused(tm: TimingFeatures, ed: EditingFeatures) -> bool {
    tm.avg_chars_per_sec.spec_gt_frac(4, 1) && ed.backspace_count < 5
}

/// The user-state list, sorted by declared enum order.
pub open spec fn spec_user_states(
    src: SourceFeatures,
    tm: TimingFeatures,
    ed: EditingFeatures,
) -> Seq<UserState> {
    (if state_hesitant(tm) {
        seq![UserState::Hesitant]
    } else {
        Seq::empty()
    }) + (if state_flowing(tm) {
        seq![UserState::Flowing]
    } else {
        Seq::empty()
    }) + (if state_editing(ed) {
        seq![UserState::Editing]
    } else {
        Seq::empty()
    }) + (if state_scattered(tm) {
        seq![UserState::Scattered]
    } else {
        Seq::empty()
    }) + (if state_pasting(src) {
        seq![UserState::Pasting]
    } else {
        Seq::empty()
    }) + (if state_focused(tm, ed) {
        seq![UserState::Focused]
    } else {
        Seq::empty()
    })
}

/// The whole tag bundle the rule engine yields.
pub open spec fn spec_tags(
    src: SourceFeatures,
    tm: TimingFeatures,
    ed: EditingFeatures,
    st: StructureFeatures,
) -> TagsModel {
    TagsModel {
        answer_mode: spec_modes(src, tm, ed, st),
        scope_hint: spec_scope(src, st),
        tone_hint: spec_tone(st),
        depth_hint: spec_depth(src, tm, ed, st),
        user_state: spec_user_states(src, tm, ed),
        confidence: spec_confidence(src, tm, ed, st),
    }
}

/// The rule engine.
pub struct RuleEngine;

impl RuleEngine {
    /// Projects the four feature bundles into the answer tags. The result is
    /// exactly `spec_tags` of the inputs, and the confidence always lies in
    /// the unit interval.
    #[verifier::rlimit(60)]
    pub fn apply(
        source: &SourceFeatures,
        timing: &TimingFeatures,
        editing: &EditingFeatures,
        structure: &StructureFeatures,
    ) -> (r: AnswerTags)
        ensures
            r@ == spec_tags(*source, *timing, *editing, *structure),
            r.confidence.wf(),
            r.confidence.unit(),
    {
        let r1 = source.paste_ratio.gt_frac(4, 5) && structure.line_count >= 3;
        let r2 = source.source_type == SourceType::TypedOnly && timing.total_duration_ms > 30000
            && editing.backspace_count > 20;
        let r3 = structure.line_count <= 2 && structure.char_count < 40;
        let r4 = source.source_type == SourceType::Mixed && editing.selection_edit_count > 2;
        let r5 = structure.bullet_lines > 2;

        let mode_summarize = r1 || structure.request_summary;
        let mode_structure = r1 || r5 || structure.request_implementation;
        let mode_refine = r2;
        let mode_complete = r4 || structure.request_implementation;
        let mode_clarify = r2 || r3 || structure.question_like;
        let mode_explore = r3 || (!mode_summarize && !mode_structure && !mode_refine
            && !mode_complete && !mode_clarify);

        let mut answer_mode: Vec<AnswerMode> = Vec::new();
        if mode_summarize {
            answer_mode.push(AnswerMode::Summarize);
        }
        if mode_structure {
            answer_mode.push(AnswerMode::Structure);
        }
        if mode_refine {
            answer_mode.push(AnswerMode::Refine);
        }
        if mode_explore {
            answer_mode.push(AnswerMode::Explore);
        }
        if mode_complete {
            answer_mode.push(AnswerMode::Complete);
        }
        if mode_clarify {
            answer_mode.push(AnswerMode::ClarifyQuestion);
        }

        let mut scope = ScopeHint::Medium;
        let mut tone = ToneHint::Neutral;
        let mut depth = DepthHint::Normal;
        let mut confidence_tenths: u64 = 5;

        if r1 {
            scope = ScopeHint::Broad;
            confidence_tenths = confidence_tenths + 2;
        }
        if r2 {
            depth = DepthHint::Deep;
            confidence_tenths = confidence_tenths + 2;
        }
        if r3 {
            scope = ScopeHint::Broad;
            confidence_tenths = confidence_tenths + 1;
        }
        if r4 {
            confidence_tenths = confidence_tenths + 2;
        }
        if r5 {
            scope = ScopeHint::Narrow;
            confidence_tenths = confidence_tenths + 1;
        }
        if structure.question_like {
            confidence_tenths = confidence_tenths + 1;
        }
        if structure.command_like {
            tone = ToneHint::Direct;
            confidence_tenths = confidence_tenths + 1;
        }
        if structure.japanese_detected {
            if structure.char_count > 500 {
                depth = DepthHint::Deep;
            }
            if structure.is_polite {
                tone = ToneHint::Gentle;
            } else if structure.is_direct {
                tone = ToneHint::Direct;
            }
            confidence_tenths = confidence_tenths + 1;
        }
        if structure.request_summary {
            scope = ScopeHint::Broad;
            confidence_tenths = confidence_tenths + 3;
        }
        if structure.request_implementation {
            tone = ToneHint::Direct;
            confidence_tenths = confidence_tenths + 3;
        }
        if confidence_tenths > 10 {
            confidence_tenths = 10;
        }

        let mut user_state: Vec<UserState> = Vec::new();
        if timing.avg_chars_per_sec.lt_frac(2, 1) && timing.long_pause_count > 2 {
            user_state.push(UserState::Hesitant);
        }
        if timing.avg_chars_per_sec.gt_frac(5, 1) && timing.long_pause_count == 0 {
            user_state.push(UserState::Flowing);
        }
        if editing.backspace_count > 10 || editing.selection_edit_count > 2 {
            user_state.push(UserState::Editing);
        }
        if timing.typing_bursts > 5 && timing.avg_chars_per_sec.lt_frac(3, 1) {
            user_state.push(UserState::Scattered);
        }
        if source.paste_ratio.gt_frac(1, 2) {
            user_state.push(UserState::Pasting);
        }
        if timing.avg_chars_per_sec.gt_frac(4, 1) && editing.backspace_count < 5 {
            user_state.push(UserState::Focused);
        }

        let r = AnswerTags {
            answer_mode,
            scope_hint: scope,
            tone_hint: tone,
            depth_hint: depth,
            user_state,
            confidence: Ratio::new(confidence_tenths, 10),
        };
        proof {
            assert(r.answer_mode@ =~= spec_modes(*source, *timing, *editing, *structure));
            assert(r.user_state@ =~= spec_user_states(*source, *timing, *editing));
            assert(r@ =~= spec_tags(*source, *timing, *editing, *structure));
        }
        r
    }
}

} // verus!

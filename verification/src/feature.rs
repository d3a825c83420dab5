//! The per-session feature extractor: a state machine that consumes input
//! events in arrival order and exposes derived feature views on demand.
//!
//! The extractor's behaviour is pinned by the transition function [`step`]:
//! processing an event turns the extractor's mathematical value `m` into
//! `step(m, e)`, and replaying a whole stream from a fresh extractor yields
//! [`replay`] of that stream.

use crate::event::{DeleteKind, EventModel, InputEvent};
use crate::profile::{EditingFeatures, FirstAction, SourceFeatures, SourceType, TimingFeatures};
use crate::ratio::{add_sat, mul_1000_sat, sat_add, sat_mul_1000, sat_sub, sub_sat, Ratio};
use vstd::prelude::*;

verus! {

/// An inter-event gap above this many milliseconds is a long pause: it closes
/// the current typing burst, and the next event opens a new one.
pub const LONG_PAUSE_MS: u64 = 1500;

/// The mathematical value of a `FeatureExtractor`.
#[verifier::ext_equal]
pub ghost struct ExtractorModel {
    /// Timestamp of the first event, set once.
    pub start_time: Option<u64>,
    /// Timestamp of the most recent event.
    pub last_event_time: Option<u64>,
    /// First significant action, once one was seen.
    pub first_action: Option<FirstAction>,
    pub paste_events: u64,
    pub total_pasted_chars: u64,
    pub total_typed_chars: u64,
    pub typing_bursts: u64,
    pub long_pause_count: u64,
    pub backspace_count: u64,
    pub backspace_burst_count: u64,
    pub undo_count: u64,
    pub redo_count: u64,
    pub selection_edit_count: u64,
    /// Whether the last destructive edit opened a backspace burst that has
    /// not been closed yet.
    pub in_backspace_burst: bool,
    /// The currently selected range, when a nonempty selection is pending.
    pub pending_selection: Option<(usize, usize)>,
    /// The ordered log of every event processed.
    pub events: Seq<EventModel>,
    /// The ordered list of preserved ghost-text passages.
    pub ghost_texts: Seq<Seq<char>>,
    /// Timestamp of the event immediately preceding the latest submit.
    pub last_pre_submit_ts: Option<u64>,
    /// Timestamp of the latest submit event.
    pub submit_ts: Option<u64>,
}

/// The state of an extractor that has seen no event.
pub open spec fn fresh() -> ExtractorModel {
    ExtractorModel {
        start_time: None,
        last_event_time: None,
        first_action: None,
        paste_events: 0,
        total_pasted_chars: 0,
        total_typed_chars: 0,
        typing_bursts: 0,
        long_pause_count: 0,
        backspace_count: 0,
        backspace_burst_count: 0,
        undo_count: 0,
        redo_count: 0,
        selection_edit_count: 0,
        in_backspace_burst: false,
        pending_selection: None,
        events: Seq::empty(),
        ghost_texts: Seq::empty(),
        last_pre_submit_ts: None,
        submit_ts: None,
    }
}

/// The variant-specific part of the transition: counting and flag updates.
pub open spec fn step_dispatch(m: ExtractorModel, e: EventModel) -> ExtractorModel {
    match e {
        EventModel::KeyInsert { .. } => ExtractorModel {
            total_typed_chars: sat_add(m.total_typed_chars, 1),
            in_backspace_burst: false,
            selection_edit_count: match m.pending_selection {
                Some((sel_start, sel_end)) => if sel_end > sel_start {
                    sat_add(m.selection_edit_count, 1)
                } else {
                    m.selection_edit_count
                },
                None => m.selection_edit_count,
            },
            pending_selection: None,
            first_action: if m.first_action is None {
                Some(FirstAction::Typed)
            } else {
                m.first_action
            },
            ..m
        },
        EventModel::KeyDelete { kind, count, .. } => if kind == DeleteKind::Backspace {
            ExtractorModel {
                backspace_count: sat_add(m.backspace_count, count as u64),
                backspace_burst_count: if m.in_backspace_burst {
                    m.backspace_burst_count
                } else {
                    sat_add(m.backspace_burst_count, 1)
                },
                in_backspace_burst: true,
                ..m
            }
        } else {
            // A forward delete is a destructive edit as well, but it does not
            // open a backspace burst.
            ExtractorModel {
                backspace_count: sat_add(m.backspace_count, count as u64),
                in_backspace_burst: false,
                ..m
            }
        },
        EventModel::Paste { length, .. } => ExtractorModel {
            paste_events: sat_add(m.paste_events, 1),
            total_pasted_chars: sat_add(m.total_pasted_chars, length as u64),
            first_action: if m.first_action is None {
                Some(FirstAction::Paste)
            } else {
                m.first_action
            },
            in_backspace_burst: false,
            // Pasting over a selection is an insert over it, but it does not
            // count as a selection edit.
            pending_selection: None,
            ..m
        },
        EventModel::Cut { length, .. } => ExtractorModel {
            backspace_count: sat_add(m.backspace_count, length as u64),
            in_backspace_burst: false,
            ..m
        },
        EventModel::CursorMove { .. } => ExtractorModel { in_backspace_burst: false, ..m },
        EventModel::SelectionChange { start, end, .. } => ExtractorModel {
            pending_selection: if end > start {
                Some((start, end))
            } else {
                None
            },
            in_backspace_burst: false,
            ..m
        },
        EventModel::CompositionStart { .. } => m,
        EventModel::CompositionEnd { .. } => m,
        EventModel::Submit { .. } => ExtractorModel { in_backspace_burst: false, ..m },
        EventModel::Undo { .. } => ExtractorModel {
            undo_count: sat_add(m.undo_count, 1),
            in_backspace_burst: false,
            ..m
        },
        EventModel::Redo { .. } => ExtractorModel {
            redo_count: sat_add(m.redo_count, 1),
            in_backspace_burst: false,
            ..m
        },
        EventModel::GhostText { text, .. } => ExtractorModel {
            ghost_texts: m.ghost_texts.push(text),
            ..m
        },
    }
}

/// The full transition: appending to the log, opening and closing bursts,
/// tracking submit timing, then the variant-specific updates.
pub open spec fn step(m: ExtractorModel, e: EventModel) -> ExtractorModel {
    let ts = e.ts();
    let opened = m.last_event_time is None;
    let paused = match m.last_event_time {
        Some(last) => sat_sub(ts, last) > LONG_PAUSE_MS,
        None => false,
    };
    // A long pause closes exactly one burst boundary; the two counters move
    // together, and stop together when they can no longer both move.
    let can_count = m.typing_bursts < u64::MAX && m.long_pause_count < u64::MAX;
    let base = ExtractorModel {
        events: m.events.push(e),
        start_time: if m.start_time is None {
            Some(ts)
        } else {
            m.start_time
        },
        typing_bursts: if opened {
            sat_add(m.typing_bursts, 1)
        } else if paused && can_count {
            (m.typing_bursts + 1) as u64
        } else {
            m.typing_bursts
        },
        long_pause_count: if !opened && paused && can_count {
            (m.long_pause_count + 1) as u64
        } else {
            m.long_pause_count
        },
        last_pre_submit_ts: if e is Submit {
            m.last_event_time
        } else {
            m.last_pre_submit_ts
        },
        submit_ts: if e is Submit {
            Some(ts)
        } else {
            m.submit_ts
        },
        last_event_time: Some(ts),
        ..m
    };
    step_dispatch(base, e)
}

/// The state an extractor reaches after consuming the whole stream `s` from a
/// fresh start.
pub open spec fn replay(s: Seq<EventModel>) -> ExtractorModel
    decreases s.len(),
{
    if s.len() == 0 {
        fresh()
    } else {
        step(replay(s.drop_last()), s.last())
    }
}

/// The source features derived from an extractor state.
pub open spec fn spec_source_features(m: ExtractorModel) -> SourceFeatures {
    let total = sat_add(m.total_typed_chars, m.total_pasted_chars);
    SourceFeatures {
        source_type: if m.total_typed_chars == 0 && m.total_pasted_chars > 0 {
            SourceType::PasteOnly
        } else if m.total_pasted_chars == 0 && m.total_typed_chars > 0 {
            SourceType::TypedOnly
        } else {
            SourceType::Mixed
        },
        paste_ratio: if total > 0 {
            Ratio { num: m.total_pasted_chars, den: total }
        } else {
            Ratio { num: 0, den: 1 }
        },
        paste_events: m.paste_events,
        first_action: match m.first_action {
            Some(a) => a,
            None => FirstAction::Other,
        },
    }
}

/// The timing features derived from an extractor state.
pub open spec fn spec_timing_features(m: ExtractorModel) -> TimingFeatures {
    let last = match m.last_event_time {
        Some(t) => t,
        None => 0,
    };
    let start = match m.start_time {
        Some(t) => t,
        None => last,
    };
    let dur = sat_sub(last, start);
    TimingFeatures {
        total_duration_ms: dur,
        avg_chars_per_sec: if dur > 0 {
            Ratio { num: sat_mul_1000(m.total_typed_chars), den: dur }
        } else {
            Ratio { num: 0, den: 1 }
        },
        typing_bursts: m.typing_bursts,
        long_pause_count: m.long_pause_count,
        pre_submit_pause_ms: match (m.submit_ts, m.last_pre_submit_ts) {
            (Some(submit), Some(pre)) => sat_sub(submit, pre),
            _ => 0,
        },
    }
}

/// The editing features derived from an extractor state and the codepoint
/// count of the final text.
pub open spec fn spec_editing_features(m: ExtractorModel, final_char_count: u64) -> EditingFeatures {
    EditingFeatures {
        backspace_count: m.backspace_count,
        backspace_burst_count: m.backspace_burst_count,
        undo_count: m.undo_count,
        redo_count: m.redo_count,
        selection_edit_count: m.selection_edit_count,
        efficiency_score: if m.total_typed_chars == 0 {
            Ratio { num: 1, den: 1 }
        } else if final_char_count <= m.total_typed_chars {
            Ratio { num: final_char_count, den: m.total_typed_chars }
        } else {
            Ratio { num: m.total_typed_chars, den: m.total_typed_chars }
        },
    }
}

/// Accumulated state is append-only: across one applied event no counter
/// decreases, and the event log and ghost-text list only grow.
pub proof fn lemma_step_monotonic(m: ExtractorModel, e: EventModel)
    ensures
        step(m, e).paste_events >= m.paste_events,
        step(m, e).total_pasted_chars >= m.total_pasted_chars,
        step(m, e).total_typed_chars >= m.total_typed_chars,
        step(m, e).typing_bursts >= m.typing_bursts,
        step(m, e).long_pause_count >= m.long_pause_count,
        step(m, e).backspace_count >= m.backspace_count,
        step(m, e).backspace_burst_count >= m.backspace_burst_count,
        step(m, e).undo_count >= m.undo_count,
        step(m, e).redo_count >= m.redo_count,
        step(m, e).selection_edit_count >= m.selection_edit_count,
        step(m, e).events.len() > m.events.len(),
        step(m, e).ghost_texts.len() >= m.ghost_texts.len(),
{
}

/// The event log of a replayed stream is that stream itself: every processed
/// event is appended and nothing is ever removed.
pub proof fn lemma_replay_events(s: Seq<EventModel>)
    ensures
        replay(s).events == s,
    decreases s.len(),
{
    if s.len() > 0 {
        lemma_replay_events(s.drop_last());
        assert(replay(s).events =~= s);
    } else {
        assert(replay(s).events =~= s);
    }
}

/// Replaying the exported event log of a session reproduces the session's
/// state exactly. The derived feature views and the profile are functions of
/// that state and of the final text alone, so a session imported from an
/// export yields the identical profile for the same text.
pub proof fn lemma_export_import_round_trip(s: Seq<EventModel>)
    ensures
        replay(replay(s).events) == replay(s),
{
    lemma_replay_events(s);
}

/// After any nonempty stream the extractor has seen a first event, and the
/// burst and pause counters stand in lockstep: every long pause closed
/// exactly one burst boundary.
proof fn lemma_replay_burst_invariant(s: Seq<EventModel>)
    ensures
        s.len() == 0 ==> replay(s) == fresh(),
        s.len() > 0 ==> replay(s).last_event_time is Some,
        s.len() > 0 ==> replay(s).typing_bursts == replay(s).long_pause_count + 1,
    decreases s.len(),
{
    if s.len() > 0 {
        lemma_replay_burst_invariant(s.drop_last());
    }
}

/// Once any event has been observed, at least one typing burst exists.
pub proof fn lemma_typing_bursts_positive(s: Seq<EventModel>)
    requires
        s.len() > 0,
    ensures
        replay(s).typing_bursts >= 1,
{
    lemma_replay_burst_invariant(s);
}

/// The long pauses never outnumber the burst boundaries they close: once any
/// event has been observed, `long_pause_count <= typing_bursts - 1`.
pub proof fn lemma_long_pause_bound(s: Seq<EventModel>)
    requires
        s.len() > 0,
    ensures
        replay(s).long_pause_count <= replay(s).typing_bursts - 1,
{
    lemma_replay_burst_invariant(s);
}

/// A per-session stateful accumulator over the event stream.
pub struct FeatureExtractor {
    start_time: Option<u64>,
    last_event_time: Option<u64>,
    first_action: Option<FirstAction>,
    paste_events: u64,
    total_pasted_chars: u64,
    total_typed_chars: u64,
    typing_bursts: u64,
    long_pause_count: u64,
    backspace_count: u64,
    backspace_burst_count: u64,
    undo_count: u64,
    redo_count: u64,
    selection_edit_count: u64,
    in_backspace_burst: bool,
    pending_selection: Option<(usize, usize)>,
    events: Vec<InputEvent>,
    ghost_texts: Vec<String>,
    last_pre_submit_ts: Option<u64>,
    submit_ts: Option<u64>,
}

impl View for FeatureExtractor {
    type V = ExtractorModel;

    closed spec fn view(&self) -> ExtractorModel {
        ExtractorModel {
            start_time: self.start_time,
            last_event_time: self.last_event_time,
            first_action: self.first_action,
            paste_events: self.paste_events,
            total_pasted_chars: self.total_pasted_chars,
            total_typed_chars: self.total_typed_chars,
            typing_bursts: self.typing_bursts,
            long_pause_count: self.long_pause_count,
            backspace_count: self.backspace_count,
            backspace_burst_count: self.backspace_burst_count,
            undo_count: self.undo_count,
            redo_count: self.redo_count,
            selection_edit_count: self.selection_edit_count,
            in_backspace_burst: self.in_backspace_burst,
            pending_selection: self.pending_selection,
            events: self.events@.map_values(|e: InputEvent| e@),
            ghost_texts: self.ghost_texts@.map_values(|s: String| s@),
            last_pre_submit_ts: self.last_pre_submit_ts,
            submit_ts: self.submit_ts,
        }
    }
}

impl FeatureExtractor {
    /// A fresh extractor that has seen no event.
    pub fn new() -> (r: FeatureExtractor)
        ensures
            r@ == fresh(),
    {
        let r = FeatureExtractor {
            start_time: None,
            last_event_time: None,
            first_action: None,
            paste_events: 0,
            total_pasted_chars: 0,
            total_typed_chars: 0,
            typing_bursts: 0,
            long_pause_count: 0,
            backspace_count: 0,
            backspace_burst_count: 0,
            undo_count: 0,
            redo_count: 0,
            selection_edit_count: 0,
            in_backspace_burst: false,
            pending_selection: None,
            events: Vec::new(),
            ghost_texts: Vec::new(),
            last_pre_submit_ts: None,
            submit_ts: None,
        };
        proof {
            assert(r@ =~= fresh());
        }
        r
    }

    /// Consumes one event: the extractor's value becomes `step` of its old
    /// value and the event.
    pub fn process_event(&mut self, event: &InputEvent)
        ensures
            final(self)@ == step(old(self)@, event@),
    {
        let ghost pre = self@;
        let ts = event.timestamp();
        self.events.push(event.clone());

        if self.start_time.is_none() {
            self.start_time = Some(ts);
        }

        // Burst accounting: the first event opens the first burst; afterwards
        // a long pause closes one and the next event opens the next.
        match self.last_event_time {
            Some(last) => {
                let gap = sub_sat(ts, last);
                if gap > LONG_PAUSE_MS && self.typing_bursts < u64::MAX
                    && self.long_pause_count < u64::MAX {
                    self.typing_bursts = self.typing_bursts + 1;
                    self.long_pause_count = self.long_pause_count + 1;
                }
            },
            None => {
                self.typing_bursts = add_sat(self.typing_bursts, 1);
            },
        }

        if let InputEvent::Submit { .. } = event {
            self.last_pre_submit_ts = self.last_event_time;
            self.submit_ts = Some(ts);
        }
        self.last_event_time = Some(ts);

        match event {
            InputEvent::KeyInsert { .. } => {
                self.total_typed_chars = add_sat(self.total_typed_chars, 1);
                self.in_backspace_burst = false;
                if let Some((sel_start, sel_end)) = self.pending_selection {
                    if sel_end > sel_start {
                        self.selection_edit_count = add_sat(self.selection_edit_count, 1);
                    }
                }
                self.pending_selection = None;
                if self.first_action.is_none() {
                    self.first_action = Some(FirstAction::Typed);
                }
            },
            InputEvent::KeyDelete { kind, count, .. } => {
                self.backspace_count = add_sat(self.backspace_count, *count as u64);
                if let DeleteKind::Backspace = kind {
                    if !self.in_backspace_burst {
                        self.backspace_burst_count = add_sat(self.backspace_burst_count, 1);
                        self.in_backspace_burst = true;
                    }
                } else {
                    self.in_backspace_burst = false;
                }
            },
            InputEvent::Paste { length, .. } => {
                self.paste_events = add_sat(self.paste_events, 1);
                self.total_pasted_chars = add_sat(self.total_pasted_chars, *length as u64);
                if self.first_action.is_none() {
                    self.first_action = Some(FirstAction::Paste);
                }
                self.in_backspace_burst = false;
                self.pending_selection = None;
            },
            InputEvent::Cut { length, .. } => {
                self.backspace_count = add_sat(self.backspace_count, *length as u64);
                self.in_backspace_burst = false;
            },
            InputEvent::CursorMove { .. } => {
                self.in_backspace_burst = false;
            },
            InputEvent::SelectionChange { start, end, .. } => {
                if *end > *start {
                    self.pending_selection = Some((*start, *end));
                } else {
                    self.pending_selection = None;
                }
                self.in_backspace_burst = false;
            },
            InputEvent::CompositionStart { .. } => {},
            InputEvent::CompositionEnd { .. } => {},
            InputEvent::Submit { .. } => {
                self.in_backspace_burst = false;
            },
            InputEvent::Undo { .. } => {
                self.undo_count = add_sat(self.undo_count, 1);
                self.in_backspace_burst = false;
            },
            InputEvent::Redo { .. } => {
                self.redo_count = add_sat(self.redo_count, 1);
                self.in_backspace_burst = false;
            },
            InputEvent::GhostText { text, .. } => {
                self.ghost_texts.push(text.clone());
            },
        }

        proof {
            assert(self@ =~= step(pre, event@));
        }
    }

    /// The source features of the current state.
    pub fn extract_source_features(&self) -> (r: SourceFeatures)
        ensures
            r == spec_source_features(self@),
            r.paste_ratio.wf(),
            r.paste_ratio.unit(),
            // The three source types partition the states.
            (r.source_type == SourceType::TypedOnly) <==> (self@.total_pasted_chars == 0
                && self@.total_typed_chars > 0),
            (r.source_type == SourceType::PasteOnly) <==> (self@.total_typed_chars == 0
                && self@.total_pasted_chars > 0),
            (r.source_type == SourceType::Mixed) <==> ((self@.total_typed_chars > 0
                && self@.total_pasted_chars > 0) || (self@.total_typed_chars == 0
                && self@.total_pasted_chars == 0)),
    {
        let total = add_sat(self.total_typed_chars, self.total_pasted_chars);
        let source_type = if self.total_typed_chars == 0 && self.total_pasted_chars > 0 {
            SourceType::PasteOnly
        } else if self.total_pasted_chars == 0 && self.total_typed_chars > 0 {
            SourceType::TypedOnly
        } else {
            SourceType::Mixed
        };
        let paste_ratio = if total > 0 {
            Ratio::new(self.total_pasted_chars, total)
        } else {
            Ratio::zero()
        };
        let first_action = match self.first_action {
            Some(a) => a,
            None => FirstAction::Other,
        };
        SourceFeatures { source_type, paste_ratio, paste_events: self.paste_events, first_action }
    }

    /// The timing features of the current state.
    pub fn extract_timing_features(&self) -> (r: TimingFeatures)
        ensures
            r == spec_timing_features(self@),
            r.avg_chars_per_sec.wf(),
    {
        let last = match self.last_event_time {
            Some(t) => t,
            None => 0,
        };
        let start = match self.start_time {
            Some(t) => t,
            None => last,
        };
        let dur = sub_sat(last, start);
        let avg_chars_per_sec = if dur > 0 {
            Ratio::new(mul_1000_sat(self.total_typed_chars), dur)
        } else {
            Ratio::zero()
        };
        let pre_submit_pause_ms = match (self.submit_ts, self.last_pre_submit_ts) {
            (Some(submit), Some(pre)) => sub_sat(submit, pre),
            _ => 0,
        };
        TimingFeatures {
            total_duration_ms: dur,
            avg_chars_per_sec,
            typing_bursts: self.typing_bursts,
            long_pause_count: self.long_pause_count,
            pre_submit_pause_ms,
        }
    }

    /// The editing features of the current state, given the codepoint count
    /// of the final text.
    pub fn extract_editing_features(&self, final_char_count: u64) -> (r: EditingFeatures)
        ensures
            r == spec_editing_features(self@, final_char_count),
            r.efficiency_score.wf(),
            r.efficiency_score.unit(),
    {
        let efficiency_score = if self.total_typed_chars == 0 {
            Ratio::one()
        } else if final_char_count <= self.total_typed_chars {
            Ratio::new(final_char_count, self.total_typed_chars)
        } else {
            Ratio::new(self.total_typed_chars, self.total_typed_chars)
        };
        EditingFeatures {
            backspace_count: self.backspace_count,
            backspace_burst_count: self.backspace_burst_count,
            undo_count: self.undo_count,
            redo_count: self.redo_count,
            selection_edit_count: self.selection_edit_count,
            efficiency_score,
        }
    }

    /// A copy of the ordered event log.
    pub fn get_events(&self) -> (r: Vec<InputEvent>)
        ensures
            r@.map_values(|e: InputEvent| e@) == self@.events,
    {
        let mut out: Vec<InputEvent> = Vec::new();
        let mut i: usize = 0;
        while i < self.events.len()
            invariant
                i <= self.events.len(),
                out@.len() == i,
                forall|j: int| 0 <= j < i ==> out@[j]@ == self.events@[j]@,
            decreases self.events.len() - i,
        {
            out.push(self.events[i].clone());
            i = i + 1;
        }
        proof {
            assert(out@.map_values(|e: InputEvent| e@) =~= self@.events);
        }
        out
    }

    /// A copy of the ordered ghost-text list.
    pub fn get_ghost_texts(&self) -> (r: Vec<String>)
        ensures
            r@.map_values(|s: String| s@) == self@.ghost_texts,
    {
        let mut out: Vec<String> = Vec::new();
        let mut i: usize = 0;
        while i < self.ghost_texts.len()
            invariant
                i <= self.ghost_texts.len(),
                out@.len() == i,
                forall|j: int| 0 <= j < i ==> out@[j]@ == self.ghost_texts@[j]@,
            decreases self.ghost_texts.len() - i,
        {
            out.push(self.ghost_texts[i].clone());
            i = i + 1;
        }
        proof {
            assert(out@.map_values(|s: String| s@) =~= self@.ghost_texts);
        }
        out
    }
}

} // verus!

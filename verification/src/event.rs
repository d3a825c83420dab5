//! The event model: a tagged union of low-level input events, each carrying a
//! millisecond timestamp.

use vstd::prelude::*;

verus! {

/// Which key produced a destructive edit.
#[derive(Debug, Clone, Copy, PartialEq, Eq, Structural)]
pub enum DeleteKind {
    Backspace,
    Delete,
}

/// A low-level input event. `ts` is a timestamp in milliseconds since an
/// arbitrary but monotonic epoch; a session's events arrive with
/// non-decreasing timestamps, equal timestamps permitted.
#[derive(Debug)]
pub enum InputEvent {
    /// A single codepoint was inserted.
    KeyInsert { ch: char, ts: u64 },
    /// `count` codepoints were removed with the given key.
    KeyDelete { kind: DeleteKind, count: u32, ts: u64 },
    /// `length` codepoints were pasted; the content is not retained.
    Paste { length: usize, ts: u64 },
    /// `length` codepoints were cut; the content is not retained.
    Cut { length: usize, ts: u64 },
    /// The cursor moved to `position`.
    CursorMove { position: usize, ts: u64 },
    /// The selection changed to the range `start..end`, with `start <= end`.
    SelectionChange { start: usize, end: usize, ts: u64 },
    /// An IME composition began.
    CompositionStart { ts: u64 },
    /// An IME composition ended.
    CompositionEnd { ts: u64 },
    /// The message was submitted; by convention the last event.
    Submit { ts: u64 },
    /// An undo was requested.
    Undo { ts: u64 },
    /// A redo was requested.
    Redo { ts: u64 },
    /// A deleted passage the caller chose to preserve for downstream use.
    GhostText { text: String, ts: u64 },
}

/// The mathematical value of an `InputEvent`: the same tagged union with the
/// preserved passage as a character sequence.
#[verifier::ext_equal]
pub ghost enum EventModel {
    KeyInsert { ch: char, ts: u64 },
    KeyDelete { kind: DeleteKind, count: u32, ts: u64 },
    Paste { length: usize, ts: u64 },
    Cut { length: usize, ts: u64 },
    CursorMove { position: usize, ts: u64 },
    SelectionChange { start: usize, end: usize, ts: u64 },
    CompositionStart { ts: u64 },
    CompositionEnd { ts: u64 },
    Submit { ts: u64 },
    Undo { ts: u64 },
    Redo { ts: u64 },
    GhostText { text: Seq<char>, ts: u64 },
}

impl EventModel {
    /// The timestamp every event variant carries.
    pub open spec fn ts(self) -> u64 {
        match self {
            EventModel::KeyInsert { ts, .. } => ts,
            EventModel::KeyDelete { ts, .. } => ts,
            EventModel::Paste { ts, .. } => ts,
            EventModel::Cut { ts, .. } => ts,
            EventModel::CursorMove { ts, .. } => ts,
            EventModel::SelectionChange { ts, .. } => ts,
            EventModel::CompositionStart { ts } => ts,
            EventModel::CompositionEnd { ts } => ts,
            EventModel::Submit { ts } => ts,
            EventModel::Undo { ts } => ts,
            EventModel::Redo { ts } => ts,
            EventModel::GhostText { ts, .. } => ts,
        }
    }
}

impl View for InputEvent {
    type V = EventModel;

    open spec fn view(&self) -> EventModel {
        match self {
            InputEvent::KeyInsert { ch, ts } => EventModel::KeyInsert { ch: *ch, ts: *ts },
            InputEvent::KeyDelete { kind, count, ts } => EventModel::KeyDelete {
                kind: *kind,
                count: *count,
                ts: *ts,
            },
            InputEvent::Paste { length, ts } => EventModel::Paste { length: *length, ts: *ts },
            InputEvent::Cut { length, ts } => EventModel::Cut { length: *length, ts: *ts },
            InputEvent::CursorMove { position, ts } => EventModel::CursorMove {
                position: *position,
                ts: *ts,
            },
            InputEvent::SelectionChange { start, end, ts } => EventModel::SelectionChange {
                start: *start,
                end: *end,
                ts: *ts,
            },
            InputEvent::CompositionStart { ts } => EventModel::CompositionStart { ts: *ts },
            InputEvent::CompositionEnd { ts } => EventModel::CompositionEnd { ts: *ts },
            InputEvent::Submit { ts } => EventModel::Submit { ts: *ts },
            InputEvent::Undo { ts } => EventModel::Undo { ts: *ts },
            InputEvent::Redo { ts } => EventModel::Redo { ts: *ts },
            InputEvent::GhostText { text, ts } => EventModel::GhostText { text: text@, ts: *ts },
        }
    }
}

impl InputEvent {
    /// The timestamp of the event.
    pub fn timestamp(&self) -> (ts: u64)
        ensures
            ts == self@.ts(),
    {
        match self {
            InputEvent::KeyInsert { ts, .. } => *ts,
            InputEvent::KeyDelete { ts, .. } => *ts,
            InputEvent::Paste { ts, .. } => *ts,
            InputEvent::Cut { ts, .. } => *ts,
            InputEvent::CursorMove { ts, .. } => *ts,
            InputEvent::SelectionChange { ts, .. } => *ts,
            InputEvent::CompositionStart { ts } => *ts,
            InputEvent::CompositionEnd { ts } => *ts,
            InputEvent::Submit { ts } => *ts,
            InputEvent::Undo { ts } => *ts,
            InputEvent::Redo { ts } => *ts,
            InputEvent::GhostText { ts, .. } => *ts,
        }
    }
}

/// `n` capped into the `u32` range.
pub open spec fn sat_u32(n: int) -> u32 {
    if n > u32::MAX {
        u32::MAX
    } else if n < 0 {
        0
    } else {
        n as u32
    }
}

/// Classifies one text-box change as an input event, from the text length
/// before and after the change and the last character of the new text: a
/// growth of several characters reads as a paste, a growth of one as a
/// keypress of the last character, and a shrink as a backspace run. An
/// unchanged length carries no event.
pub fn infer_edit_event(
    previous_len: usize,
    current_len: usize,
    last_char: Option<char>,
    ts: u64,
) -> (r: Option<InputEvent>)
    ensures
        current_len > previous_len + 1 ==> r == Some(
            InputEvent::Paste { length: (current_len - previous_len) as usize, ts },
        ),
        current_len == previous_len + 1 ==> r == (match last_char {
            Some(ch) => Some(InputEvent::KeyInsert { ch, ts }),
            None => None::<InputEvent>,
        }),
        current_len < previous_len ==> r == Some(
            InputEvent::KeyDelete {
                kind: DeleteKind::Backspace,
                count: sat_u32(previous_len - current_len),
                ts,
            },
        ),
        current_len == previous_len ==> r is None,
{
    if current_len > previous_len {
        let diff = current_len - previous_len;
        if diff > 1 {
            Some(InputEvent::Paste { length: diff, ts })
        } else {
            match last_char {
                Some(ch) => Some(InputEvent::KeyInsert { ch, ts }),
                None => None,
            }
        }
    } else if current_len < previous_len {
        let diff = previous_len - current_len;
        let count: u32 = if diff > u32::MAX as usize {
            u32::MAX
        } else {
            diff as u32
        };
        Some(InputEvent::KeyDelete { kind: DeleteKind::Backspace, count, ts })
    } else {
        None
    }
}

impl Clone for InputEvent {
    /// A clone carries the same mathematical value as the original.
    fn clone(&self) -> (r: Self)
        ensures
            r@ == self@,
    {
        match self {
            InputEvent::KeyInsert { ch, ts } => InputEvent::KeyInsert { ch: *ch, ts: *ts },
            InputEvent::KeyDelete { kind, count, ts } => InputEvent::KeyDelete {
                kind: *kind,
                count: *count,
                ts: *ts,
            },
            InputEvent::Paste { length, ts } => InputEvent::Paste { length: *length, ts: *ts },
            InputEvent::Cut { length, ts } => InputEvent::Cut { length: *length, ts: *ts },
            InputEvent::CursorMove { position, ts } => InputEvent::CursorMove {
                position: *position,
                ts: *ts,
            },
            InputEvent::SelectionChange { start, end, ts } => InputEvent::SelectionChange {
                start: *start,
                end: *end,
                ts: *ts,
            },
            InputEvent::CompositionStart { ts } => InputEvent::CompositionStart { ts: *ts },
            InputEvent::CompositionEnd { ts } => InputEvent::CompositionEnd { ts: *ts },
            InputEvent::Submit { ts } => InputEvent::Submit { ts: *ts },
            InputEvent::Undo { ts } => InputEvent::Undo { ts: *ts },
            InputEvent::Redo { ts } => InputEvent::Redo { ts: *ts },
            InputEvent::GhostText { text, ts } => InputEvent::GhostText {
                text: text.clone(),
                ts: *ts,
            },
        }
    }
}

} // verus!

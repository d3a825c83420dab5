use ifl_core::event::{infer_edit_event, DeleteKind};
use ifl_core::profile::{
    AnswerMode, CoreError, FirstAction, ScopeHint, SourceType, ToneHint, UserState,
};
use ifl_core::prompt::build_system_prompt;
use ifl_core::{IflCore, InputEvent};

fn type_text(core: &mut IflCore, id: u128, text: &str, start_ts: u64, gap: u64) -> u64 {
    let mut ts: u64 = start_ts;
    for ch in text.chars() {
        core.push_event(id, InputEvent::KeyInsert { ch, ts }).unwrap();
        ts += gap;
    }
    ts
}

#[test]
fn test_short_query_explore() {
    let mut core = IflCore::new();
    let id = core.start_message().unwrap();
    let ts = type_text(&mut core, id, "Hi?", 1000, 100);
    core.push_event(id, InputEvent::Submit { ts }).unwrap();

    let profile = core.finalize_message(id, "Hi?").unwrap();
    assert_eq!(profile.structure.line_count, 1);
    assert_eq!(profile.structure.char_count, 3);
    assert!(profile.structure.question_like);
    assert!(profile.tags.answer_mode.contains(&AnswerMode::Explore));
    assert!(profile.tags.answer_mode.contains(&AnswerMode::ClarifyQuestion));
    assert!(matches!(profile.tags.scope_hint, ScopeHint::Broad));
}

#[test]
fn test_finalize_twice_not_found() {
    let mut core = IflCore::new();
    let id = core.start_message().unwrap();
    let ts = type_text(&mut core, id, "Hello", 1000, 100);
    core.push_event(id, InputEvent::Submit { ts }).unwrap();

    assert!(core.finalize_message(id, "Hello").is_ok());
    assert!(matches!(
        core.finalize_message(id, "Hello"),
        Err(CoreError::NotFound)
    ));
}

#[test]
fn test_unknown_id_not_found() {
    let mut core = IflCore::new();
    let id = core.start_message().unwrap();
    let missing = id.wrapping_add(1);
    assert_eq!(
        core.push_event(missing, InputEvent::Submit { ts: 1 }),
        Err(CoreError::NotFound)
    );
    assert!(core.preview_message(missing, "x").is_err());
    assert!(core.export_events(missing).is_err());
    assert!(core.export_snapshot(missing, "x").is_err());
}

#[test]
fn test_sessions_independent() {
    let mut core = IflCore::new();
    let id1 = core.start_message().unwrap();
    let id2 = core.start_message().unwrap();
    assert_ne!(id1, id2);

    let ts = type_text(&mut core, id1, "abc", 1000, 100);
    core.push_event(id1, InputEvent::Submit { ts }).unwrap();
    core.push_event(id2, InputEvent::Paste { length: 9, ts: 1000 }).unwrap();
    core.push_event(id2, InputEvent::Submit { ts: 1100 }).unwrap();

    let p1 = core.finalize_message(id1, "abc").unwrap();
    let p2 = core.finalize_message(id2, "abcdefghi").unwrap();
    assert_eq!(p1.source.source_type, SourceType::TypedOnly);
    assert_eq!(p2.source.source_type, SourceType::PasteOnly);
}

#[test]
fn test_source_type_partition() {
    // Degenerate session: no typing, no pasting at all is still Mixed.
    let mut core = IflCore::new();
    let id = core.start_message().unwrap();
    core.push_event(id, InputEvent::Submit { ts: 1000 }).unwrap();
    let profile = core.finalize_message(id, "").unwrap();
    assert_eq!(profile.source.source_type, SourceType::Mixed);
    assert_eq!(profile.source.first_action, FirstAction::Other);
    // Empty text: no characters, no lines, vacuously efficient.
    assert_eq!(profile.structure.char_count, 0);
    assert_eq!(profile.structure.line_count, 0);
    assert_eq!(profile.editing.efficiency_score.num, 1);
    assert_eq!(profile.editing.efficiency_score.den, 1);
}

#[test]
fn test_paste_ratio_exact() {
    let mut core = IflCore::new();
    let id = core.start_message().unwrap();
    let ts = type_text(&mut core, id, "abc", 1000, 100);
    core.push_event(id, InputEvent::Paste { length: 7, ts }).unwrap();
    core.push_event(id, InputEvent::Submit { ts: ts + 100 }).unwrap();

    let profile = core.finalize_message(id, "abcdefghij").unwrap();
    assert_eq!(profile.source.paste_ratio.num, 7);
    assert_eq!(profile.source.paste_ratio.den, 10);
    assert_eq!(profile.source.first_action, FirstAction::Typed);
    assert_eq!(profile.source.paste_events, 1);
}

#[test]
fn test_counts_monotonic_under_push() {
    let mut core = IflCore::new();
    let id = core.start_message().unwrap();
    let events = vec![
        InputEvent::KeyInsert { ch: 'a', ts: 1000 },
        InputEvent::KeyDelete { kind: DeleteKind::Backspace, count: 2, ts: 1100 },
        InputEvent::Paste { length: 4, ts: 1200 },
        InputEvent::Undo { ts: 1300 },
        InputEvent::Redo { ts: 4000 },
        InputEvent::Cut { length: 3, ts: 4100 },
        InputEvent::Submit { ts: 4200 },
    ];
    let mut last = core.preview_message(id, "").unwrap();
    for e in events {
        core.push_event(id, e).unwrap();
        let next = core.preview_message(id, "").unwrap();
        assert!(next.editing.backspace_count >= last.editing.backspace_count);
        assert!(next.editing.undo_count >= last.editing.undo_count);
        assert!(next.editing.redo_count >= last.editing.redo_count);
        assert!(next.editing.selection_edit_count >= last.editing.selection_edit_count);
        assert!(next.source.paste_events >= last.source.paste_events);
        assert!(next.timing.typing_bursts >= last.timing.typing_bursts);
        assert!(next.timing.long_pause_count >= last.timing.long_pause_count);
        last = next;
    }
}

#[test]
fn test_bursts_and_pauses() {
    let mut core = IflCore::new();
    let id = core.start_message().unwrap();
    // Three bursts separated by two long pauses; a 1500ms gap is not a pause.
    core.push_event(id, InputEvent::KeyInsert { ch: 'a', ts: 1000 }).unwrap();
    core.push_event(id, InputEvent::KeyInsert { ch: 'b', ts: 2500 }).unwrap();
    core.push_event(id, InputEvent::KeyInsert { ch: 'c', ts: 4001 }).unwrap();
    core.push_event(id, InputEvent::KeyInsert { ch: 'd', ts: 5502 }).unwrap();
    core.push_event(id, InputEvent::Submit { ts: 5502 }).unwrap();

    let profile = core.finalize_message(id, "abcd").unwrap();
    assert_eq!(profile.timing.long_pause_count, 2);
    assert_eq!(profile.timing.typing_bursts, 3);
    assert!(profile.timing.typing_bursts >= 1);
    assert!(profile.timing.long_pause_count <= profile.timing.typing_bursts - 1);
}

#[test]
fn test_pre_submit_pause() {
    let mut core = IflCore::new();
    let id = core.start_message().unwrap();
    core.push_event(id, InputEvent::KeyInsert { ch: 'a', ts: 1000 }).unwrap();
    core.push_event(id, InputEvent::KeyInsert { ch: 'b', ts: 1100 }).unwrap();
    core.push_event(id, InputEvent::Submit { ts: 2000 }).unwrap();

    let profile = core.finalize_message(id, "ab").unwrap();
    assert_eq!(profile.timing.pre_submit_pause_ms, 900);
    assert_eq!(profile.timing.total_duration_ms, 1000);
}

#[test]
fn test_avg_chars_per_sec_exact() {
    let mut core = IflCore::new();
    let id = core.start_message().unwrap();
    let ts = type_text(&mut core, id, "hello", 1000, 100);
    // Last insert at 1400: duration 400ms, 5 typed chars.
    core.push_event(id, InputEvent::Submit { ts: ts - 100 }).unwrap();
    let profile = core.finalize_message(id, "hello").unwrap();
    assert_eq!(profile.timing.total_duration_ms, 400);
    assert_eq!(profile.timing.avg_chars_per_sec.num, 5000);
    assert_eq!(profile.timing.avg_chars_per_sec.den, 400);
}

#[test]
fn test_delete_kinds_and_cut() {
    let mut core = IflCore::new();
    let id = core.start_message().unwrap();
    // A backspace run opens one burst; a forward delete and a cut count as
    // destructive edits without opening one.
    core.push_event(id, InputEvent::KeyInsert { ch: 'a', ts: 1000 }).unwrap();
    core.push_event(
        id,
        InputEvent::KeyDelete { kind: DeleteKind::Backspace, count: 3, ts: 1100 },
    )
    .unwrap();
    core.push_event(
        id,
        InputEvent::KeyDelete { kind: DeleteKind::Backspace, count: 1, ts: 1200 },
    )
    .unwrap();
    core.push_event(
        id,
        InputEvent::KeyDelete { kind: DeleteKind::Delete, count: 2, ts: 1300 },
    )
    .unwrap();
    core.push_event(id, InputEvent::Cut { length: 4, ts: 1400 }).unwrap();
    core.push_event(id, InputEvent::Submit { ts: 1500 }).unwrap();

    let profile = core.finalize_message(id, "a").unwrap();
    assert_eq!(profile.editing.backspace_count, 10);
    assert_eq!(profile.editing.backspace_burst_count, 1);
}

#[test]
fn test_undo_redo_counts() {
    let mut core = IflCore::new();
    let id = core.start_message().unwrap();
    core.push_event(id, InputEvent::Undo { ts: 1000 }).unwrap();
    core.push_event(id, InputEvent::Undo { ts: 1100 }).unwrap();
    core.push_event(id, InputEvent::Redo { ts: 1200 }).unwrap();
    core.push_event(id, InputEvent::Submit { ts: 1300 }).unwrap();
    let profile = core.finalize_message(id, "").unwrap();
    assert_eq!(profile.editing.undo_count, 2);
    assert_eq!(profile.editing.redo_count, 1);
}

#[test]
fn test_bullets_narrow_scope() {
    let mut core = IflCore::new();
    let id = core.start_message().unwrap();
    core.push_event(id, InputEvent::Paste { length: 30, ts: 1000 }).unwrap();
    core.push_event(id, InputEvent::Submit { ts: 1100 }).unwrap();
    let text = "- one\n* two\n  3. three\nplain\n\t4. four";
    let profile = core.finalize_message(id, text).unwrap();
    assert_eq!(profile.structure.bullet_lines, 4);
    assert!(profile.tags.answer_mode.contains(&AnswerMode::Structure));
    assert!(matches!(profile.tags.scope_hint, ScopeHint::Narrow));
}

#[test]
fn test_code_block_detection() {
    let mut core = IflCore::new();
    let id = core.start_message().unwrap();
    core.push_event(id, InputEvent::Submit { ts: 1000 }).unwrap();
    let profile = core.finalize_message(id, "see:\n    indented code line").unwrap();
    assert!(profile.structure.has_code_block);

    let id2 = core.start_message().unwrap();
    core.push_event(id2, InputEvent::Submit { ts: 1000 }).unwrap();
    let profile2 = core.finalize_message(id2, "fenced\n```\nx\n```").unwrap();
    assert!(profile2.structure.has_code_block);

    let id3 = core.start_message().unwrap();
    core.push_event(id3, InputEvent::Submit { ts: 1000 }).unwrap();
    let profile3 = core.finalize_message(id3, "no code here").unwrap();
    assert!(!profile3.structure.has_code_block);
}

#[test]
fn test_command_like_uppercase() {
    // The lowercase mapping must really fold case: an all-caps command still
    // reads as a command and turns the tone direct.
    let mut core = IflCore::new();
    let id = core.start_message().unwrap();
    let ts = type_text(&mut core, id, "PLEASE look at this painting now", 1000, 100);
    core.push_event(id, InputEvent::Submit { ts }).unwrap();
    let profile = core.finalize_message(id, "PLEASE look at this painting now").unwrap();
    assert!(profile.structure.command_like);
    assert!(matches!(profile.tags.tone_hint, ToneHint::Direct));
}

#[test]
fn test_request_summary_uppercase() {
    let mut core = IflCore::new();
    let id = core.start_message().unwrap();
    let ts = type_text(&mut core, id, "SUMMARIZE the chapter for the meeting", 1000, 100);
    core.push_event(id, InputEvent::Submit { ts }).unwrap();
    let profile = core.finalize_message(id, "SUMMARIZE the chapter for the meeting").unwrap();
    assert!(profile.structure.request_summary);
    assert!(profile.tags.answer_mode.contains(&AnswerMode::Summarize));
}

#[test]
fn test_request_implementation() {
    let mut core = IflCore::new();
    let id = core.start_message().unwrap();
    let text = "Write code that parses the log format we discussed yesterday";
    let ts = type_text(&mut core, id, text, 1000, 100);
    core.push_event(id, InputEvent::Submit { ts }).unwrap();
    let profile = core.finalize_message(id, text).unwrap();
    assert!(profile.structure.request_implementation);
    assert!(profile.tags.answer_mode.contains(&AnswerMode::Complete));
    assert!(profile.tags.answer_mode.contains(&AnswerMode::Structure));
    assert!(matches!(profile.tags.tone_hint, ToneHint::Direct));
}

#[test]
fn test_user_states_order() {
    let mut core = IflCore::new();
    let id = core.start_message().unwrap();
    // Fast, pause-free typing with no corrections: Flowing and Focused, in
    // declared enum order.
    let ts = type_text(&mut core, id, "0123456789", 1000, 100);
    core.push_event(id, InputEvent::Submit { ts }).unwrap();
    let profile = core.finalize_message(id, "0123456789").unwrap();
    assert_eq!(profile.tags.user_state, vec![UserState::Flowing, UserState::Focused]);
}

#[test]
fn test_hesitant_and_scattered() {
    let mut core = IflCore::new();
    let id = core.start_message().unwrap();
    // Six one-char bursts separated by long pauses: slow and scattered.
    let mut ts: u64 = 1000;
    for ch in "abcdef".chars() {
        core.push_event(id, InputEvent::KeyInsert { ch, ts }).unwrap();
        ts += 5000;
    }
    core.push_event(id, InputEvent::Submit { ts: ts - 5000 }).unwrap();
    let profile = core.finalize_message(id, "abcdef").unwrap();
    assert!(profile.tags.user_state.contains(&UserState::Hesitant));
    assert!(profile.tags.user_state.contains(&UserState::Scattered));
    assert_eq!(profile.timing.typing_bursts, 6);
    assert_eq!(profile.timing.long_pause_count, 5);
}

#[test]
fn test_ghost_text_and_prompt() {
    let mut core = IflCore::new();
    let id = core.start_message().unwrap();
    let ts = type_text(&mut core, id, "final words", 1000, 100);
    core.push_event(
        id,
        InputEvent::GhostText { text: "first draft".to_string(), ts },
    )
    .unwrap();
    core.push_event(
        id,
        InputEvent::GhostText { text: "second draft".to_string(), ts },
    )
    .unwrap();
    core.push_event(id, InputEvent::Submit { ts }).unwrap();

    let profile = core.finalize_message(id, "final words").unwrap();
    assert_eq!(profile.ghost_text, vec!["first draft", "second draft"]);

    let prompt = build_system_prompt(&profile);
    assert!(prompt.starts_with("You are an intelligent assistant analyzing user input behavior.\n"));
    assert!(prompt.contains("GHOST TEXT (Deleted Thoughts):\n"));
    assert!(prompt.contains("  1. \"first draft\"\n"));
    assert!(prompt.contains("  2. \"second draft\"\n"));
    assert!(prompt.contains("- Tone: Neutral\n"));
    assert!(prompt.contains("Guidelines:\n"));
}

#[test]
fn test_prompt_modes_and_confidence() {
    let mut core = IflCore::new();
    let id = core.start_message().unwrap();
    let ts = type_text(&mut core, id, "Summarize this article.", 1000, 100);
    core.push_event(id, InputEvent::Submit { ts }).unwrap();
    let profile = core.finalize_message(id, "Summarize this article.").unwrap();

    let prompt = build_system_prompt(&profile);
    assert!(prompt.contains("- Modes: ["));
    assert!(prompt.contains("Summarize"));
    assert!(prompt.contains("- Confidence: 0.90\n"));
    assert!(prompt.contains("\nSpecific Goals:\n"));
    assert!(prompt.contains("- Summarize the input text.\n"));
}

#[test]
fn test_import_reproduces_profile() {
    let mut core = IflCore::new();
    let id = core.start_message().unwrap();
    let mut ts: u64 = 1000;
    for ch in "draft?".chars() {
        core.push_event(id, InputEvent::KeyInsert { ch, ts }).unwrap();
        ts += 2000;
    }
    core.push_event(
        id,
        InputEvent::KeyDelete { kind: DeleteKind::Backspace, count: 1, ts },
    )
    .unwrap();
    core.push_event(
        id,
        InputEvent::GhostText { text: "kept".to_string(), ts },
    )
    .unwrap();
    core.push_event(id, InputEvent::Submit { ts: ts + 100 }).unwrap();

    let events = core.export_events(id).unwrap();
    let p1 = core.finalize_message(id, "draft?").unwrap();

    let mut core2 = IflCore::new();
    let id2 = core2.import_events(&events).unwrap();
    let p2 = core2.finalize_message(id2, "draft?").unwrap();

    assert_eq!(p1.source.source_type, p2.source.source_type);
    assert_eq!(p1.source.paste_ratio, p2.source.paste_ratio);
    assert_eq!(p1.timing.total_duration_ms, p2.timing.total_duration_ms);
    assert_eq!(p1.timing.typing_bursts, p2.timing.typing_bursts);
    assert_eq!(p1.timing.long_pause_count, p2.timing.long_pause_count);
    assert_eq!(p1.timing.pre_submit_pause_ms, p2.timing.pre_submit_pause_ms);
    assert_eq!(p1.editing.backspace_count, p2.editing.backspace_count);
    assert_eq!(p1.editing.efficiency_score, p2.editing.efficiency_score);
    assert_eq!(p1.structure, p2.structure);
    assert_eq!(p1.tags.answer_mode, p2.tags.answer_mode);
    assert_eq!(p1.tags.user_state, p2.tags.user_state);
    assert_eq!(p1.tags.confidence, p2.tags.confidence);
    assert_eq!(p1.ghost_text, p2.ghost_text);
}

#[test]
fn test_preview_non_destructive() {
    let mut core = IflCore::new();
    let id = core.start_message().unwrap();
    let ts = type_text(&mut core, id, "abc", 1000, 100);
    let p1 = core.preview_message(id, "abc").unwrap();
    let p2 = core.preview_message(id, "abc").unwrap();
    assert_eq!(p1.structure, p2.structure);
    core.push_event(id, InputEvent::Submit { ts }).unwrap();
    assert!(core.finalize_message(id, "abc").is_ok());
}

#[test]
fn test_infer_edit_event() {
    assert!(matches!(
        infer_edit_event(3, 10, Some('x'), 50),
        Some(InputEvent::Paste { length: 7, ts: 50 })
    ));
    assert!(matches!(
        infer_edit_event(3, 4, Some('x'), 50),
        Some(InputEvent::KeyInsert { ch: 'x', ts: 50 })
    ));
    assert!(matches!(
        infer_edit_event(5, 2, None, 50),
        Some(InputEvent::KeyDelete { kind: DeleteKind::Backspace, count: 3, ts: 50 })
    ));
    assert!(infer_edit_event(4, 4, Some('x'), 50).is_none());
    assert!(infer_edit_event(3, 4, None, 50).is_none());
}

#[test]
fn test_equal_timestamps_allowed() {
    // Equal timestamps are permitted: no pause, no duration, speed reads 0.
    let mut core = IflCore::new();
    let id = core.start_message().unwrap();
    core.push_event(id, InputEvent::KeyInsert { ch: 'a', ts: 1000 }).unwrap();
    core.push_event(id, InputEvent::KeyInsert { ch: 'b', ts: 1000 }).unwrap();
    core.push_event(id, InputEvent::Submit { ts: 1000 }).unwrap();
    let profile = core.finalize_message(id, "ab").unwrap();
    assert_eq!(profile.timing.total_duration_ms, 0);
    assert_eq!(profile.timing.long_pause_count, 0);
    assert_eq!(profile.timing.typing_bursts, 1);
    assert_eq!(profile.timing.avg_chars_per_sec.num, 0);
}

#[test]
fn test_timestamp_regression_tolerated() {
    // A timestamp running backwards is absorbed: the gap saturates at zero.
    let mut core = IflCore::new();
    let id = core.start_message().unwrap();
    core.push_event(id, InputEvent::KeyInsert { ch: 'a', ts: 5000 }).unwrap();
    core.push_event(id, InputEvent::KeyInsert { ch: 'b', ts: 1000 }).unwrap();
    core.push_event(id, InputEvent::Submit { ts: 1000 }).unwrap();
    let profile = core.finalize_message(id, "ab").unwrap();
    assert_eq!(profile.timing.long_pause_count, 0);
    assert_eq!(profile.timing.typing_bursts, 1);
    // Duration runs from the first event to the last one seen.
    assert_eq!(profile.timing.total_duration_ms, 0);
}

#[test]
fn test_counter_saturation() {
    // Pasting the largest possible length twice saturates the counters
    // instead of wrapping, and the ratio stays within the unit interval.
    let mut core = IflCore::new();
    let id = core.start_message().unwrap();
    core.push_event(id, InputEvent::Paste { length: usize::MAX, ts: 1000 }).unwrap();
    core.push_event(id, InputEvent::Paste { length: usize::MAX, ts: 1100 }).unwrap();
    core.push_event(id, InputEvent::Submit { ts: 1200 }).unwrap();
    let profile = core.finalize_message(id, "x").unwrap();
    assert_eq!(profile.source.source_type, SourceType::PasteOnly);
    assert_eq!(profile.source.paste_ratio.num, profile.source.paste_ratio.den);
    assert_eq!(profile.source.paste_events, 2);
}

#[test]
fn test_avg_line_length_exact() {
    let mut core = IflCore::new();
    let id = core.start_message().unwrap();
    core.push_event(id, InputEvent::Submit { ts: 1000 }).unwrap();
    let profile = core.finalize_message(id, "ab\ncd").unwrap();
    assert_eq!(profile.structure.char_count, 5);
    assert_eq!(profile.structure.line_count, 2);
    assert_eq!(profile.structure.avg_line_length.num, 5);
    assert_eq!(profile.structure.avg_line_length.den, 2);
}

#[test]
fn test_bounds_hold_everywhere() {
    let mut core = IflCore::new();
    let id = core.start_message().unwrap();
    core.push_event(id, InputEvent::Paste { length: 1000, ts: 1000 }).unwrap();
    let ts = type_text(&mut core, id, "notes", 1100, 10);
    core.push_event(id, InputEvent::Submit { ts }).unwrap();
    let profile = core.finalize_message(id, "a\nb\nc\nsummarize?").unwrap();

    let within_unit = |num: u64, den: u64| den >= 1 && num <= den;
    assert!(within_unit(profile.source.paste_ratio.num, profile.source.paste_ratio.den));
    assert!(within_unit(
        profile.editing.efficiency_score.num,
        profile.editing.efficiency_score.den
    ));
    assert!(within_unit(profile.tags.confidence.num, profile.tags.confidence.den));
}

use auto_handoff::app_server::protocol::{
    EventMsg, ItemCompletedEvent, SessionSource, SubAgentSource, TurnAbortedEvent,
    TurnCompleteEvent, TurnItem,
};
use auto_handoff::app_server::state::{
    auto_handoff_threshold_for_session, build_preparation_prompt, AutoHandoffAction,
    AutoHandoffMetadata, AutoHandoffPrepareRequest, AutoHandoffReplacementRequest,
    AutoHandoffState,
};
use std::path::Path;

const THREAD_ID: &str = "67e55044-10b1-426f-9247-bb680e5fe0c8";

fn metadata() -> AutoHandoffMetadata<'static> {
    AutoHandoffMetadata {
        thread_id: THREAD_ID,
        thread_name: Some("feature work"),
        cwd: Some(Path::new("/tmp/project")),
        rollout_path: None,
    }
}

fn item_completed(turn_id: &str, item: TurnItem) -> EventMsg {
    EventMsg::ItemCompleted(ItemCompletedEvent {
        turn_id: turn_id.to_string(),
        item,
    })
}

fn turn_complete(turn_id: &str, last_agent_message: Option<&str>) -> EventMsg {
    EventMsg::TurnComplete(TurnCompleteEvent {
        turn_id: turn_id.to_string(),
        last_agent_message: last_agent_message.map(str::to_string),
    })
}

fn turn_aborted(turn_id: Option<&str>) -> EventMsg {
    EventMsg::TurnAborted(TurnAbortedEvent {
        turn_id: turn_id.map(str::to_string),
    })
}

fn compaction(turn_id: &str) -> EventMsg {
    item_completed(turn_id, TurnItem::ContextCompaction)
}

/// A state that waits for the end of `turn_id` after one compaction.
fn waiting_for_compaction_turn(turn_id: &str) -> AutoHandoffState {
    let mut state = AutoHandoffState::default();
    assert_eq!(state.record_event(&compaction(turn_id), Some(1), metadata()), None);
    state
}

/// A state that asked for a prompt after one compaction.
fn awaiting_submission() -> AutoHandoffState {
    let mut state = waiting_for_compaction_turn("compact");
    let action = state.record_event(&turn_complete("compact", None), Some(1), metadata());
    assert!(matches!(action, Some(AutoHandoffAction::PreparePrompt(_))));
    state
}

/// A state that waits for the answer in `turn_id`.
fn waiting_for_preparation_turn(turn_id: &str) -> AutoHandoffState {
    let mut state = awaiting_submission();
    assert!(state.mark_preparation_submitted(turn_id.to_string()));
    state
}

fn assert_given_up(state: &mut AutoHandoffState) {
    for event in [
        compaction("again"),
        turn_complete("again", Some("text")),
        turn_complete("compact", Some("text")),
        turn_complete("prepare", Some("text")),
        turn_aborted(Some("compact")),
    ] {
        assert_eq!(state.record_event(&event, Some(1), metadata()), None);
    }
    assert!(!state.mark_preparation_submitted("prepare".to_string()));
    state.mark_preparation_submission_failed();
    assert_eq!(
        state.record_event(&turn_complete("prepare", Some("text")), Some(1), metadata()),
        None
    );
}

#[test]
fn disabled_threshold_does_not_trigger() {
    let mut state = AutoHandoffState::default();
    let event = item_completed("compact-turn", TurnItem::ContextCompaction);

    assert_eq!(state.record_event(&event, None, metadata()), None);
    assert_eq!(state.record_event(&event, Some(0), metadata()), None);
}

#[test]
fn threshold_is_enabled_for_subagents() {
    assert_eq!(
        auto_handoff_threshold_for_session(Some(2), &SessionSource::Mcp),
        Some(2)
    );

    let subagent_source = SessionSource::SubAgent(SubAgentSource::ThreadSpawn {
        parent_thread_id: THREAD_ID.to_string(),
        depth: 1,
        agent_path: None,
        agent_nickname: None,
        agent_role: None,
    });
    assert_eq!(
        auto_handoff_threshold_for_session(Some(2), &subagent_source),
        Some(2)
    );
}

#[test]
fn threshold_triggers_once() {
    let mut state = AutoHandoffState::default();
    let first_compaction = item_completed("compact-turn-1", TurnItem::ContextCompaction);
    let second_compaction = item_completed("compact-turn-2", TurnItem::ContextCompaction);

    assert_eq!(
        state.record_event(&first_compaction, Some(2), metadata()),
        None
    );
    assert_eq!(
        state.record_event(&second_compaction, Some(2), metadata()),
        None
    );

    let prepare = state
        .record_event(&turn_complete("compact-turn-2", None), Some(2), metadata())
        .expect("compaction turn completion should request a handoff prompt");
    let AutoHandoffAction::PreparePrompt(prepare) = prepare else {
        unreachable!("expected preparation request");
    };
    assert!(prepare.prompt.contains("Prepare a concise prompt"));
    assert!(prepare.prompt.contains("Reply only with the prompt"));
    assert!(prepare
        .prompt
        .contains("Context compactions observed: 2 of configured threshold 2"));
    assert_eq!(prepare.compaction_count, 2);
    assert_eq!(prepare.threshold, 2);

    assert!(state.mark_preparation_submitted("prepare-turn".to_string()));
    let replacement = state
        .record_event(
            &turn_complete("prepare-turn", Some("GENERATED HANDOFF PROMPT")),
            Some(2),
            metadata(),
        )
        .expect("preparation turn completion should start replacement");
    let AutoHandoffAction::StartReplacement(replacement) = replacement else {
        unreachable!("expected replacement request");
    };
    assert_eq!(replacement.prompt, "GENERATED HANDOFF PROMPT");
    assert_eq!(replacement.compaction_count, 2);
    assert_eq!(replacement.threshold, 2);
    assert_eq!(replacement.preparation_turn_id, "prepare-turn");

    let third_compaction = item_completed("compact-turn-3", TurnItem::ContextCompaction);
    assert_eq!(
        state.record_event(&third_compaction, Some(2), metadata()),
        None
    );
}

#[test]
fn disabled_thread_never_asks_for_a_prompt() {
    for threshold in [None, Some(0)] {
        let mut state = AutoHandoffState::default();
        for _ in 0..5 {
            assert_eq!(state.record_event(&compaction("turn"), threshold, metadata()), None);
            assert_eq!(
                state.record_event(&turn_complete("turn", Some("text")), threshold, metadata()),
                None
            );
        }
        // Nothing was counted meanwhile.
        assert_eq!(state.record_event(&compaction("turn"), Some(2), metadata()), None);
        assert_eq!(
            state.record_event(&turn_complete("turn", None), Some(2), metadata()),
            None
        );
    }
}

#[test]
fn internal_session_has_no_threshold() {
    assert_eq!(
        auto_handoff_threshold_for_session(Some(2), &SessionSource::Internal),
        None
    );
    assert_eq!(
        auto_handoff_threshold_for_session(None, &SessionSource::Internal),
        None
    );
    assert_eq!(
        auto_handoff_threshold_for_session(None, &SessionSource::Other),
        None
    );
    assert_eq!(
        auto_handoff_threshold_for_session(Some(0), &SessionSource::Other),
        Some(0)
    );
    assert_eq!(
        auto_handoff_threshold_for_session(
            Some(7),
            &SessionSource::SubAgent(SubAgentSource::Other)
        ),
        Some(7)
    );
}

#[test]
fn internal_session_never_hands_off() {
    let threshold = auto_handoff_threshold_for_session(Some(1), &SessionSource::Internal);
    let mut state = AutoHandoffState::default();
    assert_eq!(state.record_event(&compaction("turn"), threshold, metadata()), None);
    assert_eq!(
        state.record_event(&turn_complete("turn", Some("text")), threshold, metadata()),
        None
    );
}

#[test]
fn prepare_request_is_exact() {
    let mut state = waiting_for_compaction_turn("compact");
    let action = state.record_event(&turn_complete("compact", Some("text")), Some(1), metadata());
    assert_eq!(
        action,
        Some(AutoHandoffAction::PreparePrompt(AutoHandoffPrepareRequest {
            prompt: build_preparation_prompt(1, metadata(), 1),
            compaction_count: 1,
            threshold: 1,
        }))
    );
}

#[test]
fn prompt_of_a_known_session_is_exact() {
    let metadata = AutoHandoffMetadata {
        thread_id: THREAD_ID,
        thread_name: Some(" \tfeature work\n"),
        cwd: Some(Path::new("/tmp/project")),
        rollout_path: Some(Path::new("/tmp/rollout.jsonl")),
    };
    assert_eq!(
        build_preparation_prompt(10, metadata, 4294967295),
        "Prepare a concise prompt to continue this work in a fresh Codex session.\n\
         \n\
         The current session reached the configured context-compaction threshold. Do not continue \
         implementation in this turn. Reply only with the prompt for the next Codex session.\n\
         \n\
         Include all important context, current status, checkpoints, files changed, blockers, \
         validation done, validation pending, and exact next steps. The next session will receive \
         your response as its initial user prompt, so make it self-contained and actionable.\n\
         \n\
         Session metadata to include if useful:\n\
         - Previous thread id: 67e55044-10b1-426f-9247-bb680e5fe0c8\n\
         - Previous thread name: feature work\n\
         - Working directory: /tmp/project\n\
         - Previous rollout path: /tmp/rollout.jsonl\n\
         - Context compactions observed: 4294967295 of configured threshold 10\n"
    );
}

#[test]
fn replacement_request_is_exact() {
    let mut state = waiting_for_preparation_turn("prepare");
    let action = state.record_event(
        &turn_complete("prepare", Some("\u{3000}\n next steps \r\n")),
        None,
        metadata(),
    );
    assert_eq!(
        action,
        Some(AutoHandoffAction::StartReplacement(
            AutoHandoffReplacementRequest {
                prompt: "next steps".to_string(),
                compaction_count: 1,
                threshold: 1,
                preparation_turn_id: "prepare".to_string(),
            }
        ))
    );
    assert_given_up(&mut state);
}

#[test]
fn lower_threshold_counts_earlier_compactions() {
    let mut state = AutoHandoffState::default();
    for _ in 0..3 {
        assert_eq!(state.record_event(&compaction("turn"), Some(10), metadata()), None);
    }
    assert_eq!(state.record_event(&compaction("last"), Some(2), metadata()), None);
    match state.record_event(&turn_complete("last", None), Some(2), metadata()) {
        Some(AutoHandoffAction::PreparePrompt(request)) => {
            assert_eq!(request.compaction_count, 4);
            assert_eq!(request.threshold, 2);
        }
        other => panic!("unexpected {other:?}"),
    }
}

#[test]
fn threshold_is_reached_by_the_last_compaction_only() {
    let mut state = AutoHandoffState::default();
    for _ in 0..2 {
        assert_eq!(state.record_event(&compaction("turn"), Some(3), metadata()), None);
        assert_eq!(
            state.record_event(&turn_complete("turn", Some("text")), Some(3), metadata()),
            None
        );
    }
    assert_eq!(state.record_event(&compaction("turn"), Some(3), metadata()), None);
    assert!(state
        .record_event(&turn_complete("turn", Some("text")), Some(3), metadata())
        .is_some());
}

#[test]
fn other_items_and_events_are_ignored() {
    let mut state = AutoHandoffState::default();
    assert_eq!(
        state.record_event(&item_completed("turn", TurnItem::Other), Some(1), metadata()),
        None
    );
    assert_eq!(state.record_event(&EventMsg::Other, Some(1), metadata()), None);
    assert_eq!(
        state.record_event(&turn_complete("turn", Some("text")), Some(1), metadata()),
        None
    );
}

#[test]
fn other_turns_are_ignored() {
    let mut state = waiting_for_compaction_turn("compact");
    for event in [
        turn_complete("compact-2", Some("text")),
        turn_complete("compac", Some("text")),
        turn_complete("Compact", Some("text")),
        turn_complete("", Some("text")),
        turn_aborted(Some("other")),
        turn_aborted(None),
        compaction("other"),
    ] {
        assert_eq!(state.record_event(&event, Some(1), metadata()), None);
    }
    match state.record_event(&turn_complete("compact", None), Some(1), metadata()) {
        Some(AutoHandoffAction::PreparePrompt(request)) => {
            assert_eq!(request.compaction_count, 1)
        }
        other => panic!("unexpected {other:?}"),
    }

    assert!(state.mark_preparation_submitted("prepare".to_string()));
    for event in [
        turn_complete("compact", Some("text")),
        turn_aborted(Some("compact")),
        turn_aborted(None),
    ] {
        assert_eq!(state.record_event(&event, Some(1), metadata()), None);
    }
    assert!(state
        .record_event(&turn_complete("prepare", Some("text")), Some(1), metadata())
        .is_some());
}

#[test]
fn aborted_compaction_turn_gives_up() {
    let mut state = waiting_for_compaction_turn("compact");
    state.on_turn_aborted("compact");
    assert_given_up(&mut state);
}

#[test]
fn aborted_preparation_turn_gives_up() {
    let mut state = waiting_for_preparation_turn("prepare");
    assert_eq!(
        state.record_event(&turn_aborted(Some("prepare")), Some(1), metadata()),
        None
    );
    assert_given_up(&mut state);
}

#[test]
fn failed_submission_gives_up() {
    let mut state = awaiting_submission();
    state.mark_preparation_submission_failed();
    assert_given_up(&mut state);
}

#[test]
fn stray_submission_reports_are_refused() {
    let mut state = AutoHandoffState::default();
    assert!(!state.mark_preparation_submitted("prepare".to_string()));
    state.mark_preparation_submission_failed();
    assert_eq!(state.note_live_compaction("compact", Some(1)), None);
    assert!(!state.mark_preparation_submitted("prepare".to_string()));
    state.mark_preparation_submission_failed();
    assert!(state.on_turn_complete("compact", None, metadata()).is_some());
    assert!(state.mark_preparation_submitted("prepare".to_string()));
    assert!(!state.mark_preparation_submitted("later".to_string()));
    state.mark_preparation_submission_failed();
    assert!(state
        .on_turn_complete("prepare", Some("text"), metadata())
        .is_some());
}

#[test]
fn blank_reply_gives_up() {
    for reply in ["", " ", "\n\t\u{2003}"] {
        let mut state = waiting_for_preparation_turn("prepare");
        assert_eq!(
            state.record_event(&turn_complete("prepare", Some(reply)), Some(1), metadata()),
            None
        );
        assert_given_up(&mut state);
    }
}

#[test]
fn missing_reply_keeps_waiting() {
    let mut state = waiting_for_preparation_turn("prepare");
    assert_eq!(
        state.record_event(&turn_complete("prepare", None), Some(1), metadata()),
        None
    );
    assert!(state
        .record_event(&turn_complete("prepare", Some("text")), Some(1), metadata())
        .is_some());
}

#[test]
fn turn_ids_are_compared_by_their_characters() {
    let mut state = waiting_for_compaction_turn("z\u{fc}rich-\u{1f980}");
    assert_eq!(
        state.on_turn_complete("zu\u{308}rich-\u{1f980}", None, metadata()),
        None
    );
    assert!(state
        .on_turn_complete("z\u{fc}rich-\u{1f980}", None, metadata())
        .is_some());
}

#[test]
fn answer_is_passed_on_after_one_compaction() {
    let mut state = AutoHandoffState::default();
    assert_eq!(
        state.record_event(&turn_complete("first", Some("FIRST_REPLY")), Some(1), metadata()),
        None
    );
    assert_eq!(state.record_event(&compaction("compact"), Some(1), metadata()), None);
    let prepare = state.record_event(
        &turn_complete("compact", Some("LOCAL_SUMMARY")),
        Some(1),
        metadata(),
    );
    let Some(AutoHandoffAction::PreparePrompt(prepare)) = prepare else {
        unreachable!("expected preparation request");
    };
    assert!(prepare.prompt.starts_with("Prepare a concise prompt"));
    assert!(prepare.prompt.contains("Reply only with the prompt"));
    assert!(!prepare.prompt.contains("LOCAL_SUMMARY"));
    assert!(state.mark_preparation_submitted("prepare".to_string()));
    let replacement = state.record_event(
        &turn_complete("prepare", Some("GENERATED_HANDOFF_PROMPT")),
        Some(1),
        metadata(),
    );
    let Some(AutoHandoffAction::StartReplacement(replacement)) = replacement else {
        unreachable!("expected replacement request");
    };
    assert_eq!(replacement.prompt, "GENERATED_HANDOFF_PROMPT");
    assert_eq!(replacement.compaction_count, 1);
    assert_eq!(replacement.threshold, 1);
}

#[test]
fn replacement_names_the_turn_of_the_accepted_submission() {
    let mut state = waiting_for_compaction_turn("compact");
    assert!(!state.mark_preparation_submitted("too early".to_string()));
    assert!(state
        .record_event(&turn_complete("compact", None), Some(1), metadata())
        .is_some());
    assert!(state.mark_preparation_submitted("prepare".to_string()));
    assert!(!state.mark_preparation_submitted("too late".to_string()));
    for turn_id in ["too early", "too late"] {
        assert_eq!(
            state.record_event(&turn_complete(turn_id, Some("text")), Some(1), metadata()),
            None
        );
    }
    match state.record_event(&turn_complete("prepare", Some("text")), Some(1), metadata()) {
        Some(AutoHandoffAction::StartReplacement(request)) => {
            assert_eq!(request.preparation_turn_id, "prepare")
        }
        other => panic!("unexpected {other:?}"),
    }
}

#[test]
fn compactions_while_switched_off_are_not_counted() {
    let mut state = AutoHandoffState::default();
    for threshold in [None, Some(2), Some(0), None] {
        assert_eq!(state.record_event(&compaction("turn"), threshold, metadata()), None);
        assert_eq!(
            state.record_event(&turn_complete("turn", None), threshold, metadata()),
            None
        );
    }
    assert_eq!(state.record_event(&compaction("turn"), Some(2), metadata()), None);
    match state.record_event(&turn_complete("turn", None), None, metadata()) {
        Some(AutoHandoffAction::PreparePrompt(request)) => {
            assert_eq!(request.compaction_count, 2);
            assert_eq!(request.threshold, 2);
        }
        other => panic!("unexpected {other:?}"),
    }
}

use auto_handoff::chat_widget::state::{
    build_preparation_prompt, AutoHandoffAction, AutoHandoffMetadata, AutoHandoffState,
};
use auto_handoff::chat_widget::widget::{
    AppEvent, AutoHandoffDispatch, ChatWidget, CodexOpTarget, Config, ShellEscapePolicy,
    UserMessage, UserMessageHistoryOverride, UserMessageHistoryRecord,
};
use std::path::Path;

fn metadata() -> AutoHandoffMetadata<'static> {
    AutoHandoffMetadata {
        thread_id: None,
        thread_name: Some("feature work"),
        cwd: Some(Path::new("/tmp/project")),
        rollout_path: None,
    }
}

fn widget(target: CodexOpTarget, threshold: Option<u32>) -> ChatWidget {
    ChatWidget {
        codex_op_target: target,
        config: Config {
            auto_new_session_after_compactions: threshold,
        },
        thread_id: Some("thread-1".to_string()),
        thread_name: Some(" feature work ".to_string()),
        current_cwd: Some(Path::new("/tmp/project").into()),
        current_rollout_path: Some(Path::new("/tmp/rollout.jsonl").into()),
        auto_handoff: AutoHandoffState::default(),
    }
}

fn new_session(text: &str) -> Option<AutoHandoffDispatch> {
    Some(AutoHandoffDispatch::SendAppEvent(
        AppEvent::NewSessionWithInitialPrompt {
            text: text.to_string(),
        },
    ))
}

/// A state that was asked for its hand-off.
fn asked() -> AutoHandoffState {
    let mut state = AutoHandoffState::default();
    state.note_live_compaction(Some(1));
    assert!(state.action_after_turn_complete(metadata()).is_some());
    state
}

#[test]
fn auto_handoff_disabled_threshold_does_not_trigger() {
    let mut state = AutoHandoffState::default();

    state.note_live_compaction(None);
    assert_eq!(state.action_after_turn_complete(metadata()), None);
    state.note_live_compaction(Some(0));
    assert_eq!(state.action_after_turn_complete(metadata()), None);
}

#[test]
fn auto_handoff_threshold_triggers_once() {
    let mut state = AutoHandoffState::default();

    state.note_live_compaction(Some(2));
    assert_eq!(state.action_after_turn_complete(metadata()), None);
    state.note_live_compaction(Some(2));

    let action = state
        .action_after_turn_complete(metadata())
        .expect("second compaction turn completion should prepare handoff");
    let AutoHandoffAction::SubmitPreparationPrompt(prompt) = action else {
        unreachable!("expected preparation prompt");
    };
    assert!(prompt.contains("Prepare a concise prompt"));
    assert!(prompt.contains("Reply only with the prompt"));
    assert!(prompt.contains("Context compactions observed: 2 of configured threshold 2"));

    assert_eq!(state.action_after_turn_complete(metadata()), None);
    state.record_assistant_message("GENERATED HANDOFF PROMPT");

    let action = state
        .action_after_turn_complete(metadata())
        .expect("preparation response should start a new session");
    let AutoHandoffAction::StartNewSession(prompt) = action else {
        unreachable!("expected new-session prompt");
    };
    assert_eq!(prompt, "GENERATED HANDOFF PROMPT");

    state.note_live_compaction(Some(2));
    assert_eq!(state.action_after_turn_complete(metadata()), None);
}

#[test]
fn prompt_without_thread_id_is_exact() {
    let prompt = build_preparation_prompt(2, metadata(), 3);
    let lines: Vec<&str> = prompt.lines().collect();
    assert_eq!(
        lines[6..],
        [
            "Session metadata to include if useful:",
            "- Previous thread name: feature work",
            "- Working directory: /tmp/project",
            "- Context compactions observed: 3 of configured threshold 2",
        ]
    );
    assert!(prompt.ends_with("threshold 2\n"));
}

#[test]
fn blank_message_is_not_kept() {
    let mut state = asked();
    state.record_assistant_message("");
    state.record_assistant_message(" \n\t");
    assert_eq!(state.action_after_turn_complete(metadata()), None);
    state.record_assistant_message("answer");
    state.record_assistant_message(" ");
    assert_eq!(
        state.action_after_turn_complete(metadata()),
        Some(AutoHandoffAction::StartNewSession("answer".to_string()))
    );
}

#[test]
fn every_white_space_character_is_trimmed() {
    let white_space = [
        '\u{9}', '\u{a}', '\u{b}', '\u{c}', '\u{d}', '\u{20}', '\u{85}', '\u{a0}', '\u{1680}',
        '\u{2000}', '\u{2001}', '\u{2002}', '\u{2003}', '\u{2004}', '\u{2005}', '\u{2006}',
        '\u{2007}', '\u{2008}', '\u{2009}', '\u{200a}', '\u{2028}', '\u{2029}', '\u{202f}',
        '\u{205f}', '\u{3000}',
    ];
    for c in '\0'..=char::MAX {
        assert_eq!(c.is_whitespace(), white_space.contains(&c), "{c:?}");
    }
    for c in white_space {
        let mut state = asked();
        state.record_assistant_message(&format!("{c}a{c}b{c}"));
        assert_eq!(
            state.action_after_turn_complete(metadata()),
            Some(AutoHandoffAction::StartNewSession(format!("a{c}b")))
        );
    }
    for c in ['\u{8}', '\u{e}', '\u{180e}', '\u{200b}', '\u{feff}'] {
        let mut state = asked();
        state.record_assistant_message(&format!("{c}"));
        assert_eq!(
            state.action_after_turn_complete(metadata()),
            Some(AutoHandoffAction::StartNewSession(format!("{c}")))
        );
    }
}

#[test]
fn latest_message_wins() {
    let mut state = asked();
    state.record_assistant_message("first");
    state.record_assistant_message(" second ");
    assert_eq!(
        state.action_after_turn_complete(metadata()),
        Some(AutoHandoffAction::StartNewSession("second".to_string()))
    );
    state.record_assistant_message("third");
    assert_eq!(state.action_after_turn_complete(metadata()), None);
}

#[test]
fn messages_before_the_request_are_not_kept() {
    let mut state = AutoHandoffState::default();
    state.record_assistant_message("early");
    state.note_live_compaction(Some(1));
    state.record_assistant_message("still early");
    assert!(matches!(
        state.action_after_turn_complete(metadata()),
        Some(AutoHandoffAction::SubmitPreparationPrompt(_))
    ));
    assert_eq!(state.action_after_turn_complete(metadata()), None);
}

#[test]
fn compactions_after_the_threshold_are_not_counted() {
    let mut state = AutoHandoffState::default();
    for _ in 0..5 {
        state.note_live_compaction(Some(2));
    }
    assert_eq!(
        state.action_after_turn_complete(metadata()),
        Some(AutoHandoffAction::SubmitPreparationPrompt(
            build_preparation_prompt(2, metadata(), 2)
        ))
    );
}

#[test]
fn widget_hands_off_once() {
    let mut widget = widget(CodexOpTarget::Direct, Some(1));
    assert!(widget.chat_widget_auto_handoff_enabled());
    assert_eq!(widget.dispatch_pending_auto_handoff(), None);
    widget.maybe_prepare_auto_handoff_after_compaction(false);

    let prompt = build_preparation_prompt(
        1,
        AutoHandoffMetadata {
            thread_id: Some("thread-1"),
            thread_name: Some("feature work"),
            cwd: Some(Path::new("/tmp/project")),
            rollout_path: Some(Path::new("/tmp/rollout.jsonl")),
        },
        1,
    );
    assert!(prompt.contains("- Previous thread id: thread-1\n- Previous thread name: feature work\n"));
    assert!(prompt.contains("- Working directory: /tmp/project\n"));
    assert!(prompt.contains("- Previous rollout path: /tmp/rollout.jsonl\n"));
    assert_eq!(
        widget.dispatch_pending_auto_handoff(),
        Some(AutoHandoffDispatch::SubmitUserMessage {
            message: UserMessage { text: prompt },
            history_record: UserMessageHistoryRecord::Override(UserMessageHistoryOverride {
                text: String::new(),
                text_elements: Vec::new(),
            }),
            shell_escape_policy: ShellEscapePolicy::Disallow,
        })
    );

    widget.record_auto_handoff_user_message("not an answer");
    assert_eq!(widget.dispatch_pending_auto_handoff(), None);
    widget.record_auto_handoff_assistant_message(" answer\n");
    assert_eq!(widget.dispatch_pending_auto_handoff(), new_session("answer"));

    widget.maybe_prepare_auto_handoff_after_compaction(false);
    widget.record_auto_handoff_assistant_message("late");
    assert_eq!(widget.dispatch_pending_auto_handoff(), None);
    assert_eq!(widget.thread_name, Some(" feature work ".to_string()));
}

#[test]
fn replayed_compactions_do_not_count() {
    let mut widget = widget(CodexOpTarget::Direct, Some(1));
    for _ in 0..3 {
        widget.maybe_prepare_auto_handoff_after_compaction(true);
    }
    assert_eq!(widget.dispatch_pending_auto_handoff(), None);
    widget.maybe_prepare_auto_handoff_after_compaction(false);
    assert!(widget.dispatch_pending_auto_handoff().is_some());
}

#[test]
fn widget_without_threshold_does_nothing() {
    for threshold in [None, Some(0)] {
        let mut widget = widget(CodexOpTarget::Direct, threshold);
        for _ in 0..3 {
            widget.maybe_prepare_auto_handoff_after_compaction(false);
            widget.record_auto_handoff_assistant_message("text");
            assert_eq!(widget.dispatch_pending_auto_handoff(), None);
        }
    }
}

#[test]
fn indirect_widget_does_nothing() {
    let mut widget = widget(CodexOpTarget::AppEvent, Some(1));
    assert!(!widget.chat_widget_auto_handoff_enabled());
    widget.maybe_prepare_auto_handoff_after_compaction(false);
    widget.record_auto_handoff_assistant_message("text");
    assert_eq!(widget.dispatch_pending_auto_handoff(), None);

    // Nothing was counted or kept meanwhile.
    widget.codex_op_target = CodexOpTarget::Direct;
    assert_eq!(widget.dispatch_pending_auto_handoff(), None);
    widget.maybe_prepare_auto_handoff_after_compaction(false);
    assert!(matches!(
        widget.dispatch_pending_auto_handoff(),
        Some(AutoHandoffDispatch::SubmitUserMessage { .. })
    ));

    widget.codex_op_target = CodexOpTarget::AppEvent;
    widget.record_auto_handoff_assistant_message("unheard");
    widget.codex_op_target = CodexOpTarget::Direct;
    assert_eq!(widget.dispatch_pending_auto_handoff(), None);
    widget.record_auto_handoff_assistant_message("heard");
    widget.codex_op_target = CodexOpTarget::AppEvent;
    assert_eq!(widget.dispatch_pending_auto_handoff(), None);
    widget.codex_op_target = CodexOpTarget::Direct;
    assert_eq!(widget.dispatch_pending_auto_handoff(), new_session("heard"));
}

#[test]
fn changes_after_the_answer_do_not_matter() {
    let mut widget = widget(CodexOpTarget::Direct, Some(1));
    widget.maybe_prepare_auto_handoff_after_compaction(false);
    widget.config.auto_new_session_after_compactions = None;
    widget.thread_name = Some("renamed".to_string());
    let Some(AutoHandoffDispatch::SubmitUserMessage { message, .. }) =
        widget.dispatch_pending_auto_handoff()
    else {
        unreachable!("expected the request for the hand-off");
    };
    assert!(message.text.contains("- Previous thread name: renamed\n"));
    assert!(message
        .text
        .ends_with("Context compactions observed: 1 of configured threshold 1\n"));

    widget.record_auto_handoff_assistant_message("first answer");
    widget.record_auto_handoff_assistant_message("last answer");
    widget.thread_name = None;
    widget.current_cwd = None;
    widget.record_auto_handoff_user_message("later");
    widget.maybe_prepare_auto_handoff_after_compaction(false);
    assert_eq!(
        widget.dispatch_pending_auto_handoff(),
        new_session("last answer")
    );
}

#[test]
fn switched_off_widget_stays_idle_through_changes() {
    let mut widget = widget(CodexOpTarget::Direct, None);
    widget.maybe_prepare_auto_handoff_after_compaction(false);
    widget.config.auto_new_session_after_compactions = Some(0);
    widget.maybe_prepare_auto_handoff_after_compaction(false);
    widget.codex_op_target = CodexOpTarget::AppEvent;
    widget.config.auto_new_session_after_compactions = Some(1);
    widget.maybe_prepare_auto_handoff_after_compaction(false);
    widget.codex_op_target = CodexOpTarget::Direct;
    assert_eq!(widget.dispatch_pending_auto_handoff(), None);

    // Two more are needed: none of the three was counted.
    widget.config.auto_new_session_after_compactions = Some(2);
    widget.maybe_prepare_auto_handoff_after_compaction(false);
    assert_eq!(widget.dispatch_pending_auto_handoff(), None);
    widget.maybe_prepare_auto_handoff_after_compaction(false);
    assert!(widget.dispatch_pending_auto_handoff().is_some());
}

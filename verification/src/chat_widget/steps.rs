//! What each single thing that happens to a widget brings about.

use crate::chat_widget::state;
use crate::chat_widget::widget;
use crate::prompt;
use crate::text;
use vstd::prelude::*;

verus! {

/// A session's metadata is seen with all its parts, each in full.
pub proof fn law_metadata_view(metadata: state::AutoHandoffMetadata<'_>)
    ensures
        metadata.thread_id matches Some(id) ==> metadata@.thread_id == Some(id@),
        metadata.thread_id is None ==> metadata@.thread_id is None,
        metadata.thread_name matches Some(name) ==> metadata@.thread_name == Some(name@),
        metadata.thread_name is None ==> metadata@.thread_name is None,
        metadata.cwd matches Some(path) ==> metadata@.cwd == Some(text::path_text(path)),
        metadata.cwd is None ==> metadata@.cwd is None,
        metadata.rollout_path matches Some(path) ==> metadata@.rollout_path == Some(
            text::path_text(path),
        ),
        metadata.rollout_path is None ==> metadata@.rollout_path is None,
{
}

/// An action is seen with its prompt in full.
pub proof fn law_action_view(prompt: String)
    ensures
        state::AutoHandoffAction::SubmitPreparationPrompt(prompt).deep_view()
            == state::ActionView::SubmitPreparationPrompt(prompt@),
        state::AutoHandoffAction::StartNewSession(prompt).deep_view()
            == state::ActionView::StartNewSession(prompt@),
{
}

/// What is to be done is seen with all its contents.
pub proof fn law_dispatch_view(
    message: widget::UserMessage,
    shown: widget::UserMessageHistoryOverride,
    shell_escape_policy: widget::ShellEscapePolicy,
    text: String,
)
    ensures
        (widget::AutoHandoffDispatch::SubmitUserMessage {
            message,
            history_record: widget::UserMessageHistoryRecord::Override(shown),
            shell_escape_policy,
        }).deep_view() == (widget::DispatchView::SubmitUserMessage {
            text: message.text@,
            history: Some((shown.text@, shown.text_elements@)),
            shell_escape_policy,
        }),
        (widget::AutoHandoffDispatch::SubmitUserMessage {
            message,
            history_record: widget::UserMessageHistoryRecord::UserMessageText,
            shell_escape_policy,
        }).deep_view() == (widget::DispatchView::SubmitUserMessage {
            text: message.text@,
            history: None,
            shell_escape_policy,
        }),
        widget::AutoHandoffDispatch::SendAppEvent(
            widget::AppEvent::NewSessionWithInitialPrompt { text },
        ).deep_view() == (widget::DispatchView::NewSessionWithInitialPrompt { text: text@ }),
{
}

/// A widget is seen with all its parts, each in full.
pub proof fn law_widget_view(shown: widget::ChatWidget)
    ensures
        shown@.codex_op_target == shown.codex_op_target,
        shown@.config == shown.config,
        shown@.auto_handoff == shown.auto_handoff@,
        shown.thread_id matches Some(id) ==> shown@.session.thread_id == Some(id@),
        shown.thread_id is None ==> shown@.session.thread_id is None,
        shown.thread_name matches Some(name) ==> shown@.session.thread_name == Some(name@),
        shown.thread_name is None ==> shown@.session.thread_name is None,
        shown.current_cwd matches Some(path) ==> shown@.session.cwd == Some(text::path_text(&path)),
        shown.current_cwd is None ==> shown@.session.cwd is None,
        shown.current_rollout_path matches Some(path) ==> shown@.session.rollout_path == Some(
            text::path_text(&path),
        ),
        shown.current_rollout_path is None ==> shown@.session.rollout_path is None,
{
}

/// Two widgets that differ in their hand-off only have everything else in common.
pub proof fn law_differs_in_handoff_only(after: widget::ChatWidget, before: widget::ChatWidget)
    requires
        after.differs_in_handoff_only(before),
    ensures
        after.codex_op_target == before.codex_op_target,
        after.config == before.config,
        after.thread_id == before.thread_id,
        after.thread_name == before.thread_name,
        after.current_cwd == before.current_cwd,
        after.current_rollout_path == before.current_rollout_path,
{
}

/// A new session is idle and has counted nothing.
pub proof fn law_initial()
    ensures
        state::StateView::initial().live_compaction_count == 0,
        state::StateView::initial().phase is Idle,
        state::StateView::initial().valid(),
{
}

/// In a valid state a hand-off under way was caused by the compactions counted so far, and by no
/// fewer than a threshold that is not zero; an answer that is kept is not empty and neither
/// begins nor ends with white space.
pub proof fn law_valid_state(now: state::StateView)
    requires
        now.valid(),
    ensures
        now.phase matches state::PhaseView::WaitingForCompactionTurnComplete {
            compaction_count,
            threshold,
        } ==> 0 < threshold <= compaction_count && compaction_count == now.live_compaction_count,
        !(now.phase is Idle) ==> now.live_compaction_count > 0,
        now.phase matches state::PhaseView::WaitingForPreparationResponse {
            generated_prompt: Some(prompt),
        } ==> prompt.len() > 0 && !text::is_white_space(prompt.first()) && !text::is_white_space(
            prompt.last(),
        ),
{
    match now.phase {
        state::PhaseView::WaitingForPreparationResponse { generated_prompt: Some(prompt) } => {
            text::law_trimmed(prompt);
        },
        _ => {},
    }
}

/// An idle session under a threshold counts every compaction, one by one, and stays idle exactly
/// as long as the count is below the threshold.
pub proof fn law_compaction(before: state::StateView, threshold: u32)
    requires
        before.phase is Idle,
        threshold > 0,
    ensures
        ({
            let after = before.note_live_compaction(Some(threshold));
            &&& before.live_compaction_count < u32::MAX ==> after.live_compaction_count
                - before.live_compaction_count == 1
            &&& before.live_compaction_count == u32::MAX ==> after.live_compaction_count
                == u32::MAX
            &&& after.phase is Idle <==> after.live_compaction_count < threshold
            &&& !(after.phase is Idle) ==> after.phase == (
            state::PhaseView::WaitingForCompactionTurnComplete {
                compaction_count: after.live_compaction_count,
                threshold,
            })
        }),
{
}

/// A compaction is not counted without a threshold, nor once a hand-off is under way or over.
pub proof fn law_compaction_not_counted(before: state::StateView, threshold: Option<u32>)
    requires
        !(before.phase is Idle) || threshold is None || threshold == Some(0u32),
    ensures
        before.note_live_compaction(threshold) == before,
{
}

/// A message of the assistant is kept, trimmed and in place of any earlier one, exactly when the
/// session was asked for its hand-off and the message holds anything but white space.
pub proof fn law_assistant_message(before: state::StateView, message: Seq<char>)
    ensures
        ({
            let after = before.record_assistant_message(message);
            let kept = before.phase is WaitingForPreparationResponse && exists|i: int|
                0 <= i < message.len() && !text::is_white_space(#[trigger] message[i]);
            &&& after.live_compaction_count == before.live_compaction_count
            &&& kept ==> after.phase == (state::PhaseView::WaitingForPreparationResponse {
                generated_prompt: Some(text::trimmed(message)),
            })
            &&& !kept ==> after.phase == before.phase
        }),
{
}

/// At the end of the turn in which the threshold was reached the session is asked for its
/// hand-off, with the prompt for that count, that threshold and that session; at the end of a
/// turn after which an answer is kept, a new session starts with that answer. No other end of a
/// turn changes anything or calls for anything.
pub proof fn law_turn_complete(before: state::StateView, session: prompt::SessionView)
    ensures
        ({
            let (after, action) = before.action_after_turn_complete(session);
            &&& after.live_compaction_count == before.live_compaction_count
            &&& before.phase matches state::PhaseView::WaitingForCompactionTurnComplete {
                compaction_count,
                threshold,
            } ==> {
                &&& action == Some(
                    state::ActionView::SubmitPreparationPrompt(
                        prompt::preparation_prompt(threshold, session, compaction_count),
                    ),
                )
                &&& after.phase == (state::PhaseView::WaitingForPreparationResponse {
                    generated_prompt: None,
                })
            }
            &&& before.phase matches state::PhaseView::WaitingForPreparationResponse {
                generated_prompt: Some(answer),
            } ==> action == Some(state::ActionView::StartNewSession(answer)) && after.phase
                is Complete
            &&& action is Some <==> (before.phase is WaitingForCompactionTurnComplete || (
            before.phase matches state::PhaseView::WaitingForPreparationResponse {
                generated_prompt,
            } && generated_prompt is Some))
            &&& action is None ==> after.phase == before.phase
        }),
{
}

/// A widget takes part in hand-offs exactly when it drives its session itself, whatever its
/// configuration, its session and the state of its hand-off are.
pub proof fn law_enabled(shown: widget::WidgetView)
    ensures
        shown.enabled() <==> shown.codex_op_target is Direct,
{
}

/// Nothing that happens to a widget's hand-off changes its target, its configuration or its
/// session.
pub proof fn law_surroundings_stay(
    before: widget::WidgetView,
    message: Seq<char>,
    from_replay: bool,
)
    ensures
        ({
            let told = before.record_assistant_message(message);
            let compacted = before.after_compaction(from_replay);
            let ended = before.dispatch_pending().0;
            &&& told.codex_op_target == before.codex_op_target
            &&& told.config == before.config
            &&& told.session == before.session
            &&& compacted.codex_op_target == before.codex_op_target
            &&& compacted.config == before.config
            &&& compacted.session == before.session
            &&& ended.codex_op_target == before.codex_op_target
            &&& ended.config == before.config
            &&& ended.session == before.session
        }),
{
}

/// A widget that drives its session itself passes on every message of the assistant, every live
/// compaction with the configured threshold, and every end of a turn with the session that it
/// shows. Replayed compactions are not passed on.
pub proof fn law_direct_widget(before: widget::WidgetView, message: Seq<char>)
    requires
        before.codex_op_target is Direct,
    ensures
        before.record_assistant_message(message).auto_handoff
            == before.auto_handoff.record_assistant_message(message),
        before.after_compaction(false).auto_handoff == before.auto_handoff.note_live_compaction(
            before.config.auto_new_session_after_compactions,
        ),
        before.after_compaction(true).auto_handoff == before.auto_handoff,
        before.dispatch_pending().0.auto_handoff == before.auto_handoff.action_after_turn_complete(
            before.session,
        ).0,
{
}

/// A widget that does not drive its session itself is left as it is, and does nothing.
pub proof fn law_indirect_widget(
    before: widget::WidgetView,
    message: Seq<char>,
    from_replay: bool,
)
    requires
        !(before.codex_op_target is Direct),
    ensures
        before.record_assistant_message(message) == before,
        before.after_compaction(from_replay) == before,
        before.dispatch_pending() == (before, None::<widget::DispatchView>),
{
}

/// What a widget that drives its session itself does at the end of a turn. Where the threshold
/// was reached it submits the prompt for the session that it shows, with an empty entry in the
/// history and no shell command; where an answer is kept it starts a new session with it; else
/// it does nothing.
pub proof fn law_dispatch(before: widget::WidgetView)
    requires
        before.codex_op_target is Direct,
    ensures
        before.auto_handoff.phase matches state::PhaseView::WaitingForCompactionTurnComplete {
            compaction_count,
            threshold,
        } ==> before.dispatch_pending().1 == Some(
            widget::DispatchView::SubmitUserMessage {
                text: prompt::preparation_prompt(threshold, before.session, compaction_count),
                history: Some((Seq::empty(), Seq::empty())),
                shell_escape_policy: widget::ShellEscapePolicy::Disallow,
            },
        ),
        before.auto_handoff.phase matches state::PhaseView::WaitingForPreparationResponse {
            generated_prompt: Some(answer),
        } ==> before.dispatch_pending().1 == Some(
            widget::DispatchView::NewSessionWithInitialPrompt { text: answer },
        ),
        before.auto_handoff.phase matches state::PhaseView::WaitingForPreparationResponse {
            generated_prompt: None,
        } ==> before.dispatch_pending().1 is None,
        before.auto_handoff.phase is Idle || before.auto_handoff.phase is Complete
            ==> before.dispatch_pending().1 is None,
{
}

/// A widget that drives its session itself asks for the hand-off at the end of the turn whose
/// live compaction completes the threshold, of any size, and at no earlier end of a turn.
pub proof fn law_asked_at_threshold(before: widget::WidgetView, threshold: u32)
    requires
        before.codex_op_target is Direct,
        before.config.auto_new_session_after_compactions == Some(threshold),
        before.auto_handoff.phase is Idle,
        before.auto_handoff.live_compaction_count < threshold,
    ensures
        ({
            let done = before.after_compaction(false).dispatch_pending().1;
            &&& done is Some <==> before.auto_handoff.live_compaction_count + 1 == threshold
            &&& done is Some ==> done == Some(
                widget::DispatchView::SubmitUserMessage {
                    text: prompt::preparation_prompt(threshold, before.session, threshold),
                    history: Some((Seq::empty(), Seq::empty())),
                    shell_escape_policy: widget::ShellEscapePolicy::Disallow,
                },
            )
        }),
{
}

} // verus!

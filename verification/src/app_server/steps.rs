//! What each single thing that a thread's hand-off is told brings about.

use crate::app_server::protocol;
use crate::app_server::state;
use crate::prompt;
use crate::text;
use vstd::prelude::*;

verus! {

/// An event is seen as it is: which kind it is, its turn, and its message in full.
pub proof fn law_event_view(
    completed: protocol::ItemCompletedEvent,
    ended: protocol::TurnCompleteEvent,
    aborted: protocol::TurnAbortedEvent,
)
    ensures
        completed.item is ContextCompaction ==> protocol::EventMsg::ItemCompleted(completed)@ == (
        protocol::EventView::Compaction { turn_id: completed.turn_id@ }),
        !(completed.item is ContextCompaction) ==> protocol::EventMsg::ItemCompleted(completed)@
            == (protocol::EventView::OtherItem { turn_id: completed.turn_id@ }),
        ended.last_agent_message matches Some(message) ==> protocol::EventMsg::TurnComplete(ended)@
            == (protocol::EventView::TurnComplete {
            turn_id: ended.turn_id@,
            last_agent_message: Some(message@),
        }),
        ended.last_agent_message is None ==> protocol::EventMsg::TurnComplete(ended)@ == (
        protocol::EventView::TurnComplete { turn_id: ended.turn_id@, last_agent_message: None }),
        aborted.turn_id matches Some(turn_id) ==> protocol::EventMsg::TurnAborted(aborted)@ == (
        protocol::EventView::TurnAborted { known_turn_id: Some(turn_id@) }),
        aborted.turn_id is None ==> protocol::EventMsg::TurnAborted(aborted)@ == (
        protocol::EventView::TurnAborted { known_turn_id: None }),
        protocol::EventMsg::Other@ is Other,
{
}

/// A thread's metadata is seen with all its parts, each in full.
pub proof fn law_metadata_view(metadata: state::AutoHandoffMetadata<'_>)
    ensures
        metadata@.thread_id == Some(metadata.thread_id@),
        metadata.thread_name matches Some(name) ==> metadata@.thread_name == Some(name@),
        metadata.thread_name is None ==> metadata@.thread_name is None,
        metadata.cwd matches Some(path) ==> metadata@.cwd == Some(text::path_text(path)),
        metadata.cwd is None ==> metadata@.cwd is None,
        metadata.rollout_path matches Some(path) ==> metadata@.rollout_path == Some(
            text::path_text(path),
        ),
        metadata.rollout_path is None ==> metadata@.rollout_path is None,
{
}

/// An action is seen with all its contents, and no action as none.
pub proof fn law_action_view(
    prepare: state::AutoHandoffPrepareRequest,
    replace: state::AutoHandoffReplacementRequest,
)
    ensures
        state::AutoHandoffAction::PreparePrompt(prepare).deep_view() == (
        state::ActionView::PreparePrompt {
            prompt: prepare.prompt@,
            compaction_count: prepare.compaction_count,
            threshold: prepare.threshold,
        }),
        state::AutoHandoffAction::StartReplacement(replace).deep_view() == (
        state::ActionView::StartReplacement {
            prompt: replace.prompt@,
            compaction_count: replace.compaction_count,
            threshold: replace.threshold,
            preparation_turn_id: replace.preparation_turn_id@,
        }),
{
}

/// The configured threshold applies as it is, but to no internal session.
pub proof fn law_session_threshold(configured: Option<u32>, source: protocol::SessionSource)
    ensures
        source is Internal ==> state::session_threshold(configured, source) is None,
        !(source is Internal) ==> state::session_threshold(configured, source) == configured,
{
}

/// A new thread is idle and has counted nothing.
pub proof fn law_initial()
    ensures
        state::StateView::initial().live_compaction_count == 0,
        state::StateView::initial().phase is Idle,
        state::StateView::initial().valid(),
{
}

/// In a valid state a hand-off under way was caused by the compactions counted so far, and by no
/// fewer than a threshold that is not zero.
pub proof fn law_valid_state(now: state::StateView)
    requires
        now.valid(),
    ensures
        now.phase matches state::PhaseView::WaitingForCompactionTurnComplete {
            compaction_count,
            threshold,
            ..
        } ==> 0 < threshold <= compaction_count && compaction_count == now.live_compaction_count,
        now.phase matches state::PhaseView::AwaitingPreparationSubmission {
            compaction_count,
            threshold,
        } ==> 0 < threshold <= compaction_count && compaction_count == now.live_compaction_count,
        now.phase matches state::PhaseView::WaitingForPreparationTurnComplete {
            compaction_count,
            threshold,
            ..
        } ==> 0 < threshold <= compaction_count && compaction_count == now.live_compaction_count,
        now.phase is Complete ==> now.live_compaction_count > 0,
{
}

/// The three kinds of events that matter reach the operations that are named after them, and a
/// compaction or an abort never calls for an action.
pub proof fn law_events(
    before: state::StateView,
    turn_id: Seq<char>,
    message: Option<Seq<char>>,
    threshold: Option<u32>,
    session: prompt::SessionView,
)
    ensures
        before.record_event(protocol::EventView::Compaction { turn_id }, threshold, session) == (
            before.note_live_compaction(turn_id, threshold),
            None::<state::ActionView>,
        ),
        before.record_event(
            protocol::EventView::TurnComplete { turn_id, last_agent_message: message },
            threshold,
            session,
        ) == before.on_turn_complete(turn_id, message, session),
        before.record_event(
            protocol::EventView::TurnAborted { known_turn_id: Some(turn_id) },
            threshold,
            session,
        ) == (before.on_turn_aborted(turn_id), None::<state::ActionView>),
{
}

/// All other events change nothing and call for nothing.
pub proof fn law_other_events(
    before: state::StateView,
    turn_id: Seq<char>,
    threshold: Option<u32>,
    session: prompt::SessionView,
)
    ensures
        before.record_event(protocol::EventView::OtherItem { turn_id }, threshold, session) == (
            before,
            None::<state::ActionView>,
        ),
        before.record_event(
            protocol::EventView::TurnAborted { known_turn_id: None },
            threshold,
            session,
        ) == (before, None::<state::ActionView>),
        before.record_event(protocol::EventView::Other, threshold, session) == (
            before,
            None::<state::ActionView>,
        ),
{
}

/// An idle thread under a threshold counts every compaction, one by one, and stays idle exactly
/// as long as the count is below the threshold; else it waits for the turn of that compaction.
pub proof fn law_compaction(before: state::StateView, turn_id: Seq<char>, threshold: u32)
    requires
        before.phase is Idle,
        threshold > 0,
    ensures
        ({
            let after = before.note_live_compaction(turn_id, Some(threshold));
            &&& before.live_compaction_count < u32::MAX ==> after.live_compaction_count
                - before.live_compaction_count == 1
            &&& before.live_compaction_count == u32::MAX ==> after.live_compaction_count
                == u32::MAX
            &&& after.phase is Idle <==> after.live_compaction_count < threshold
            &&& !(after.phase is Idle) ==> after.phase == (
            state::PhaseView::WaitingForCompactionTurnComplete {
                turn_id,
                compaction_count: after.live_compaction_count,
                threshold,
            })
        }),
{
}

/// A compaction is not counted without a threshold, nor once a hand-off is under way or over.
pub proof fn law_compaction_not_counted(
    before: state::StateView,
    turn_id: Seq<char>,
    threshold: Option<u32>,
)
    requires
        !(before.phase is Idle) || threshold is None || threshold == Some(0u32),
    ensures
        before.note_live_compaction(turn_id, threshold) == before,
{
}

/// A hand-off waits for a turn exactly when it is in one of the two waiting phases with that
/// turn.
pub proof fn law_awaits_turn(now: state::StateView, turn_id: Seq<char>)
    ensures
        now.awaits_turn(turn_id) <==> ((now.phase matches
            state::PhaseView::WaitingForCompactionTurnComplete { turn_id: awaited, .. } && awaited
            == turn_id) || (now.phase matches state::PhaseView::WaitingForPreparationTurnComplete {
            turn_id: awaited,
            ..
        } && awaited == turn_id)),
{
}

/// The thread is asked for its hand-off exactly when the turn in which the threshold was reached
/// ends, with or without a message; the request carries the count and the threshold of that
/// moment and the prompt made of them and of the session.
pub proof fn law_prepare(
    before: state::StateView,
    awaited: Seq<char>,
    compaction_count: u32,
    threshold: u32,
    turn_id: Seq<char>,
    message: Option<Seq<char>>,
    session: prompt::SessionView,
)
    requires
        before.phase == (state::PhaseView::WaitingForCompactionTurnComplete {
            turn_id: awaited,
            compaction_count,
            threshold,
        }),
    ensures
        ({
            let (after, action) = before.on_turn_complete(turn_id, message, session);
            &&& after.live_compaction_count == before.live_compaction_count
            &&& action is Some <==> turn_id == awaited
            &&& action is Some ==> {
                &&& action == Some(
                    state::ActionView::PreparePrompt {
                        prompt: prompt::preparation_prompt(threshold, session, compaction_count),
                        compaction_count,
                        threshold,
                    },
                )
                &&& after.phase == (state::PhaseView::AwaitingPreparationSubmission {
                    compaction_count,
                    threshold,
                })
            }
            &&& action is None ==> after.phase == before.phase
        }),
{
}

/// A replacement is started exactly when the turn that answers the prompt ends with a message
/// that holds anything but white space; its prompt is that message, trimmed, and it carries the
/// turn, the count and the threshold. Any message ends the hand-off, a missing one does not.
pub proof fn law_replace(
    before: state::StateView,
    awaited: Seq<char>,
    compaction_count: u32,
    threshold: u32,
    turn_id: Seq<char>,
    message: Option<Seq<char>>,
    session: prompt::SessionView,
)
    requires
        before.phase == (state::PhaseView::WaitingForPreparationTurnComplete {
            turn_id: awaited,
            compaction_count,
            threshold,
        }),
    ensures
        ({
            let (after, action) = before.on_turn_complete(turn_id, message, session);
            &&& after.live_compaction_count == before.live_compaction_count
            &&& action is Some <==> (turn_id == awaited && (message matches Some(reply) && exists|
                i: int,
            |
                0 <= i < reply.len() && !text::is_white_space(#[trigger] reply[i])))
            &&& action is Some ==> action == Some(
                state::ActionView::StartReplacement {
                    prompt: text::trimmed(message->0),
                    compaction_count,
                    threshold,
                    preparation_turn_id: turn_id,
                },
            )
            &&& after.phase is Complete <==> (turn_id == awaited && message is Some)
            &&& !(after.phase is Complete) ==> after.phase == before.phase
        }),
{
}

/// In the phases that wait for no turn, the end of one changes nothing and calls for nothing.
pub proof fn law_turn_end_elsewhere(
    before: state::StateView,
    turn_id: Seq<char>,
    message: Option<Seq<char>>,
    session: prompt::SessionView,
)
    requires
        before.phase is Idle || before.phase is AwaitingPreparationSubmission
            || before.phase is Complete,
    ensures
        before.on_turn_complete(turn_id, message, session) == (before, None::<state::ActionView>),
        before.on_turn_aborted(turn_id) == before,
{
}

/// The abort of the turn that a hand-off waits for, and of no other, ends it; what was counted
/// stays.
pub proof fn law_turn_aborted(before: state::StateView, awaited: Seq<char>, turn_id: Seq<char>)
    requires
        (before.phase matches state::PhaseView::WaitingForCompactionTurnComplete {
            turn_id: t,
            ..
        } && t == awaited) || (before.phase matches
            state::PhaseView::WaitingForPreparationTurnComplete { turn_id: t, .. } && t
            == awaited),
    ensures
        ({
            let after = before.on_turn_aborted(turn_id);
            &&& after.live_compaction_count == before.live_compaction_count
            &&& after.phase is Complete <==> turn_id == awaited
            &&& turn_id != awaited ==> after.phase == before.phase
        }),
{
}

/// A submission is accepted exactly when a prompt was asked for; then the hand-off waits for its
/// turn, with the count and the threshold that it had.
pub proof fn law_submitted(before: state::StateView, turn_id: Seq<char>)
    ensures
        before.mark_preparation_submitted(turn_id).live_compaction_count
            == before.live_compaction_count,
        before.phase matches state::PhaseView::AwaitingPreparationSubmission {
            compaction_count,
            threshold,
        } ==> before.mark_preparation_submitted(turn_id).phase == (
        state::PhaseView::WaitingForPreparationTurnComplete {
            turn_id,
            compaction_count,
            threshold,
        }),
        !(before.phase is AwaitingPreparationSubmission) ==> before.mark_preparation_submitted(
            turn_id,
        ).phase == before.phase,
{
}

/// A failed submission ends a hand-off that asked for a prompt, and touches no other.
pub proof fn law_not_submitted(before: state::StateView)
    ensures
        before.mark_preparation_submission_failed().live_compaction_count
            == before.live_compaction_count,
        before.phase is AwaitingPreparationSubmission
            ==> before.mark_preparation_submission_failed().phase is Complete,
        !(before.phase is AwaitingPreparationSubmission)
            ==> before.mark_preparation_submission_failed().phase == before.phase,
{
}

/// A thread under a constant threshold of any size is asked for its hand-off when the turn of
/// the compaction that completes the threshold ends, and at no earlier end of a turn.
pub proof fn law_asked_at_threshold(
    before: state::StateView,
    threshold: u32,
    turn_id: Seq<char>,
    message: Option<Seq<char>>,
    session: prompt::SessionView,
)
    requires
        before.phase is Idle,
        0 < threshold,
        before.live_compaction_count < threshold,
    ensures
        ({
            let compacted = before.record_event(
                protocol::EventView::Compaction { turn_id },
                Some(threshold),
                session,
            ).0;
            let action = compacted.record_event(
                protocol::EventView::TurnComplete { turn_id, last_agent_message: message },
                Some(threshold),
                session,
            ).1;
            &&& action is Some <==> before.live_compaction_count + 1 == threshold
            &&& action is Some ==> action == Some(
                state::ActionView::PreparePrompt {
                    prompt: prompt::preparation_prompt(threshold, session, threshold),
                    compaction_count: threshold,
                    threshold,
                },
            )
        }),
{
}

} // verus!

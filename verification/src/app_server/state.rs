//! The state machine that counts compactions, asks for a hand-off prompt and starts a
//! replacement thread with it.

use crate::app_server::protocol;
use crate::app_server::protocol::EventMsg;
use crate::app_server::protocol::SessionSource;
use crate::app_server::protocol::TurnItem;
use crate::counting;
use crate::prompt;
use crate::prompt::SessionText;
use crate::text;
use std::path::Path;
use vstd::prelude::*;

verus! {

/// What is known of the thread that hands off. The id is in the form in which it is shown.
#[derive(Clone, Copy, Debug)]
pub struct AutoHandoffMetadata<'a> {
    pub thread_id: &'a str,
    pub thread_name: Option<&'a str>,
    pub cwd: Option<&'a Path>,
    pub rollout_path: Option<&'a Path>,
}

impl<'a> View for AutoHandoffMetadata<'a> {
    type V = prompt::SessionView;

    open spec fn view(&self) -> prompt::SessionView {
        prompt::SessionView {
            thread_id: Some(self.thread_id@),
            thread_name: text::optional_text(self.thread_name),
            cwd: text::optional_path(self.cwd),
            rollout_path: text::optional_path(self.rollout_path),
        }
    }
}

/// A request to submit `prompt` to the current thread, which is to answer with its hand-off.
#[derive(Clone, Debug, PartialEq, Eq)]
pub struct AutoHandoffPrepareRequest {
    pub prompt: String,
    pub compaction_count: u32,
    pub threshold: u32,
}

/// A request to start a replacement thread with `prompt` as its first user input.
#[derive(Clone, Debug, PartialEq, Eq)]
pub struct AutoHandoffReplacementRequest {
    pub prompt: String,
    pub compaction_count: u32,
    pub threshold: u32,
    pub preparation_turn_id: String,
}

/// What the server is to do next.
#[derive(Clone, Debug, PartialEq, Eq)]
pub enum AutoHandoffAction {
    PreparePrompt(AutoHandoffPrepareRequest),
    StartReplacement(AutoHandoffReplacementRequest),
}

/// The contents of an [`AutoHandoffAction`].
pub enum ActionView {
    PreparePrompt { prompt: Seq<char>, compaction_count: u32, threshold: u32 },
    StartReplacement {
        prompt: Seq<char>,
        compaction_count: u32,
        threshold: u32,
        preparation_turn_id: Seq<char>,
    },
}

impl DeepView for AutoHandoffAction {
    type V = ActionView;

    open spec fn deep_view(&self) -> ActionView {
        match *self {
            AutoHandoffAction::PreparePrompt(request) => ActionView::PreparePrompt {
                prompt: request.prompt@,
                compaction_count: request.compaction_count,
                threshold: request.threshold,
            },
            AutoHandoffAction::StartReplacement(request) => ActionView::StartReplacement {
                prompt: request.prompt@,
                compaction_count: request.compaction_count,
                threshold: request.threshold,
                preparation_turn_id: request.preparation_turn_id@,
            },
        }
    }
}

/// The threshold that applies to a session: internal sessions have none.
pub open spec fn session_threshold(threshold: Option<u32>, source: SessionSource) -> Option<u32> {
    if source is Internal {
        None
    } else {
        threshold
    }
}

pub fn auto_handoff_threshold_for_session(
    threshold: Option<u32>,
    session_source: &SessionSource,
) -> (applicable: Option<u32>)
    ensures
        applicable == session_threshold(threshold, *session_source),
{
    if session_source.is_internal() {
        return None;
    }
    threshold
}

/// How far the hand-off of a thread has come.
#[derive(Debug)]
pub struct AutoHandoffState {
    live_compaction_count: u32,
    phase: AutoHandoffPhase,
}

#[derive(Debug)]
enum AutoHandoffPhase {
    Idle,
    WaitingForCompactionTurnComplete { turn_id: String, compaction_count: u32, threshold: u32 },
    AwaitingPreparationSubmission { compaction_count: u32, threshold: u32 },
    WaitingForPreparationTurnComplete { turn_id: String, compaction_count: u32, threshold: u32 },
    Complete,
}

/// The phases of a hand-off.
pub enum PhaseView {
    /// The threshold has not been reached.
    Idle,
    /// It has been reached in a turn that still runs.
    WaitingForCompactionTurnComplete {
        turn_id: Seq<char>,
        compaction_count: u32,
        threshold: u32,
    },
    /// The prompt is on its way to the thread.
    AwaitingPreparationSubmission { compaction_count: u32, threshold: u32 },
    /// The thread answers the prompt in a turn that still runs.
    WaitingForPreparationTurnComplete {
        turn_id: Seq<char>,
        compaction_count: u32,
        threshold: u32,
    },
    /// The hand-off took place or was given up.
    Complete,
}

/// The contents of an [`AutoHandoffState`].
pub struct StateView {
    pub live_compaction_count: u32,
    pub phase: PhaseView,
}

impl StateView {
    /// The state of a new thread.
    pub open spec fn initial() -> StateView {
        StateView { live_compaction_count: 0, phase: PhaseView::Idle }
    }

    /// The same count in another phase.
    pub open spec fn in_phase(self, phase: PhaseView) -> StateView {
        StateView { phase, ..self }
    }

    /// A hand-off under way was caused by the compactions counted so far, and by no fewer than
    /// the threshold.
    pub open spec fn valid(self) -> bool {
        match self.phase {
            PhaseView::WaitingForCompactionTurnComplete { compaction_count, threshold, .. }
            | PhaseView::AwaitingPreparationSubmission { compaction_count, threshold }
            | PhaseView::WaitingForPreparationTurnComplete { compaction_count, threshold, .. } => {
                &&& compaction_count == self.live_compaction_count
                &&& 0 < threshold <= compaction_count
            },
            PhaseView::Idle => true,
            PhaseView::Complete => self.live_compaction_count > 0,
        }
    }

    /// After a compaction in the given turn: an idle thread counts it, and at the threshold
    /// waits for that turn to end.
    pub open spec fn note_live_compaction(
        self,
        turn_id: Seq<char>,
        threshold: Option<u32>,
    ) -> StateView {
        if self.phase is Idle && counting::is_enabled(threshold) {
            let threshold = threshold->0;
            let count = counting::counted(self.live_compaction_count);
            StateView {
                live_compaction_count: count,
                phase: if count < threshold {
                    PhaseView::Idle
                } else {
                    PhaseView::WaitingForCompactionTurnComplete {
                        turn_id,
                        compaction_count: count,
                        threshold,
                    }
                },
            }
        } else {
            self
        }
    }

    /// After the end of a turn, with the action that it calls for.
    pub open spec fn on_turn_complete(
        self,
        turn_id: Seq<char>,
        last_agent_message: Option<Seq<char>>,
        session: prompt::SessionView,
    ) -> (StateView, Option<ActionView>) {
        match self.phase {
            PhaseView::WaitingForCompactionTurnComplete {
                turn_id: awaited,
                compaction_count,
                threshold,
            } => if awaited == turn_id {
                (
                    self.in_phase(
                        PhaseView::AwaitingPreparationSubmission { compaction_count, threshold },
                    ),
                    Some(
                        ActionView::PreparePrompt {
                            prompt: prompt::preparation_prompt(
                                threshold,
                                session,
                                compaction_count,
                            ),
                            compaction_count,
                            threshold,
                        },
                    ),
                )
            } else {
                (self, None)
            },
            PhaseView::WaitingForPreparationTurnComplete {
                turn_id: awaited,
                compaction_count,
                threshold,
            } => if awaited == turn_id && last_agent_message is Some {
                (
                    self.in_phase(PhaseView::Complete),
                    if text::is_blank(last_agent_message->0) {
                        None
                    } else {
                        Some(
                            ActionView::StartReplacement {
                                prompt: text::trimmed(last_agent_message->0),
                                compaction_count,
                                threshold,
                                preparation_turn_id: awaited,
                            },
                        )
                    },
                )
            } else {
                (self, None)
            },
            _ => (self, None),
        }
    }

    /// Whether the hand-off waits for the given turn to end.
    pub open spec fn awaits_turn(self, turn_id: Seq<char>) -> bool {
        match self.phase {
            PhaseView::WaitingForCompactionTurnComplete { turn_id: awaited, .. }
            | PhaseView::WaitingForPreparationTurnComplete { turn_id: awaited, .. } => awaited
                == turn_id,
            _ => false,
        }
    }

    /// After a turn was aborted: a hand-off that waits for it is given up.
    pub open spec fn on_turn_aborted(self, turn_id: Seq<char>) -> StateView {
        if self.awaits_turn(turn_id) {
            self.in_phase(PhaseView::Complete)
        } else {
            self
        }
    }

    /// After an event, with the action that it calls for.
    pub open spec fn record_event(
        self,
        event: protocol::EventView,
        threshold: Option<u32>,
        session: prompt::SessionView,
    ) -> (StateView, Option<ActionView>) {
        match event {
            protocol::EventView::Compaction { turn_id } => (
                self.note_live_compaction(turn_id, threshold),
                None,
            ),
            protocol::EventView::TurnComplete {
                turn_id,
                last_agent_message,
            } => self.on_turn_complete(turn_id, last_agent_message, session),
            protocol::EventView::TurnAborted { known_turn_id: Some(turn_id) } => (
                self.on_turn_aborted(turn_id),
                None,
            ),
            protocol::EventView::TurnAborted { known_turn_id: None }
            | protocol::EventView::OtherItem { .. }
            | protocol::EventView::Other => (self, None),
        }
    }

    /// After the prompt was submitted in the given turn.
    pub open spec fn mark_preparation_submitted(self, turn_id: Seq<char>) -> StateView {
        match self.phase {
            PhaseView::AwaitingPreparationSubmission { compaction_count, threshold } => {
                self.in_phase(
                    PhaseView::WaitingForPreparationTurnComplete {
                        turn_id,
                        compaction_count,
                        threshold,
                    },
                )
            },
            _ => self,
        }
    }

    /// After the prompt could not be submitted: the hand-off is given up.
    pub open spec fn mark_preparation_submission_failed(self) -> StateView {
        if self.phase is AwaitingPreparationSubmission {
            self.in_phase(PhaseView::Complete)
        } else {
            self
        }
    }
}

impl View for AutoHandoffPhase {
    type V = PhaseView;

    closed spec fn view(&self) -> PhaseView {
        match *self {
            AutoHandoffPhase::Idle => PhaseView::Idle,
            AutoHandoffPhase::WaitingForCompactionTurnComplete {
                turn_id,
                compaction_count,
                threshold,
            } => PhaseView::WaitingForCompactionTurnComplete {
                turn_id: turn_id@,
                compaction_count,
                threshold,
            },
            AutoHandoffPhase::AwaitingPreparationSubmission { compaction_count, threshold } => {
                PhaseView::AwaitingPreparationSubmission { compaction_count, threshold }
            },
            AutoHandoffPhase::WaitingForPreparationTurnComplete {
                turn_id,
                compaction_count,
                threshold,
            } => PhaseView::WaitingForPreparationTurnComplete {
                turn_id: turn_id@,
                compaction_count,
                threshold,
            },
            AutoHandoffPhase::Complete => PhaseView::Complete,
        }
    }
}

impl View for AutoHandoffState {
    type V = StateView;

    closed spec fn view(&self) -> StateView {
        StateView { live_compaction_count: self.live_compaction_count, phase: self.phase@ }
    }
}

impl Default for AutoHandoffState {
    /// The state of a new thread.
    fn default() -> (state: Self)
        ensures
            state@ == StateView::initial(),
    {
        AutoHandoffState { live_compaction_count: 0, phase: AutoHandoffPhase::Idle }
    }
}

impl AutoHandoffState {
    #[verifier::type_invariant]
    spec fn inv(self) -> bool {
        self@.valid()
    }

    /// Notes an event of the thread; `threshold` is the number of compactions after which to
    /// hand off.
    pub fn record_event(
        &mut self,
        event: &EventMsg,
        threshold: Option<u32>,
        metadata: AutoHandoffMetadata<'_>,
    ) -> (action: Option<AutoHandoffAction>)
        ensures
            (final(self)@, action.deep_view()) == old(self)@.record_event(
                event@,
                threshold,
                metadata@,
            ),
            final(self)@.valid(),
    {
        proof {
            use_type_invariant(&*self);
        }
        match event {
            EventMsg::ItemCompleted(completed) => match &completed.item {
                TurnItem::ContextCompaction => self.note_live_compaction(
                    completed.turn_id.as_str(),
                    threshold,
                ),
                TurnItem::Other => None,
            },
            EventMsg::TurnComplete(completed) => {
                let last_agent_message = text::borrow_text(&completed.last_agent_message);
                self.on_turn_complete(completed.turn_id.as_str(), last_agent_message, metadata)
            },
            EventMsg::TurnAborted(aborted) => {
                if let Some(turn_id) = &aborted.turn_id {
                    self.on_turn_aborted(turn_id.as_str());
                }
                None
            },
            EventMsg::Other => None,
        }
    }

    /// Counts a compaction in the given turn. It never calls for an action by itself.
    pub fn note_live_compaction(&mut self, turn_id: &str, threshold: Option<u32>) -> (action:
        Option<AutoHandoffAction>)
        ensures
            final(self)@ == old(self)@.note_live_compaction(turn_id@, threshold),
            action is None,
            final(self)@.valid(),
    {
        proof {
            use_type_invariant(&*self);
        }
        let threshold: u32 = match threshold {
            Some(threshold) => threshold,
            None => return None,
        };
        if threshold == 0 {
            return None;
        }
        if !matches!(self.phase, AutoHandoffPhase::Idle) {
            return None;
        }
        self.live_compaction_count = self.live_compaction_count.saturating_add(1);
        if self.live_compaction_count < threshold {
            return None;
        }
        self.phase = AutoHandoffPhase::WaitingForCompactionTurnComplete {
            turn_id: turn_id.to_owned(),
            compaction_count: self.live_compaction_count,
            threshold,
        };
        None
    }

    /// Notes the end of a turn.
    pub fn on_turn_complete(
        &mut self,
        turn_id: &str,
        last_agent_message: Option<&str>,
        metadata: AutoHandoffMetadata<'_>,
    ) -> (action: Option<AutoHandoffAction>)
        ensures
            (final(self)@, action.deep_view()) == old(self)@.on_turn_complete(
                turn_id@,
                text::optional_text(last_agent_message),
                metadata@,
            ),
            final(self)@.valid(),
    {
        proof {
            use_type_invariant(&*self);
        }
        match &self.phase {
            AutoHandoffPhase::WaitingForCompactionTurnComplete {
                turn_id: compaction_turn_id,
                compaction_count,
                threshold,
            } => {
                if !text::same_text(compaction_turn_id.as_str(), turn_id) {
                    return None;
                }
                let compaction_count: u32 = *compaction_count;
                let threshold: u32 = *threshold;
                self.phase = AutoHandoffPhase::AwaitingPreparationSubmission {
                    compaction_count,
                    threshold,
                };
                Some(
                    AutoHandoffAction::PreparePrompt(
                        AutoHandoffPrepareRequest {
                            prompt: build_preparation_prompt(threshold, metadata, compaction_count),
                            compaction_count,
                            threshold,
                        },
                    ),
                )
            },
            AutoHandoffPhase::WaitingForPreparationTurnComplete {
                turn_id: preparation_turn_id,
                compaction_count,
                threshold,
            } => {
                if !text::same_text(preparation_turn_id.as_str(), turn_id) {
                    return None;
                }
                let prompt = match last_agent_message {
                    Some(message) => {
                        proof {
                            text::law_trimmed(message@);
                        }
                        message.trim()
                    },
                    None => return None,
                };
                if prompt.is_empty() {
                    self.phase = AutoHandoffPhase::Complete;
                    return None;
                }
                let request = AutoHandoffReplacementRequest {
                    prompt: prompt.to_owned(),
                    compaction_count: *compaction_count,
                    threshold: *threshold,
                    preparation_turn_id: preparation_turn_id.clone(),
                };
                self.phase = AutoHandoffPhase::Complete;
                Some(AutoHandoffAction::StartReplacement(request))
            },
            _ => None,
        }
    }

    /// Notes that a turn was aborted.
    pub fn on_turn_aborted(&mut self, turn_id: &str)
        ensures
            final(self)@ == old(self)@.on_turn_aborted(turn_id@),
            final(self)@.valid(),
    {
        proof {
            use_type_invariant(&*self);
        }
        let awaited = match &self.phase {
            AutoHandoffPhase::WaitingForCompactionTurnComplete { turn_id: awaited, .. } => {
                text::same_text(awaited.as_str(), turn_id)
            },
            AutoHandoffPhase::WaitingForPreparationTurnComplete { turn_id: awaited, .. } => {
                text::same_text(awaited.as_str(), turn_id)
            },
            _ => false,
        };
        if awaited {
            self.phase = AutoHandoffPhase::Complete;
        }
    }

    /// Notes that the prompt was submitted in the given turn. Says whether one was asked for.
    pub fn mark_preparation_submitted(&mut self, turn_id: String) -> (expected: bool)
        ensures
            final(self)@ == old(self)@.mark_preparation_submitted(turn_id@),
            expected == (old(self)@.phase is AwaitingPreparationSubmission),
            final(self)@.valid(),
    {
        proof {
            use_type_invariant(&*self);
        }
        match &self.phase {
            AutoHandoffPhase::AwaitingPreparationSubmission { compaction_count, threshold } => {
                self.phase = AutoHandoffPhase::WaitingForPreparationTurnComplete {
                    turn_id,
                    compaction_count: *compaction_count,
                    threshold: *threshold,
                };
                true
            },
            _ => false,
        }
    }

    /// Notes that the prompt could not be submitted.
    pub fn mark_preparation_submission_failed(&mut self)
        ensures
            final(self)@ == old(self)@.mark_preparation_submission_failed(),
            final(self)@.valid(),
    {
        proof {
            use_type_invariant(&*self);
        }
        if matches!(self.phase, AutoHandoffPhase::AwaitingPreparationSubmission { .. }) {
            self.phase = AutoHandoffPhase::Complete;
        }
    }
}

/// The prompt that asks the thread for its hand-off.
pub fn build_preparation_prompt(
    threshold: u32,
    metadata: AutoHandoffMetadata<'_>,
    compaction_count: u32,
) -> (prompt: String)
    ensures
        prompt@ == prompt::preparation_prompt(threshold, metadata@, compaction_count),
{
    let cwd = text::display_optional_path(metadata.cwd);
    let rollout_path = text::display_optional_path(metadata.rollout_path);
    let session = SessionText {
        thread_id: Some(metadata.thread_id),
        thread_name: metadata.thread_name,
        cwd: text::borrow_text(&cwd),
        rollout_path: text::borrow_text(&rollout_path),
    };
    prompt::render_preparation_prompt(threshold, session, compaction_count)
}

} // verus!

//! The state machine that counts compactions, asks for a hand-off prompt and starts a new
//! session with it.

use crate::counting;
use crate::prompt;
use crate::prompt::SessionText;
use crate::text;
use std::path::Path;
use vstd::prelude::*;

verus! {

/// What is known of the session that hands off. The id is in the form in which it is shown.
#[derive(Clone, Copy, Debug)]
pub struct AutoHandoffMetadata<'a> {
    pub thread_id: Option<&'a str>,
    pub thread_name: Option<&'a str>,
    pub cwd: Option<&'a Path>,
    pub rollout_path: Option<&'a Path>,
}

impl<'a> View for AutoHandoffMetadata<'a> {
    type V = prompt::SessionView;

    open spec fn view(&self) -> prompt::SessionView {
        prompt::SessionView {
            thread_id: text::optional_text(self.thread_id),
            thread_name: text::optional_text(self.thread_name),
            cwd: text::optional_path(self.cwd),
            rollout_path: text::optional_path(self.rollout_path),
        }
    }
}

/// What the widget is to do next.
#[derive(Debug, PartialEq, Eq)]
pub enum AutoHandoffAction {
    /// Ask the session for its hand-off.
    SubmitPreparationPrompt(String),
    /// Start a new session with this prompt.
    StartNewSession(String),
}

/// The contents of an [`AutoHandoffAction`].
pub enum ActionView {
    SubmitPreparationPrompt(Seq<char>),
    StartNewSession(Seq<char>),
}

impl DeepView for AutoHandoffAction {
    type V = ActionView;

    open spec fn deep_view(&self) -> ActionView {
        match *self {
            AutoHandoffAction::SubmitPreparationPrompt(prompt) => {
                ActionView::SubmitPreparationPrompt(prompt@)
            },
            AutoHandoffAction::StartNewSession(prompt) => ActionView::StartNewSession(prompt@),
        }
    }
}

/// How far the hand-off of a session has come.
#[derive(Debug)]
pub struct AutoHandoffState {
    live_compaction_count: u32,
    phase: AutoHandoffPhase,
}

#[derive(Debug)]
enum AutoHandoffPhase {
    Idle,
    WaitingForCompactionTurnComplete { compaction_count: u32, threshold: u32 },
    WaitingForPreparationResponse { generated_prompt: Option<String> },
    Complete,
}

/// The phases of a hand-off.
pub enum PhaseView {
    /// The threshold has not been reached.
    Idle,
    /// It has been reached in a turn that still runs.
    WaitingForCompactionTurnComplete { compaction_count: u32, threshold: u32 },
    /// The session answers the prompt; the latest answer is kept.
    WaitingForPreparationResponse { generated_prompt: Option<Seq<char>> },
    /// The new session was asked for.
    Complete,
}

/// The contents of an [`AutoHandoffState`].
pub struct StateView {
    pub live_compaction_count: u32,
    pub phase: PhaseView,
}

impl StateView {
    /// The state of a new session.
    pub open spec fn initial() -> StateView {
        StateView { live_compaction_count: 0, phase: PhaseView::Idle }
    }

    /// The same count in another phase.
    pub open spec fn in_phase(self, phase: PhaseView) -> StateView {
        StateView { phase, ..self }
    }

    /// A hand-off under way was caused by the compactions counted so far, and by no fewer than
    /// the threshold; an answer that is kept is trimmed and not empty.
    pub open spec fn valid(self) -> bool {
        match self.phase {
            PhaseView::Idle => true,
            PhaseView::WaitingForCompactionTurnComplete { compaction_count, threshold } => {
                &&& compaction_count == self.live_compaction_count
                &&& 0 < threshold <= compaction_count
            },
            PhaseView::WaitingForPreparationResponse { generated_prompt } => {
                &&& self.live_compaction_count > 0
                &&& generated_prompt matches Some(prompt) ==> prompt.len() > 0 && text::trimmed(
                    prompt,
                ) == prompt
            },
            PhaseView::Complete => self.live_compaction_count > 0,
        }
    }

    /// After a message of the assistant: a session that was asked for its hand-off keeps it,
    /// trimmed, unless it is blank.
    pub open spec fn record_assistant_message(self, message: Seq<char>) -> StateView {
        if self.phase is WaitingForPreparationResponse && !text::is_blank(message) {
            self.in_phase(
                PhaseView::WaitingForPreparationResponse {
                    generated_prompt: Some(text::trimmed(message)),
                },
            )
        } else {
            self
        }
    }

    /// After a compaction: an idle session counts it, and at the threshold waits for the turn
    /// to end.
    pub open spec fn note_live_compaction(self, threshold: Option<u32>) -> StateView {
        if self.phase is Idle && counting::is_enabled(threshold) {
            let threshold = threshold->0;
            let count = counting::counted(self.live_compaction_count);
            StateView {
                live_compaction_count: count,
                phase: if count < threshold {
                    PhaseView::Idle
                } else {
                    PhaseView::WaitingForCompactionTurnComplete {
                        compaction_count: count,
                        threshold,
                    }
                },
            }
        } else {
            self
        }
    }

    /// After the end of a turn, with the action that it calls for.
    pub open spec fn action_after_turn_complete(self, session: prompt::SessionView) -> (
        StateView,
        Option<ActionView>,
    ) {
        match self.phase {
            PhaseView::WaitingForCompactionTurnComplete { compaction_count, threshold } => (
                self.in_phase(PhaseView::WaitingForPreparationResponse { generated_prompt: None }),
                Some(
                    ActionView::SubmitPreparationPrompt(
                        prompt::preparation_prompt(threshold, session, compaction_count),
                    ),
                ),
            ),
            PhaseView::WaitingForPreparationResponse { generated_prompt: Some(prompt) } => (
                self.in_phase(PhaseView::Complete),
                Some(ActionView::StartNewSession(prompt)),
            ),
            _ => (self, None),
        }
    }
}

impl View for AutoHandoffPhase {
    type V = PhaseView;

    closed spec fn view(&self) -> PhaseView {
        match *self {
            AutoHandoffPhase::Idle => PhaseView::Idle,
            AutoHandoffPhase::WaitingForCompactionTurnComplete { compaction_count, threshold } => {
                PhaseView::WaitingForCompactionTurnComplete { compaction_count, threshold }
            },
            AutoHandoffPhase::WaitingForPreparationResponse { generated_prompt } => {
                PhaseView::WaitingForPreparationResponse {
                    generated_prompt: text::optional_string(generated_prompt),
                }
            },
            AutoHandoffPhase::Complete => PhaseView::Complete,
        }
    }
}

impl View for AutoHandoffState {
    type V = StateView;

    closed spec fn view(&self) -> StateView {
        StateView { live_compaction_count: self.live_compaction_count, phase: self.phase@ }
    }
}

impl Default for AutoHandoffState {
    /// The state of a new session.
    fn default() -> (state: Self)
        ensures
            state@ == StateView::initial(),
    {
        AutoHandoffState { live_compaction_count: 0, phase: AutoHandoffPhase::Idle }
    }
}

impl AutoHandoffState {
    #[verifier::type_invariant]
    spec fn inv(self) -> bool {
        self@.valid()
    }

    /// Notes a message of the assistant.
    pub fn record_assistant_message(&mut self, message: &str)
        ensures
            final(self)@ == old(self)@.record_assistant_message(message@),
            final(self)@.valid(),
    {
        proof {
            use_type_invariant(&*self);
            text::law_trimmed(message@);
            text::law_trimmed_twice(message@);
        }
        if !matches!(self.phase, AutoHandoffPhase::WaitingForPreparationResponse { .. }) {
            return;
        }
        let message = message.trim();
        if !message.is_empty() {
            self.phase = AutoHandoffPhase::WaitingForPreparationResponse {
                generated_prompt: Some(message.to_owned()),
            };
        }
    }

    /// Counts a compaction; `threshold` is the number of compactions after which to hand off.
    pub fn note_live_compaction(&mut self, threshold: Option<u32>)
        ensures
            final(self)@ == old(self)@.note_live_compaction(threshold),
            final(self)@.valid(),
    {
        proof {
            use_type_invariant(&*self);
        }
        let threshold: u32 = match threshold {
            Some(threshold) => threshold,
            None => return,
        };
        if threshold == 0 {
            return;
        }
        if !matches!(self.phase, AutoHandoffPhase::Idle) {
            return;
        }
        self.live_compaction_count = self.live_compaction_count.saturating_add(1);
        if self.live_compaction_count < threshold {
            return;
        }
        self.phase = AutoHandoffPhase::WaitingForCompactionTurnComplete {
            compaction_count: self.live_compaction_count,
            threshold,
        };
    }

    /// Notes the end of a turn.
    pub fn action_after_turn_complete(&mut self, metadata: AutoHandoffMetadata<'_>) -> (action:
        Option<AutoHandoffAction>)
        ensures
            (final(self)@, action.deep_view()) == old(self)@.action_after_turn_complete(metadata@),
            final(self)@.valid(),
    {
        proof {
            use_type_invariant(&*self);
        }
        match &self.phase {
            AutoHandoffPhase::WaitingForCompactionTurnComplete { compaction_count, threshold } => {
                let prompt = build_preparation_prompt(*threshold, metadata, *compaction_count);
                self.phase = AutoHandoffPhase::WaitingForPreparationResponse {
                    generated_prompt: None,
                };
                Some(AutoHandoffAction::SubmitPreparationPrompt(prompt))
            },
            AutoHandoffPhase::WaitingForPreparationResponse { generated_prompt: Some(prompt) } => {
                let prompt = prompt.clone();
                self.phase = AutoHandoffPhase::Complete;
                Some(AutoHandoffAction::StartNewSession(prompt))
            },
            _ => None,
        }
    }
}

/// The prompt that asks the session for its hand-off.
pub fn build_preparation_prompt(
    threshold: u32,
    metadata: AutoHandoffMetadata<'_>,
    compaction_count: u32,
) -> (prompt: String)
    ensures
        prompt@ == prompt::preparation_prompt(threshold, metadata@, compaction_count),
{
    let cwd = text::display_optional_path(metadata.cwd);
    let rollout_path = text::display_optional_path(metadata.rollout_path);
    let session = SessionText {
        thread_id: metadata.thread_id,
        thread_name: metadata.thread_name,
        cwd: text::borrow_text(&cwd),
        rollout_path: text::borrow_text(&rollout_path),
    };
    prompt::render_preparation_prompt(threshold, session, compaction_count)
}

} // verus!

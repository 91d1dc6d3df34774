//! The part of the chat widget that takes part in the hand-off.

use crate::chat_widget::state;
use crate::chat_widget::state::AutoHandoffAction;
use crate::chat_widget::state::AutoHandoffMetadata;
use crate::chat_widget::state::AutoHandoffState;
use crate::prompt;
use crate::text;
use std::path::Path;
use vstd::prelude::*;

verus! {

/// Where the widget sends its operations.
#[derive(Clone, Copy, Debug, PartialEq, Eq)]
pub enum CodexOpTarget {
    /// To a session that it drives itself.
    Direct,
    /// To the application's event queue.
    AppEvent,
}

/// What the hand-off reads of the configuration.
#[derive(Clone, Copy, Debug, PartialEq, Eq)]
pub struct Config {
    /// Start a new session after this many live compactions; unset or zero never does.
    pub auto_new_session_after_compactions: Option<u32>,
}

/// A marked part of a message, by its bytes.
#[derive(Clone, Copy, Debug, PartialEq, Eq)]
pub struct TextElement {
    pub start: usize,
    pub end: usize,
}

/// A message that is sent in the user's name.
#[derive(Clone, Debug, PartialEq, Eq)]
pub struct UserMessage {
    pub text: String,
}

/// What the history shows in place of a message.
#[derive(Clone, Debug, PartialEq, Eq)]
pub struct UserMessageHistoryOverride {
    pub text: String,
    pub text_elements: Vec<TextElement>,
}

/// How a message is entered in the history.
#[derive(Clone, Debug, PartialEq, Eq)]
pub enum UserMessageHistoryRecord {
    /// As it is.
    UserMessageText,
    /// As something else.
    Override(UserMessageHistoryOverride),
}

/// Whether a message may run a shell command.
#[derive(Clone, Copy, Debug, PartialEq, Eq)]
pub enum ShellEscapePolicy {
    Allow,
    Disallow,
}

/// An event for the application.
#[derive(Clone, Debug, PartialEq, Eq)]
pub enum AppEvent {
    /// Start a new session with this first prompt.
    NewSessionWithInitialPrompt { text: String },
}

/// What the widget's surroundings are to do for the hand-off.
#[derive(Clone, Debug, PartialEq, Eq)]
pub enum AutoHandoffDispatch {
    /// Submit a message to the current session.
    SubmitUserMessage {
        message: UserMessage,
        history_record: UserMessageHistoryRecord,
        shell_escape_policy: ShellEscapePolicy,
    },
    /// Send an event to the application.
    SendAppEvent(AppEvent),
}

/// The contents of an [`AutoHandoffDispatch`].
pub enum DispatchView {
    SubmitUserMessage {
        text: Seq<char>,
        /// What the history shows, or `None` where it shows the message.
        history: Option<(Seq<char>, Seq<TextElement>)>,
        shell_escape_policy: ShellEscapePolicy,
    },
    NewSessionWithInitialPrompt { text: Seq<char> },
}

impl DeepView for AutoHandoffDispatch {
    type V = DispatchView;

    open spec fn deep_view(&self) -> DispatchView {
        match *self {
            AutoHandoffDispatch::SubmitUserMessage {
                message,
                history_record,
                shell_escape_policy,
            } => DispatchView::SubmitUserMessage {
                text: message.text@,
                history: match history_record {
                    UserMessageHistoryRecord::UserMessageText => None,
                    UserMessageHistoryRecord::Override(shown) => Some(
                        (shown.text@, shown.text_elements@),
                    ),
                },
                shell_escape_policy,
            },
            AutoHandoffDispatch::SendAppEvent(AppEvent::NewSessionWithInitialPrompt { text }) => {
                DispatchView::NewSessionWithInitialPrompt { text: text@ }
            },
        }
    }
}

/// What an action of the state machine asks of the widget's surroundings. The request for a
/// hand-off leaves an empty entry in the history and cannot run a shell command.
pub open spec fn dispatched(action: state::ActionView) -> DispatchView {
    match action {
        state::ActionView::SubmitPreparationPrompt(prompt) => DispatchView::SubmitUserMessage {
            text: prompt,
            history: Some((Seq::empty(), Seq::empty())),
            shell_escape_policy: ShellEscapePolicy::Disallow,
        },
        state::ActionView::StartNewSession(prompt) => {
            DispatchView::NewSessionWithInitialPrompt { text: prompt }
        },
    }
}

/// The chat widget, as far as the hand-off reads it.
#[derive(Debug)]
pub struct ChatWidget {
    pub codex_op_target: CodexOpTarget,
    pub config: Config,
    /// The id of the current thread, as it is shown.
    pub thread_id: Option<String>,
    pub thread_name: Option<String>,
    pub current_cwd: Option<Box<Path>>,
    pub current_rollout_path: Option<Box<Path>>,
    pub auto_handoff: AutoHandoffState,
}

/// The contents of a [`ChatWidget`].
pub struct WidgetView {
    pub codex_op_target: CodexOpTarget,
    pub config: Config,
    pub session: prompt::SessionView,
    pub auto_handoff: state::StateView,
}

impl View for ChatWidget {
    type V = WidgetView;

    open spec fn view(&self) -> WidgetView {
        WidgetView {
            codex_op_target: self.codex_op_target,
            config: self.config,
            session: prompt::SessionView {
                thread_id: text::optional_string(self.thread_id),
                thread_name: text::optional_string(self.thread_name),
                cwd: text::optional_boxed_path(self.current_cwd),
                rollout_path: text::optional_boxed_path(self.current_rollout_path),
            },
            auto_handoff: self.auto_handoff@,
        }
    }
}

impl WidgetView {
    /// Only a widget that drives its session itself hands off.
    pub open spec fn enabled(self) -> bool {
        self.codex_op_target is Direct
    }

    /// The same widget with another state of its hand-off.
    pub open spec fn with_handoff(self, auto_handoff: state::StateView) -> WidgetView {
        WidgetView { auto_handoff, ..self }
    }

    /// After a message of the assistant.
    pub open spec fn record_assistant_message(self, message: Seq<char>) -> WidgetView {
        if self.enabled() {
            self.with_handoff(self.auto_handoff.record_assistant_message(message))
        } else {
            self
        }
    }

    /// After a compaction; one that is only replayed does not count.
    pub open spec fn after_compaction(self, from_replay: bool) -> WidgetView {
        if self.enabled() && !from_replay {
            self.with_handoff(
                self.auto_handoff.note_live_compaction(
                    self.config.auto_new_session_after_compactions,
                ),
            )
        } else {
            self
        }
    }

    /// After the end of a turn, with what is to be done.
    pub open spec fn dispatch_pending(self) -> (WidgetView, Option<DispatchView>) {
        if self.enabled() {
            let (auto_handoff, action) = self.auto_handoff.action_after_turn_complete(self.session);
            (
                self.with_handoff(auto_handoff),
                match action {
                    Some(action) => Some(dispatched(action)),
                    None => None,
                },
            )
        } else {
            (self, None)
        }
    }
}

impl ChatWidget {
    /// Everything but the state of the hand-off is as it was before.
    pub open spec fn differs_in_handoff_only(self, before: ChatWidget) -> bool {
        self == (ChatWidget { auto_handoff: self.auto_handoff, ..before })
    }

    /// Notes a message of the user, which the hand-off does not read.
    pub fn record_auto_handoff_user_message(&mut self, _message: &str)
        ensures
            *final(self) == *old(self),
    {
    }

    /// Notes a message of the assistant.
    pub fn record_auto_handoff_assistant_message(&mut self, message: &str)
        ensures
            final(self)@ == old(self)@.record_assistant_message(message@),
            final(self).differs_in_handoff_only(*old(self)),
    {
        if !self.chat_widget_auto_handoff_enabled() {
            return;
        }
        self.auto_handoff.record_assistant_message(message);
    }

    /// Notes a compaction, live or replayed from the history.
    pub fn maybe_prepare_auto_handoff_after_compaction(&mut self, from_replay: bool)
        ensures
            final(self)@ == old(self)@.after_compaction(from_replay),
            final(self).differs_in_handoff_only(*old(self)),
    {
        if from_replay {
            return;
        }
        if !self.chat_widget_auto_handoff_enabled() {
            return;
        }
        self.auto_handoff.note_live_compaction(self.config.auto_new_session_after_compactions);
    }

    /// Notes the end of a turn and says what is to be done now.
    pub fn dispatch_pending_auto_handoff(&mut self) -> (dispatch: Option<AutoHandoffDispatch>)
        ensures
            (final(self)@, dispatch.deep_view()) == old(self)@.dispatch_pending(),
            final(self).differs_in_handoff_only(*old(self)),
    {
        if !self.chat_widget_auto_handoff_enabled() {
            return None;
        }
        let metadata = AutoHandoffMetadata {
            thread_id: text::borrow_text(&self.thread_id),
            thread_name: text::borrow_text(&self.thread_name),
            cwd: text::borrow_path(&self.current_cwd),
            rollout_path: text::borrow_path(&self.current_rollout_path),
        };
        let action = match self.auto_handoff.action_after_turn_complete(metadata) {
            Some(action) => action,
            None => return None,
        };
        match action {
            AutoHandoffAction::SubmitPreparationPrompt(prompt) => {
                let history_record = UserMessageHistoryRecord::Override(
                    UserMessageHistoryOverride { text: String::new(), text_elements: Vec::new() },
                );
                Some(
                    AutoHandoffDispatch::SubmitUserMessage {
                        message: UserMessage { text: prompt },
                        history_record,
                        shell_escape_policy: ShellEscapePolicy::Disallow,
                    },
                )
            },
            AutoHandoffAction::StartNewSession(prompt) => Some(
                AutoHandoffDispatch::SendAppEvent(
                    AppEvent::NewSessionWithInitialPrompt { text: prompt },
                ),
            ),
        }
    }

    /// Whether this widget hands off at all.
    pub fn chat_widget_auto_handoff_enabled(&self) -> (enabled: bool)
        ensures
            enabled == self@.enabled(),
            enabled == (self.codex_op_target is Direct),
    {
        matches!(&self.codex_op_target, CodexOpTarget::Direct)
    }
}

} // verus!

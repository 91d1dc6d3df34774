//! What holds of every run of a widget's hand-off.

use crate::chat_widget::state;
use crate::chat_widget::widget;
use crate::counting;
use crate::prompt;
use crate::text;
use vstd::prelude::*;

verus! {

/// Something that happens to a widget.
pub enum Operation {
    UserMessage { message: Seq<char> },
    AssistantMessage { message: Seq<char> },
    Compaction { from_replay: bool },
    TurnComplete,
    /// What the widget shows or how it is set up changes.
    Change {
        codex_op_target: widget::CodexOpTarget,
        config: widget::Config,
        session: prompt::SessionView,
    },
}

/// The widget after one operation, with what is to be done.
pub open spec fn apply(before: widget::WidgetView, operation: Operation) -> (
    widget::WidgetView,
    Option<widget::DispatchView>,
) {
    match operation {
        Operation::UserMessage { .. } => (before, None),
        Operation::AssistantMessage { message } => (
            before.record_assistant_message(message),
            None,
        ),
        Operation::Compaction { from_replay } => (before.after_compaction(from_replay), None),
        Operation::TurnComplete => before.dispatch_pending(),
        Operation::Change { codex_op_target, config, session } => (
            widget::WidgetView { codex_op_target, config, session, ..before },
            None,
        ),
    }
}

/// The widget after a run of operations.
pub open spec fn run(before: widget::WidgetView, operations: Seq<Operation>) -> widget::WidgetView
    decreases operations.len(),
{
    if operations.len() == 0 {
        before
    } else {
        apply(run(before, operations.drop_last()), operations.last()).0
    }
}

/// What is to be done during a run of operations, in its order.
pub open spec fn dispatches(before: widget::WidgetView, operations: Seq<Operation>) -> Seq<
    widget::DispatchView,
>
    decreases operations.len(),
{
    if operations.len() == 0 {
        Seq::empty()
    } else {
        let earlier = dispatches(before, operations.drop_last());
        match apply(run(before, operations.drop_last()), operations.last()).1 {
            Some(dispatch) => earlier.push(dispatch),
            None => earlier,
        }
    }
}

/// The number of live compactions in a run.
pub open spec fn live_compactions(operations: Seq<Operation>) -> nat
    decreases operations.len(),
{
    if operations.len() == 0 {
        0
    } else {
        live_compactions(operations.drop_last()) + if operations.last() == (
        Operation::Compaction { from_replay: false }) {
            1nat
        } else {
            0nat
        }
    }
}

/// Whether an operation is a live compaction in a widget that takes part in hand-offs.
pub open spec fn is_counted(before: widget::WidgetView, operation: Operation) -> bool {
    &&& operation == (Operation::Compaction { from_replay: false })
    &&& before.codex_op_target is Direct
    &&& counting::is_enabled(before.config.auto_new_session_after_compactions)
}

/// The number of compactions in a run that count.
pub open spec fn counted_compactions(
    before: widget::WidgetView,
    operations: Seq<Operation>,
) -> nat
    decreases operations.len(),
{
    if operations.len() == 0 {
        0
    } else {
        counted_compactions(before, operations.drop_last()) + if is_counted(
            run(before, operations.drop_last()),
            operations.last(),
        ) {
            1nat
        } else {
            0nat
        }
    }
}

/// Whether every threshold under which a run's compactions are counted lies above `limit`.
pub open spec fn thresholds_above(
    before: widget::WidgetView,
    operations: Seq<Operation>,
    limit: nat,
) -> bool
    decreases operations.len(),
{
    operations.len() > 0 ==> {
        let widget = run(before, operations.drop_last());
        &&& thresholds_above(before, operations.drop_last(), limit)
        &&& is_counted(widget, operations.last())
            ==> widget.config.auto_new_session_after_compactions->0 > limit
    }
}

proof fn lemma_thresholds_above(
    before: widget::WidgetView,
    operations: Seq<Operation>,
    limit: nat,
    lower: nat,
)
    requires
        thresholds_above(before, operations, limit),
        lower <= limit,
    ensures
        thresholds_above(before, operations, lower),
    decreases operations.len(),
{
    if operations.len() > 0 {
        lemma_thresholds_above(before, operations.drop_last(), limit, lower);
    }
}

proof fn lemma_run_push(before: widget::WidgetView, operations: Seq<Operation>, next: Operation)
    ensures
        run(before, operations.push(next)) == apply(run(before, operations), next).0,
        dispatches(before, operations.push(next)) == match apply(
            run(before, operations),
            next,
        ).1 {
            Some(dispatch) => dispatches(before, operations).push(dispatch),
            None => dispatches(before, operations),
        },
{
    assert(operations.push(next).drop_last() =~= operations);
}

/// A run goes on from where an earlier part of it ended.
pub proof fn law_run_in_parts(
    before: widget::WidgetView,
    first: Seq<Operation>,
    second: Seq<Operation>,
)
    ensures
        run(before, first + second) == run(run(before, first), second),
        dispatches(before, first + second) == dispatches(before, first) + dispatches(
            run(before, first),
            second,
        ),
    decreases second.len(),
{
    if second.len() == 0 {
        assert(first + second =~= first);
        assert(dispatches(before, first) + dispatches(run(before, first), second) =~= dispatches(
            before,
            first,
        ));
    } else {
        assert((first + second).drop_last() =~= first + second.drop_last());
        law_run_in_parts(before, first, second.drop_last());
        assert(dispatches(before, first + second) =~= dispatches(before, first) + dispatches(
            run(before, first),
            second,
        ));
    }
}

/// Every run keeps the state of the hand-off valid.
pub proof fn law_valid(before: widget::WidgetView, operations: Seq<Operation>)
    requires
        before.auto_handoff.valid(),
    ensures
        run(before, operations).auto_handoff.valid(),
    decreases operations.len(),
{
    if operations.len() > 0 {
        law_valid(before, operations.drop_last());
        match operations.last() {
            Operation::AssistantMessage { message } => {
                text::law_trimmed(message);
                text::law_trimmed_twice(message);
            },
            _ => {},
        }
    }
}

/// At most one hand-off: nothing is done, or one message asks the session for its hand-off, or
/// that and then one new session is started. The message stays out of the history and cannot
/// run a shell command; the new session's prompt is neither empty nor surrounded by white space.
pub open spec fn at_most_one_handoff(done: Seq<widget::DispatchView>) -> bool {
    &&& done.len() <= 2
    &&& done.len() >= 1 ==> (done[0] matches widget::DispatchView::SubmitUserMessage {
        history,
        shell_escape_policy,
        ..
    } && history == Some((Seq::<char>::empty(), Seq::<widget::TextElement>::empty()))
        && shell_escape_policy is Disallow)
    &&& done.len() == 2 ==> (done[1] matches widget::DispatchView::NewSessionWithInitialPrompt {
        text,
    } && text.len() > 0 && text::trimmed(text) == text)
}

/// How much can have been done when the hand-off is in the given phase.
spec fn explains(done: Seq<widget::DispatchView>, phase: state::PhaseView) -> bool {
    match phase {
        state::PhaseView::Idle | state::PhaseView::WaitingForCompactionTurnComplete { .. } => {
            done.len() == 0
        },
        state::PhaseView::WaitingForPreparationResponse { .. } => done.len() == 1,
        state::PhaseView::Complete => done.len() == 2,
    }
}

proof fn lemma_dispatches(before: widget::WidgetView, operations: Seq<Operation>)
    requires
        before.auto_handoff == state::StateView::initial(),
    ensures
        explains(dispatches(before, operations), run(before, operations).auto_handoff.phase),
        at_most_one_handoff(dispatches(before, operations)),
    decreases operations.len(),
{
    if operations.len() > 0 {
        lemma_dispatches(before, operations.drop_last());
        law_valid(before, operations.drop_last());
    }
}

/// A widget hands off at most once, whatever happens to it.
pub proof fn law_at_most_one_handoff(before: widget::WidgetView, operations: Seq<Operation>)
    requires
        before.auto_handoff == state::StateView::initial(),
    ensures
        at_most_one_handoff(dispatches(before, operations)),
{
    lemma_dispatches(before, operations);
}

/// Without an enabled threshold there is no hand-off: while every threshold that is configured
/// is unset or zero, an idle widget stays idle, counts nothing and does nothing.
pub proof fn law_disabled(before: widget::WidgetView, operations: Seq<Operation>)
    requires
        before.auto_handoff.phase is Idle,
        !counting::is_enabled(before.config.auto_new_session_after_compactions),
        forall|i: int|
            0 <= i < operations.len() && (#[trigger] operations[i]) is Change
                ==> !counting::is_enabled(
                operations[i]->config.auto_new_session_after_compactions,
            ),
    ensures
        run(before, operations).auto_handoff == before.auto_handoff,
        !counting::is_enabled(
            run(before, operations).config.auto_new_session_after_compactions,
        ),
        dispatches(before, operations).len() == 0,
    decreases operations.len(),
{
    if operations.len() > 0 {
        let earlier = operations.drop_last();
        assert forall|i: int|
            0 <= i < earlier.len() && (#[trigger] earlier[i]) is Change implies !counting::is_enabled(
            earlier[i]->config.auto_new_session_after_compactions,
        ) by {
            assert(earlier[i] == operations[i]);
        }
        law_disabled(before, earlier);
        assert(operations.last() == operations[operations.len() - 1]);
    }
}

/// A widget takes no part in hand-offs as long as it does not drive its session itself.
pub proof fn law_not_direct(before: widget::WidgetView, operations: Seq<Operation>)
    requires
        !(before.codex_op_target is Direct),
        forall|i: int|
            0 <= i < operations.len() && (#[trigger] operations[i]) is Change ==> !(
            operations[i]->codex_op_target is Direct),
    ensures
        run(before, operations).auto_handoff == before.auto_handoff,
        !(run(before, operations).codex_op_target is Direct),
        dispatches(before, operations).len() == 0,
    decreases operations.len(),
{
    if operations.len() > 0 {
        let earlier = operations.drop_last();
        assert forall|i: int|
            0 <= i < earlier.len() && (#[trigger] earlier[i]) is Change implies !(
        earlier[i]->codex_op_target is Direct) by {
            assert(earlier[i] == operations[i]);
        }
        law_not_direct(before, earlier);
        assert(operations.last() == operations[operations.len() - 1]);
    }
}

/// Only live compactions count: a run without any leaves an idle widget idle, however many are
/// replayed.
pub proof fn law_replay(before: widget::WidgetView, operations: Seq<Operation>)
    requires
        before.auto_handoff.phase is Idle,
        live_compactions(operations) == 0,
    ensures
        run(before, operations).auto_handoff == before.auto_handoff,
        dispatches(before, operations).len() == 0,
    decreases operations.len(),
{
    if operations.len() > 0 {
        law_replay(before, operations.drop_last());
    }
}

/// A replayed compaction changes nothing, at any moment.
pub proof fn law_replayed_compaction(before: widget::WidgetView)
    ensures
        apply(before, Operation::Compaction { from_replay: true }) == (
            before,
            None::<widget::DispatchView>,
        ),
{
}

/// As long as the compactions stay below every threshold in force, a widget goes on as before
/// and only counts them.
pub proof fn law_below_threshold(before: widget::WidgetView, operations: Seq<Operation>)
    requires
        before.auto_handoff == state::StateView::initial(),
        thresholds_above(before, operations, counted_compactions(before, operations)),
    ensures
        counted_compactions(before, operations) < u32::MAX,
        run(before, operations).auto_handoff == (state::StateView {
            live_compaction_count: counted_compactions(before, operations) as u32,
            phase: state::PhaseView::Idle,
        }),
        dispatches(before, operations).len() == 0,
    decreases operations.len(),
{
    if operations.len() > 0 {
        let earlier = operations.drop_last();
        lemma_thresholds_above(
            before,
            earlier,
            counted_compactions(before, operations),
            counted_compactions(before, earlier),
        );
        law_below_threshold(before, earlier);
    }
}

/// The live compaction that reaches the threshold, and no earlier one, makes the widget wait
/// for the end of the turn.
pub proof fn law_at_threshold(
    before: widget::WidgetView,
    earlier: Seq<Operation>,
    threshold: u32,
)
    requires
        before.auto_handoff == state::StateView::initial(),
        thresholds_above(before, earlier, counted_compactions(before, earlier)),
        run(before, earlier).codex_op_target is Direct,
        run(before, earlier).config.auto_new_session_after_compactions == Some(threshold),
        0 < threshold <= counted_compactions(before, earlier) + 1,
    ensures
        ({
            let reached = earlier.push(Operation::Compaction { from_replay: false });
            let count = (counted_compactions(before, earlier) + 1) as u32;
            &&& count == counted_compactions(before, earlier) + 1
            &&& run(before, reached) == run(before, earlier).with_handoff(
                state::StateView {
                    live_compaction_count: count,
                    phase: state::PhaseView::WaitingForCompactionTurnComplete {
                        compaction_count: count,
                        threshold,
                    },
                },
            )
            &&& dispatches(before, reached).len() == 0
        }),
{
    law_below_threshold(before, earlier);
    lemma_run_push(before, earlier, Operation::Compaction { from_replay: false });
}

/// Whether an operation leaves an answer that the hand-off keeps as it is.
pub open spec fn keeps_reply(operation: Operation) -> bool {
    match operation {
        Operation::AssistantMessage { message } => text::is_blank(message),
        Operation::UserMessage { .. } | Operation::Compaction { .. } | Operation::Change {
            ..
        } => true,
        Operation::TurnComplete => false,
    }
}

proof fn lemma_keeps_reply(before: widget::WidgetView, operations: Seq<Operation>)
    requires
        before.auto_handoff.phase is WaitingForPreparationResponse,
        forall|i: int| 0 <= i < operations.len() ==> keeps_reply(#[trigger] operations[i]),
    ensures
        run(before, operations).auto_handoff == before.auto_handoff,
        dispatches(before, operations).len() == 0,
    decreases operations.len(),
{
    if operations.len() > 0 {
        let earlier = operations.drop_last();
        assert forall|i: int| 0 <= i < earlier.len() implies keeps_reply(#[trigger] earlier[i]) by {
            assert(earlier[i] == operations[i]);
        }
        lemma_keeps_reply(before, earlier);
        assert(keeps_reply(operations[operations.len() - 1]));
    }
}

/// The last answer that is not blank is the one that starts the new session, at the next end of
/// a turn at which the widget drives its session itself.
pub proof fn law_latest_reply(
    before: widget::WidgetView,
    reply: Seq<char>,
    later: Seq<Operation>,
)
    requires
        before.codex_op_target is Direct,
        before.auto_handoff.phase is WaitingForPreparationResponse,
        !text::is_blank(reply),
        forall|i: int| 0 <= i < later.len() ==> keeps_reply(#[trigger] later[i]),
        run(before.record_assistant_message(reply), later).codex_op_target is Direct,
    ensures
        ({
            let answered = run(before.record_assistant_message(reply), later);
            &&& dispatches(before.record_assistant_message(reply), later).len() == 0
            &&& answered.dispatch_pending().1 == Some(
                widget::DispatchView::NewSessionWithInitialPrompt { text: text::trimmed(reply) },
            )
            &&& answered.dispatch_pending().0.auto_handoff.phase is Complete
        }),
{
    lemma_keeps_reply(before.record_assistant_message(reply), later);
}

/// Whether an operation brings no answer that could be kept.
pub open spec fn brings_no_reply(operation: Operation) -> bool {
    match operation {
        Operation::AssistantMessage { message } => text::is_blank(message),
        _ => true,
    }
}

/// Without an answer the widget goes on waiting, however many turns end.
pub proof fn law_no_reply(before: widget::WidgetView, operations: Seq<Operation>)
    requires
        before.auto_handoff.phase == (state::PhaseView::WaitingForPreparationResponse {
            generated_prompt: None,
        }),
        forall|i: int| 0 <= i < operations.len() ==> brings_no_reply(#[trigger] operations[i]),
    ensures
        run(before, operations).auto_handoff == before.auto_handoff,
        dispatches(before, operations).len() == 0,
    decreases operations.len(),
{
    if operations.len() > 0 {
        let earlier = operations.drop_last();
        assert forall|i: int| 0 <= i < earlier.len() implies brings_no_reply(
            #[trigger] earlier[i],
        ) by {
            assert(earlier[i] == operations[i]);
        }
        law_no_reply(before, earlier);
        assert(brings_no_reply(operations[operations.len() - 1]));
    }
}

/// A widget that waits for the end of a turn waits whatever else happens.
pub proof fn law_waiting(before: widget::WidgetView, operations: Seq<Operation>)
    requires
        before.auto_handoff.phase is WaitingForCompactionTurnComplete,
        forall|i: int|
            0 <= i < operations.len() ==> !(#[trigger] operations[i] is TurnComplete),
    ensures
        run(before, operations).auto_handoff == before.auto_handoff,
        dispatches(before, operations).len() == 0,
    decreases operations.len(),
{
    if operations.len() > 0 {
        let earlier = operations.drop_last();
        assert forall|i: int| 0 <= i < earlier.len() implies !(
        #[trigger] earlier[i] is TurnComplete) by {
            assert(earlier[i] == operations[i]);
        }
        law_waiting(before, earlier);
        assert(!(operations[operations.len() - 1] is TurnComplete));
    }
}

/// Until a turn ends, a widget that was asked for its hand-off goes on taking answers.
pub proof fn law_taking_answers(before: widget::WidgetView, operations: Seq<Operation>)
    requires
        before.auto_handoff.phase is WaitingForPreparationResponse,
        forall|i: int|
            0 <= i < operations.len() ==> !(#[trigger] operations[i] is TurnComplete),
    ensures
        run(before, operations).auto_handoff.phase is WaitingForPreparationResponse,
        dispatches(before, operations).len() == 0,
    decreases operations.len(),
{
    if operations.len() > 0 {
        let earlier = operations.drop_last();
        assert forall|i: int| 0 <= i < earlier.len() implies !(
        #[trigger] earlier[i] is TurnComplete) by {
            assert(earlier[i] == operations[i]);
        }
        law_taking_answers(before, earlier);
        assert(!(operations[operations.len() - 1] is TurnComplete));
    }
}

/// A hand-off that succeeds, with all that happens meanwhile.
pub struct Handoff {
    /// The widget at first.
    pub before: widget::WidgetView,
    /// What happens before the threshold is reached.
    pub earlier: Seq<Operation>,
    pub threshold: u32,
    /// What happens after that, before the turn ends.
    pub during_compaction_turn: Seq<Operation>,
    /// What happens while there is no answer.
    pub without_answer: Seq<Operation>,
    /// What happens in the turn of the answer before the last one is given.
    pub earlier_answers: Seq<Operation>,
    pub reply: Seq<char>,
    /// What happens before that turn ends.
    pub after_reply: Seq<Operation>,
}

impl Handoff {
    /// The number of compactions that bring it about.
    pub open spec fn count(self) -> u32 {
        (counted_compactions(self.before, self.earlier) + 1) as u32
    }

    /// All up to the end of the turn in which the threshold is reached.
    pub open spec fn until_compaction_turn_end(self) -> Seq<Operation> {
        self.earlier.push(Operation::Compaction { from_replay: false })
            + self.during_compaction_turn
    }

    /// All up to the last answer.
    pub open spec fn until_reply(self) -> Seq<Operation> {
        self.until_compaction_turn_end().push(Operation::TurnComplete) + self.without_answer
            + self.earlier_answers
    }

    /// All up to the end of the turn in which it is given.
    pub open spec fn until_reply_turn_end(self) -> Seq<Operation> {
        self.until_reply().push(Operation::AssistantMessage { message: self.reply })
            + self.after_reply
    }

    /// All of it, in its order.
    pub open spec fn operations(self) -> Seq<Operation> {
        self.until_reply_turn_end().push(Operation::TurnComplete)
    }

    /// The widget is new at first; the threshold is reached by the compaction that is said to
    /// reach it; the turns end when they are said to; the last answer is not blank. At each of
    /// these moments the widget drives its session itself.
    pub open spec fn well_formed(self) -> bool {
        let widget = run(self.before, self.earlier);
        &&& self.before.auto_handoff == state::StateView::initial()
        &&& thresholds_above(
            self.before,
            self.earlier,
            counted_compactions(self.before, self.earlier),
        )
        &&& widget.codex_op_target is Direct
        &&& widget.config.auto_new_session_after_compactions == Some(self.threshold)
        &&& 0 < self.threshold <= counted_compactions(self.before, self.earlier) + 1
        &&& forall|i: int|
            0 <= i < self.during_compaction_turn.len() ==> !(
            #[trigger] self.during_compaction_turn[i] is TurnComplete)
        &&& run(self.before, self.until_compaction_turn_end()).codex_op_target is Direct
        &&& forall|i: int|
            0 <= i < self.without_answer.len() ==> brings_no_reply(
                #[trigger] self.without_answer[i],
            )
        &&& forall|i: int|
            0 <= i < self.earlier_answers.len() ==> !(
            #[trigger] self.earlier_answers[i] is TurnComplete)
        &&& run(self.before, self.until_reply()).codex_op_target is Direct
        &&& !text::is_blank(self.reply)
        &&& forall|i: int|
            0 <= i < self.after_reply.len() ==> keeps_reply(#[trigger] self.after_reply[i])
        &&& run(self.before, self.until_reply_turn_end()).codex_op_target is Direct
    }
}

/// Once the threshold is reached the session is asked for a hand-off prompt, and what it answers
/// last becomes the first prompt of a new session.
pub proof fn law_successful_handoff(handoff: Handoff)
    requires
        handoff.well_formed(),
    ensures
        run(handoff.before, handoff.operations()).auto_handoff.phase is Complete,
        dispatches(handoff.before, handoff.operations()) == seq![
            widget::DispatchView::SubmitUserMessage {
                text: prompt::preparation_prompt(
                    handoff.threshold,
                    run(handoff.before, handoff.until_compaction_turn_end()).session,
                    handoff.count(),
                ),
                history: Some((Seq::empty(), Seq::empty())),
                shell_escape_policy: widget::ShellEscapePolicy::Disallow,
            },
            widget::DispatchView::NewSessionWithInitialPrompt {
                text: text::trimmed(handoff.reply),
            },
        ],
{
    let before = handoff.before;
    let reached = handoff.earlier.push(Operation::Compaction { from_replay: false });
    law_at_threshold(before, handoff.earlier, handoff.threshold);
    law_run_in_parts(before, reached, handoff.during_compaction_turn);
    law_waiting(run(before, reached), handoff.during_compaction_turn);
    let waited = handoff.until_compaction_turn_end();
    assert(dispatches(before, waited) =~= Seq::empty());
    lemma_run_push(before, waited, Operation::TurnComplete);
    let asked = waited.push(Operation::TurnComplete);
    law_run_in_parts(before, asked, handoff.without_answer);
    law_no_reply(run(before, asked), handoff.without_answer);
    let unanswered = asked + handoff.without_answer;
    assert(dispatches(before, unanswered) =~= dispatches(before, asked));
    law_run_in_parts(before, unanswered, handoff.earlier_answers);
    law_taking_answers(run(before, unanswered), handoff.earlier_answers);
    let answering = handoff.until_reply();
    assert(dispatches(before, answering) =~= dispatches(before, asked));
    let answer = Operation::AssistantMessage { message: handoff.reply };
    lemma_run_push(before, answering, answer);
    let answered = answering.push(answer);
    law_run_in_parts(before, answered, handoff.after_reply);
    law_latest_reply(run(before, answering), handoff.reply, handoff.after_reply);
    let ended = handoff.until_reply_turn_end();
    assert(dispatches(before, ended) =~= dispatches(before, asked));
    lemma_run_push(before, ended, Operation::TurnComplete);
}

/// A message is submitted only at the end of the turn in which the threshold was reached, and it
/// is the prompt for the session that the widget shows at that moment.
pub proof fn law_submitted_prompt(before: widget::WidgetView)
    ensures
        before.dispatch_pending().1 matches Some(
            widget::DispatchView::SubmitUserMessage { text, .. },
        ) ==> {
            &&& before.auto_handoff.phase matches
                state::PhaseView::WaitingForCompactionTurnComplete { compaction_count, threshold }
            &&& text == prompt::preparation_prompt(threshold, before.session, compaction_count)
        },
{
}

/// Whether the widget takes in an answer at this place of a run: a message of the assistant that
/// is not blank, while the widget drives its session itself.
pub open spec fn hears_answer(
    before: widget::WidgetView,
    operations: Seq<Operation>,
    at: int,
) -> bool {
    &&& operations[at] is AssistantMessage
    &&& !text::is_blank(operations[at]->AssistantMessage_message)
    &&& run(before, operations.take(at)).codex_op_target is Direct
}

/// Whether `prompt` is the last answer, trimmed, that the widget took in since it asked for its
/// hand-off, and `at` the place where it did.
pub open spec fn is_latest_reply(
    before: widget::WidgetView,
    operations: Seq<Operation>,
    at: int,
    prompt: Seq<char>,
) -> bool {
    &&& 0 <= at < operations.len()
    &&& hears_answer(before, operations, at)
    &&& prompt == text::trimmed(operations[at]->AssistantMessage_message)
    &&& dispatches(before, operations.take(at)).len() == 1
    &&& forall|later: int|
        at < later < operations.len() ==> !#[trigger] hears_answer(before, operations, later)
}

proof fn lemma_hears_answer(before: widget::WidgetView, operations: Seq<Operation>, at: int)
    requires
        0 <= at < operations.len() - 1,
    ensures
        hears_answer(before, operations, at) == hears_answer(before, operations.drop_last(), at),
{
    assert(operations.drop_last().take(at) =~= operations.take(at));
}

proof fn lemma_latest_reply_stays(
    before: widget::WidgetView,
    operations: Seq<Operation>,
    at: int,
    prompt: Seq<char>,
)
    requires
        operations.len() > 0,
        is_latest_reply(before, operations.drop_last(), at, prompt),
        !hears_answer(before, operations, operations.len() - 1),
    ensures
        is_latest_reply(before, operations, at, prompt),
{
    let earlier = operations.drop_last();
    assert(earlier.take(at) =~= operations.take(at));
    lemma_hears_answer(before, operations, at);
    assert forall|later: int| at < later < operations.len() implies !#[trigger] hears_answer(
        before,
        operations,
        later,
    ) by {
        if later < operations.len() - 1 {
            lemma_hears_answer(before, operations, later);
        }
    }
}

/// The answer that a widget keeps, if it waits for the end of the turn that gave it.
pub open spec fn kept_reply(phase: state::PhaseView) -> Option<Seq<char>> {
    match phase {
        state::PhaseView::WaitingForPreparationResponse { generated_prompt } => generated_prompt,
        _ => None,
    }
}

proof fn lemma_kept_reply_step(before: widget::WidgetView, operation: Operation)
    requires
        kept_reply(apply(before, operation).0.auto_handoff.phase) is Some,
    ensures
        before.auto_handoff.phase is WaitingForPreparationResponse,
        ({
            let heard = operation is AssistantMessage && before.codex_op_target is Direct && !text::is_blank(
                operation->AssistantMessage_message,
            );
            let kept = kept_reply(apply(before, operation).0.auto_handoff.phase);
            &&& heard ==> kept == Some(text::trimmed(operation->AssistantMessage_message))
            &&& !heard ==> kept == kept_reply(before.auto_handoff.phase)
        }),
{
}

proof fn lemma_kept_reply(
    before: widget::WidgetView,
    operations: Seq<Operation>,
    prompt: Seq<char>,
) -> (at: int)
    requires
        before.auto_handoff == state::StateView::initial(),
        kept_reply(run(before, operations).auto_handoff.phase) == Some(prompt),
    ensures
        is_latest_reply(before, operations, at, prompt),
    decreases operations.len(),
{
    let earlier = operations.drop_last();
    let last = operations.len() - 1;
    assert(operations.take(last) =~= earlier);
    lemma_kept_reply_step(run(before, earlier), operations.last());
    if hears_answer(before, operations, last) {
        lemma_dispatches(before, earlier);
        last
    } else {
        let at = lemma_kept_reply(before, earlier, prompt);
        lemma_latest_reply_stays(before, operations, at, prompt);
        at
    }
}

/// A new session always starts with the last answer, trimmed, that the widget took in after
/// it asked for the hand-off and before the turn ended.
pub proof fn law_new_session_prompt(before: widget::WidgetView, operations: Seq<Operation>)
    requires
        before.auto_handoff == state::StateView::initial(),
    ensures
        run(before, operations).dispatch_pending().1 matches Some(
            widget::DispatchView::NewSessionWithInitialPrompt { text },
        ) ==> exists|at: int| #[trigger] is_latest_reply(before, operations, at, text),
{
    let widget = run(before, operations);
    if widget.dispatch_pending().1 is Some && widget.dispatch_pending().1->0 is
        NewSessionWithInitialPrompt {
        let prompt = widget.dispatch_pending().1->0->NewSessionWithInitialPrompt_text;
        let at = lemma_kept_reply(before, operations, prompt);
        assert(is_latest_reply(before, operations, at, prompt));
    }
}

/// After the hand-off nothing happens any more.
pub proof fn law_complete_is_final(before: widget::WidgetView, operations: Seq<Operation>)
    requires
        before.auto_handoff.phase is Complete,
    ensures
        run(before, operations).auto_handoff == before.auto_handoff,
        dispatches(before, operations).len() == 0,
    decreases operations.len(),
{
    if operations.len() > 0 {
        law_complete_is_final(before, operations.drop_last());
    }
}

/// The count of compactions never falls, and stands still once a hand-off is under way.
pub proof fn law_count(before: widget::WidgetView, operations: Seq<Operation>)
    ensures
        before.auto_handoff.live_compaction_count <= run(
            before,
            operations,
        ).auto_handoff.live_compaction_count,
        !(before.auto_handoff.phase is Idle) ==> before.auto_handoff.live_compaction_count == run(
            before,
            operations,
        ).auto_handoff.live_compaction_count && !(run(
            before,
            operations,
        ).auto_handoff.phase is Idle),
    decreases operations.len(),
{
    if operations.len() > 0 {
        law_count(before, operations.drop_last());
    }
}

} // verus!

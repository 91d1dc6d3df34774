//! What holds of every run of a thread's hand-off.

use crate::app_server::protocol;
use crate::app_server::state;
use crate::counting;
use crate::prompt;
use crate::text;
use vstd::prelude::*;

verus! {

/// Something that a thread's hand-off is told.
pub enum Operation {
    Event {
        event: protocol::EventView,
        threshold: Option<u32>,
        session: prompt::SessionView,
    },
    PreparationSubmitted { turn_id: Seq<char> },
    PreparationSubmissionFailed,
}

impl Operation {
    /// Whether it reports a compaction while hand-offs are switched on.
    pub open spec fn is_counted(self) -> bool {
        self is Event && self->event is Compaction && counting::is_enabled(self->threshold)
    }
}

/// The state after one operation, with the action that it calls for.
pub open spec fn apply(before: state::StateView, operation: Operation) -> (
    state::StateView,
    Option<state::ActionView>,
) {
    match operation {
        Operation::Event { event, threshold, session } => before.record_event(
            event,
            threshold,
            session,
        ),
        Operation::PreparationSubmitted { turn_id } => (
            before.mark_preparation_submitted(turn_id),
            None,
        ),
        Operation::PreparationSubmissionFailed => (
            before.mark_preparation_submission_failed(),
            None,
        ),
    }
}

/// The state after a run of operations.
pub open spec fn run(before: state::StateView, operations: Seq<Operation>) -> state::StateView
    decreases operations.len(),
{
    if operations.len() == 0 {
        before
    } else {
        apply(run(before, operations.drop_last()), operations.last()).0
    }
}

/// The actions that a run of operations calls for, in their order.
pub open spec fn actions(before: state::StateView, operations: Seq<Operation>) -> Seq<
    state::ActionView,
>
    decreases operations.len(),
{
    if operations.len() == 0 {
        Seq::empty()
    } else {
        let earlier = actions(before, operations.drop_last());
        match apply(run(before, operations.drop_last()), operations.last()).1 {
            Some(action) => earlier.push(action),
            None => earlier,
        }
    }
}

/// The number of compactions in a run that are reported while hand-offs are switched on.
pub open spec fn counted_compactions(operations: Seq<Operation>) -> nat
    decreases operations.len(),
{
    if operations.len() == 0 {
        0
    } else {
        counted_compactions(operations.drop_last()) + if operations.last().is_counted() {
            1nat
        } else {
            0nat
        }
    }
}

/// Whether every threshold under which a run's compactions are counted lies above `limit`.
pub open spec fn thresholds_above(operations: Seq<Operation>, limit: nat) -> bool {
    forall|i: int|
        0 <= i < operations.len() && (#[trigger] operations[i]).is_counted()
            ==> operations[i]->threshold->0 > limit
}

/// A run goes on from where an earlier part of it ended.
pub proof fn law_run_in_parts(
    before: state::StateView,
    first: Seq<Operation>,
    second: Seq<Operation>,
)
    ensures
        run(before, first + second) == run(run(before, first), second),
        actions(before, first + second) == actions(before, first) + actions(
            run(before, first),
            second,
        ),
    decreases second.len(),
{
    if second.len() == 0 {
        assert(first + second =~= first);
        assert(actions(before, first) + actions(run(before, first), second) =~= actions(
            before,
            first,
        ));
    } else {
        assert((first + second).drop_last() =~= first + second.drop_last());
        law_run_in_parts(before, first, second.drop_last());
        assert(actions(before, first + second) =~= actions(before, first) + actions(
            run(before, first),
            second,
        ));
    }
}

proof fn lemma_run_push(before: state::StateView, operations: Seq<Operation>, next: Operation)
    ensures
        run(before, operations.push(next)) == apply(run(before, operations), next).0,
        actions(before, operations.push(next)) == match apply(run(before, operations), next).1 {
            Some(action) => actions(before, operations).push(action),
            None => actions(before, operations),
        },
{
    assert(operations.push(next).drop_last() =~= operations);
}

/// Every run keeps the state valid.
pub proof fn law_valid(before: state::StateView, operations: Seq<Operation>)
    requires
        before.valid(),
    ensures
        run(before, operations).valid(),
    decreases operations.len(),
{
    if operations.len() > 0 {
        law_valid(before, operations.drop_last());
    }
}

/// What brings a hand-off forward.
pub enum Milestone {
    /// An action is called for.
    Action(state::ActionView),
    /// The submission of the prompt in this turn is accepted.
    Submission(Seq<char>),
}

/// The milestone that an operation is, if it is one.
pub open spec fn milestone(before: state::StateView, operation: Operation) -> Option<Milestone> {
    match operation {
        Operation::PreparationSubmitted { turn_id } => {
            if before.phase is AwaitingPreparationSubmission {
                Some(Milestone::Submission(turn_id))
            } else {
                None
            }
        },
        _ => match apply(before, operation).1 {
            Some(action) => Some(Milestone::Action(action)),
            None => None,
        },
    }
}

/// The milestones of a run, in their order.
pub open spec fn milestones(before: state::StateView, operations: Seq<Operation>) -> Seq<Milestone>
    decreases operations.len(),
{
    if operations.len() == 0 {
        Seq::empty()
    } else {
        let earlier = milestones(before, operations.drop_last());
        match milestone(run(before, operations.drop_last()), operations.last()) {
            Some(milestone) => earlier.push(milestone),
            None => earlier,
        }
    }
}

/// The actions among milestones.
pub open spec fn called_for(reached: Seq<Milestone>) -> Seq<state::ActionView>
    decreases reached.len(),
{
    if reached.len() == 0 {
        Seq::empty()
    } else {
        let earlier = called_for(reached.drop_last());
        match reached.last() {
            Milestone::Action(action) => earlier.push(action),
            Milestone::Submission(_) => earlier,
        }
    }
}

/// The milestones of a run are its actions with the accepted submissions between them.
pub proof fn law_milestones(before: state::StateView, operations: Seq<Operation>)
    ensures
        called_for(milestones(before, operations)) == actions(before, operations),
    decreases operations.len(),
{
    if operations.len() > 0 {
        let earlier = operations.drop_last();
        law_milestones(before, earlier);
        match milestone(run(before, earlier), operations.last()) {
            Some(reached) => {
                assert(milestones(before, earlier).push(reached).drop_last() =~= milestones(
                    before,
                    earlier,
                ));
            },
            None => {},
        }
    }
}

/// The course of one hand-off, as far as it has come: a prompt is asked for, its submission is
/// accepted, and a replacement is started which names the turn of that submission. Both requests
/// report the same count and the same threshold, the threshold is not zero and the count has
/// reached it, and the replacement's prompt is neither empty nor surrounded by white space.
pub open spec fn one_handoff(reached: Seq<Milestone>) -> bool {
    &&& reached.len() <= 3
    &&& reached.len() >= 1 ==> {
        &&& reached[0] matches Milestone::Action(
            state::ActionView::PreparePrompt { compaction_count, threshold, .. },
        )
        &&& 0 < threshold <= compaction_count
    }
    &&& reached.len() >= 2 ==> reached[1] is Submission
    &&& reached.len() == 3 ==> {
        &&& reached[0] matches Milestone::Action(
            state::ActionView::PreparePrompt {
                compaction_count: prepared_count,
                threshold: prepared_threshold,
                ..
            },
        )
        &&& reached[1] matches Milestone::Submission(turn_id)
        &&& reached[2] matches Milestone::Action(
            state::ActionView::StartReplacement {
                prompt,
                compaction_count,
                threshold,
                preparation_turn_id,
            },
        )
        &&& preparation_turn_id == turn_id
        &&& compaction_count == prepared_count
        &&& threshold == prepared_threshold
        &&& prompt.len() > 0
        &&& text::trimmed(prompt) == prompt
    }
}

/// The milestones that can have been reached when the hand-off is in the given phase.
spec fn explains(reached: Seq<Milestone>, phase: state::PhaseView) -> bool {
    match phase {
        state::PhaseView::Idle | state::PhaseView::WaitingForCompactionTurnComplete { .. } => {
            reached.len() == 0
        },
        state::PhaseView::AwaitingPreparationSubmission { compaction_count, threshold } => {
            &&& reached.len() == 1
            &&& reached[0] matches Milestone::Action(
                state::ActionView::PreparePrompt { compaction_count: c, threshold: t, .. },
            )
            &&& c == compaction_count
            &&& t == threshold
        },
        state::PhaseView::WaitingForPreparationTurnComplete {
            turn_id,
            compaction_count,
            threshold,
        } => {
            &&& reached.len() == 2
            &&& reached[0] matches Milestone::Action(
                state::ActionView::PreparePrompt { compaction_count: c, threshold: t, .. },
            )
            &&& c == compaction_count
            &&& t == threshold
            &&& reached[1] == Milestone::Submission(turn_id)
        },
        state::PhaseView::Complete => true,
    }
}

proof fn lemma_milestones(operations: Seq<Operation>)
    ensures
        explains(
            milestones(state::StateView::initial(), operations),
            run(state::StateView::initial(), operations).phase,
        ),
        one_handoff(milestones(state::StateView::initial(), operations)),
    decreases operations.len(),
{
    let initial = state::StateView::initial();
    if operations.len() > 0 {
        let earlier = operations.drop_last();
        lemma_milestones(earlier);
        law_valid(initial, earlier);
        match operations.last() {
            Operation::Event {
                event: protocol::EventView::TurnComplete { last_agent_message: Some(message), .. },
                ..
            } => {
                text::law_trimmed(message);
                text::law_trimmed_twice(message);
            },
            _ => {},
        }
    }
}

/// Whatever happens to a thread, it goes through at most one hand-off: a prompt is asked for,
/// exactly one submission of it is accepted, and a replacement is started for that submission's
/// turn, in this order and with the same count and threshold.
pub proof fn law_one_handoff(operations: Seq<Operation>)
    ensures
        one_handoff(milestones(state::StateView::initial(), operations)),
{
    lemma_milestones(operations);
}

/// At most one hand-off, by the actions alone: none, or one request to prepare a prompt, or that
/// and then one request to start a replacement with the same count and threshold.
pub open spec fn at_most_one_handoff(requests: Seq<state::ActionView>) -> bool {
    &&& requests.len() <= 2
    &&& requests.len() >= 1 ==> {
        &&& requests[0] matches state::ActionView::PreparePrompt {
            compaction_count,
            threshold,
            ..
        }
        &&& 0 < threshold <= compaction_count
    }
    &&& requests.len() == 2 ==> {
        &&& requests[0] matches state::ActionView::PreparePrompt {
            compaction_count: prepared_count,
            threshold: prepared_threshold,
            ..
        }
        &&& requests[1] matches state::ActionView::StartReplacement {
            prompt,
            compaction_count,
            threshold,
            ..
        }
        &&& compaction_count == prepared_count
        &&& threshold == prepared_threshold
        &&& prompt.len() > 0
        &&& text::trimmed(prompt) == prompt
    }
}

/// A thread hands off at most once, whatever happens to it.
pub proof fn law_at_most_one_handoff(operations: Seq<Operation>)
    ensures
        at_most_one_handoff(actions(state::StateView::initial(), operations)),
{
    let reached = milestones(state::StateView::initial(), operations);
    lemma_milestones(operations);
    law_milestones(state::StateView::initial(), operations);
    reveal_with_fuel(called_for, 4);
    if reached.len() == 3 {
        assert(reached.drop_last()[1] == reached[1]);
        assert(reached.drop_last().drop_last()[0] == reached[0]);
    } else if reached.len() == 2 {
        assert(reached.drop_last()[0] == reached[0]);
    }
}

/// An action always comes from the end of the turn that the hand-off waits for. The request to
/// prepare a prompt carries the prompt for the session at that moment; the replacement's prompt
/// is the agent's last message of that turn, trimmed.
pub proof fn law_action_source(before: state::StateView, operation: Operation)
    ensures
        apply(before, operation).1 matches Some(action) ==> {
            &&& operation matches Operation::Event {
                event: protocol::EventView::TurnComplete { turn_id, last_agent_message },
                session,
                ..
            }
            &&& before.awaits_turn(turn_id)
            &&& match action {
                state::ActionView::PreparePrompt { prompt, compaction_count, threshold } => prompt
                    == prompt::preparation_prompt(threshold, session, compaction_count),
                state::ActionView::StartReplacement { prompt, preparation_turn_id, .. } => {
                    &&& preparation_turn_id == turn_id
                    &&& last_agent_message matches Some(message)
                    &&& prompt == text::trimmed(message)
                },
            }
        },
{
}

/// Without an enabled threshold there is no hand-off: whichever events report one that is not
/// set or is zero, an idle thread stays as it is and nothing is called for.
pub proof fn law_disabled(before: state::StateView, operations: Seq<Operation>)
    requires
        before.phase is Idle,
        forall|i: int|
            0 <= i < operations.len() && (#[trigger] operations[i]) is Event
                ==> !counting::is_enabled(operations[i]->threshold),
    ensures
        run(before, operations) == before,
        actions(before, operations).len() == 0,
    decreases operations.len(),
{
    if operations.len() > 0 {
        let earlier = operations.drop_last();
        assert forall|i: int|
            0 <= i < earlier.len() && (#[trigger] earlier[i]) is Event implies !counting::is_enabled(
            earlier[i]->threshold,
        ) by {
            assert(earlier[i] == operations[i]);
        }
        law_disabled(before, earlier);
        assert(operations.last() == operations[operations.len() - 1]);
    }
}

/// An internal session never hands off, whatever is configured and however that changes.
pub proof fn law_internal_session(
    before: state::StateView,
    operations: Seq<Operation>,
    source: protocol::SessionSource,
    configured: Seq<Option<u32>>,
)
    requires
        before.phase is Idle,
        source is Internal,
        configured.len() == operations.len(),
        forall|i: int|
            0 <= i < operations.len() && (#[trigger] operations[i]) is Event
                ==> operations[i]->threshold == state::session_threshold(configured[i], source),
    ensures
        run(before, operations) == before,
        actions(before, operations).len() == 0,
{
    law_disabled(before, operations);
}

/// Every other session, subagents among them, hands off at the configured threshold.
pub proof fn law_other_sessions(source: protocol::SessionSource, configured: Option<u32>)
    requires
        !(source is Internal),
    ensures
        state::session_threshold(configured, source) == configured,
{
}

/// As long as the compactions stay below every threshold in force, a thread goes on as before
/// and only counts them.
pub proof fn law_below_threshold(operations: Seq<Operation>)
    requires
        thresholds_above(operations, counted_compactions(operations)),
    ensures
        counted_compactions(operations) < u32::MAX,
        run(state::StateView::initial(), operations) == (state::StateView {
            live_compaction_count: counted_compactions(operations) as u32,
            phase: state::PhaseView::Idle,
        }),
        actions(state::StateView::initial(), operations).len() == 0,
    decreases operations.len(),
{
    if operations.len() > 0 {
        let earlier = operations.drop_last();
        assert forall|i: int|
            0 <= i < earlier.len() && (#[trigger] earlier[i]).is_counted() implies earlier[i]->threshold->0
            > counted_compactions(earlier) by {
            assert(earlier[i] == operations[i]);
        }
        law_below_threshold(earlier);
        assert(operations.last() == operations[operations.len() - 1]);
    }
}

/// The compaction that reaches the threshold, and no earlier one, makes the thread wait for the
/// end of the turn in which it happened.
pub proof fn law_at_threshold(
    earlier: Seq<Operation>,
    threshold: u32,
    turn_id: Seq<char>,
    session: prompt::SessionView,
)
    requires
        thresholds_above(earlier, counted_compactions(earlier)),
        0 < threshold <= counted_compactions(earlier) + 1,
    ensures
        ({
            let reached = earlier.push(
                Operation::Event {
                    event: protocol::EventView::Compaction { turn_id },
                    threshold: Some(threshold),
                    session,
                },
            );
            let count = (counted_compactions(earlier) + 1) as u32;
            &&& count == counted_compactions(earlier) + 1
            &&& run(state::StateView::initial(), reached) == (state::StateView {
                live_compaction_count: count,
                phase: state::PhaseView::WaitingForCompactionTurnComplete {
                    turn_id,
                    compaction_count: count,
                    threshold,
                },
            })
            &&& actions(state::StateView::initial(), reached).len() == 0
        }),
{
    law_below_threshold(earlier);
    lemma_run_push(
        state::StateView::initial(),
        earlier,
        Operation::Event {
            event: protocol::EventView::Compaction { turn_id },
            threshold: Some(threshold),
            session,
        },
    );
}

/// After the hand-off nothing happens any more.
pub proof fn law_complete_is_final(before: state::StateView, operations: Seq<Operation>)
    requires
        before.phase is Complete,
    ensures
        run(before, operations) == before,
        actions(before, operations).len() == 0,
    decreases operations.len(),
{
    if operations.len() > 0 {
        law_complete_is_final(before, operations.drop_last());
    }
}

/// A hand-off that waits for one turn ignores the end and the abort of every other, and an abort
/// of no known turn.
pub proof fn law_other_turns(
    before: state::StateView,
    turn_id: Seq<char>,
    last_agent_message: Option<Seq<char>>,
    threshold: Option<u32>,
    session: prompt::SessionView,
)
    requires
        !before.awaits_turn(turn_id),
    ensures
        before.record_event(
            protocol::EventView::TurnComplete { turn_id, last_agent_message },
            threshold,
            session,
        ) == (before, None::<state::ActionView>),
        before.record_event(
            protocol::EventView::TurnAborted { known_turn_id: Some(turn_id) },
            threshold,
            session,
        ) == (before, None::<state::ActionView>),
        before.record_event(
            protocol::EventView::TurnAborted { known_turn_id: None },
            threshold,
            session,
        ) == (before, None::<state::ActionView>),
{
}

/// Whether an operation is what a waiting hand-off waits for: the abort of its turn or its end,
/// which has to bring a message where an answer is expected.
pub open spec fn ends_wait(phase: state::PhaseView, operation: Operation) -> bool {
    match operation {
        Operation::Event {
            event: protocol::EventView::TurnComplete { turn_id: ended, last_agent_message },
            ..
        } => match phase {
            state::PhaseView::WaitingForCompactionTurnComplete { turn_id, .. } => ended == turn_id,
            state::PhaseView::WaitingForPreparationTurnComplete { turn_id, .. } => ended == turn_id
                && last_agent_message is Some,
            _ => false,
        },
        Operation::Event {
            event: protocol::EventView::TurnAborted { known_turn_id: Some(ended) },
            ..
        } => match phase {
            state::PhaseView::WaitingForCompactionTurnComplete { turn_id, .. }
            | state::PhaseView::WaitingForPreparationTurnComplete { turn_id, .. } => ended
                == turn_id,
            _ => false,
        },
        _ => false,
    }
}

/// A hand-off that waits for a turn waits until that turn ends or is aborted: further
/// compactions, other turns and stray reports on a submission change nothing.
pub proof fn law_waiting(before: state::StateView, operations: Seq<Operation>)
    requires
        before.phase is WaitingForCompactionTurnComplete
            || before.phase is WaitingForPreparationTurnComplete,
        forall|i: int|
            0 <= i < operations.len() ==> !ends_wait(before.phase, #[trigger] operations[i]),
    ensures
        run(before, operations) == before,
        actions(before, operations).len() == 0,
    decreases operations.len(),
{
    if operations.len() > 0 {
        let earlier = operations.drop_last();
        assert forall|i: int| 0 <= i < earlier.len() implies !ends_wait(
            before.phase,
            #[trigger] earlier[i],
        ) by {
            assert(earlier[i] == operations[i]);
        }
        law_waiting(before, earlier);
        assert(!ends_wait(before.phase, operations[operations.len() - 1]));
    }
}

/// A hand-off whose prompt is on its way waits until it hears of the submission: no event
/// changes it.
pub proof fn law_awaiting_submission(before: state::StateView, operations: Seq<Operation>)
    requires
        before.phase is AwaitingPreparationSubmission,
        forall|i: int| 0 <= i < operations.len() ==> #[trigger] operations[i] is Event,
    ensures
        run(before, operations) == before,
        actions(before, operations).len() == 0,
    decreases operations.len(),
{
    if operations.len() > 0 {
        let earlier = operations.drop_last();
        assert forall|i: int| 0 <= i < earlier.len() implies #[trigger] earlier[i] is Event by {
            assert(earlier[i] == operations[i]);
        }
        law_awaiting_submission(before, earlier);
        assert(operations[operations.len() - 1] is Event);
    }
}

/// A hand-off that succeeds, with all that happens meanwhile.
pub struct Handoff {
    /// What happens before the threshold is reached.
    pub earlier: Seq<Operation>,
    /// The compaction that reaches the threshold.
    pub compaction_turn: Seq<char>,
    pub threshold: u32,
    /// What happens before its turn ends.
    pub during_compaction_turn: Seq<Operation>,
    /// The agent's last message in that turn, and the session at its end.
    pub compaction_reply: Option<Seq<char>>,
    pub session: prompt::SessionView,
    /// What happens before the prompt has been submitted.
    pub before_submission: Seq<Operation>,
    pub preparation_turn: Seq<char>,
    /// What happens before the turn that answers it ends.
    pub during_preparation_turn: Seq<Operation>,
    pub reply: Seq<char>,
    /// What the other events come with.
    pub compaction_session: prompt::SessionView,
    pub compaction_end_threshold: Option<u32>,
    pub preparation_end_threshold: Option<u32>,
    pub preparation_session: prompt::SessionView,
}

impl Handoff {
    /// The number of compactions that bring it about.
    pub open spec fn count(self) -> u32 {
        (counted_compactions(self.earlier) + 1) as u32
    }

    /// The phase while the turn with the last compaction runs.
    pub open spec fn compaction_phase(self) -> state::PhaseView {
        state::PhaseView::WaitingForCompactionTurnComplete {
            turn_id: self.compaction_turn,
            compaction_count: self.count(),
            threshold: self.threshold,
        }
    }

    /// The phase while the turn with the answer runs.
    pub open spec fn preparation_phase(self) -> state::PhaseView {
        state::PhaseView::WaitingForPreparationTurnComplete {
            turn_id: self.preparation_turn,
            compaction_count: self.count(),
            threshold: self.threshold,
        }
    }

    /// The threshold is reached by the compaction that is said to reach it, the turns end when
    /// they are said to, no submission is reported but the one that takes place, and the answer
    /// is not blank.
    pub open spec fn well_formed(self) -> bool {
        &&& thresholds_above(self.earlier, counted_compactions(self.earlier))
        &&& 0 < self.threshold <= counted_compactions(self.earlier) + 1
        &&& forall|i: int|
            0 <= i < self.during_compaction_turn.len() ==> !ends_wait(
                self.compaction_phase(),
                #[trigger] self.during_compaction_turn[i],
            )
        &&& forall|i: int|
            0 <= i < self.before_submission.len() ==> #[trigger] self.before_submission[i] is Event
        &&& forall|i: int|
            0 <= i < self.during_preparation_turn.len() ==> !ends_wait(
                self.preparation_phase(),
                #[trigger] self.during_preparation_turn[i],
            )
        &&& !text::is_blank(self.reply)
    }

    /// The compaction that reaches the threshold.
    pub open spec fn last_compaction(self) -> Operation {
        Operation::Event {
            event: protocol::EventView::Compaction { turn_id: self.compaction_turn },
            threshold: Some(self.threshold),
            session: self.compaction_session,
        }
    }

    /// The end of its turn.
    pub open spec fn compaction_turn_end(self) -> Operation {
        Operation::Event {
            event: protocol::EventView::TurnComplete {
                turn_id: self.compaction_turn,
                last_agent_message: self.compaction_reply,
            },
            threshold: self.compaction_end_threshold,
            session: self.session,
        }
    }

    /// The end of the turn that answers the prompt.
    pub open spec fn preparation_turn_end(self) -> Operation {
        Operation::Event {
            event: protocol::EventView::TurnComplete {
                turn_id: self.preparation_turn,
                last_agent_message: Some(self.reply),
            },
            threshold: self.preparation_end_threshold,
            session: self.preparation_session,
        }
    }

    /// All of it, in its order.
    pub open spec fn operations(self) -> Seq<Operation> {
        (((self.earlier.push(self.last_compaction()) + self.during_compaction_turn).push(
            self.compaction_turn_end(),
        ) + self.before_submission).push(
            Operation::PreparationSubmitted { turn_id: self.preparation_turn },
        ) + self.during_preparation_turn).push(self.preparation_turn_end())
    }
}

/// Once the threshold is reached the thread is asked for a hand-off prompt, and what it answers
/// becomes the first input of a replacement thread.
pub proof fn law_successful_handoff(handoff: Handoff)
    requires
        handoff.well_formed(),
    ensures
        run(state::StateView::initial(), handoff.operations()).phase is Complete,
        actions(state::StateView::initial(), handoff.operations()) == seq![
            state::ActionView::PreparePrompt {
                prompt: prompt::preparation_prompt(
                    handoff.threshold,
                    handoff.session,
                    handoff.count(),
                ),
                compaction_count: handoff.count(),
                threshold: handoff.threshold,
            },
            state::ActionView::StartReplacement {
                prompt: text::trimmed(handoff.reply),
                compaction_count: handoff.count(),
                threshold: handoff.threshold,
                preparation_turn_id: handoff.preparation_turn,
            },
        ],
{
    let initial = state::StateView::initial();
    let reached = handoff.earlier.push(handoff.last_compaction());
    law_at_threshold(
        handoff.earlier,
        handoff.threshold,
        handoff.compaction_turn,
        handoff.compaction_session,
    );
    law_run_in_parts(initial, reached, handoff.during_compaction_turn);
    law_waiting(run(initial, reached), handoff.during_compaction_turn);
    let waited = reached + handoff.during_compaction_turn;
    assert(actions(initial, waited) =~= Seq::empty());
    lemma_run_push(initial, waited, handoff.compaction_turn_end());
    let asked = waited.push(handoff.compaction_turn_end());
    law_run_in_parts(initial, asked, handoff.before_submission);
    law_awaiting_submission(run(initial, asked), handoff.before_submission);
    let submitting = asked + handoff.before_submission;
    assert(actions(initial, submitting) =~= actions(initial, asked));
    let submission = Operation::PreparationSubmitted { turn_id: handoff.preparation_turn };
    lemma_run_push(initial, submitting, submission);
    let submitted = submitting.push(submission);
    law_run_in_parts(initial, submitted, handoff.during_preparation_turn);
    law_waiting(run(initial, submitted), handoff.during_preparation_turn);
    let answering = submitted + handoff.during_preparation_turn;
    assert(actions(initial, answering) =~= actions(initial, asked));
    lemma_run_push(initial, answering, handoff.preparation_turn_end());
}

/// The abort of the turn that a hand-off waits for gives it up for good.
pub proof fn law_abort(
    before: state::StateView,
    turn_id: Seq<char>,
    threshold: Option<u32>,
    session: prompt::SessionView,
    later: Seq<Operation>,
)
    requires
        before.awaits_turn(turn_id),
    ensures
        ({
            let aborted = before.record_event(
                protocol::EventView::TurnAborted { known_turn_id: Some(turn_id) },
                threshold,
                session,
            );
            &&& aborted.1 is None
            &&& run(aborted.0, later).phase is Complete
            &&& actions(aborted.0, later).len() == 0
        }),
{
    law_complete_is_final(before.on_turn_aborted(turn_id), later);
}

/// A prompt that could not be submitted gives the hand-off up for good.
pub proof fn law_submission_failed(before: state::StateView, later: Seq<Operation>)
    requires
        before.phase is AwaitingPreparationSubmission,
    ensures
        run(before.mark_preparation_submission_failed(), later).phase is Complete,
        actions(before.mark_preparation_submission_failed(), later).len() == 0,
{
    law_complete_is_final(before.mark_preparation_submission_failed(), later);
}

/// A blank answer gives the hand-off up for good; a turn that ends without any answer leaves it
/// waiting.
pub proof fn law_reply_without_prompt(
    before: state::StateView,
    turn_id: Seq<char>,
    reply: Seq<char>,
    session: prompt::SessionView,
    later: Seq<Operation>,
)
    requires
        before.phase is WaitingForPreparationTurnComplete,
        before.awaits_turn(turn_id),
        text::is_blank(reply),
    ensures
        before.on_turn_complete(turn_id, Some(reply), session).1 is None,
        run(before.on_turn_complete(turn_id, Some(reply), session).0, later).phase is Complete,
        actions(before.on_turn_complete(turn_id, Some(reply), session).0, later).len() == 0,
        before.on_turn_complete(turn_id, None, session) == (before, None::<state::ActionView>),
{
    law_complete_is_final(before.on_turn_complete(turn_id, Some(reply), session).0, later);
}

/// The count of compactions never falls, and stands still once a hand-off is under way.
pub proof fn law_count(before: state::StateView, operations: Seq<Operation>)
    ensures
        before.live_compaction_count <= run(before, operations).live_compaction_count,
        !(before.phase is Idle) ==> before.live_compaction_count == run(
            before,
            operations,
        ).live_compaction_count && !(run(before, operations).phase is Idle),
    decreases operations.len(),
{
    if operations.len() > 0 {
        law_count(before, operations.drop_last());
    }
}

} // verus!

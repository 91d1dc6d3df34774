//! What the hand-off reads of the server's protocol: events and the source of a session.

use crate::text;
use vstd::prelude::*;

verus! {

/// An item that a turn completes.
#[derive(Clone, Debug, PartialEq, Eq)]
pub enum TurnItem {
    /// The context was compacted.
    ContextCompaction,
    /// Any other kind of item.
    Other,
}

#[derive(Clone, Debug, PartialEq, Eq)]
pub struct ItemCompletedEvent {
    pub turn_id: String,
    pub item: TurnItem,
}

#[derive(Clone, Debug, PartialEq, Eq)]
pub struct TurnCompleteEvent {
    pub turn_id: String,
    pub last_agent_message: Option<String>,
}

#[derive(Clone, Debug, PartialEq, Eq)]
pub struct TurnAbortedEvent {
    pub turn_id: Option<String>,
}

/// An event of a live thread.
#[derive(Clone, Debug, PartialEq, Eq)]
pub enum EventMsg {
    ItemCompleted(ItemCompletedEvent),
    TurnComplete(TurnCompleteEvent),
    TurnAborted(TurnAbortedEvent),
    /// Any other kind of event.
    Other,
}

/// The contents of an [`EventMsg`].
pub enum EventView {
    /// The context was compacted during the turn.
    Compaction { turn_id: Seq<char> },
    /// The turn completed an item of another kind.
    OtherItem { turn_id: Seq<char> },
    /// The turn ended, with the agent's last message if there was one.
    TurnComplete { turn_id: Seq<char>, last_agent_message: Option<Seq<char>> },
    /// A turn was aborted; which one is not always known.
    TurnAborted { known_turn_id: Option<Seq<char>> },
    /// Any other kind of event.
    Other,
}

impl View for EventMsg {
    type V = EventView;

    open spec fn view(&self) -> EventView {
        match *self {
            EventMsg::ItemCompleted(completed) => match completed.item {
                TurnItem::ContextCompaction => EventView::Compaction {
                    turn_id: completed.turn_id@,
                },
                TurnItem::Other => EventView::OtherItem { turn_id: completed.turn_id@ },
            },
            EventMsg::TurnComplete(completed) => EventView::TurnComplete {
                turn_id: completed.turn_id@,
                last_agent_message: text::optional_string(completed.last_agent_message),
            },
            EventMsg::TurnAborted(aborted) => EventView::TurnAborted {
                known_turn_id: text::optional_string(aborted.turn_id),
            },
            EventMsg::Other => EventView::Other,
        }
    }
}

/// What started a subagent.
#[derive(Clone, Debug, PartialEq, Eq)]
pub enum SubAgentSource {
    /// A thread spawned it.
    ThreadSpawn {
        parent_thread_id: String,
        depth: i32,
        agent_path: Option<String>,
        agent_nickname: Option<String>,
        agent_role: Option<String>,
    },
    /// Anything else.
    Other,
}

/// What started a session.
#[derive(Clone, Debug, PartialEq, Eq)]
pub enum SessionSource {
    /// A client of the MCP server.
    Mcp,
    /// Another session, as a subagent.
    SubAgent(SubAgentSource),
    /// The program itself, for its own purposes.
    Internal,
    /// Any other client.
    Other,
}

impl SessionSource {
    /// Whether the program runs the session for its own purposes.
    pub fn is_internal(&self) -> (internal: bool)
        ensures
            internal == (*self is Internal),
    {
        matches!(self, SessionSource::Internal)
    }
}

} // verus!

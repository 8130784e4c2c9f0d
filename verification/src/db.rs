//! The protocol between the store's decisions and the database that the caller
//! drives: the store asks for one action at a time and is handed the reply.

use vstd::prelude::*;
use crate::error::{DbError, StoreResult};
use crate::model::{ConversationRow, Item, ItemOrder};

verus! {

/// One database action requested by the store. Actions between `Begin` and
/// `Commit` run in one transaction; an error ends the operation and the
/// caller rolls the transaction back.
#[allow(inconsistent_fields)]
#[derive(Debug)]
pub enum DbAction {
    /// Open a transaction. Answered by `Done`.
    Begin,
    /// Commit the transaction. Answered by `Done`.
    Commit,
    /// Insert a conversation row. Answered by `Row` with the inserted row.
    InsertConversation { id: String, tenant_id: Option<String>, metadata: Option<String> },
    /// Append items, given as (item id, JSON text), at the next sequence
    /// numbers of the conversation. Answered by `Items` with the inserted rows.
    InsertItems { conversation_id: String, items: Vec<(String, String)> },
    /// Advance the conversation's revision by one. Answered by `Done`.
    BumpRevision { conversation_id: String },
    /// Lock the conversation row for the transaction. Answered by `Row`, or by
    /// `Failed(RowNotFound)` when there is no such conversation.
    LockConversation { conversation_id: String },
    /// Unlink from the conversation all its items, or only `item_id`, clearing
    /// their conversation and sequence but keeping the rows. Answered by
    /// `Affected` with the number of items unlinked.
    DetachItems { conversation_id: String, item_id: Option<String> },
    /// Delete the conversation row. Answered by `Done`.
    DeleteConversation { conversation_id: String },
    /// Look up a conversation of the tenant. Answered by `MaybeRow`.
    FindConversation { tenant_id: String, conversation_id: String },
    /// Replace the metadata of a conversation of the tenant. Answered by `Row`,
    /// or by `Failed(RowNotFound)` when the tenant has no such conversation.
    UpdateMetadata { tenant_id: String, conversation_id: String, metadata: String },
    /// Look up an item of a conversation of the tenant. Answered by `MaybeItem`.
    FindItem { tenant_id: String, conversation_id: String, item_id: String },
    /// List at most `limit` items of a conversation of the tenant in `order` of
    /// sequence, only those after `after_sequence` in that order when it is
    /// given. Answered by `Items`.
    ListItems {
        tenant_id: String,
        conversation_id: String,
        limit: i64,
        after_sequence: Option<i64>,
        order: ItemOrder,
    },
}

/// The database's reply to the last action.
#[derive(Debug)]
pub enum DbEvent {
    Done,
    Row(ConversationRow),
    MaybeRow(Option<ConversationRow>),
    Items(Vec<Item>),
    MaybeItem(Option<Item>),
    Affected(u64),
    Failed(DbError),
}

/// Where an operation stands after a reply: it asks for another action, or it
/// is finished with its result.
pub enum Step<S, T> {
    Next(S, DbAction),
    Finished(StoreResult<T>),
}

/// A store operation, driven one reply at a time.
pub trait StoreMachine: Sized {
    type Output;

    /// The step taken on a reply.
    spec fn transition(self, event: DbEvent) -> Step<Self, Self::Output>;

    /// Takes the step for the reply to the last requested action.
    fn step(self, event: DbEvent) -> (r: Step<Self, Self::Output>)
        ensures
            r == self.transition(event),
    ;
}

/// The actions requested, and the result if the operation finished, when the
/// machine `m` is handed the replies `events` in order.
pub open spec fn run<M: StoreMachine>(m: M, events: Seq<DbEvent>) -> (
    Seq<DbAction>,
    Option<StoreResult<M::Output>>,
)
    decreases events.len(),
{
    if events.len() == 0 {
        (Seq::empty(), None)
    } else {
        match m.transition(events[0]) {
            Step::Next(next, action) => {
                let rest = run(next, events.drop_first());
                (seq![action] + rest.0, rest.1)
            },
            Step::Finished(result) => (Seq::empty(), Some(result)),
        }
    }
}

/// The actions requested and the result, starting from the first step of an
/// operation and handing it `events` in order.
pub open spec fn run_from<M: StoreMachine>(start: Step<M, M::Output>, events: Seq<DbEvent>) -> (
    Seq<DbAction>,
    Option<StoreResult<M::Output>>,
) {
    match start {
        Step::Next(m, action) => {
            let rest = run(m, events);
            (seq![action] + rest.0, rest.1)
        },
        Step::Finished(result) => (Seq::empty(), Some(result)),
    }
}

} // verus!

//! Laws of the store's operations, over every sequence of database replies.

use vstd::prelude::*;
use crate::db::{DbAction, DbEvent, Step, run, run_from};
use crate::error::{Resource, StorageError};
use crate::error::DbError;
use crate::model::ConversationRow;
use crate::store::{Retrieve, RetrieveItem, UpdateMetadata};
use crate::http::{stored_item, wire_item};
use crate::model::{ConversationData, ConversationItem, InOutItem, Item, ItemOrder};
use crate::store::{CreateConversation, CreateItems, Delete, DeleteItem, ListItems, owned_by};

verus! {

/// The answered data is the row's: its id, creation time and metadata.
pub open spec fn answers_row(data: ConversationData, row: ConversationRow) -> bool {
    &&& data.conversation_id == row.id
    &&& data.created_at == row.created_at
    &&& data.metadata == row.metadata
}

/// The replies under which creating a conversation succeeds: the transaction
/// opens, the row is inserted, the items are inserted and the revision bumped
/// when there are initial items, and the transaction commits.
pub open spec fn create_conversation_replies_ok(has_items: bool, events: Seq<DbEvent>) -> bool {
    &&& events.len() >= 3
    &&& events[0] is Done
    &&& events[1] is Row
    &&& if has_items {
        &&& events.len() >= 5
        &&& events[2] is Items
        &&& events[3] is Done
        &&& events[4] is Done
    } else {
        events[2] is Done
    }
}

/// Creating a conversation succeeds exactly on the replies above and then
/// returns the inserted row's data. Within one transaction it inserts the row
/// as given, then, only if there are initial items, inserts them and bumps the
/// revision, and commits.
pub proof fn create_conversation_outcome(
    id: String,
    tenant_id: Option<String>,
    metadata: Option<String>,
    items: Vec<(String, String)>,
    events: Seq<DbEvent>,
)
    ensures
        ({
            let (actions, outcome) = run_from(
                Step::Next(CreateConversation::Beginning { id, tenant_id, metadata, items }, DbAction::Begin),
                events,
            );
            let has_items = items.len() > 0;
            &&& (events.len() >= 1 && events[0] is Failed) ==> actions == seq![DbAction::Begin] && outcome == Some(
                Err::<ConversationData, StorageError>(StorageError::Database(events[0]->Failed_0)),
            )
            &&& (outcome matches Some(Ok(_))) <==> create_conversation_replies_ok(has_items, events)
            &&& create_conversation_replies_ok(has_items, events) ==> {
                &&& outcome matches Some(Ok(data)) && answers_row(data, events[1]->Row_0)
                &&& actions == seq![DbAction::Begin, DbAction::InsertConversation { id, tenant_id, metadata }] + (if has_items {
                    seq![
                        DbAction::InsertItems { conversation_id: id, items },
                        DbAction::BumpRevision { conversation_id: id },
                    ]
                } else {
                    Seq::empty()
                }) + seq![DbAction::Commit]
            }
        }),
{
    reveal_with_fuel(run, 6);
}

/// The replies under which deleting a conversation succeeds: the transaction
/// opens, the locked conversation belongs to the tenant, its items are
/// unlinked, the row is deleted, and the transaction commits.
pub open spec fn delete_replies_ok(tenant_id: Seq<char>, events: Seq<DbEvent>) -> bool {
    &&& events.len() >= 5
    &&& events[0] is Done
    &&& events[1] matches DbEvent::Row(row) && owned_by(row, tenant_id)
    &&& events[2] is Affected
    &&& events[3] is Done
    &&& events[4] is Done
}

/// The only actions a conversation deletion ever asks for, in this order.
pub open spec fn delete_script(conversation_id: String) -> Seq<DbAction> {
    seq![
        DbAction::Begin,
        DbAction::LockConversation { conversation_id },
        DbAction::DetachItems { conversation_id, item_id: None },
        DbAction::DeleteConversation { conversation_id },
        DbAction::Commit,
    ]
}

/// Deleting a conversation succeeds exactly on the replies above. Whatever the
/// replies, it asks only for a prefix of: open a transaction, lock the
/// conversation, unlink all its items (which keeps them), delete the
/// conversation row, commit. Nothing past
/// the lock is asked unless the conversation belongs to the tenant, and a
/// conversation of another tenant is answered as not found.
pub proof fn delete_outcome(tenant_id: String, conversation_id: String, events: Seq<DbEvent>)
    ensures
        ({
            let (actions, outcome) = run_from(
                Step::Next(Delete::Beginning { tenant_id, conversation_id }, DbAction::Begin),
                events,
            );
            &&& (events.len() >= 1 && events[0] is Failed) ==> actions == seq![DbAction::Begin] && outcome == Some(
                Err::<(), StorageError>(StorageError::Database(events[0]->Failed_0)),
            )
            &&& (events.len() >= 2 && events[0] is Done && events[1] is Failed && events[1]->Failed_0 is Other)
                ==> actions == seq![DbAction::Begin, DbAction::LockConversation { conversation_id }] && outcome == Some(
                Err::<(), StorageError>(StorageError::Database(events[1]->Failed_0)),
            )
            &&& (outcome matches Some(Ok(_))) <==> delete_replies_ok(tenant_id@, events)
            &&& delete_replies_ok(tenant_id@, events) ==> actions == delete_script(conversation_id)
            &&& actions.len() <= 5
            &&& actions == delete_script(conversation_id).take(actions.len() as int)
            &&& actions.len() > 2 ==> (events[1] matches DbEvent::Row(row) && owned_by(row, tenant_id@))
            &&& (events.len() >= 2 && events[0] is Done && (events[1] matches DbEvent::Row(row) && !owned_by(row, tenant_id@)))
                ==> outcome == Some(Err::<(), StorageError>(StorageError::NotFound { resource: Resource::Conversation, id: conversation_id }))
            &&& (events.len() >= 2 && events[0] is Done && events[1] == DbEvent::Failed(DbError::RowNotFound)) ==> {
                &&& outcome == Some(Err::<(), StorageError>(StorageError::NotFound { resource: Resource::Conversation, id: conversation_id }))
                &&& actions == seq![DbAction::Begin, DbAction::LockConversation { conversation_id }]
            }
        }),
{
    reveal_with_fuel(run, 6);
    let (actions, outcome) = run_from(
        Step::Next(Delete::Beginning { tenant_id, conversation_id }, DbAction::Begin),
        events,
    );
    assert(actions == delete_script(conversation_id).take(actions.len() as int));
}

/// The replies under which appending items succeeds: the transaction opens,
/// the locked conversation belongs to the tenant, the items are inserted, the
/// revision is bumped when rows were inserted, and the transaction commits.
pub open spec fn create_items_replies_ok(tenant_id: Seq<char>, events: Seq<DbEvent>) -> bool {
    &&& events.len() >= 4
    &&& events[0] is Done
    &&& events[1] matches DbEvent::Row(row) && owned_by(row, tenant_id)
    &&& events[2] matches DbEvent::Items(rows) && (rows.len() > 0 ==> events.len() >= 5 && events[4] is Done)
    &&& events[3] is Done
}

/// Appending items succeeds exactly on the replies above; it then returns the
/// inserted rows, having opened a transaction, locked the conversation,
/// inserted the items as given,
/// bumped the revision only if rows were inserted, and committed.
/// Nothing is written unless the locked conversation belongs to the tenant,
/// and a conversation of another tenant is answered as not found.
pub proof fn create_items_outcome(
    tenant_id: String,
    conversation_id: String,
    items: Vec<(String, String)>,
    events: Seq<DbEvent>,
)
    ensures
        ({
            let (actions, outcome) = run_from(
                Step::Next(CreateItems::Beginning { tenant_id, conversation_id, items }, DbAction::Begin),
                events,
            );
            &&& (events.len() >= 1 && events[0] is Failed) ==> actions == seq![DbAction::Begin] && outcome == Some(
                Err::<Vec<Item>, StorageError>(StorageError::Database(events[0]->Failed_0)),
            )
            &&& (events.len() >= 2 && events[0] is Done && events[1] is Failed && events[1]->Failed_0 is Other)
                ==> actions == seq![DbAction::Begin, DbAction::LockConversation { conversation_id }] && outcome == Some(
                Err::<Vec<Item>, StorageError>(StorageError::Database(events[1]->Failed_0)),
            )
            &&& (outcome matches Some(Ok(_))) <==> create_items_replies_ok(tenant_id@, events)
            &&& create_items_replies_ok(tenant_id@, events) ==> {
                let rows = events[2]->Items_0;
                &&& outcome == Some(Ok::<Vec<Item>, StorageError>(rows))
                &&& actions == seq![
                    DbAction::Begin,
                    DbAction::LockConversation { conversation_id },
                    DbAction::InsertItems { conversation_id, items },
                ] + (if rows.len() > 0 {
                    seq![DbAction::BumpRevision { conversation_id }]
                } else {
                    Seq::empty()
                }) + seq![DbAction::Commit]
            }
            &&& actions.len() > 2 ==> (events[1] matches DbEvent::Row(row) && owned_by(row, tenant_id@))
            &&& (events.len() >= 2 && events[0] is Done && (events[1] matches DbEvent::Row(row) && !owned_by(row, tenant_id@)))
                ==> actions == seq![DbAction::Begin, DbAction::LockConversation { conversation_id }] && outcome == Some(
                Err::<Vec<Item>, StorageError>(StorageError::NotFound { resource: Resource::Conversation, id: conversation_id }),
            )
            &&& (events.len() >= 2 && events[0] is Done && events[1] == DbEvent::Failed(DbError::RowNotFound))
                ==> actions == seq![DbAction::Begin, DbAction::LockConversation { conversation_id }] && outcome == Some(
                Err::<Vec<Item>, StorageError>(StorageError::NotFound { resource: Resource::Conversation, id: conversation_id }),
            )
        }),
{
    reveal_with_fuel(run, 6);
}

/// Listing items after a cursor: the conversation of the tenant exists, the
/// cursor is an item of that conversation with a sequence number, and the page
/// is listed. Without a cursor the page is listed right after the conversation
/// is found.
pub open spec fn list_items_replies_ok(has_cursor: bool, events: Seq<DbEvent>) -> bool {
    &&& events.len() >= 1
    &&& events[0] matches DbEvent::MaybeRow(Some(_))
    &&& if has_cursor {
        &&& events.len() >= 3
        &&& events[1] matches DbEvent::MaybeItem(Some(item)) && item.seq is Some
        &&& events[2] is Items
    } else {
        &&& events.len() >= 2
        &&& events[1] is Items
    }
}

/// Listing succeeds exactly on the replies above and returns the listed page.
/// The page is asked for within the tenant's conversation, in the requested
/// order and limit, after the sequence number of the cursor item found in that
/// same conversation (not after its id). A missing conversation, a cursor that
/// is not an item of the conversation, and a cursor item without a sequence
/// number are each refused with their own error.
pub proof fn list_items_outcome(
    tenant_id: String,
    conversation_id: String,
    limit: i64,
    after: Option<String>,
    order: ItemOrder,
    events: Seq<DbEvent>,
)
    ensures
        ({
            let (actions, outcome) = run_from(
                Step::Next(
                    ListItems::FindingConversation { tenant_id, conversation_id, limit, after, order },
                    DbAction::FindConversation { tenant_id, conversation_id },
                ),
                events,
            );
            &&& (events.len() >= 1 && events[0] is Failed) ==> outcome == Some(
                Err::<Vec<Item>, StorageError>(StorageError::Database(events[0]->Failed_0)),
            )
            &&& (outcome matches Some(Ok(_))) <==> list_items_replies_ok(after is Some, events)
            &&& (list_items_replies_ok(after is Some, events) && after is None) ==> {
                &&& outcome == Some(Ok::<Vec<Item>, StorageError>(events[1]->Items_0))
                &&& actions == seq![
                    DbAction::FindConversation { tenant_id, conversation_id },
                    DbAction::ListItems { tenant_id, conversation_id, limit, after_sequence: None, order },
                ]
            }
            &&& (list_items_replies_ok(after is Some, events) && after is Some) ==> {
                let seq = events[1]->MaybeItem_0->Some_0.seq;
                &&& outcome == Some(Ok::<Vec<Item>, StorageError>(events[2]->Items_0))
                &&& actions == seq![
                    DbAction::FindConversation { tenant_id, conversation_id },
                    DbAction::FindItem { tenant_id, conversation_id, item_id: after->Some_0 },
                    DbAction::ListItems { tenant_id, conversation_id, limit, after_sequence: seq, order },
                ]
            }
            &&& (events.len() >= 1 && events[0] == DbEvent::MaybeRow(None)) ==> outcome == Some(
                Err::<Vec<Item>, StorageError>(StorageError::NotFound { resource: Resource::Conversation, id: conversation_id }),
            )
            &&& (events.len() >= 2 && events[0] is MaybeRow && events[0]->MaybeRow_0 is Some && after is Some
                && events[1] == DbEvent::MaybeItem(None)) ==> outcome == Some(
                Err::<Vec<Item>, StorageError>(StorageError::NotFound { resource: Resource::ConversationItem, id: after->Some_0 }),
            )
            &&& (events.len() >= 2 && events[0] is MaybeRow && events[0]->MaybeRow_0 is Some && after is Some
                && events[1] is MaybeItem && events[1]->MaybeItem_0 is Some && events[1]->MaybeItem_0->Some_0.seq is None)
                ==> outcome == Some(
                Err::<Vec<Item>, StorageError>(
                    StorageError::InvalidConversationSequence { conversation_id, item_id: after->Some_0 },
                ),
            )
        }),
{
    reveal_with_fuel(run, 4);
}

/// The replies under which unlinking an item succeeds: the transaction opens,
/// the locked conversation belongs to the tenant, one or more items are
/// unlinked, the revision is bumped, and the transaction commits.
pub open spec fn delete_item_replies_ok(tenant_id: Seq<char>, events: Seq<DbEvent>) -> bool {
    &&& events.len() >= 5
    &&& events[0] is Done
    &&& events[1] matches DbEvent::Row(row) && owned_by(row, tenant_id)
    &&& events[2] matches DbEvent::Affected(n) && n > 0
    &&& events[3] is Done
    &&& events[4] is Done
}

/// Unlinking an item succeeds exactly on the replies above and returns the
/// locked conversation's data, having unlinked only that item of that
/// conversation and advanced the revision. When no item was unlinked it
/// reports the item as not found and asks for nothing more (no bump, no
/// commit). Nothing past the lock is asked unless the conversation belongs to
/// the tenant.
pub proof fn delete_item_outcome(tenant_id: String, conversation_id: String, item_id: String, events: Seq<DbEvent>)
    ensures
        ({
            let (actions, outcome) = run_from(
                Step::Next(DeleteItem::Beginning { tenant_id, conversation_id, item_id }, DbAction::Begin),
                events,
            );
            &&& (events.len() >= 1 && events[0] is Failed) ==> actions == seq![DbAction::Begin] && outcome == Some(
                Err::<ConversationData, StorageError>(StorageError::Database(events[0]->Failed_0)),
            )
            &&& (events.len() >= 2 && events[0] is Done && events[1] is Failed && events[1]->Failed_0 is Other)
                ==> actions == seq![DbAction::Begin, DbAction::LockConversation { conversation_id }] && outcome == Some(
                Err::<ConversationData, StorageError>(StorageError::Database(events[1]->Failed_0)),
            )
            &&& (outcome matches Some(Ok(_))) <==> delete_item_replies_ok(tenant_id@, events)
            &&& delete_item_replies_ok(tenant_id@, events) ==> {
                &&& outcome matches Some(Ok(data)) && answers_row(data, events[1]->Row_0)
                &&& actions == seq![
                    DbAction::Begin,
                    DbAction::LockConversation { conversation_id },
                    DbAction::DetachItems { conversation_id, item_id: Some(item_id) },
                    DbAction::BumpRevision { conversation_id },
                    DbAction::Commit,
                ]
            }
            &&& actions.len() > 2 ==> (events[1] matches DbEvent::Row(row) && owned_by(row, tenant_id@))
            &&& (events.len() >= 2 && events[0] is Done && (events[1] matches DbEvent::Row(row) && !owned_by(row, tenant_id@)))
                ==> outcome == Some(
                Err::<ConversationData, StorageError>(StorageError::NotFound { resource: Resource::Conversation, id: conversation_id }),
            )
            &&& (events.len() >= 2 && events[0] is Done && events[1] == DbEvent::Failed(DbError::RowNotFound)) ==> {
                &&& outcome == Some(
                    Err::<ConversationData, StorageError>(StorageError::NotFound { resource: Resource::Conversation, id: conversation_id }),
                )
                &&& actions == seq![DbAction::Begin, DbAction::LockConversation { conversation_id }]
            }
            &&& (events.len() >= 3 && events[0] is Done && (events[1] matches DbEvent::Row(row) && owned_by(row, tenant_id@))
                && events[2] == DbEvent::Affected(0)) ==> {
                &&& outcome == Some(Err::<ConversationData, StorageError>(StorageError::NotFound { resource: Resource::ConversationItem, id: item_id }))
                &&& actions == seq![
                    DbAction::Begin,
                    DbAction::LockConversation { conversation_id },
                    DbAction::DetachItems { conversation_id, item_id: Some(item_id) },
                ]
            }
        }),
{
    reveal_with_fuel(run, 6);
}

/// Storing a wire item and answering it back gives the same item: the kind
/// and the text are kept both ways.
pub proof fn item_kind_roundtrip(wire: ConversationItem, stored: InOutItem)
    ensures
        wire_item(stored_item(wire)) == wire,
        stored_item(wire_item(stored)) == stored,
{
}

/// Looking up a conversation asks only for the tenant's conversation by id.
/// A found row is answered with its id, creation time and metadata; no row is
/// answered as the conversation not being found; a database failure is
/// answered as that failure.
pub proof fn retrieve_outcome(tenant_id: String, conversation_id: String, events: Seq<DbEvent>)
    ensures
        ({
            let (actions, outcome) = run_from(
                Step::Next(
                    Retrieve::Finding { conversation_id },
                    DbAction::FindConversation { tenant_id, conversation_id },
                ),
                events,
            );
            &&& actions == seq![DbAction::FindConversation { tenant_id, conversation_id }]
            &&& events.len() == 0 <==> outcome is None
            &&& (outcome matches Some(Ok(_))) <==> (events.len() >= 1 && events[0] matches DbEvent::MaybeRow(Some(_)))
            &&& (events.len() >= 1 && events[0] is MaybeRow && events[0]->MaybeRow_0 is Some) ==> (outcome matches Some(
                Ok(data),
            ) && answers_row(data, events[0]->MaybeRow_0->Some_0))
            &&& (events.len() >= 1 && events[0] == DbEvent::MaybeRow(None)) ==> outcome == Some(
                Err::<ConversationData, StorageError>(StorageError::NotFound { resource: Resource::Conversation, id: conversation_id }),
            )
            &&& (events.len() >= 1 && events[0] is Failed) ==> outcome == Some(
                Err::<ConversationData, StorageError>(StorageError::Database(events[0]->Failed_0)),
            )
        }),
{
    reveal_with_fuel(run, 2);
}

/// Looking up an item asks only for that item of the tenant's conversation.
/// A found item row is answered as it is; no row is answered as the requested
/// item not being found; a database failure is answered as that failure.
pub proof fn retrieve_item_outcome(tenant_id: String, conversation_id: String, item_id: String, events: Seq<DbEvent>)
    ensures
        ({
            let (actions, outcome) = run_from(
                Step::Next(RetrieveItem::Finding { item_id }, DbAction::FindItem { tenant_id, conversation_id, item_id }),
                events,
            );
            &&& actions == seq![DbAction::FindItem { tenant_id, conversation_id, item_id }]
            &&& events.len() == 0 <==> outcome is None
            &&& (outcome matches Some(Ok(_))) <==> (events.len() >= 1 && events[0] matches DbEvent::MaybeItem(Some(_)))
            &&& (events.len() >= 1 && events[0] is MaybeItem && events[0]->MaybeItem_0 is Some) ==> outcome == Some(
                Ok::<Item, StorageError>(events[0]->MaybeItem_0->Some_0),
            )
            &&& (events.len() >= 1 && events[0] == DbEvent::MaybeItem(None)) ==> outcome == Some(
                Err::<Item, StorageError>(StorageError::NotFound { resource: Resource::ConversationItem, id: item_id }),
            )
            &&& (events.len() >= 1 && events[0] is Failed) ==> outcome == Some(
                Err::<Item, StorageError>(StorageError::Database(events[0]->Failed_0)),
            )
        }),
{
    reveal_with_fuel(run, 2);
}

/// Replacing metadata asks only for the update of the tenant's conversation
/// with the given text. The updated row is answered with its id, creation time
/// and metadata; a missing row is answered as the conversation not being found;
/// any other database failure is answered as that failure.
pub proof fn update_metadata_outcome(tenant_id: String, conversation_id: String, metadata: String, events: Seq<DbEvent>)
    ensures
        ({
            let (actions, outcome) = run_from(
                Step::Next(
                    UpdateMetadata::Updating { conversation_id },
                    DbAction::UpdateMetadata { tenant_id, conversation_id, metadata },
                ),
                events,
            );
            &&& actions == seq![DbAction::UpdateMetadata { tenant_id, conversation_id, metadata }]
            &&& events.len() == 0 <==> outcome is None
            &&& (outcome matches Some(Ok(_))) <==> (events.len() >= 1 && events[0] is Row)
            &&& (events.len() >= 1 && events[0] is Row) ==> (outcome matches Some(Ok(data))
                && answers_row(data, events[0]->Row_0))
            &&& (events.len() >= 1 && events[0] == DbEvent::Failed(DbError::RowNotFound)) ==> outcome == Some(
                Err::<ConversationData, StorageError>(StorageError::NotFound { resource: Resource::Conversation, id: conversation_id }),
            )
            &&& (events.len() >= 1 && events[0] is Failed && events[0]->Failed_0 is Other) ==> outcome == Some(
                Err::<ConversationData, StorageError>(StorageError::Database(events[0]->Failed_0)),
            )
        }),
{
    reveal_with_fuel(run, 2);
}

} // verus!

//! The steps of each store operation: what is asked of the database next, or
//! the result, on each reply.

use vstd::prelude::*;
use crate::db::{DbAction, DbEvent, Step, StoreMachine};
use crate::error::{DbError, Resource, StorageError, conversation_error, conversation_error_spec};
use crate::model::{ConversationData, Item};
use crate::store::{
    CreateConversation, CreateItems, Delete, DeleteItem, ListItems, Retrieve, RetrieveItem, UpdateMetadata,
    lock_owned, owned_by,
};

verus! {

/// The error for a reply that is not the expected one: the database's own
/// failure, or a reply that does not answer the request.
pub open spec fn reply_error(event: DbEvent) -> StorageError {
    match event {
        DbEvent::Failed(error) => StorageError::Database(error),
        _ => StorageError::Database(DbError::UnexpectedReply),
    }
}

fn unexpected(event: DbEvent) -> (e: StorageError)
    ensures
        e == reply_error(event),
{
    match event {
        DbEvent::Failed(error) => StorageError::Database(error),
        _ => StorageError::Database(DbError::UnexpectedReply),
    }
}

/// The error for a reply to a lock or update of a conversation that is not a row.
pub open spec fn locked_error(event: DbEvent, id: String) -> StorageError {
    match event {
        DbEvent::Failed(error) => conversation_error_spec(error, id),
        _ => StorageError::Database(DbError::UnexpectedReply),
    }
}

fn lock_failure(event: DbEvent, id: String) -> (e: StorageError)
    ensures
        e == locked_error(event, id),
{
    match event {
        DbEvent::Failed(error) => conversation_error(error, id),
        _ => StorageError::Database(DbError::UnexpectedReply),
    }
}

pub open spec fn not_found(resource: Resource, id: String) -> StorageError {
    StorageError::NotFound { resource, id }
}

/// Whether the row is one the tenant may write to.
fn is_owner(row: &crate::model::ConversationRow, tenant_id: &String) -> (b: bool)
    ensures
        b == owned_by(*row, tenant_id@),
{
    match &row.tenant_id {
        Some(t) => t.eq(tenant_id),
        None => false,
    }
}

impl StoreMachine for CreateConversation {
    type Output = ConversationData;

    open spec fn transition(self, event: DbEvent) -> Step<Self, ConversationData> {
        match self {
            CreateConversation::Beginning { id, tenant_id, metadata, items } => match event {
                DbEvent::Done => Step::Next(
                    CreateConversation::Inserting { id, items },
                    DbAction::InsertConversation { id, tenant_id, metadata },
                ),
                other => Step::Finished(Err(reply_error(other))),
            },
            CreateConversation::Inserting { id, items } => match event {
                DbEvent::Row(row) => if items.len() == 0 {
                    Step::Next(CreateConversation::Committing { row }, DbAction::Commit)
                } else {
                    Step::Next(
                        CreateConversation::InsertingItems { id, row },
                        DbAction::InsertItems { conversation_id: id, items },
                    )
                },
                other => Step::Finished(Err(reply_error(other))),
            },
            CreateConversation::InsertingItems { id, row } => match event {
                DbEvent::Items(_) => Step::Next(
                    CreateConversation::Bumping { row },
                    DbAction::BumpRevision { conversation_id: id },
                ),
                other => Step::Finished(Err(reply_error(other))),
            },
            CreateConversation::Bumping { row } => match event {
                DbEvent::Done => Step::Next(CreateConversation::Committing { row }, DbAction::Commit),
                other => Step::Finished(Err(reply_error(other))),
            },
            CreateConversation::Committing { row } => match event {
                DbEvent::Done => Step::Finished(Ok(ConversationData::of_row(row))),
                other => Step::Finished(Err(reply_error(other))),
            },
        }
    }

    fn step(self, event: DbEvent) -> (r: Step<Self, ConversationData>) {
        match self {
            CreateConversation::Beginning { id, tenant_id, metadata, items } => match event {
                DbEvent::Done => {
                    let action = DbAction::InsertConversation { id: id.clone(), tenant_id, metadata };
                    Step::Next(CreateConversation::Inserting { id, items }, action)
                },
                other => Step::Finished(Err(unexpected(other))),
            },
            CreateConversation::Inserting { id, items } => match event {
                DbEvent::Row(row) => if items.len() == 0 {
                    Step::Next(CreateConversation::Committing { row }, DbAction::Commit)
                } else {
                    let action = DbAction::InsertItems { conversation_id: id.clone(), items };
                    Step::Next(CreateConversation::InsertingItems { id, row }, action)
                },
                other => Step::Finished(Err(unexpected(other))),
            },
            CreateConversation::InsertingItems { id, row } => match event {
                DbEvent::Items(_) => Step::Next(
                    CreateConversation::Bumping { row },
                    DbAction::BumpRevision { conversation_id: id },
                ),
                other => Step::Finished(Err(unexpected(other))),
            },
            CreateConversation::Bumping { row } => match event {
                DbEvent::Done => Step::Next(CreateConversation::Committing { row }, DbAction::Commit),
                other => Step::Finished(Err(unexpected(other))),
            },
            CreateConversation::Committing { row } => match event {
                DbEvent::Done => Step::Finished(Ok(ConversationData::from_row(row))),
                other => Step::Finished(Err(unexpected(other))),
            },
        }
    }
}

impl StoreMachine for Retrieve {
    type Output = ConversationData;

    open spec fn transition(self, event: DbEvent) -> Step<Self, ConversationData> {
        match self {
            Retrieve::Finding { conversation_id } => match event {
                DbEvent::MaybeRow(Some(row)) => Step::Finished(Ok(ConversationData::of_row(row))),
                DbEvent::MaybeRow(None) => Step::Finished(Err(not_found(Resource::Conversation, conversation_id))),
                other => Step::Finished(Err(reply_error(other))),
            },
        }
    }

    fn step(self, event: DbEvent) -> (r: Step<Self, ConversationData>) {
        match self {
            Retrieve::Finding { conversation_id } => match event {
                DbEvent::MaybeRow(Some(row)) => Step::Finished(Ok(ConversationData::from_row(row))),
                DbEvent::MaybeRow(None) => Step::Finished(
                    Err(StorageError::not_found(Resource::Conversation, conversation_id)),
                ),
                other => Step::Finished(Err(unexpected(other))),
            },
        }
    }
}

impl StoreMachine for UpdateMetadata {
    type Output = ConversationData;

    open spec fn transition(self, event: DbEvent) -> Step<Self, ConversationData> {
        match self {
            UpdateMetadata::Updating { conversation_id } => match event {
                DbEvent::Row(row) => Step::Finished(Ok(ConversationData::of_row(row))),
                other => Step::Finished(Err(locked_error(other, conversation_id))),
            },
        }
    }

    fn step(self, event: DbEvent) -> (r: Step<Self, ConversationData>) {
        match self {
            UpdateMetadata::Updating { conversation_id } => match event {
                DbEvent::Row(row) => Step::Finished(Ok(ConversationData::from_row(row))),
                other => Step::Finished(Err(lock_failure(other, conversation_id))),
            },
        }
    }
}

impl StoreMachine for Delete {
    type Output = ();

    open spec fn transition(self, event: DbEvent) -> Step<Self, ()> {
        match self {
            Delete::Beginning { tenant_id, conversation_id } => match event {
                DbEvent::Done => Step::Next(
                    Delete::Locking { tenant_id, conversation_id },
                    DbAction::LockConversation { conversation_id },
                ),
                other => Step::Finished(Err(reply_error(other))),
            },
            Delete::Locking { tenant_id, conversation_id } => match event {
                DbEvent::Row(row) => if owned_by(row, tenant_id@) {
                    Step::Next(
                        Delete::Detaching { conversation_id },
                        DbAction::DetachItems { conversation_id, item_id: None },
                    )
                } else {
                    Step::Finished(Err(not_found(Resource::Conversation, conversation_id)))
                },
                other => Step::Finished(Err(locked_error(other, conversation_id))),
            },
            Delete::Detaching { conversation_id } => match event {
                DbEvent::Affected(_) => Step::Next(Delete::Deleting, DbAction::DeleteConversation { conversation_id }),
                other => Step::Finished(Err(reply_error(other))),
            },
            Delete::Deleting => match event {
                DbEvent::Done => Step::Next(Delete::Committing, DbAction::Commit),
                other => Step::Finished(Err(reply_error(other))),
            },
            Delete::Committing => match event {
                DbEvent::Done => Step::Finished(Ok(())),
                other => Step::Finished(Err(reply_error(other))),
            },
        }
    }

    fn step(self, event: DbEvent) -> (r: Step<Self, ()>) {
        match self {
            Delete::Beginning { tenant_id, conversation_id } => match event {
                DbEvent::Done => {
                    let action = DbAction::LockConversation { conversation_id: conversation_id.clone() };
                    Step::Next(Delete::Locking { tenant_id, conversation_id }, action)
                },
                other => Step::Finished(Err(unexpected(other))),
            },
            Delete::Locking { tenant_id, conversation_id } => match event {
                DbEvent::Row(row) => if is_owner(&row, &tenant_id) {
                    let action = DbAction::DetachItems { conversation_id: conversation_id.clone(), item_id: None };
                    Step::Next(Delete::Detaching { conversation_id }, action)
                } else {
                    Step::Finished(Err(StorageError::not_found(Resource::Conversation, conversation_id)))
                },
                other => Step::Finished(Err(lock_failure(other, conversation_id))),
            },
            Delete::Detaching { conversation_id } => match event {
                DbEvent::Affected(_) => Step::Next(Delete::Deleting, DbAction::DeleteConversation { conversation_id }),
                other => Step::Finished(Err(unexpected(other))),
            },
            Delete::Deleting => match event {
                DbEvent::Done => Step::Next(Delete::Committing, DbAction::Commit),
                other => Step::Finished(Err(unexpected(other))),
            },
            Delete::Committing => match event {
                DbEvent::Done => Step::Finished(Ok(())),
                other => Step::Finished(Err(unexpected(other))),
            },
        }
    }
}

impl StoreMachine for CreateItems {
    type Output = Vec<Item>;

    open spec fn transition(self, event: DbEvent) -> Step<Self, Vec<Item>> {
        match self {
            CreateItems::Beginning { tenant_id, conversation_id, items } => match event {
                DbEvent::Done => Step::Next(
                    CreateItems::Locking { tenant_id, conversation_id, items },
                    DbAction::LockConversation { conversation_id },
                ),
                other => Step::Finished(Err(reply_error(other))),
            },
            CreateItems::Locking { tenant_id, conversation_id, items } => match event {
                DbEvent::Row(row) => if owned_by(row, tenant_id@) {
                    Step::Next(
                        CreateItems::Inserting { conversation_id },
                        DbAction::InsertItems { conversation_id, items },
                    )
                } else {
                    Step::Finished(Err(not_found(Resource::Conversation, conversation_id)))
                },
                other => Step::Finished(Err(locked_error(other, conversation_id))),
            },
            CreateItems::Inserting { conversation_id } => match event {
                DbEvent::Items(rows) => if rows.len() == 0 {
                    Step::Next(CreateItems::Committing { rows }, DbAction::Commit)
                } else {
                    Step::Next(CreateItems::Bumping { rows }, DbAction::BumpRevision { conversation_id })
                },
                other => Step::Finished(Err(reply_error(other))),
            },
            CreateItems::Bumping { rows } => match event {
                DbEvent::Done => Step::Next(CreateItems::Committing { rows }, DbAction::Commit),
                other => Step::Finished(Err(reply_error(other))),
            },
            CreateItems::Committing { rows } => match event {
                DbEvent::Done => Step::Finished(Ok(rows)),
                other => Step::Finished(Err(reply_error(other))),
            },
        }
    }

    fn step(self, event: DbEvent) -> (r: Step<Self, Vec<Item>>) {
        match self {
            CreateItems::Beginning { tenant_id, conversation_id, items } => match event {
                DbEvent::Done => {
                    let action = DbAction::LockConversation { conversation_id: conversation_id.clone() };
                    Step::Next(CreateItems::Locking { tenant_id, conversation_id, items }, action)
                },
                other => Step::Finished(Err(unexpected(other))),
            },
            CreateItems::Locking { tenant_id, conversation_id, items } => match event {
                DbEvent::Row(row) => match lock_owned(Ok(row), &tenant_id, conversation_id.clone()) {
                    Ok(_) => {
                        let action = DbAction::InsertItems { conversation_id: conversation_id.clone(), items };
                        Step::Next(CreateItems::Inserting { conversation_id }, action)
                    },
                    Err(e) => Step::Finished(Err(e)),
                },
                other => Step::Finished(Err(lock_failure(other, conversation_id))),
            },
            CreateItems::Inserting { conversation_id } => match event {
                DbEvent::Items(rows) => if rows.len() == 0 {
                    Step::Next(CreateItems::Committing { rows }, DbAction::Commit)
                } else {
                    Step::Next(CreateItems::Bumping { rows }, DbAction::BumpRevision { conversation_id })
                },
                other => Step::Finished(Err(unexpected(other))),
            },
            CreateItems::Bumping { rows } => match event {
                DbEvent::Done => Step::Next(CreateItems::Committing { rows }, DbAction::Commit),
                other => Step::Finished(Err(unexpected(other))),
            },
            CreateItems::Committing { rows } => match event {
                DbEvent::Done => Step::Finished(Ok(rows)),
                other => Step::Finished(Err(unexpected(other))),
            },
        }
    }
}

impl StoreMachine for ListItems {
    type Output = Vec<Item>;

    open spec fn transition(self, event: DbEvent) -> Step<Self, Vec<Item>> {
        match self {
            ListItems::FindingConversation { tenant_id, conversation_id, limit, after, order } => match event {
                DbEvent::MaybeRow(Some(_)) => match after {
                    Some(cursor) => Step::Next(
                        ListItems::FindingCursor { tenant_id, conversation_id, limit, cursor, order },
                        DbAction::FindItem { tenant_id, conversation_id, item_id: cursor },
                    ),
                    None => Step::Next(
                        ListItems::Listing,
                        DbAction::ListItems { tenant_id, conversation_id, limit, after_sequence: None, order },
                    ),
                },
                DbEvent::MaybeRow(None) => Step::Finished(Err(not_found(Resource::Conversation, conversation_id))),
                other => Step::Finished(Err(reply_error(other))),
            },
            ListItems::FindingCursor { tenant_id, conversation_id, limit, cursor, order } => match event {
                DbEvent::MaybeItem(Some(item)) => match item.seq {
                    Some(seq) => Step::Next(
                        ListItems::Listing,
                        DbAction::ListItems { tenant_id, conversation_id, limit, after_sequence: Some(seq), order },
                    ),
                    None => Step::Finished(
                        Err(StorageError::InvalidConversationSequence { conversation_id, item_id: cursor }),
                    ),
                },
                DbEvent::MaybeItem(None) => Step::Finished(Err(not_found(Resource::ConversationItem, cursor))),
                other => Step::Finished(Err(reply_error(other))),
            },
            ListItems::Listing => match event {
                DbEvent::Items(rows) => Step::Finished(Ok(rows)),
                other => Step::Finished(Err(reply_error(other))),
            },
        }
    }

    fn step(self, event: DbEvent) -> (r: Step<Self, Vec<Item>>) {
        match self {
            ListItems::FindingConversation { tenant_id, conversation_id, limit, after, order } => match event {
                DbEvent::MaybeRow(Some(_)) => match after {
                    Some(cursor) => {
                        let action = DbAction::FindItem {
                            tenant_id: tenant_id.clone(),
                            conversation_id: conversation_id.clone(),
                            item_id: cursor.clone(),
                        };
                        Step::Next(ListItems::FindingCursor { tenant_id, conversation_id, limit, cursor, order }, action)
                    },
                    None => Step::Next(
                        ListItems::Listing,
                        DbAction::ListItems { tenant_id, conversation_id, limit, after_sequence: None, order },
                    ),
                },
                DbEvent::MaybeRow(None) => Step::Finished(
                    Err(StorageError::not_found(Resource::Conversation, conversation_id)),
                ),
                other => Step::Finished(Err(unexpected(other))),
            },
            ListItems::FindingCursor { tenant_id, conversation_id, limit, cursor, order } => match event {
                DbEvent::MaybeItem(Some(item)) => match item.seq {
                    Some(seq) => Step::Next(
                        ListItems::Listing,
                        DbAction::ListItems { tenant_id, conversation_id, limit, after_sequence: Some(seq), order },
                    ),
                    None => Step::Finished(
                        Err(StorageError::InvalidConversationSequence { conversation_id, item_id: cursor }),
                    ),
                },
                DbEvent::MaybeItem(None) => Step::Finished(
                    Err(StorageError::not_found(Resource::ConversationItem, cursor)),
                ),
                other => Step::Finished(Err(unexpected(other))),
            },
            ListItems::Listing => match event {
                DbEvent::Items(rows) => Step::Finished(Ok(rows)),
                other => Step::Finished(Err(unexpected(other))),
            },
        }
    }
}

impl StoreMachine for RetrieveItem {
    type Output = Item;

    open spec fn transition(self, event: DbEvent) -> Step<Self, Item> {
        match self {
            RetrieveItem::Finding { item_id } => match event {
                DbEvent::MaybeItem(Some(item)) => Step::Finished(Ok(item)),
                DbEvent::MaybeItem(None) => Step::Finished(Err(not_found(Resource::ConversationItem, item_id))),
                other => Step::Finished(Err(reply_error(other))),
            },
        }
    }

    fn step(self, event: DbEvent) -> (r: Step<Self, Item>) {
        match self {
            RetrieveItem::Finding { item_id } => match event {
                DbEvent::MaybeItem(Some(item)) => Step::Finished(Ok(item)),
                DbEvent::MaybeItem(None) => Step::Finished(
                    Err(StorageError::not_found(Resource::ConversationItem, item_id)),
                ),
                other => Step::Finished(Err(unexpected(other))),
            },
        }
    }
}

impl StoreMachine for DeleteItem {
    type Output = ConversationData;

    open spec fn transition(self, event: DbEvent) -> Step<Self, ConversationData> {
        match self {
            DeleteItem::Beginning { tenant_id, conversation_id, item_id } => match event {
                DbEvent::Done => Step::Next(
                    DeleteItem::Locking { tenant_id, conversation_id, item_id },
                    DbAction::LockConversation { conversation_id },
                ),
                other => Step::Finished(Err(reply_error(other))),
            },
            DeleteItem::Locking { tenant_id, conversation_id, item_id } => match event {
                DbEvent::Row(row) => if owned_by(row, tenant_id@) {
                    Step::Next(
                        DeleteItem::Detaching { conversation_id, item_id, row },
                        DbAction::DetachItems { conversation_id, item_id: Some(item_id) },
                    )
                } else {
                    Step::Finished(Err(not_found(Resource::Conversation, conversation_id)))
                },
                other => Step::Finished(Err(locked_error(other, conversation_id))),
            },
            DeleteItem::Detaching { conversation_id, item_id, row } => match event {
                DbEvent::Affected(n) => if n == 0 {
                    Step::Finished(Err(not_found(Resource::ConversationItem, item_id)))
                } else {
                    Step::Next(DeleteItem::Bumping { row }, DbAction::BumpRevision { conversation_id })
                },
                other => Step::Finished(Err(reply_error(other))),
            },
            DeleteItem::Bumping { row } => match event {
                DbEvent::Done => Step::Next(DeleteItem::Committing { row }, DbAction::Commit),
                other => Step::Finished(Err(reply_error(other))),
            },
            DeleteItem::Committing { row } => match event {
                DbEvent::Done => Step::Finished(Ok(ConversationData::of_row(row))),
                other => Step::Finished(Err(reply_error(other))),
            },
        }
    }

    fn step(self, event: DbEvent) -> (r: Step<Self, ConversationData>) {
        match self {
            DeleteItem::Beginning { tenant_id, conversation_id, item_id } => match event {
                DbEvent::Done => {
                    let action = DbAction::LockConversation { conversation_id: conversation_id.clone() };
                    Step::Next(DeleteItem::Locking { tenant_id, conversation_id, item_id }, action)
                },
                other => Step::Finished(Err(unexpected(other))),
            },
            DeleteItem::Locking { tenant_id, conversation_id, item_id } => match event {
                DbEvent::Row(row) => if is_owner(&row, &tenant_id) {
                    let action = DbAction::DetachItems {
                        conversation_id: conversation_id.clone(),
                        item_id: Some(item_id.clone()),
                    };
                    Step::Next(DeleteItem::Detaching { conversation_id, item_id, row }, action)
                } else {
                    Step::Finished(Err(StorageError::not_found(Resource::Conversation, conversation_id)))
                },
                other => Step::Finished(Err(lock_failure(other, conversation_id))),
            },
            DeleteItem::Detaching { conversation_id, item_id, row } => match event {
                DbEvent::Affected(n) => if n == 0 {
                    Step::Finished(Err(StorageError::not_found(Resource::ConversationItem, item_id)))
                } else {
                    Step::Next(DeleteItem::Bumping { row }, DbAction::BumpRevision { conversation_id })
                },
                other => Step::Finished(Err(unexpected(other))),
            },
            DeleteItem::Bumping { row } => match event {
                DbEvent::Done => Step::Next(DeleteItem::Committing { row }, DbAction::Commit),
                other => Step::Finished(Err(unexpected(other))),
            },
            DeleteItem::Committing { row } => match event {
                DbEvent::Done => Step::Finished(Ok(ConversationData::from_row(row))),
                other => Step::Finished(Err(unexpected(other))),
            },
        }
    }
}

} // verus!

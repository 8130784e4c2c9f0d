//! Errors of the store and of the database it talks to.

use vstd::prelude::*;

verus! {

/// What the database answered instead of a result.
#[derive(Debug)]
pub enum DbError {
    /// A query that must return a row found none.
    RowNotFound,
    /// Any other database failure, with its description.
    Other(String),
    /// The reply does not answer the request that was made.
    UnexpectedReply,
}

/// The kinds of resource that a lookup can miss.
#[derive(Clone, Copy, Debug, PartialEq, Eq, Structural)]
pub enum Resource {
    Conversation,
    ConversationItem,
}

/// Errors of the conversation store.
#[derive(Debug)]
pub enum StorageError {
    NotFound { resource: Resource, id: String },
    InvalidConversationSequence { conversation_id: String, item_id: String },
    Serialization(String),
    Database(DbError),
}

pub type StoreResult<T> = Result<T, StorageError>;

impl StorageError {
    /// A lookup of `resource` with the given id found nothing the caller may see.
    pub fn not_found(resource: Resource, id: String) -> (e: StorageError)
        ensures
            e == (StorageError::NotFound { resource, id }),
    {
        StorageError::NotFound { resource, id }
    }
}

pub open spec fn conversation_error_spec(error: DbError, id: String) -> StorageError {
    match error {
        DbError::RowNotFound => StorageError::NotFound { resource: Resource::Conversation, id },
        other => StorageError::Database(other),
    }
}

/// A missing row on a conversation query means the conversation is not found;
/// any other failure stays a database error.
pub fn conversation_error(error: DbError, id: String) -> (e: StorageError)
    ensures
        e == conversation_error_spec(error, id),
{
    match error {
        DbError::RowNotFound => StorageError::not_found(Resource::Conversation, id),
        other => StorageError::Database(other),
    }
}


impl Resource {
    pub open spec fn name_text(self) -> Seq<char> {
        match self {
            Resource::Conversation => "Conversation"@,
            Resource::ConversationItem => "Conversation item"@,
        }
    }

    /// The resource's name as it appears in messages.
    pub fn name(self) -> (s: &'static str)
        ensures
            s@ == self.name_text(),
    {
        match self {
            Resource::Conversation => "Conversation",
            Resource::ConversationItem => "Conversation item",
        }
    }
}

impl DbError {
    pub open spec fn text(self) -> Seq<char> {
        match self {
            DbError::RowNotFound => "no rows returned by a query that expected to return at least one row"@,
            DbError::Other(message) => message@,
            DbError::UnexpectedReply => "the database reply does not answer the request"@,
        }
    }
}

impl StorageError {
    pub open spec fn text(self) -> Seq<char> {
        match self {
            StorageError::NotFound { resource, id } => resource.name_text() + " not found: "@ + id@,
            StorageError::InvalidConversationSequence { conversation_id, item_id } => "Conversation item "@ + item_id@
                + " has no sequence in conversation "@ + conversation_id@,
            StorageError::Serialization(message) => "Serialization error: "@ + message@,
            StorageError::Database(error) => "Database error: "@ + error.text(),
        }
    }

    /// A human-readable description of the error.
    pub fn describe(&self) -> (s: String)
        ensures
            s@ == self.text(),
    {
        match self {
            StorageError::NotFound { resource, id } => {
                let mut s = String::from_str(resource.name());
                s.append(" not found: ");
                s.append(id.as_str());
                s
            },
            StorageError::InvalidConversationSequence { conversation_id, item_id } => {
                let mut s = String::from_str("Conversation item ");
                s.append(item_id.as_str());
                s.append(" has no sequence in conversation ");
                s.append(conversation_id.as_str());
                s
            },
            StorageError::Serialization(message) => {
                let mut s = String::from_str("Serialization error: ");
                s.append(message.as_str());
                s
            },
            StorageError::Database(error) => {
                let mut s = String::from_str("Database error: ");
                match error {
                    DbError::RowNotFound => s.append(
                        "no rows returned by a query that expected to return at least one row",
                    ),
                    DbError::Other(message) => s.append(message.as_str()),
                    DbError::UnexpectedReply => s.append("the database reply does not answer the request"),
                }
                s
            },
        }
    }
}

} // verus!

//! Rows and items as the store sees them.

use vstd::prelude::*;

verus! {

/// Direction in which conversation items are listed, by their sequence number.
#[derive(Clone, Copy, Debug, PartialEq, Eq, Structural)]
pub enum ItemOrder {
    Asc,
    Desc,
}

impl Default for ItemOrder {
    /// Items are listed newest first unless the caller asks otherwise.
    fn default() -> (r: ItemOrder)
        ensures
            r == ItemOrder::Desc,
    {
        ItemOrder::Desc
    }
}

/// A row of the `conversations` table.
#[derive(Debug)]
pub struct ConversationRow {
    pub id: String,
    pub tenant_id: Option<String>,
    pub metadata: Option<String>,
    pub created_at: String,
    pub revision: i64,
}

/// The public face of a stored conversation.
#[derive(Debug)]
pub struct ConversationData {
    pub conversation_id: String,
    pub created_at: String,
    pub metadata: Option<String>,
}

/// A row of the `items` table. `seq` orders the items of one conversation;
/// an item detached from its conversation has neither conversation nor sequence.
#[derive(Debug)]
pub struct Item {
    pub id: String,
    pub conversation_id: Option<String>,
    pub seq: Option<i64>,
    pub data: String,
}

/// An item as stored: the JSON text of an input item or of an output item.
#[derive(Debug)]
pub enum InOutItem {
    Input(String),
    Output(String),
}

/// An item as it travels over the wire, with the same two kinds.
#[derive(Debug)]
pub enum ConversationItem {
    Input(String),
    Output(String),
}

impl ConversationData {
    pub open spec fn of_row(row: ConversationRow) -> ConversationData {
        ConversationData {
            conversation_id: row.id,
            created_at: row.created_at,
            metadata: row.metadata,
        }
    }

    /// The public data of a row: its id, creation time and metadata.
    pub fn from_row(row: ConversationRow) -> (data: ConversationData)
        ensures
            data.conversation_id == row.id,
            data.created_at == row.created_at,
            data.metadata == row.metadata,
            data == Self::of_row(row),
    {
        ConversationData { conversation_id: row.id, created_at: row.created_at, metadata: row.metadata }
    }
}

impl InOutItem {
    pub open spec fn text(&self) -> String {
        match self {
            InOutItem::Input(t) => *t,
            InOutItem::Output(t) => *t,
        }
    }

    /// The JSON text of the item, whichever its kind.
    pub fn json(&self) -> (t: &String)
        ensures
            *t == self.text(),
    {
        match self {
            InOutItem::Input(t) => t,
            InOutItem::Output(t) => t,
        }
    }
}

} // verus!

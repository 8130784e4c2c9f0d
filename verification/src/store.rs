//! The conversation store: each operation is a machine that asks the database
//! for one action at a time and decides on each reply.

use vstd::prelude::*;
use crate::db::{DbAction, Step};
use crate::error::{DbError, Resource, StorageError, StoreResult, conversation_error, conversation_error_spec};
use crate::json::{UuidClock, is_prefixed_id, json_parse_error, json_parses, parse_json, uuid7_str, uuid_part};
use crate::model::{ConversationData, ConversationRow, InOutItem, Item, ItemOrder};

verus! {

/// Whether every item's text is JSON that serde_json accepts.
pub open spec fn all_json(items: Seq<InOutItem>) -> bool {
    forall|i: int| 0 <= i < items.len() ==> json_parses(#[trigger] items[i].text()@)
}

/// `pairs` gives each item, in order, a fresh item id and its JSON text; no
/// two items get the same id.
pub open spec fn serialized(pairs: Seq<(String, String)>, items: Seq<InOutItem>) -> bool {
    &&& pairs.len() == items.len()
    &&& forall|i: int|
        0 <= i < pairs.len() ==> {
            &&& (#[trigger] pairs[i]).1 == items[i].text()
            &&& is_prefixed_id(pairs[i].0@, "item_"@)
        }
    &&& forall|i: int, j: int| 0 <= i < j < pairs.len() ==> (#[trigger] pairs[i]).0@ != (#[trigger] pairs[j]).0@
}

/// `e` is the serialization error that serde_json reports for `text`.
pub open spec fn serialization_error_of(e: StorageError, text: Seq<char>) -> bool {
    e matches StorageError::Serialization(message) && json_parse_error(text) == Some(message@)
}

/// `e` is the error of the first item whose text is not JSON, every item
/// before it being JSON.
pub open spec fn first_bad_item_error(e: StorageError, items: Seq<InOutItem>) -> bool {
    exists|j: int|
        0 <= j < items.len() && !json_parses(#[trigger] items[j].text()@) && (forall|k: int|
            0 <= k < j ==> json_parses(#[trigger] items[k].text()@)) && serialization_error_of(e, items[j].text()@)
}

/// Gives each item a fresh id and its stored text, refusing text that is not
/// JSON with the error of the first such item.
pub fn serialize_items(items: Vec<InOutItem>) -> (r: StoreResult<Vec<(String, String)>>)
    ensures
        r is Ok <==> all_json(items@),
        r matches Ok(pairs) ==> serialized(pairs@, items@),
        r matches Err(e) ==> first_bad_item_error(e, items@),
{
    let mut pairs: Vec<(String, String)> = Vec::new();
    let mut clock = UuidClock::new();
    let n = items.len();
    for i in 0..n
        invariant
            n == items@.len(),
            pairs@.len() == i,
            forall|j: int| 0 <= j < i ==> clock.issued().contains(uuid_part(#[trigger] pairs@[j].0@, "item_"@)),
            forall|j: int| 0 <= j < i ==> json_parses(#[trigger] items@[j].text()@),
            serialized(pairs@, items@.take(i as int)),
    {
        let text = items[i].json();
        match parse_json(text.as_str()) {
            Err(message) => {
                let e = StorageError::Serialization(message);
                assert(first_bad_item_error(e, items@)) by {
                    assert(!json_parses(items@[i as int].text()@));
                }
                return Err(e);
            },
            Ok(_) => {},
        }
        let id = uuid7_str(&mut clock, "item_");
        let ghost before = pairs@;
        pairs.push((id, text.clone()));
        assert forall|j: int, k: int| 0 <= j < k < pairs@.len() implies (#[trigger] pairs@[j]).0@ != (#[trigger] pairs@[k]).0@ by {
            if k == i {
                assert(pairs@[j] == before[j]);
                if pairs@[j].0@ == id@ {
                    assert(uuid_part(pairs@[j].0@, "item_"@) == uuid_part(id@, "item_"@));
                }
            } else {
                assert(pairs@[j] == before[j] && pairs@[k] == before[k]);
                assert(items@.take(i as int).len() == i);
            }
        }
        assert(items@.take(i + 1)[i as int] == items@[i as int]);
    }
    assert(items@.take(n as int) =~= items@);
    Ok(pairs)
}

/// Whether the row belongs to the tenant.
pub open spec fn owned_by(row: ConversationRow, tenant_id: Seq<char>) -> bool {
    row.tenant_id matches Some(t) && t@ == tenant_id
}

pub open spec fn lock_owned_spec(
    locked: Result<ConversationRow, DbError>,
    tenant_id: Seq<char>,
    id: String,
) -> StoreResult<ConversationRow> {
    match locked {
        Ok(row) => if owned_by(row, tenant_id) {
            Ok(row)
        } else {
            Err(StorageError::NotFound { resource: Resource::Conversation, id })
        },
        Err(error) => Err(conversation_error_spec(error, id)),
    }
}

/// The row locked for a write, if it belongs to the tenant; a conversation of
/// another tenant is reported as not found.
pub fn lock_owned(locked: Result<ConversationRow, DbError>, tenant_id: &String, id: String) -> (r:
    StoreResult<ConversationRow>)
    ensures
        r == lock_owned_spec(locked, tenant_id@, id),
{
    match locked {
        Ok(row) => {
            let owned = match &row.tenant_id {
                Some(t) => t.eq(tenant_id),
                None => false,
            };
            if owned {
                Ok(row)
            } else {
                Err(StorageError::not_found(Resource::Conversation, id))
            }
        },
        Err(error) => Err(conversation_error(error, id)),
    }
}

/// The stored metadata text is acceptable: absent, or JSON.
pub open spec fn metadata_ok(metadata: Option<String>) -> bool {
    metadata matches Some(text) ==> json_parses(text@)
}

pub open spec fn same_text(a: Option<String>, b: Option<&str>) -> bool {
    match (a, b) {
        (Some(x), Some(y)) => x@ == y@,
        (None, None) => true,
        _ => false,
    }
}

/// The store of conversations and their ordered items. Each operation returns
/// its first step; the caller performs the requested database actions in
/// order and hands each reply to `StoreMachine::step`.
pub struct ConversationStore {}

/// Creating a conversation together with its initial items.
pub enum CreateConversation {
    Beginning { id: String, tenant_id: Option<String>, metadata: Option<String>, items: Vec<(String, String)> },
    Inserting { id: String, items: Vec<(String, String)> },
    InsertingItems { id: String, row: ConversationRow },
    Bumping { row: ConversationRow },
    Committing { row: ConversationRow },
}

/// Looking up a conversation of the tenant.
pub enum Retrieve {
    Finding { conversation_id: String },
}

/// Replacing the metadata of a conversation of the tenant.
pub enum UpdateMetadata {
    Updating { conversation_id: String },
}

/// Deleting a conversation of the tenant while keeping its items.
pub enum Delete {
    Beginning { tenant_id: String, conversation_id: String },
    Locking { tenant_id: String, conversation_id: String },
    Detaching { conversation_id: String },
    Deleting,
    Committing,
}

/// Appending items to a conversation of the tenant.
pub enum CreateItems {
    Beginning { tenant_id: String, conversation_id: String, items: Vec<(String, String)> },
    Locking { tenant_id: String, conversation_id: String, items: Vec<(String, String)> },
    Inserting { conversation_id: String },
    Bumping { rows: Vec<Item> },
    Committing { rows: Vec<Item> },
}

/// Listing a page of the items of a conversation of the tenant.
pub enum ListItems {
    FindingConversation {
        tenant_id: String,
        conversation_id: String,
        limit: i64,
        after: Option<String>,
        order: ItemOrder,
    },
    FindingCursor { tenant_id: String, conversation_id: String, limit: i64, cursor: String, order: ItemOrder },
    Listing,
}

/// Looking up one item of a conversation of the tenant.
pub enum RetrieveItem {
    Finding { item_id: String },
}

/// Unlinking one item from a conversation of the tenant.
pub enum DeleteItem {
    Beginning { tenant_id: String, conversation_id: String, item_id: String },
    Locking { tenant_id: String, conversation_id: String, item_id: String },
    Detaching { conversation_id: String, item_id: String, row: ConversationRow },
    Bumping { row: ConversationRow },
    Committing { row: ConversationRow },
}

impl ConversationStore {
    pub fn new() -> (s: ConversationStore) {
        ConversationStore {  }
    }

    /// Creates a conversation and its initial items in one transaction.
    /// Item texts and the metadata text must be JSON; the conversation gets a
    /// fresh `conv_` id and each item a fresh `item_` id.
    pub fn create_with_metadata_and_items(
        &self,
        tenant_id: Option<&str>,
        metadata: Option<String>,
        initial_items: Vec<InOutItem>,
    ) -> (r: Step<CreateConversation, ConversationData>)
        ensures
            r is Next <==> all_json(initial_items@) && metadata_ok(metadata),
            r matches Step::Finished(result) ==> (result matches Err(e) && if all_json(initial_items@) {
                serialization_error_of(e, metadata->Some_0@)
            } else {
                first_bad_item_error(e, initial_items@)
            }),
            r matches Step::Next(m, action) ==> {
                &&& action is Begin
                &&& m matches CreateConversation::Beginning { id, tenant_id: t, metadata: md, items }
                &&& is_prefixed_id(id@, "conv_"@)
                &&& same_text(t, tenant_id)
                &&& md == metadata
                &&& serialized(items@, initial_items@)
            },
    {
        let items = match serialize_items(initial_items) {
            Ok(items) => items,
            Err(e) => {
                return Step::Finished(Err(e));
            },
        };
        match &metadata {
            Some(text) => match parse_json(text.as_str()) {
                Ok(_) => {},
                Err(message) => {
                    return Step::Finished(Err(StorageError::Serialization(message)));
                },
            },
            None => {},
        }
        let mut clock = UuidClock::new();
        let id = uuid7_str(&mut clock, "conv_");
        let tenant_id = match tenant_id {
            Some(t) => Some(t.to_string()),
            None => None,
        };
        Step::Next(CreateConversation::Beginning { id, tenant_id, metadata, items }, DbAction::Begin)
    }

    /// Looks up a conversation of the tenant.
    pub fn retrieve(&self, tenant_id: &str, id: &str) -> (r: Step<Retrieve, ConversationData>)
        ensures
            r is Next,
            r matches Step::Next(m, action) ==> {
                &&& action matches DbAction::FindConversation { tenant_id: t, conversation_id: c }
                &&& t@ == tenant_id@
                &&& c@ == id@
                &&& m == (Retrieve::Finding { conversation_id: c })
            },
    {
        let conversation_id = id.to_string();
        let c = conversation_id.clone();
        Step::Next(Retrieve::Finding { conversation_id }, DbAction::FindConversation { tenant_id: tenant_id.to_string(), conversation_id: c })
    }

    /// Replaces the metadata of a conversation of the tenant; the metadata text
    /// must be JSON.
    pub fn update_metadata(&self, tenant_id: &str, id: &str, metadata: String) -> (r: Step<UpdateMetadata, ConversationData>)
        ensures
            r is Next <==> json_parses(metadata@),
            r matches Step::Finished(result) ==> (result matches Err(e) && serialization_error_of(e, metadata@)),
            r matches Step::Next(m, action) ==> {
                &&& action matches DbAction::UpdateMetadata { tenant_id: t, conversation_id: c, metadata: md }
                &&& t@ == tenant_id@
                &&& c@ == id@
                &&& md == metadata
                &&& m == (UpdateMetadata::Updating { conversation_id: c })
            },
    {
        match parse_json(metadata.as_str()) {
            Ok(_) => {},
            Err(message) => {
                return Step::Finished(Err(StorageError::Serialization(message)));
            },
        }
        let conversation_id = id.to_string();
        let c = conversation_id.clone();
        Step::Next(
            UpdateMetadata::Updating { conversation_id },
            DbAction::UpdateMetadata { tenant_id: tenant_id.to_string(), conversation_id: c, metadata },
        )
    }

    /// Deletes a conversation of the tenant, unlinking its items but keeping them.
    pub fn delete(&self, tenant_id: &str, id: &str) -> (r: Step<Delete, ()>)
        ensures
            r is Next,
            r matches Step::Next(m, action) ==> {
                &&& action is Begin
                &&& m matches Delete::Beginning { tenant_id: t, conversation_id: c }
                &&& t@ == tenant_id@
                &&& c@ == id@
            },
    {
        Step::Next(Delete::Beginning { tenant_id: tenant_id.to_string(), conversation_id: id.to_string() }, DbAction::Begin)
    }

    /// Appends items, in order, to a conversation of the tenant; item texts
    /// must be JSON, and each item gets a fresh `item_` id.
    pub fn create_items(&self, tenant_id: &str, id: &str, items: Vec<InOutItem>) -> (r: Step<CreateItems, Vec<Item>>)
        ensures
            r is Next <==> all_json(items@),
            r matches Step::Finished(result) ==> (result matches Err(e) && first_bad_item_error(e, items@)),
            r matches Step::Next(m, action) ==> {
                &&& action is Begin
                &&& m matches CreateItems::Beginning { tenant_id: t, conversation_id: c, items: pairs }
                &&& t@ == tenant_id@
                &&& c@ == id@
                &&& serialized(pairs@, items@)
            },
    {
        match serialize_items(items) {
            Ok(pairs) => Step::Next(
                CreateItems::Beginning { tenant_id: tenant_id.to_string(), conversation_id: id.to_string(), items: pairs },
                DbAction::Begin,
            ),
            Err(e) => Step::Finished(Err(e)),
        }
    }

    /// Lists a page of the items of a conversation of the tenant, after the
    /// cursor item when one is given.
    pub fn list_items(&self, tenant_id: &str, id: &str, limit: i64, after: Option<&str>, order: ItemOrder) -> (r:
        Step<ListItems, Vec<Item>>)
        ensures
            r is Next,
            r matches Step::Next(m, action) ==> {
                &&& m matches ListItems::FindingConversation { tenant_id: t, conversation_id: c, limit: l, after: a, order: o }
                &&& t@ == tenant_id@
                &&& c@ == id@
                &&& l == limit
                &&& same_text(a, after)
                &&& o == order
                &&& action == (DbAction::FindConversation { tenant_id: t, conversation_id: c })
            },
    {
        let t = tenant_id.to_string();
        let c = id.to_string();
        let after = match after {
            Some(a) => Some(a.to_string()),
            None => None,
        };
        let action = DbAction::FindConversation { tenant_id: t.clone(), conversation_id: c.clone() };
        Step::Next(ListItems::FindingConversation { tenant_id: t, conversation_id: c, limit, after, order }, action)
    }

    /// Looks up one item of a conversation of the tenant.
    pub fn retrieve_item(&self, tenant_id: &str, id: &str, item_id: &str) -> (r: Step<RetrieveItem, Item>)
        ensures
            r is Next,
            r matches Step::Next(m, action) ==> {
                &&& action matches DbAction::FindItem { tenant_id: t, conversation_id: c, item_id: i }
                &&& t@ == tenant_id@
                &&& c@ == id@
                &&& i@ == item_id@
                &&& m == (RetrieveItem::Finding { item_id: i })
            },
    {
        let i = item_id.to_string();
        let action = DbAction::FindItem { tenant_id: tenant_id.to_string(), conversation_id: id.to_string(), item_id: i.clone() };
        Step::Next(RetrieveItem::Finding { item_id: i }, action)
    }

    /// Unlinks one item from a conversation of the tenant and returns the conversation.
    pub fn delete_item(&self, tenant_id: &str, id: &str, item_id: &str) -> (r: Step<DeleteItem, ConversationData>)
        ensures
            r is Next,
            r matches Step::Next(m, action) ==> {
                &&& action is Begin
                &&& m matches DeleteItem::Beginning { tenant_id: t, conversation_id: c, item_id: i }
                &&& t@ == tenant_id@
                &&& c@ == id@
                &&& i@ == item_id@
            },
    {
        Step::Next(
            DeleteItem::Beginning { tenant_id: tenant_id.to_string(), conversation_id: id.to_string(), item_id: item_id.to_string() },
            DbAction::Begin,
        )
    }
}

} // verus!

//! Request validation and response shaping of the conversation endpoints.

use vstd::prelude::*;
use crate::error::StorageError;
use crate::json::{json_parse_error, json_parses, parse_json};
use crate::model::{ConversationData, ConversationItem, InOutItem, Item, ItemOrder};

verus! {

/// The most items that one request may carry.
pub const MAX_ITEMS_PER_REQUEST: usize = 20;

/// The largest page a listing may ask for.
pub const MAX_LIST_LIMIT: u8 = 100;

/// An error answered to the client: HTTP status, error type and message.
#[derive(Debug)]
pub struct ErrorResponse {
    pub status: u16,
    pub error_type: String,
    pub message: String,
}

pub open spec fn is_error(e: ErrorResponse, status: u16, error_type: Seq<char>, message: Seq<char>) -> bool {
    &&& e.status == status
    &&& e.error_type@ == error_type
    &&& e.message@ == message
}

/// An error answer with the given status, type and message.
pub fn error_response(status: u16, error_type: &str, message: &str) -> (e: ErrorResponse)
    ensures
        is_error(e, status, error_type@, message@),
{
    ErrorResponse { status, error_type: String::from_str(error_type), message: String::from_str(message) }
}

/// The query of a listing, with the defaults applied.
#[derive(Debug)]
pub struct ListItemsQuery {
    pub limit: u8,
    pub after: Option<String>,
    pub order: ItemOrder,
}

/// The page size when the client gives none.
pub fn default_limit() -> (limit: u8)
    ensures
        limit == 20,
{
    20
}

impl ListItemsQuery {
    /// The query as given, with the default limit and the default order for
    /// the parts the client left out.
    pub fn with_defaults(limit: Option<u8>, after: Option<String>, order: Option<ItemOrder>) -> (q: ListItemsQuery)
        ensures
            q.limit == (match limit {
                Some(l) => l,
                None => 20,
            }),
            q.after == after,
            q.order == (match order {
                Some(o) => o,
                None => ItemOrder::Desc,
            }),
    {
        let limit = match limit {
            Some(l) => l,
            None => default_limit(),
        };
        let order = match order {
            Some(o) => o,
            None => ItemOrder::default(),
        };
        ListItemsQuery { limit, after, order }
    }
}

/// The tenant on whose behalf a request acts. Requests are not yet
/// authenticated, so every request acts for the default tenant.
pub fn extract_tenant_id() -> (r: Result<String, ErrorResponse>)
    ensures
        r matches Ok(t) && t@ == "default_tenant"@,
{
    Ok(String::from_str("default_tenant"))
}

pub open spec fn stored_item(item: ConversationItem) -> InOutItem {
    match item {
        ConversationItem::Input(t) => InOutItem::Input(t),
        ConversationItem::Output(t) => InOutItem::Output(t),
    }
}

pub open spec fn wire_item(item: InOutItem) -> ConversationItem {
    match item {
        InOutItem::Input(t) => ConversationItem::Input(t),
        InOutItem::Output(t) => ConversationItem::Output(t),
    }
}

/// Whether a JSON item with the given `type` and `role` fields is an input
/// item: a message (the type when none is given), a function call output or an
/// item reference, unless it comes from the assistant.
pub open spec fn is_input_item_spec(item_type: Option<Seq<char>>, role: Option<Seq<char>>) -> bool {
    let t = match item_type {
        Some(t) => t,
        None => "message"@,
    };
    &&& (t == "message"@ || t == "function_call_output"@ || t == "item_reference"@)
    &&& role != Some("assistant"@)
}

pub open spec fn opt_text(o: Option<&String>) -> Option<Seq<char>> {
    match o {
        Some(s) => Some(s@),
        None => None,
    }
}

/// Tells an input item from an output item by its `type` and `role` fields.
pub fn is_input_item(item_type: Option<&String>, role: Option<&String>) -> (b: bool)
    ensures
        b == is_input_item_spec(opt_text(item_type), opt_text(role)),
{
    let input_type = match item_type {
        None => true,
        Some(t) => t.eq(&String::from_str("message")) || t.eq(&String::from_str("function_call_output")) || t.eq(
            &String::from_str("item_reference"),
        ),
    };
    let from_assistant = match role {
        Some(r) => r.eq(&String::from_str("assistant")),
        None => false,
    };
    input_type && !from_assistant
}

/// A wire item as it is stored, keeping its kind and its text.
pub fn into_stored_item(item: ConversationItem) -> (r: InOutItem)
    ensures
        r == stored_item(item),
{
    match item {
        ConversationItem::Input(t) => InOutItem::Input(t),
        ConversationItem::Output(t) => InOutItem::Output(t),
    }
}

/// All the wire items as they are stored, in order.
pub fn into_stored_items(items: Vec<ConversationItem>) -> (r: Vec<InOutItem>)
    ensures
        r@ == items@.map_values(|item: ConversationItem| stored_item(item)),
{
    let mut items = items;
    let ghost all = items@;
    let mut out: Vec<InOutItem> = Vec::new();
    while items.len() > 0
        invariant
            out@.len() + items@.len() == all.len(),
            items@ == all.skip(out@.len() as int),
            out@ == all.take(out@.len() as int).map_values(|item: ConversationItem| stored_item(item)),
        decreases items@.len(),
    {
        let ghost k = out@.len() as int;
        let item = items.remove(0);
        out.push(into_stored_item(item));
        assert(all.take(k + 1) =~= all.take(k).push(all[k]));
        assert(items@ =~= all.skip(k + 1));
    }
    assert(all.take(all.len() as int) =~= all);
    out
}

/// The items of a request that appends to a conversation, as stored. A
/// request must carry between 1 and 20 items.
pub fn prepare_item_batch(items: Vec<ConversationItem>) -> (r: Result<Vec<InOutItem>, ErrorResponse>)
    ensures
        r is Ok <==> 1 <= items@.len() <= 20,
        r matches Ok(stored) ==> stored@ == items@.map_values(|item: ConversationItem| stored_item(item)),
        r matches Err(e) ==> is_error(e, 400, "invalid_request_error"@, "items must contain between 1 and 20 items"@),
{
    if items.len() == 0 || items.len() > MAX_ITEMS_PER_REQUEST {
        return Err(error_response(400, "invalid_request_error", "items must contain between 1 and 20 items"));
    }
    Ok(into_stored_items(items))
}

/// The initial items of a new conversation, as stored. There may be none, and
/// at most 20.
pub fn prepare_initial_items(items: Option<Vec<ConversationItem>>) -> (r: Result<Vec<InOutItem>, ErrorResponse>)
    ensures
        r is Ok <==> (items matches Some(v) ==> v@.len() <= 20),
        r matches Ok(stored) ==> stored@ == (match items {
            Some(v) => v@.map_values(|item: ConversationItem| stored_item(item)),
            None => Seq::empty(),
        }),
        r matches Err(e) ==> is_error(e, 400, "invalid_request_error"@, "a conversation accepts at most 20 initial items"@),
{
    match items {
        Some(v) => if v.len() > MAX_ITEMS_PER_REQUEST {
            Err(error_response(400, "invalid_request_error", "a conversation accepts at most 20 initial items"))
        } else {
            Ok(into_stored_items(v))
        },
        None => Ok(Vec::new()),
    }
}

/// The number of items to fetch for a page of `limit` items: one more than
/// the page, to learn whether more follow. The limit must be between 1 and 100.
pub fn list_fetch_limit(limit: u8) -> (r: Result<i64, ErrorResponse>)
    ensures
        r is Ok <==> 1 <= limit <= 100,
        r matches Ok(n) ==> n == limit + 1,
        r matches Err(e) ==> is_error(e, 400, "invalid_request_error"@, "limit must be between 1 and 100"@),
{
    if limit < 1 || limit > MAX_LIST_LIMIT {
        return Err(error_response(400, "invalid_request_error", "limit must be between 1 and 100"));
    }
    Ok(limit as i64 + 1)
}

/// Cuts the fetched items to a page of `limit` items, telling whether more
/// items follow the page.
pub fn paginate(items: Vec<Item>, limit: u8) -> (r: (Vec<Item>, bool))
    ensures
        r.1 == (items@.len() > limit),
        r.0@ == (if items@.len() > limit {
            items@.take(limit as int)
        } else {
            items@
        }),
{
    let has_more = items.len() > limit as usize;
    let mut items = items;
    items.truncate(limit as usize);
    (items, has_more)
}

/// An item as answered to the client: its id and its content.
#[derive(Debug)]
pub struct ItemResponse {
    pub id: String,
    pub content: ConversationItem,
}

/// A page of items as answered to the client.
#[derive(Debug)]
pub struct ListItemsResponse {
    pub data: Vec<ItemResponse>,
    pub has_more: bool,
}

/// A conversation as answered to the client.
#[derive(Debug)]
pub struct ConversationResponse {
    pub id: String,
    pub object: String,
    pub created_at: String,
    /// The stored metadata, checked to be JSON text.
    pub metadata: Option<String>,
}

/// The answer to a deletion of a conversation.
#[derive(Debug)]
pub struct DeletedResponse {
    pub id: String,
    pub object: String,
    pub deleted: bool,
}

impl DeletedResponse {
    /// The answer to deleting the conversation `id`.
    pub fn conversation(id: String) -> (r: DeletedResponse)
        ensures
            r.id == id,
            r.object@ == "conversation.deleted"@,
            r.deleted,
    {
        DeletedResponse { id, object: String::from_str("conversation.deleted"), deleted: true }
    }
}

pub open spec fn decode_error(e: ErrorResponse) -> bool {
    is_error(e, 500, "storage_error"@, "failed to decode stored item"@)
}

/// A stored item as answered to the client, given its content as decoded from
/// the stored text; an item whose text could not be decoded is a server error.
pub fn item_response(item: Item, decoded: Option<InOutItem>) -> (r: Result<ItemResponse, ErrorResponse>)
    ensures
        r is Ok <==> decoded is Some,
        r matches Ok(resp) ==> resp.id == item.id && resp.content == wire_item(decoded->Some_0),
        r matches Err(e) ==> decode_error(e),
{
    match decoded {
        Some(InOutItem::Input(input)) => Ok(ItemResponse { id: item.id, content: ConversationItem::Input(input) }),
        Some(InOutItem::Output(output)) => Ok(ItemResponse { id: item.id, content: ConversationItem::Output(output) }),
        None => Err(error_response(500, "storage_error", "failed to decode stored item")),
    }
}

/// A page of stored items, each with its decoded content, as answered to the
/// client; if any item could not be decoded the page is a server error.
pub fn list_response(items: Vec<(Item, Option<InOutItem>)>, has_more: bool) -> (r: Result<ListItemsResponse, ErrorResponse>)
    ensures
        r is Ok <==> (forall|i: int| 0 <= i < items@.len() ==> (#[trigger] items@[i]).1 is Some),
        r matches Ok(resp) ==> {
            &&& resp.has_more == has_more
            &&& resp.data@.len() == items@.len()
            &&& forall|i: int|
                0 <= i < items@.len() ==> (#[trigger] resp.data@[i]).id == items@[i].0.id && resp.data@[i].content
                    == wire_item(items@[i].1->Some_0)
        },
        r matches Err(e) ==> decode_error(e),
{
    let ghost all = items@;
    let mut rest = items;
    let mut data: Vec<ItemResponse> = Vec::new();
    while rest.len() > 0
        invariant
            all == items@,
            data@.len() + rest@.len() == all.len(),
            rest@ == all.skip(data@.len() as int),
            forall|i: int| 0 <= i < data@.len() ==> (#[trigger] all[i]).1 is Some,
            forall|i: int|
                0 <= i < data@.len() ==> (#[trigger] data@[i]).id == all[i].0.id && data@[i].content == wire_item(
                    all[i].1->Some_0,
                ),
        decreases rest@.len(),
    {
        let ghost k = data@.len() as int;
        let (item, decoded) = rest.remove(0);
        assert(all[k] == (item, decoded));
        match item_response(item, decoded) {
            Ok(resp) => data.push(resp),
            Err(e) => {
                assert(!(all[k].1 is Some));
                return Err(e);
            },
        }
        assert(rest@ =~= all.skip(k + 1));
    }
    Ok(ListItemsResponse { data, has_more })
}

/// How a storage error is answered: a missing resource is 404, a cursor
/// without a sequence is a bad request, anything else a server error.
pub open spec fn storage_error_answer(e: ErrorResponse, error: StorageError) -> bool {
    match error {
        StorageError::NotFound { .. } => is_error(e, 404, "not_found"@, error.text()),
        StorageError::InvalidConversationSequence { .. } => is_error(e, 400, "invalid_request_error"@, error.text()),
        _ => is_error(e, 500, "storage_error"@, error.text()),
    }
}

/// The answer to a failed store operation.
pub fn storage_error(error: StorageError) -> (e: ErrorResponse)
    ensures
        storage_error_answer(e, error),
{
    let message = error.describe();
    let (status, error_type) = match &error {
        StorageError::NotFound { .. } => (404u16, "not_found"),
        StorageError::InvalidConversationSequence { .. } => (400u16, "invalid_request_error"),
        _ => (500u16, "storage_error"),
    };
    ErrorResponse { status, error_type: String::from_str(error_type), message }
}

/// A stored conversation as answered to the client, with its metadata text
/// checked to be JSON; metadata that does not parse is answered as the
/// serialization error that serde_json reports for it.
pub fn conversation_response(data: ConversationData) -> (r: Result<ConversationResponse, ErrorResponse>)
    ensures
        r is Ok <==> (data.metadata matches Some(text) ==> json_parses(text@)),
        r matches Ok(resp) ==> {
            &&& resp.id == data.conversation_id
            &&& resp.object@ == "conversation"@
            &&& resp.created_at == data.created_at
            &&& resp.metadata == data.metadata
        },
        r matches Err(e) ==> data.metadata is Some && is_error(
            e,
            500,
            "storage_error"@,
            "Serialization error: "@ + json_parse_error(data.metadata->Some_0@)->Some_0,
        ),
{
    match &data.metadata {
        Some(text) => match parse_json(text.as_str()) {
            Ok(_) => {},
            Err(message) => {
                return Err(storage_error(StorageError::Serialization(message)));
            },
        },
        None => {},
    }
    Ok(ConversationResponse {
        id: data.conversation_id,
        object: String::from_str("conversation"),
        created_at: data.created_at,
        metadata: data.metadata,
    })
}

/// The conversation endpoints whose store failures are answered directly.
#[derive(Clone, Copy, Debug, PartialEq, Eq, Structural)]
pub enum ConversationOperation {
    Create,
    Retrieve,
    Update,
    Delete,
}

impl ConversationOperation {
    pub open spec fn verb_text(self) -> Seq<char> {
        match self {
            ConversationOperation::Create => "create"@,
            ConversationOperation::Retrieve => "retrieve"@,
            ConversationOperation::Update => "update"@,
            ConversationOperation::Delete => "delete"@,
        }
    }

    fn verb(self) -> (s: &'static str)
        ensures
            s@ == self.verb_text(),
    {
        match self {
            ConversationOperation::Create => "create",
            ConversationOperation::Retrieve => "retrieve",
            ConversationOperation::Update => "update",
            ConversationOperation::Delete => "delete",
        }
    }
}

/// How a failed conversation operation is answered: when retrieving, updating
/// or deleting, a missing resource is 404 "Conversation not found"; every
/// other failure, and every failure to create, is a server error naming the
/// operation and the error.
pub open spec fn conversation_failure_answer(e: ErrorResponse, operation: ConversationOperation, error: StorageError) -> bool {
    if operation != ConversationOperation::Create && error is NotFound {
        is_error(e, 404, "not_found"@, "Conversation not found"@)
    } else {
        is_error(e, 500, "storage_error"@, "Failed to "@ + operation.verb_text() + " conversation: "@ + error.text())
    }
}

/// The answer to a failed conversation operation.
pub fn conversation_failure(operation: ConversationOperation, error: StorageError) -> (e: ErrorResponse)
    ensures
        conversation_failure_answer(e, operation, error),
{
    let missing = match &error {
        StorageError::NotFound { .. } => true,
        _ => false,
    };
    if missing && operation != ConversationOperation::Create {
        return error_response(404, "not_found", "Conversation not found");
    }
    let mut message = String::from_str("Failed to ");
    message.append(operation.verb());
    message.append(" conversation: ");
    let description = error.describe();
    message.append(description.as_str());
    ErrorResponse { status: 500, error_type: String::from_str("storage_error"), message }
}

/// The body of a request to create a conversation: metadata as JSON text and
/// initial items, both optional.
#[derive(Debug)]
pub struct CreateConversationRequest {
    pub metadata: Option<String>,
    pub items: Option<Vec<ConversationItem>>,
}

impl CreateConversationRequest {
    /// The request an empty body stands for: no metadata and no items.
    pub fn empty() -> (r: CreateConversationRequest)
        ensures
            r.metadata is None,
            r.items is None,
    {
        CreateConversationRequest { metadata: None, items: None }
    }
}

/// Whether a create-conversation body must be parsed: an empty body is a valid
/// request with no metadata and no items.
pub fn body_needs_parsing(body: &[u8]) -> (r: bool)
    ensures
        r == (body@.len() > 0),
{
    body.len() > 0
}


} // verus!

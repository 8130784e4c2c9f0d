use agentic_conversations::db::{DbAction, DbEvent, Step, StoreMachine};
use agentic_conversations::error::{DbError, Resource, StorageError, StoreResult};
use agentic_conversations::http::{conversation_response, list_fetch_limit, list_response, paginate};
use agentic_conversations::model::{ConversationItem, ConversationRow, InOutItem, Item, ItemOrder};
use agentic_conversations::store::{serialize_items, ConversationStore};

#[derive(Clone)]
struct Conv {
    id: String,
    tenant: Option<String>,
    metadata: Option<String>,
    revision: i64,
}

#[derive(Clone)]
struct It {
    id: String,
    conversation: Option<String>,
    seq: Option<i64>,
    data: String,
}

/// An in-memory database answering the store's actions, with rollback of an
/// open transaction when an operation fails.
#[derive(Clone, Default)]
struct FakeDb {
    convs: Vec<Conv>,
    items: Vec<It>,
    actions: Vec<String>,
}

fn row(c: &Conv) -> ConversationRow {
    ConversationRow {
        id: c.id.clone(),
        tenant_id: c.tenant.clone(),
        metadata: c.metadata.clone(),
        created_at: "2025-01-01T00:00:00Z".to_string(),
        revision: c.revision,
    }
}

fn item(i: &It) -> Item {
    Item { id: i.id.clone(), conversation_id: i.conversation.clone(), seq: i.seq, data: i.data.clone() }
}

impl FakeDb {
    fn owned(&self, tenant: &str, id: &str) -> Option<&Conv> {
        self.convs.iter().find(|c| c.id == id && c.tenant.as_deref() == Some(tenant))
    }

    fn perform(&mut self, action: DbAction) -> DbEvent {
        match action {
            DbAction::Begin => {
                self.actions.push("begin".into());
                DbEvent::Done
            }
            DbAction::Commit => {
                self.actions.push("commit".into());
                DbEvent::Done
            }
            DbAction::InsertConversation { id, tenant_id, metadata } => {
                self.actions.push("insert_conversation".into());
                let c = Conv { id, tenant: tenant_id, metadata, revision: 0 };
                self.convs.push(c.clone());
                DbEvent::Row(row(&c))
            }
            DbAction::InsertItems { conversation_id, items } => {
                self.actions.push("insert_items".into());
                let mut next = self
                    .items
                    .iter()
                    .filter(|i| i.conversation.as_deref() == Some(conversation_id.as_str()))
                    .filter_map(|i| i.seq)
                    .max()
                    .unwrap_or(0);
                let mut rows = Vec::new();
                for (id, data) in items {
                    next += 1;
                    let it = It { id, conversation: Some(conversation_id.clone()), seq: Some(next), data };
                    rows.push(item(&it));
                    self.items.push(it);
                }
                DbEvent::Items(rows)
            }
            DbAction::BumpRevision { conversation_id } => {
                self.actions.push("bump".into());
                for c in self.convs.iter_mut().filter(|c| c.id == conversation_id) {
                    c.revision += 1;
                }
                DbEvent::Done
            }
            DbAction::LockConversation { conversation_id } => {
                self.actions.push("lock".into());
                match self.convs.iter().find(|c| c.id == conversation_id) {
                    Some(c) => DbEvent::Row(row(c)),
                    None => DbEvent::Failed(DbError::RowNotFound),
                }
            }
            DbAction::DetachItems { conversation_id, item_id } => {
                self.actions.push("detach".into());
                let mut n = 0u64;
                for i in self.items.iter_mut() {
                    let matches_item = item_id.as_deref().map_or(true, |id| id == i.id);
                    if i.conversation.as_deref() == Some(conversation_id.as_str()) && matches_item {
                        i.conversation = None;
                        i.seq = None;
                        n += 1;
                    }
                }
                DbEvent::Affected(n)
            }
            DbAction::DeleteConversation { conversation_id } => {
                self.actions.push("delete_conversation".into());
                self.convs.retain(|c| c.id != conversation_id);
                DbEvent::Done
            }
            DbAction::FindConversation { tenant_id, conversation_id } => {
                self.actions.push("find_conversation".into());
                DbEvent::MaybeRow(self.owned(&tenant_id, &conversation_id).map(row))
            }
            DbAction::UpdateMetadata { tenant_id, conversation_id, metadata } => {
                self.actions.push("update_metadata".into());
                match self
                    .convs
                    .iter_mut()
                    .find(|c| c.id == conversation_id && c.tenant.as_deref() == Some(tenant_id.as_str()))
                {
                    Some(c) => {
                        c.metadata = Some(metadata);
                        DbEvent::Row(row(c))
                    }
                    None => DbEvent::Failed(DbError::RowNotFound),
                }
            }
            DbAction::FindItem { tenant_id, conversation_id, item_id } => {
                self.actions.push("find_item".into());
                if self.owned(&tenant_id, &conversation_id).is_none() {
                    return DbEvent::MaybeItem(None);
                }
                DbEvent::MaybeItem(
                    self.items
                        .iter()
                        .find(|i| i.id == item_id && i.conversation.as_deref() == Some(conversation_id.as_str()))
                        .map(item),
                )
            }
            DbAction::ListItems { tenant_id, conversation_id, limit, after_sequence, order } => {
                self.actions.push("list_items".into());
                if self.owned(&tenant_id, &conversation_id).is_none() {
                    return DbEvent::Items(vec![]);
                }
                let mut rows: Vec<&It> = self
                    .items
                    .iter()
                    .filter(|i| i.conversation.as_deref() == Some(conversation_id.as_str()))
                    .filter(|i| match (after_sequence, i.seq, order) {
                        (None, _, _) => true,
                        (Some(a), Some(s), ItemOrder::Asc) => s > a,
                        (Some(a), Some(s), ItemOrder::Desc) => s < a,
                        _ => false,
                    })
                    .collect();
                rows.sort_by_key(|i| i.seq);
                if order == ItemOrder::Desc {
                    rows.reverse();
                }
                DbEvent::Items(rows.into_iter().take(limit as usize).map(item).collect())
            }
        }
    }

    fn drive<M: StoreMachine>(&mut self, start: Step<M, M::Output>) -> StoreResult<M::Output> {
        let snapshot = (self.convs.clone(), self.items.clone());
        let mut step = start;
        loop {
            match step {
                Step::Next(machine, action) => {
                    let event = self.perform(action);
                    step = machine.step(event);
                }
                Step::Finished(result) => {
                    if result.is_err() {
                        self.convs = snapshot.0;
                        self.items = snapshot.1;
                    }
                    return result;
                }
            }
        }
    }
}

fn message(text: &str) -> InOutItem {
    InOutItem::Input(format!("{{\"type\":\"message\",\"role\":\"user\",\"content\":\"{text}\"}}"))
}

fn create(db: &mut FakeDb, tenant: &str, items: Vec<InOutItem>) -> String {
    let store = ConversationStore::new();
    let data = db.drive(store.create_with_metadata_and_items(Some(tenant), None, items)).unwrap();
    data.conversation_id
}

fn list(db: &mut FakeDb, tenant: &str, id: &str, limit: i64, after: Option<&str>, order: ItemOrder) -> StoreResult<Vec<Item>> {
    let store = ConversationStore::new();
    db.drive(store.list_items(tenant, id, limit, after, order))
}

fn is_not_found(r: &StorageError, resource: Resource) -> bool {
    matches!(r, StorageError::NotFound { resource: found, .. } if *found == resource)
}

#[test]
fn regression_openai_batch_item_request() {
    let mut db = FakeDb::default();
    let id = create(&mut db, "default_tenant", vec![]);
    let items = agentic_conversations::http::prepare_item_batch(vec![ConversationItem::Input(
        "{\"type\":\"message\",\"role\":\"user\",\"content\":\"hello\"}".to_string(),
    )])
    .ok()
    .unwrap();
    let rows = db.drive(ConversationStore::new().create_items("default_tenant", &id, items)).ok().unwrap();
    assert_eq!(rows.len(), 1);
}

#[test]
fn regression_list_wire_shape() {
    let mut db = FakeDb::default();
    let id = create(&mut db, "default_tenant", vec![message("hello")]);
    let limit = list_fetch_limit(20).ok().unwrap();
    let rows = list(&mut db, "default_tenant", &id, limit, None, ItemOrder::Desc).ok().unwrap();
    let (page, has_more) = paginate(rows, 20);
    let stored = page[0].data.clone();
    let decoded: Vec<(Item, Option<InOutItem>)> =
        page.into_iter().map(|i| { let d = i.data.clone(); (i, Some(InOutItem::Input(d))) }).collect();
    let body = list_response(decoded, has_more).ok().unwrap();
    match &body.data[0].content {
        ConversationItem::Input(text) | ConversationItem::Output(text) => {
            assert_eq!(text, &stored);
            assert!(text.contains("\"type\":\"message\""));
        }
    }
    assert!(!body.has_more);
}

#[test]
fn regression_list_descending_order() {
    let mut db = FakeDb::default();
    let id = create(&mut db, "default_tenant", vec![message("first"), message("last")]);
    let limit = list_fetch_limit(1).ok().unwrap();
    assert_eq!(limit, 2);
    let rows = list(&mut db, "default_tenant", &id, limit, None, ItemOrder::Desc).ok().unwrap();
    let (page, has_more) = paginate(rows, 1);
    assert_eq!(page.len(), 1);
    assert!(has_more);
    assert!(page[0].data.contains("\"content\":\"last\""));
}

#[test]
fn regression_delete_preserves_items() {
    let mut db = FakeDb::default();
    let id = create(&mut db, "default_tenant", vec![message("preserve me")]);
    let items = list(&mut db, "default_tenant", &id, 100, None, ItemOrder::Asc).ok().unwrap();
    db.drive(ConversationStore::new().delete("default_tenant", &id)).ok().unwrap();
    let preserved: Vec<&It> = db.items.iter().filter(|i| i.id == items[0].id).collect();
    assert_eq!(preserved.len(), 1);
    assert!(preserved[0].conversation.is_none() && preserved[0].seq.is_none());
    assert!(db.convs.is_empty());
}

#[test]
fn regression_cursor_follows_sequence() {
    let mut db = FakeDb::default();
    let id = create(&mut db, "default_tenant", vec![]);
    let ids = serialize_items(vec![message("hello"), message("hello")]).ok().unwrap();
    let (earlier_id, data) = ids[0].clone();
    let (later_id, _) = ids[1].clone();
    assert!(earlier_id < later_id);
    // Ids are allocated before storage is reached, so insertion order can differ from id order.
    db.perform(DbAction::InsertItems { conversation_id: id.clone(), items: vec![(later_id.clone(), data.clone())] });
    db.perform(DbAction::InsertItems { conversation_id: id.clone(), items: vec![(earlier_id.clone(), data)] });
    let page = list(&mut db, "default_tenant", &id, 1, None, ItemOrder::Asc).ok().unwrap();
    assert_eq!(page[0].id, later_id);
    let next = list(&mut db, "default_tenant", &id, 1, Some(&page[0].id), ItemOrder::Asc).ok().unwrap();
    assert_eq!(next.len(), 1, "second item skipped despite having the next sequence");
    assert_eq!(next[0].id, earlier_id);
}

#[test]
fn regression_delete_item_returns_conversation() {
    let mut db = FakeDb::default();
    let id = create(&mut db, "default_tenant", vec![message("hello")]);
    let items = list(&mut db, "default_tenant", &id, 100, None, ItemOrder::Asc).ok().unwrap();
    let data = db.drive(ConversationStore::new().delete_item("default_tenant", &id, &items[0].id)).ok().unwrap();
    let body = conversation_response(data).ok().unwrap();
    assert_eq!(body.object, "conversation");
    assert_eq!(body.id, id);
}

#[test]
fn item_operations_reject_another_tenant_and_another_conversations_cursor() {
    let mut db = FakeDb::default();
    let conv = create(&mut db, "tenant_a", vec![message("private")]);
    let other = create(&mut db, "tenant_a", vec![]);
    let items = list(&mut db, "tenant_a", &conv, 100, None, ItemOrder::Asc).ok().unwrap();
    let id = items[0].id.clone();
    let store = ConversationStore::new();
    assert!(db.drive(store.retrieve_item("tenant_b", &conv, &id)).is_err());
    assert!(db.drive(store.delete_item("tenant_b", &conv, &id)).is_err());
    assert!(db.drive(store.create_items("tenant_b", &conv, vec![message("injected")])).is_err());
    assert!(list(&mut db, "tenant_a", &other, 100, Some(&id), ItemOrder::Asc).is_err());
    assert_eq!(list(&mut db, "tenant_a", &conv, 100, None, ItemOrder::Asc).ok().unwrap().len(), 1);
}

#[test]
fn other_tenant_is_answered_not_found_without_writes() {
    let mut db = FakeDb::default();
    let conv = create(&mut db, "tenant_a", vec![message("private")]);
    db.actions.clear();
    let store = ConversationStore::new();
    let err = db.drive(store.create_items("tenant_b", &conv, vec![message("injected")])).err().unwrap();
    assert!(is_not_found(&err, Resource::Conversation));
    assert_eq!(db.actions, vec!["begin", "lock"]);
    db.actions.clear();
    let err = db.drive(store.delete("tenant_b", &conv)).err().unwrap();
    assert!(is_not_found(&err, Resource::Conversation));
    assert_eq!(db.actions, vec!["begin", "lock"]);
    assert_eq!(db.convs.len(), 1);
}

#[test]
fn create_items_bumps_revision_only_when_rows_were_inserted() {
    let mut db = FakeDb::default();
    let conv = create(&mut db, "t", vec![]);
    assert_eq!(db.convs[0].revision, 0);
    db.actions.clear();
    let rows = db.drive(ConversationStore::new().create_items("t", &conv, vec![message("a"), message("b")])).ok().unwrap();
    assert_eq!(rows.len(), 2);
    assert_eq!(rows[0].seq, Some(1));
    assert_eq!(rows[1].seq, Some(2));
    assert_eq!(db.actions, vec!["begin", "lock", "insert_items", "bump", "commit"]);
    assert_eq!(db.convs[0].revision, 1);
    db.actions.clear();
    let rows = db.drive(ConversationStore::new().create_items("t", &conv, vec![])).ok().unwrap();
    assert!(rows.is_empty());
    assert_eq!(db.actions, vec!["begin", "lock", "insert_items", "commit"]);
    assert_eq!(db.convs[0].revision, 1);
}

#[test]
fn create_conversation_with_items_bumps_revision() {
    let mut db = FakeDb::default();
    let store = ConversationStore::new();
    let data = db
        .drive(store.create_with_metadata_and_items(Some("t"), Some("{\"topic\":\"demo\"}".to_string()), vec![message("x")]))
        .ok()
        .unwrap();
    assert!(data.conversation_id.starts_with("conv_"));
    assert_eq!(data.conversation_id.len(), 5 + 32);
    assert!(data.conversation_id[5..].chars().all(|c| c.is_ascii_hexdigit() && !c.is_ascii_uppercase()));
    assert_eq!(data.metadata.as_deref(), Some("{\"topic\":\"demo\"}"));
    assert_eq!(db.actions, vec!["begin", "insert_conversation", "insert_items", "bump", "commit"]);
    assert_eq!(db.convs[0].revision, 1);
    db.actions.clear();
    db.drive(store.create_with_metadata_and_items(None, None, vec![])).ok().unwrap();
    assert_eq!(db.actions, vec!["begin", "insert_conversation", "commit"]);
}

#[test]
fn items_and_metadata_must_be_json() {
    let store = ConversationStore::new();
    let bad = vec![message("ok"), InOutItem::Output("{not json".to_string())];
    match store.create_items("t", "conv_x", bad) {
        Step::Finished(Err(StorageError::Serialization(_))) => {}
        _ => panic!("invalid item text accepted"),
    }
    match store.create_with_metadata_and_items(Some("t"), Some("[1,".to_string()), vec![]) {
        Step::Finished(Err(StorageError::Serialization(_))) => {}
        _ => panic!("invalid metadata accepted"),
    }
    match store.update_metadata("t", "conv_x", "nope".to_string()) {
        Step::Finished(Err(StorageError::Serialization(_))) => {}
        _ => panic!("invalid metadata accepted"),
    }
    assert!(matches!(serialize_items(vec![InOutItem::Input("".to_string())]), Err(StorageError::Serialization(_))));
    let first = serde_json::from_str::<serde_json::Value>("[1,").unwrap_err().to_string();
    match serialize_items(vec![message("ok"), InOutItem::Input("[1,".into()), InOutItem::Output("{x".into())]) {
        Err(StorageError::Serialization(m)) => assert_eq!(m, first),
        _ => panic!("invalid item text accepted"),
    }
}

#[test]
fn serialize_items_keeps_text_and_order_with_fresh_ids() {
    let pairs = serialize_items(vec![message("a"), message("b")]).ok().unwrap();
    assert_eq!(pairs.len(), 2);
    assert_eq!(pairs[0].1, "{\"type\":\"message\",\"role\":\"user\",\"content\":\"a\"}");
    assert_eq!(pairs[1].1, "{\"type\":\"message\",\"role\":\"user\",\"content\":\"b\"}");
    for (id, _) in &pairs {
        assert!(id.starts_with("item_"));
        assert_eq!(id.len(), 37);
    }
    assert_ne!(pairs[0].0, pairs[1].0);
    let many = serialize_items((0..20).map(|_| message("x")).collect()).ok().unwrap();
    for j in 0..many.len() {
        for k in j + 1..many.len() {
            assert_ne!(many[j].0, many[k].0);
        }
    }
}

#[test]
fn retrieve_and_update_metadata() {
    let mut db = FakeDb::default();
    let conv = create(&mut db, "t", vec![]);
    let store = ConversationStore::new();
    let data = db.drive(store.retrieve("t", &conv)).ok().unwrap();
    assert_eq!(data.conversation_id, conv);
    let err = db.drive(store.retrieve("u", &conv)).err().unwrap();
    assert!(matches!(err, StorageError::NotFound { resource: Resource::Conversation, ref id } if *id == conv));
    let data = db.drive(store.update_metadata("t", &conv, "{\"a\":\"b\"}".to_string())).ok().unwrap();
    assert_eq!(data.metadata.as_deref(), Some("{\"a\":\"b\"}"));
    let err = db.drive(store.update_metadata("u", &conv, "{}".to_string())).err().unwrap();
    assert!(is_not_found(&err, Resource::Conversation));
}

#[test]
fn delete_item_of_unknown_item_is_not_found_and_rolls_back() {
    let mut db = FakeDb::default();
    let conv = create(&mut db, "t", vec![message("a")]);
    db.actions.clear();
    let err = db.drive(ConversationStore::new().delete_item("t", &conv, "item_missing")).err().unwrap();
    assert!(matches!(err, StorageError::NotFound { resource: Resource::ConversationItem, ref id } if id == "item_missing"));
    assert_eq!(db.actions, vec!["begin", "lock", "detach"]);
    assert_eq!(db.convs[0].revision, 1);
}

#[test]
fn delete_item_unlinks_one_item_and_bumps_revision() {
    let mut db = FakeDb::default();
    let conv = create(&mut db, "t", vec![message("a"), message("b")]);
    let items = list(&mut db, "t", &conv, 100, None, ItemOrder::Asc).ok().unwrap();
    db.actions.clear();
    let data = db.drive(ConversationStore::new().delete_item("t", &conv, &items[0].id)).ok().unwrap();
    assert_eq!(data.conversation_id, conv);
    assert_eq!(db.actions, vec!["begin", "lock", "detach", "bump", "commit"]);
    assert_eq!(db.convs[0].revision, 2);
    let rest = list(&mut db, "t", &conv, 100, None, ItemOrder::Asc).ok().unwrap();
    assert_eq!(rest.len(), 1);
    assert_eq!(rest[0].id, items[1].id);
    assert_eq!(db.items.len(), 2);
}

#[test]
fn list_errors_for_missing_conversation_cursor_and_sequence() {
    let mut db = FakeDb::default();
    let conv = create(&mut db, "t", vec![message("a")]);
    let err = list(&mut db, "t", "conv_missing", 10, None, ItemOrder::Asc).err().unwrap();
    assert!(matches!(err, StorageError::NotFound { resource: Resource::Conversation, ref id } if id == "conv_missing"));
    let err = list(&mut db, "t", &conv, 10, Some("item_missing"), ItemOrder::Asc).err().unwrap();
    assert!(matches!(err, StorageError::NotFound { resource: Resource::ConversationItem, ref id } if id == "item_missing"));
    // A cursor item found without a sequence number is refused.
    let store = ConversationStore::new();
    let step = store.list_items("t", &conv, 10, Some("item_x"), ItemOrder::Asc);
    let machine = match step {
        Step::Next(m, _) => m,
        Step::Finished(_) => panic!("listing finished before asking the database"),
    };
    let step = machine.step(DbEvent::MaybeRow(Some(ConversationRow {
        id: conv.clone(),
        tenant_id: Some("t".into()),
        metadata: None,
        created_at: String::new(),
        revision: 0,
    })));
    let machine = match step {
        Step::Next(m, DbAction::FindItem { item_id, .. }) => {
            assert_eq!(item_id, "item_x");
            m
        }
        _ => panic!("cursor not looked up"),
    };
    let item = Item { id: "item_x".into(), conversation_id: Some(conv.clone()), seq: None, data: "{}".into() };
    match machine.step(DbEvent::MaybeItem(Some(item))) {
        Step::Finished(Err(StorageError::InvalidConversationSequence { conversation_id, item_id })) => {
            assert_eq!(conversation_id, conv);
            assert_eq!(item_id, "item_x");
        }
        _ => panic!("cursor without sequence accepted"),
    }
}

#[test]
fn descending_cursor_pages_backwards() {
    let mut db = FakeDb::default();
    let conv = create(&mut db, "t", vec![message("1"), message("2"), message("3")]);
    let all = list(&mut db, "t", &conv, 100, None, ItemOrder::Desc).ok().unwrap();
    assert_eq!(all.iter().map(|i| i.seq.unwrap()).collect::<Vec<_>>(), vec![3, 2, 1]);
    let after = list(&mut db, "t", &conv, 100, Some(&all[0].id), ItemOrder::Desc).ok().unwrap();
    assert_eq!(after.iter().map(|i| i.seq.unwrap()).collect::<Vec<_>>(), vec![2, 1]);
}

#[test]
fn database_failures_and_unexpected_replies() {
    let store = ConversationStore::new();
    let machine = match store.delete("t", "conv_x") {
        Step::Next(m, DbAction::Begin) => m,
        _ => panic!("delete does not begin a transaction"),
    };
    match machine.step(DbEvent::Failed(DbError::Other("disk I/O error".into()))) {
        Step::Finished(Err(StorageError::Database(DbError::Other(m)))) => assert_eq!(m, "disk I/O error"),
        _ => panic!("database failure not reported"),
    }
    let machine = match store.delete("t", "conv_x") {
        Step::Next(m, _) => m,
        _ => unreachable!(),
    };
    match machine.step(DbEvent::Affected(3)) {
        Step::Finished(Err(StorageError::Database(DbError::UnexpectedReply))) => {}
        _ => panic!("unexpected reply accepted"),
    }
    let mut db = FakeDb::default();
    let err = db.drive(store.delete("t", "conv_missing")).err().unwrap();
    assert!(matches!(err, StorageError::NotFound { resource: Resource::Conversation, ref id } if id == "conv_missing"));
}

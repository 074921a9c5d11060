use homogrape::backend::{Backend, BackendError};
use homogrape::handle::{ChatHandle, HandleKind};
use homogrape::types::{ChatType, NativeChat, NativePackedChat};

type BootBackend = Backend<u8, u8, u8>;

fn boot_handle(kind: HandleKind, id: i64, access_hash: Option<i64>) -> ChatHandle {
    ChatHandle { kind, id, access_hash }
}

fn boot_record(chat_id: i64, handle: &ChatHandle) -> NativePackedChat {
    NativePackedChat { chat_id, packed_chat: handle.to_hex() }
}

fn boot_summary(chat_id: i64, name: &str, last_message_id: i32) -> NativeChat {
    NativeChat {
        chat_id,
        chat_type: ChatType::User,
        name: name.to_string(),
        pinned: false,
        last_message_id,
        last_message_sender_name: "".to_string(),
        last_message_text: "".to_string(),
        last_message_timestamp: 0,
        megagroup: false,
        forum: false,
    }
}

#[test]
fn new_backend_knows_no_chat() {
    let backend = BootBackend::new(2);
    assert_eq!(backend.get_chat(100), None);
    assert_eq!(backend.get_seen_packed_chat(100), None);
    assert!(backend.get_chats_map().is_empty());
}

#[test]
fn bootstrap_merges_handles_and_summaries() {
    let mut backend = BootBackend::new(2);
    let alice = boot_handle(HandleKind::User, 100, Some(11));
    let news = boot_handle(HandleKind::Broadcast, 200, Some(22));
    let result = backend.sync_caches_from_local_db(
        vec![boot_record(100, &alice), boot_record(200, &news)],
        vec![boot_summary(100, "Alice", 5), boot_summary(200, "News", 9)],
    );
    assert_eq!(result, Ok(()));
    assert_eq!(backend.get_seen_packed_chat(100), Some(alice));
    assert_eq!(backend.get_seen_packed_chat(200), Some(news));
    assert_eq!(backend.get_seen_packed_chat(300), None);
    assert_eq!(backend.get_chat(100), Some(boot_summary(100, "Alice", 5)));
    assert_eq!(backend.get_chat(200), Some(boot_summary(200, "News", 9)));
    assert_eq!(backend.get_chat(300), None);
    assert_eq!(backend.get_chats_map().len(), 2);
}

#[test]
fn bootstrap_overwrites_on_conflict() {
    let mut backend = BootBackend::new(2);
    let old = boot_handle(HandleKind::User, 100, Some(1));
    let new = boot_handle(HandleKind::Bot, 100, Some(2));
    backend.insert_seen_packed_chat(&old);
    backend.insert_chat_to(&boot_summary(100, "Old", 1));
    let result = backend.sync_caches_from_local_db(
        vec![boot_record(100, &old), boot_record(100, &new)],
        vec![boot_summary(100, "Middle", 2), boot_summary(100, "New", 3)],
    );
    assert_eq!(result, Ok(()));
    assert_eq!(backend.get_seen_packed_chat(100), Some(new));
    assert_eq!(backend.get_chat(100), Some(boot_summary(100, "New", 3)));
}

#[test]
fn bootstrap_stores_a_handle_under_the_id_of_its_record() {
    let mut backend = BootBackend::new(2);
    let handle = boot_handle(HandleKind::User, 7, None);
    let result = backend.sync_caches_from_local_db(vec![boot_record(100, &handle)], vec![]);
    assert_eq!(result, Ok(()));
    assert_eq!(backend.get_seen_packed_chat(100), Some(handle));
    assert_eq!(backend.get_seen_packed_chat(7), None);
}

#[test]
fn bootstrap_is_idempotent() {
    let alice = boot_handle(HandleKind::User, 100, Some(11));
    let again = boot_handle(HandleKind::User, 100, Some(12));
    let news = boot_handle(HandleKind::Broadcast, 200, None);
    let records = vec![
        boot_record(100, &alice),
        boot_record(200, &news),
        boot_record(100, &again),
    ];
    let summaries = vec![
        boot_summary(100, "Alice", 5),
        boot_summary(200, "News", 9),
        boot_summary(100, "Alice again", 6),
    ];

    let mut once = BootBackend::new(2);
    assert_eq!(once.sync_caches_from_local_db(records.clone(), summaries.clone()), Ok(()));
    let mut twice = BootBackend::new(2);
    assert_eq!(twice.sync_caches_from_local_db(records.clone(), summaries.clone()), Ok(()));
    assert_eq!(twice.sync_caches_from_local_db(records, summaries), Ok(()));

    for chat_id in [100, 200, 300] {
        assert_eq!(once.get_seen_packed_chat(chat_id), twice.get_seen_packed_chat(chat_id));
        assert_eq!(once.get_chat(chat_id), twice.get_chat(chat_id));
    }
    assert_eq!(once.get_seen_packed_chat(100), Some(again));
    assert_eq!(once.get_chat(100), Some(boot_summary(100, "Alice again", 6)));
    assert_eq!(once.get_chats_map().len(), twice.get_chats_map().len());
}

#[test]
fn bootstrap_stops_at_a_record_that_is_no_handle() {
    let mut backend = BootBackend::new(2);
    let alice = boot_handle(HandleKind::User, 100, Some(11));
    let news = boot_handle(HandleKind::Broadcast, 300, None);
    let result = backend.sync_caches_from_local_db(
        vec![
            boot_record(100, &alice),
            NativePackedChat { chat_id: 200, packed_chat: "abc".to_string() },
            boot_record(300, &news),
        ],
        vec![boot_summary(100, "Alice", 5)],
    );
    assert_eq!(result, Err(BackendError::InvalidHandle));
    assert_eq!(backend.get_seen_packed_chat(100), Some(alice));
    assert_eq!(backend.get_seen_packed_chat(200), None);
    assert_eq!(backend.get_seen_packed_chat(300), None);
    assert_eq!(backend.get_chat(100), None);
}

#[test]
fn bootstrap_with_nothing_changes_nothing() {
    let mut backend = BootBackend::new(2);
    backend.insert_chat_to(&boot_summary(1, "Kept", 1));
    assert_eq!(backend.sync_caches_from_local_db(vec![], vec![]), Ok(()));
    assert_eq!(backend.get_chat(1), Some(boot_summary(1, "Kept", 1)));
    assert_eq!(backend.available_permits(), 2);
}

#[test]
fn handles_written_as_text_are_read_back_by_the_bootstrap() {
    let mut backend = BootBackend::new(2);
    let kinds = [
        HandleKind::User,
        HandleKind::Bot,
        HandleKind::Chat,
        HandleKind::Megagroup,
        HandleKind::Broadcast,
        HandleKind::Gigagroup,
    ];
    let mut records = Vec::new();
    for (index, kind) in kinds.iter().enumerate() {
        let handle = boot_handle(*kind, index as i64, Some(-(index as i64)));
        records.push(boot_record(index as i64, &handle));
    }
    assert_eq!(backend.sync_caches_from_local_db(records, vec![]), Ok(()));
    for (index, kind) in kinds.iter().enumerate() {
        assert_eq!(
            backend.get_seen_packed_chat(index as i64),
            Some(boot_handle(*kind, index as i64, Some(-(index as i64))))
        );
    }
}

#[test]
fn chats_map_is_a_copy() {
    let mut backend = BootBackend::new(2);
    backend.insert_chat_to(&boot_summary(1, "Kept", 1));
    let copy = backend.get_chats_map();
    copy.insert(2, boot_summary(2, "Elsewhere", 2));
    copy.remove(&1);
    assert_eq!(backend.get_chat(1), Some(boot_summary(1, "Kept", 1)));
    assert_eq!(backend.get_chat(2), None);
    assert_eq!(backend.get_chats_map().len(), 1);
}

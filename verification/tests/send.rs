use homogrape::backend::message::{
    media_downloaded, plan_media_fetch, MediaFetch, SendPlan,
};
use homogrape::backend::{Backend, BackendError};
use homogrape::device::{register_device, PUSH_TOKEN_TYPE};
use homogrape::handle::{ChatHandle, HandleKind};
use homogrape::raw::{RawChat, RawMessage, RawUser};
use homogrape::reconnect::{HomoReconnectPolicy, RETRY_DELAY_SECONDS};
use homogrape::types::NativeMessage;
use std::cmp::Ordering;
use std::ops::ControlFlow;

type SendBackend = Backend<u8, u8, u8>;

fn send_handle(id: i64) -> ChatHandle {
    ChatHandle { kind: HandleKind::Chat, id, access_hash: None }
}

fn send_message_in(chat_id: i64, message_id: i32) -> NativeMessage {
    let chat = RawChat::User(RawUser {
        id: chat_id,
        packed: send_handle(chat_id),
        contact: false,
        mutual_contact: false,
        phone: None,
        username: None,
        full_name: "U".to_string(),
        first_name: "U".to_string(),
        last_name: None,
        photo: None,
    });
    NativeMessage::from_raw(&RawMessage {
        id: message_id,
        chat,
        sender: None,
        outgoing: true,
        pinned: false,
        date: 0,
        text: "t".to_string(),
        media: None,
        edit_date: None,
        grouped_id: None,
        reply_to_message_id: None,
    })
}

#[test]
fn sending_to_an_unknown_chat_is_surfaced() {
    let backend = SendBackend::new(1);
    assert!(matches!(
        backend.send_message(5, "hi".to_string(), None),
        Err(BackendError::UnknownChat)
    ));
    assert!(matches!(
        backend.send_message(5, "hi".to_string(), Some(vec!["a.jpg".to_string()])),
        Err(BackendError::UnknownChat)
    ));
}

#[test]
fn sending_a_text() {
    let mut backend = SendBackend::new(1);
    backend.insert_seen_packed_chat(&send_handle(5));
    match backend.send_message(5, "hi".to_string(), None) {
        Ok(SendPlan::Text { to, text }) => {
            assert_eq!(to, send_handle(5));
            assert_eq!(text, "hi");
        }
        other => panic!("expected a text, got {:?}", other),
    }
}

#[test]
fn sending_an_album_puts_the_text_on_the_first_file() {
    let mut backend = SendBackend::new(1);
    backend.insert_seen_packed_chat(&send_handle(5));
    let files = vec!["/tmp/a.jpg".to_string(), "/tmp/b.jpg".to_string(), "c.jpg".to_string()];
    match backend.send_message(5, "look".to_string(), Some(files)) {
        Ok(SendPlan::Album { to, items }) => {
            assert_eq!(to, send_handle(5));
            let paths: Vec<&str> = items.iter().map(|i| i.path.as_str()).collect();
            let captions: Vec<&str> = items.iter().map(|i| i.caption.as_str()).collect();
            assert_eq!(paths, vec!["/tmp/a.jpg", "/tmp/b.jpg", "c.jpg"]);
            assert_eq!(captions, vec!["look", "", ""]);
        }
        other => panic!("expected an album, got {:?}", other),
    }
}

#[test]
fn sending_an_album_without_files() {
    let mut backend = SendBackend::new(1);
    backend.insert_seen_packed_chat(&send_handle(5));
    match backend.send_message(5, "look".to_string(), Some(Vec::new())) {
        Ok(SendPlan::Album { items, .. }) => assert!(items.is_empty()),
        other => panic!("expected an album, got {:?}", other),
    }
}

#[test]
fn media_request_names_handle_and_paths() {
    let mut backend = SendBackend::new(1);
    assert!(matches!(
        backend.download_media_from_message(5, 9),
        Err(BackendError::UnknownChat)
    ));
    backend.insert_seen_packed_chat(&send_handle(5));
    let request = backend.download_media_from_message(5, 9).unwrap();
    assert_eq!(request.chat, send_handle(5));
    assert_eq!(request.message_id, 9);
    assert_eq!(request.download_dir, "/data/storage/el2/base/downloads//5/");
    assert_eq!(request.download_path, "/data/storage/el2/base/downloads//5/9.jpg");
}

#[test]
fn media_fetch_plan_for_each_answer() {
    assert_eq!(plan_media_fetch(&None, false, false), Err(BackendError::Transport));
    assert_eq!(
        plan_media_fetch(&Some(vec![]), true, true),
        Err(BackendError::MessageNotFound)
    );
    assert_eq!(
        plan_media_fetch(&Some(vec![false]), true, true),
        Err(BackendError::MessageNotFound)
    );
    assert_eq!(
        plan_media_fetch(&Some(vec![true, false]), false, true),
        Err(BackendError::MessageNotFound)
    );
    assert_eq!(plan_media_fetch(&Some(vec![true]), true, true), Ok(MediaFetch::Stored));
    assert_eq!(plan_media_fetch(&Some(vec![false, true]), true, false), Ok(MediaFetch::Stored));
    assert_eq!(
        plan_media_fetch(&Some(vec![true]), false, true),
        Ok(MediaFetch::Fetch { create_dir: false })
    );
    assert_eq!(
        plan_media_fetch(&Some(vec![true]), false, false),
        Ok(MediaFetch::Fetch { create_dir: true })
    );
}

#[test]
fn media_download_answer() {
    assert_eq!(media_downloaded("p.jpg".to_string(), Some(true)), Ok("p.jpg".to_string()));
    assert_eq!(
        media_downloaded("p.jpg".to_string(), Some(false)),
        Err(BackendError::DownloadFailed)
    );
    assert_eq!(media_downloaded("p.jpg".to_string(), None), Err(BackendError::Transport));
}

#[test]
fn device_registration_request() {
    let request = register_device("push-token".to_string());
    assert!(!request.no_muted);
    assert_eq!(request.token_type, 13);
    assert_eq!(PUSH_TOKEN_TYPE, 13);
    assert_eq!(request.token, "push-token");
    assert!(!request.app_sandbox);
    assert!(request.secret.is_empty());
    assert!(request.other_uids.is_empty());
}

#[test]
fn reconnect_is_always_tried_again_after_one_second() {
    for attempts in [0, 1, 5, usize::MAX] {
        assert_eq!(HomoReconnectPolicy.should_retry(attempts), ControlFlow::Continue(1));
    }
    assert_eq!(RETRY_DELAY_SECONDS, 1);
}

#[test]
fn messages_are_ordered_by_chat_with_the_greater_id_first() {
    let low = send_message_in(1, 50);
    let high = send_message_in(2, 10);
    let same = send_message_in(2, 99);
    assert_eq!(low.cmp(&high), Ordering::Greater);
    assert_eq!(high.cmp(&low), Ordering::Less);
    assert_eq!(high.cmp(&same), Ordering::Equal);
    assert_eq!(low.partial_cmp(&high), Some(Ordering::Greater));
    assert_eq!(high.partial_cmp(&same), Some(Ordering::Equal));
    assert!(high < low);
    assert!(low > high);
    assert!(high <= same && high >= same);
    assert_ne!(high, same);
}

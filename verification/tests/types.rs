use homogrape::handle::{ChatHandle, HandleKind};
use homogrape::raw::{
    RawChannel, RawChat, RawDialog, RawGroup, RawMedia, RawMessage, RawPhoto, RawUser,
};
use homogrape::types::{
    ChatType, LoginState, MediaType, NativeChat, NativeMessage, NativeSeenChat,
};

fn types_user(id: i64, first_name: &str) -> RawUser {
    RawUser {
        id,
        packed: ChatHandle { kind: HandleKind::User, id, access_hash: Some(77) },
        contact: true,
        mutual_contact: false,
        phone: Some("15550000".to_string()),
        username: Some("alice".to_string()),
        full_name: format!("{} Liddell", first_name),
        first_name: first_name.to_string(),
        last_name: Some("Liddell".to_string()),
        photo: Some(RawPhoto { stripped_thumb: Some(vec![1, 2, 3]) }),
    }
}

fn types_group(id: i64, megagroup: bool, channel_forum: Option<bool>) -> RawGroup {
    RawGroup {
        id,
        packed: ChatHandle { kind: HandleKind::Chat, id, access_hash: None },
        title: "Tea party".to_string(),
        megagroup,
        channel_forum,
        photo: None,
    }
}

fn types_channel(id: i64, forum: bool) -> RawChannel {
    RawChannel {
        id,
        packed: ChatHandle { kind: HandleKind::Broadcast, id, access_hash: Some(5) },
        title: "News".to_string(),
        username: Some("news".to_string()),
        forum,
        photo: Some(RawPhoto { stripped_thumb: None }),
    }
}

fn types_message(id: i32, chat: RawChat, sender: Option<RawChat>, text: &str) -> RawMessage {
    RawMessage {
        id,
        chat,
        sender,
        outgoing: false,
        pinned: true,
        date: 1_700_000_000,
        text: text.to_string(),
        media: Some(RawMedia::Photo),
        edit_date: Some(1_700_000_100),
        grouped_id: Some(9),
        reply_to_message_id: Some(3),
    }
}

#[test]
fn media_type_of_each_kind_of_media() {
    assert_eq!(MediaType::from(None), MediaType::NoMedia);
    assert_eq!(MediaType::from(Some(RawMedia::Photo)), MediaType::Photo);
    assert_eq!(MediaType::from(Some(RawMedia::Document)), MediaType::Document);
    assert_eq!(MediaType::from(Some(RawMedia::Sticker)), MediaType::Sticker);
    assert_eq!(MediaType::from(Some(RawMedia::Contact)), MediaType::Contact);
    assert_eq!(MediaType::from(Some(RawMedia::Poll)), MediaType::Poll);
    assert_eq!(MediaType::from(Some(RawMedia::Geo)), MediaType::Geo);
    assert_eq!(MediaType::from(Some(RawMedia::Dice)), MediaType::Dice);
    assert_eq!(MediaType::from(Some(RawMedia::Venue)), MediaType::Venue);
    assert_eq!(MediaType::from(Some(RawMedia::GeoLive)), MediaType::GeoLive);
    assert_eq!(MediaType::from(Some(RawMedia::WebPage)), MediaType::WebPage);
    assert_eq!(MediaType::from(Some(RawMedia::Other)), MediaType::NoMedia);
}

#[test]
fn login_states_are_told_apart() {
    assert_eq!(LoginState::LoggedIn, LoginState::LoggedIn);
    assert_ne!(LoginState::WrongCode, LoginState::CodeRequired);
    assert_ne!(LoginState::WrongPassword, LoginState::PasswordRequired);
    assert_ne!(LoginState::WrongPhoneNumber, LoginState::LoginFailure);
}

#[test]
fn message_snapshot_with_sender() {
    let chat = RawChat::Group(types_group(-10, false, None));
    let sender = RawChat::User(types_user(7, "Alice"));
    let message = NativeMessage::from_raw(&types_message(12, chat, Some(sender), "hello"));
    assert_eq!(
        message,
        NativeMessage {
            message_id: 12,
            chat_id: -10,
            outgoing: false,
            pinned: true,
            sender_id: 7,
            sender_name: "Alice".to_string(),
            timestamp: 1_700_000_000,
            text: "hello".to_string(),
            media_type: MediaType::Photo,
            edit_timestamp: Some(1_700_000_100),
            grouped_id: Some(9),
            reply_to_message_id: Some(3),
        }
    );
}

#[test]
fn message_snapshot_without_sender() {
    let chat = RawChat::Channel(types_channel(55, false));
    let mut raw = types_message(1, chat, None, "");
    raw.media = None;
    raw.edit_date = None;
    raw.grouped_id = None;
    raw.reply_to_message_id = None;
    let message = NativeMessage::from_raw(&raw);
    assert_eq!(message.sender_id, -1);
    assert_eq!(message.sender_name, "");
    assert_eq!(message.chat_id, 55);
    assert_eq!(message.media_type, MediaType::NoMedia);
    assert_eq!(message.edit_timestamp, None);
    assert_eq!(message.grouped_id, None);
    assert_eq!(message.reply_to_message_id, None);
}

#[test]
fn message_clone_is_equal() {
    let chat = RawChat::User(types_user(3, "Bob"));
    let message = NativeMessage::from_raw(&types_message(4, chat, None, "copy me"));
    assert_eq!(message.clone(), message);
}

#[test]
fn chat_type_of_each_kind_of_chat() {
    assert_eq!(ChatType::from_chat(&RawChat::User(types_user(1, "A"))), ChatType::User);
    assert_eq!(
        ChatType::from_chat(&RawChat::Group(types_group(2, false, None))),
        ChatType::Group
    );
    assert_eq!(
        ChatType::from_chat(&RawChat::Channel(types_channel(3, false))),
        ChatType::Channel
    );
    let dialog = RawDialog {
        chat: RawChat::Channel(types_channel(3, false)),
        pinned: false,
        last_message: None,
    };
    assert_eq!(ChatType::from_dialog(&dialog), ChatType::Channel);
}

#[test]
fn chat_summary_of_user() {
    let chat = NativeChat::from_raw(&RawChat::User(types_user(100, "Alice")));
    assert_eq!(
        chat,
        NativeChat {
            chat_id: 100,
            chat_type: ChatType::User,
            name: "Alice".to_string(),
            pinned: false,
            last_message_id: 0,
            last_message_sender_name: "".to_string(),
            last_message_text: "".to_string(),
            last_message_timestamp: 0,
            megagroup: false,
            forum: false,
        }
    );
}

#[test]
fn chat_summary_megagroup_and_forum_flags() {
    let plain = NativeChat::from_raw(&RawChat::Group(types_group(1, false, Some(true))));
    assert!(!plain.megagroup);
    assert!(!plain.forum);
    let mega = NativeChat::from_raw(&RawChat::Group(types_group(1, true, Some(false))));
    assert!(mega.megagroup);
    assert!(!mega.forum);
    let mega_without_channel = NativeChat::from_raw(&RawChat::Group(types_group(1, true, None)));
    assert!(mega_without_channel.megagroup);
    assert!(!mega_without_channel.forum);
    let forum = NativeChat::from_raw(&RawChat::Group(types_group(1, true, Some(true))));
    assert!(forum.megagroup);
    assert!(forum.forum);
    let channel = NativeChat::from_raw(&RawChat::Channel(types_channel(2, true)));
    assert!(!channel.megagroup);
    assert!(!channel.forum);
    assert_eq!(channel.name, "News");
}

#[test]
fn chat_summary_of_dialog_with_last_message() {
    let chat = RawChat::Group(types_group(-10, true, Some(true)));
    let sender = RawChat::User(types_user(7, "Alice"));
    let dialog = RawDialog {
        chat: chat.clone(),
        pinned: true,
        last_message: Some(types_message(31, chat, Some(sender), "latest")),
    };
    let summary = NativeChat::from_dialog(dialog);
    assert_eq!(
        summary,
        NativeChat {
            chat_id: -10,
            chat_type: ChatType::Group,
            name: "Tea party".to_string(),
            pinned: true,
            last_message_id: 31,
            last_message_sender_name: "Alice".to_string(),
            last_message_text: "latest".to_string(),
            last_message_timestamp: 1_700_000_000,
            megagroup: true,
            forum: true,
        }
    );
}

#[test]
fn chat_summary_of_dialog_without_last_message() {
    let dialog = RawDialog {
        chat: RawChat::User(types_user(5, "Eve")),
        pinned: true,
        last_message: None,
    };
    let summary = NativeChat::from_dialog(dialog);
    assert!(summary.pinned);
    assert_eq!(summary.last_message_id, 0);
    assert_eq!(summary.last_message_sender_name, "");
    assert_eq!(summary.last_message_text, "");
    assert_eq!(summary.last_message_timestamp, 0);
}

#[test]
fn chat_summary_of_dialog_whose_last_message_has_no_sender() {
    let chat = RawChat::Channel(types_channel(8, false));
    let dialog = RawDialog {
        chat: chat.clone(),
        pinned: false,
        last_message: Some(types_message(2, chat, None, "post")),
    };
    let summary = NativeChat::from_dialog(dialog);
    assert_eq!(summary.last_message_sender_name, "");
    assert_eq!(summary.last_message_id, 2);
    assert_eq!(summary.last_message_text, "post");
}

#[test]
fn set_last_message_replaces_the_four_fields() {
    let chat = RawChat::User(types_user(100, "Alice"));
    let mut summary = NativeChat::from_raw(&chat);
    summary.pinned = true;
    let sender = RawChat::User(types_user(9, "Bob"));
    let message = NativeMessage::from_raw(&types_message(6, chat, Some(sender), "hi"));
    summary.set_last_message(&message);
    assert_eq!(summary.last_message_id, 6);
    assert_eq!(summary.last_message_sender_name, "Bob");
    assert_eq!(summary.last_message_text, "hi");
    assert_eq!(summary.last_message_timestamp, 1_700_000_000);
    assert_eq!(summary.name, "Alice");
    assert!(summary.pinned);
}

#[test]
fn seen_chat_of_user() {
    let user = types_user(100, "Alice");
    let seen = NativeSeenChat::from_user(&user);
    assert_eq!(
        seen,
        NativeSeenChat {
            chat_id: 100,
            chat_type: ChatType::User,
            packed_chat: user.packed.to_hex(),
            is_contact: true,
            is_mutual_contact: false,
            phone: Some("15550000".to_string()),
            username: Some("alice".to_string()),
            photo_thumb: Some(vec![1, 2, 3]),
            full_name: "Alice Liddell".to_string(),
            first_name: "Alice".to_string(),
            last_name: Some("Liddell".to_string()),
            bio: None,
            date_of_birth: None,
            forum: false,
        }
    );
    assert_eq!(seen, NativeSeenChat::from_raw(&RawChat::User(user)));
}

#[test]
fn seen_chat_of_group() {
    let group = types_group(-10, true, Some(true));
    let seen = NativeSeenChat::from_group(&group);
    assert_eq!(seen.chat_id, -10);
    assert_eq!(seen.chat_type, ChatType::Group);
    assert_eq!(seen.packed_chat, group.packed.to_hex());
    assert!(!seen.is_contact);
    assert!(!seen.is_mutual_contact);
    assert_eq!(seen.phone, None);
    assert_eq!(seen.username, None);
    assert_eq!(seen.photo_thumb, None);
    assert_eq!(seen.full_name, "Tea party");
    assert_eq!(seen.first_name, "Tea party");
    assert_eq!(seen.last_name, None);
    assert!(!seen.forum);
    assert_eq!(seen, NativeSeenChat::from_raw(&RawChat::Group(group)));
}

#[test]
fn seen_chat_of_channel() {
    let channel = types_channel(55, true);
    let seen = NativeSeenChat::from_channel(&channel);
    assert_eq!(seen.chat_id, 55);
    assert_eq!(seen.chat_type, ChatType::Channel);
    assert_eq!(seen.packed_chat, channel.packed.to_hex());
    assert_eq!(seen.username, Some("news".to_string()));
    assert_eq!(seen.photo_thumb, None);
    assert_eq!(seen.full_name, "News");
    assert_eq!(seen.first_name, "News");
    assert!(seen.forum);
    assert_eq!(seen, NativeSeenChat::from_raw(&RawChat::Channel(channel)));
}

#[test]
fn raw_chat_id_name_and_pack() {
    let user = RawChat::User(types_user(100, "Alice"));
    assert_eq!(user.id(), 100);
    assert_eq!(user.name(), "Alice");
    assert_eq!(
        user.pack(),
        ChatHandle { kind: HandleKind::User, id: 100, access_hash: Some(77) }
    );
    let group = RawChat::Group(types_group(-10, false, None));
    assert_eq!(group.id(), -10);
    assert_eq!(group.name(), "Tea party");
    let channel = RawChat::Channel(types_channel(55, false));
    assert_eq!(channel.id(), 55);
    assert_eq!(channel.name(), "News");
}

//! The values that cross the boundary to the host: login states, chat
//! summaries, messages and chat descriptions.

use crate::handle::{handle_of_hex, hex_of_handle};
use crate::raw::{
    sender_name_of, RawChannel, RawChat, RawDialog, RawGroup, RawMedia, RawMessage, RawPhoto, RawUser,
};
use vstd::prelude::*;
use vstd::std_specs::convert::FromSpecImpl;

verus! {

/// Where the login of the account stands.
#[derive(Debug, Clone, Copy, PartialEq, Eq, Structural)]
pub enum LoginState {
    WrongPhoneNumber,
    CodeRequired,
    WrongCode,
    PasswordRequired,
    WrongPassword,
    LoggedIn,
    LoginFailure,
}

/// The kind of media attached to a message.
#[derive(Debug, Clone, Copy, PartialEq, Eq, Structural, Hash)]
pub enum MediaType {
    NoMedia,
    Photo,
    Document,
    Sticker,
    Contact,
    Poll,
    Geo,
    Dice,
    Venue,
    GeoLive,
    WebPage,
}

/// The kind of a chat.
#[derive(Debug, Clone, Copy, PartialEq, Eq, Structural)]
pub enum ChatType {
    User,
    Group,
    Channel,
}

/// A chat handle as the host stores it: the chat's id and the handle in
/// hexadecimal text.
#[derive(Debug, Clone)]
pub struct NativePackedChat {
    pub chat_id: i64,
    pub packed_chat: String,
}

/// The mathematical value of a [`NativeMessage`].
pub struct NativeMessageView {
    pub message_id: i32,
    pub chat_id: i64,
    pub outgoing: bool,
    pub pinned: bool,
    pub sender_id: i64,
    pub sender_name: Seq<char>,
    pub timestamp: i64,
    pub text: Seq<char>,
    pub media_type: MediaType,
    pub edit_timestamp: Option<i64>,
    pub grouped_id: Option<i64>,
    pub reply_to_message_id: Option<i32>,
}

/// An immutable snapshot of one message.
#[derive(Debug, PartialEq, Eq, Hash)]
pub struct NativeMessage {
    pub message_id: i32,
    pub chat_id: i64,
    pub outgoing: bool,
    pub pinned: bool,
    pub sender_id: i64,
    pub sender_name: String,
    pub timestamp: i64,
    pub text: String,
    pub media_type: MediaType,
    pub edit_timestamp: Option<i64>,
    pub grouped_id: Option<i64>,
    pub reply_to_message_id: Option<i32>,
}

impl View for NativeMessage {
    type V = NativeMessageView;

    open spec fn view(&self) -> NativeMessageView {
        NativeMessageView {
            message_id: self.message_id,
            chat_id: self.chat_id,
            outgoing: self.outgoing,
            pinned: self.pinned,
            sender_id: self.sender_id,
            sender_name: self.sender_name@,
            timestamp: self.timestamp,
            text: self.text@,
            media_type: self.media_type,
            edit_timestamp: self.edit_timestamp,
            grouped_id: self.grouped_id,
            reply_to_message_id: self.reply_to_message_id,
        }
    }
}

impl Clone for NativeMessage {
    fn clone(&self) -> (copy: NativeMessage)
        ensures
            copy@ == self@,
    {
        NativeMessage {
            message_id: self.message_id,
            chat_id: self.chat_id,
            outgoing: self.outgoing,
            pinned: self.pinned,
            sender_id: self.sender_id,
            sender_name: self.sender_name.clone(),
            timestamp: self.timestamp,
            text: self.text.clone(),
            media_type: self.media_type,
            edit_timestamp: self.edit_timestamp,
            grouped_id: self.grouped_id,
            reply_to_message_id: self.reply_to_message_id,
        }
    }
}

/// The mathematical value of a [`NativeChat`].
pub struct NativeChatView {
    pub chat_id: i64,
    pub chat_type: ChatType,
    pub name: Seq<char>,
    pub pinned: bool,
    pub last_message_id: i32,
    pub last_message_sender_name: Seq<char>,
    pub last_message_text: Seq<char>,
    pub last_message_timestamp: i64,
    pub megagroup: bool,
    pub forum: bool,
}

/// The summary of one chat: who it is and what its last message was.
#[derive(Debug, PartialEq, Eq)]
pub struct NativeChat {
    pub chat_id: i64,
    pub chat_type: ChatType,
    pub name: String,
    pub pinned: bool,
    pub last_message_id: i32,
    pub last_message_sender_name: String,
    pub last_message_text: String,
    pub last_message_timestamp: i64,
    pub megagroup: bool,
    pub forum: bool,
}

impl View for NativeChat {
    type V = NativeChatView;

    open spec fn view(&self) -> NativeChatView {
        NativeChatView {
            chat_id: self.chat_id,
            chat_type: self.chat_type,
            name: self.name@,
            pinned: self.pinned,
            last_message_id: self.last_message_id,
            last_message_sender_name: self.last_message_sender_name@,
            last_message_text: self.last_message_text@,
            last_message_timestamp: self.last_message_timestamp,
            megagroup: self.megagroup,
            forum: self.forum,
        }
    }
}

impl Clone for NativeChat {
    fn clone(&self) -> (copy: NativeChat)
        ensures
            copy@ == self@,
    {
        NativeChat {
            chat_id: self.chat_id,
            chat_type: self.chat_type,
            name: self.name.clone(),
            pinned: self.pinned,
            last_message_id: self.last_message_id,
            last_message_sender_name: self.last_message_sender_name.clone(),
            last_message_text: self.last_message_text.clone(),
            last_message_timestamp: self.last_message_timestamp,
            megagroup: self.megagroup,
            forum: self.forum,
        }
    }
}

/// The view of an optional text.
pub open spec fn text_view(text: Option<String>) -> Option<Seq<char>> {
    match text {
        Some(t) => Some(t@),
        None => None,
    }
}

/// The view of optional bytes.
pub open spec fn bytes_view(bytes: Option<Vec<u8>>) -> Option<Seq<u8>> {
    match bytes {
        Some(b) => Some(b@),
        None => None,
    }
}

/// The mathematical value of a [`NativeSeenChat`].
pub struct NativeSeenChatView {
    pub chat_id: i64,
    pub chat_type: ChatType,
    pub packed_chat: Seq<char>,
    pub is_contact: bool,
    pub is_mutual_contact: bool,
    pub phone: Option<Seq<char>>,
    pub username: Option<Seq<char>>,
    pub photo_thumb: Option<Seq<u8>>,
    pub full_name: Seq<char>,
    pub first_name: Seq<char>,
    pub last_name: Option<Seq<char>>,
    pub bio: Option<Seq<char>>,
    pub date_of_birth: Option<i64>,
    pub forum: bool,
}

/// What is known of a chat or a sender that was seen, with the handle by
/// which it can be addressed again.
#[derive(Debug, Clone, PartialEq, Eq)]
pub struct NativeSeenChat {
    pub chat_id: i64,
    pub chat_type: ChatType,
    pub packed_chat: String,
    pub is_contact: bool,
    pub is_mutual_contact: bool,
    pub phone: Option<String>,
    pub username: Option<String>,
    pub photo_thumb: Option<Vec<u8>>,
    pub full_name: String,
    pub first_name: String,
    pub last_name: Option<String>,
    pub bio: Option<String>,
    pub date_of_birth: Option<i64>,
    pub forum: bool,
}

impl View for NativeSeenChat {
    type V = NativeSeenChatView;

    open spec fn view(&self) -> NativeSeenChatView {
        NativeSeenChatView {
            chat_id: self.chat_id,
            chat_type: self.chat_type,
            packed_chat: self.packed_chat@,
            is_contact: self.is_contact,
            is_mutual_contact: self.is_mutual_contact,
            phone: text_view(self.phone),
            username: text_view(self.username),
            photo_thumb: bytes_view(self.photo_thumb),
            full_name: self.full_name@,
            first_name: self.first_name@,
            last_name: text_view(self.last_name),
            bio: text_view(self.bio),
            date_of_birth: self.date_of_birth,
            forum: self.forum,
        }
    }
}

/// A copy of an optional text.
pub fn clone_text(text: &Option<String>) -> (copy: Option<String>)
    ensures
        text_view(copy) == text_view(*text),
{
    match text {
        Some(t) => Some(t.clone()),
        None => None,
    }
}

/// The preview bytes of an optional photo.
pub fn photo_thumb(photo: &Option<RawPhoto>) -> (thumb: Option<Vec<u8>>)
    ensures
        bytes_view(thumb) == RawPhoto::thumb_of(*photo),
{
    match photo {
        Some(p) => match &p.stripped_thumb {
            Some(bytes) => {
                let copy = bytes.clone();
                assert(copy@ =~= bytes@);
                Some(copy)
            },
            None => None,
        },
        None => None,
    }
}

impl MediaType {
    /// The kind of media of a message: a kind that is not told apart counts
    /// as no media, as does a message without media.
    pub open spec fn of_media(media: Option<RawMedia>) -> MediaType {
        match media {
            Some(RawMedia::Photo) => MediaType::Photo,
            Some(RawMedia::Document) => MediaType::Document,
            Some(RawMedia::Sticker) => MediaType::Sticker,
            Some(RawMedia::Contact) => MediaType::Contact,
            Some(RawMedia::Poll) => MediaType::Poll,
            Some(RawMedia::Geo) => MediaType::Geo,
            Some(RawMedia::Dice) => MediaType::Dice,
            Some(RawMedia::Venue) => MediaType::Venue,
            Some(RawMedia::GeoLive) => MediaType::GeoLive,
            Some(RawMedia::WebPage) => MediaType::WebPage,
            Some(RawMedia::Other) => MediaType::NoMedia,
            None => MediaType::NoMedia,
        }
    }
}

impl From<Option<RawMedia>> for MediaType {
    fn from(value: Option<RawMedia>) -> (kind: MediaType)
        ensures
            kind == MediaType::of_media(value),
    {
        match value {
            Some(RawMedia::Photo) => MediaType::Photo,
            Some(RawMedia::Document) => MediaType::Document,
            Some(RawMedia::Sticker) => MediaType::Sticker,
            Some(RawMedia::Contact) => MediaType::Contact,
            Some(RawMedia::Poll) => MediaType::Poll,
            Some(RawMedia::Geo) => MediaType::Geo,
            Some(RawMedia::Dice) => MediaType::Dice,
            Some(RawMedia::Venue) => MediaType::Venue,
            Some(RawMedia::GeoLive) => MediaType::GeoLive,
            Some(RawMedia::WebPage) => MediaType::WebPage,
            Some(RawMedia::Other) => MediaType::NoMedia,
            None => MediaType::NoMedia,
        }
    }
}

impl FromSpecImpl<Option<RawMedia>> for MediaType {
    open spec fn obeys_from_spec() -> bool {
        true
    }

    open spec fn from_spec(value: Option<RawMedia>) -> MediaType {
        MediaType::of_media(value)
    }
}

impl NativeMessage {
    /// The snapshot of a message: a message without a sender has the sender
    /// id -1 and an empty sender name.
    pub open spec fn snapshot_of(raw: RawMessage) -> NativeMessageView {
        NativeMessageView {
            message_id: raw.id,
            chat_id: raw.chat.spec_id(),
            outgoing: raw.outgoing,
            pinned: raw.pinned,
            sender_id: match raw.sender {
                Some(sender) => sender.spec_id(),
                None => -1i64,
            },
            sender_name: sender_name_of(raw.sender),
            timestamp: raw.date,
            text: raw.text@,
            media_type: MediaType::of_media(raw.media),
            edit_timestamp: raw.edit_date,
            grouped_id: raw.grouped_id,
            reply_to_message_id: raw.reply_to_message_id,
        }
    }

    /// Takes the snapshot of a message.
    pub fn from_raw(raw: &RawMessage) -> (message: NativeMessage)
        ensures
            message@ == NativeMessage::snapshot_of(*raw),
    {
        let mut sender_id: i64 = -1;
        let mut sender_name = String::new();
        if let Some(sender) = &raw.sender {
            sender_id = sender.id();
            sender_name = sender.name();
        }
        NativeMessage {
            message_id: raw.id,
            chat_id: raw.chat.id(),
            outgoing: raw.outgoing,
            pinned: raw.pinned,
            sender_id,
            sender_name,
            timestamp: raw.date,
            text: raw.text.clone(),
            media_type: MediaType::from(raw.media),
            edit_timestamp: raw.edit_date,
            grouped_id: raw.grouped_id,
            reply_to_message_id: raw.reply_to_message_id,
        }
    }
}

impl ChatType {
    /// The kind of a chat.
    pub open spec fn of_chat(raw: RawChat) -> ChatType {
        match raw {
            RawChat::User(_) => ChatType::User,
            RawChat::Group(_) => ChatType::Group,
            RawChat::Channel(_) => ChatType::Channel,
        }
    }

    /// The kind of a chat.
    pub fn from_chat(raw: &RawChat) -> (kind: ChatType)
        ensures
            kind == ChatType::of_chat(*raw),
    {
        match raw {
            RawChat::User(_) => ChatType::User,
            RawChat::Group(_) => ChatType::Group,
            RawChat::Channel(_) => ChatType::Channel,
        }
    }

    /// The kind of the chat of a dialog.
    pub fn from_dialog(dialog: &RawDialog) -> (kind: ChatType)
        ensures
            kind == ChatType::of_chat(dialog.chat),
    {
        ChatType::from_chat(&dialog.chat)
    }
}

impl NativeChat {
    /// Whether a chat is a megagroup: only a group can be one.
    pub open spec fn megagroup_of(raw: RawChat) -> bool {
        match raw {
            RawChat::Group(group) => group.megagroup,
            _ => false,
        }
    }

    /// Whether a chat is a forum: a megagroup that is reported in the form of
    /// a channel with the forum flag set.
    pub open spec fn forum_of(raw: RawChat) -> bool {
        match raw {
            RawChat::Group(group) => group.megagroup && group.channel_forum == Some(true),
            _ => false,
        }
    }

    /// The summary of a chat of which no message is known: not pinned, last
    /// message id 0, empty texts and timestamp 0.
    pub open spec fn summary_of(raw: RawChat) -> NativeChatView {
        NativeChatView {
            chat_id: raw.spec_id(),
            chat_type: ChatType::of_chat(raw),
            name: raw.spec_name(),
            pinned: false,
            last_message_id: 0,
            last_message_sender_name: Seq::empty(),
            last_message_text: Seq::empty(),
            last_message_timestamp: 0,
            megagroup: NativeChat::megagroup_of(raw),
            forum: NativeChat::forum_of(raw),
        }
    }

    /// The summary of a dialog: that of its chat, with the dialog's pin and
    /// the fields of its last message where it has one.
    pub open spec fn summary_of_dialog(dialog: RawDialog) -> NativeChatView {
        let base = NativeChat::summary_of(dialog.chat);
        match dialog.last_message {
            Some(message) => NativeChatView {
                pinned: dialog.pinned,
                last_message_id: message.id,
                last_message_sender_name: sender_name_of(message.sender),
                last_message_text: message.text@,
                last_message_timestamp: message.date,
                ..base
            },
            None => NativeChatView { pinned: dialog.pinned, ..base },
        }
    }

    /// The view of `self` with the last-message fields taken from `message`.
    pub open spec fn with_last_message(
        summary: NativeChatView,
        message: NativeMessageView,
    ) -> NativeChatView {
        NativeChatView {
            last_message_id: message.message_id,
            last_message_sender_name: message.sender_name,
            last_message_text: message.text,
            last_message_timestamp: message.timestamp,
            ..summary
        }
    }

    /// The summary of a chat of which no message is known.
    pub fn from_raw(raw: &RawChat) -> (chat: NativeChat)
        ensures
            chat@ == NativeChat::summary_of(*raw),
    {
        let megagroup = match raw {
            RawChat::Group(group) => group.megagroup,
            _ => false,
        };
        let forum = megagroup && match raw {
            RawChat::Group(group) => match group.channel_forum {
                Some(flag) => flag,
                None => false,
            },
            _ => false,
        };
        NativeChat {
            chat_id: raw.id(),
            chat_type: ChatType::from_chat(raw),
            name: raw.name(),
            pinned: false,
            last_message_id: 0,
            last_message_sender_name: String::new(),
            last_message_text: String::new(),
            last_message_timestamp: 0,
            megagroup,
            forum,
        }
    }

    /// The summary of a dialog.
    pub fn from_dialog(dialog: RawDialog) -> (chat: NativeChat)
        ensures
            chat@ == NativeChat::summary_of_dialog(dialog),
    {
        let mut chat = NativeChat::from_raw(&dialog.chat);
        chat.pinned = dialog.pinned;
        if let Some(message) = &dialog.last_message {
            chat.last_message_id = message.id;
            chat.last_message_sender_name = match &message.sender {
                Some(sender) => sender.name(),
                None => String::new(),
            };
            chat.last_message_text = message.text.clone();
            chat.last_message_timestamp = message.date;
        }
        chat
    }

    /// Replaces the last-message fields by those of `message`.
    pub fn set_last_message(&mut self, message: &NativeMessage)
        ensures
            final(self)@ == NativeChat::with_last_message(old(self)@, message@),
    {
        self.last_message_id = message.message_id;
        self.last_message_sender_name = message.sender_name.clone();
        self.last_message_text = message.text.clone();
        self.last_message_timestamp = message.timestamp;
    }
}

impl NativeSeenChat {
    /// What is kept of a user.
    pub open spec fn seen_user(raw: RawUser) -> NativeSeenChatView {
        NativeSeenChatView {
            chat_id: raw.id,
            chat_type: ChatType::User,
            packed_chat: hex_of_handle(raw.packed),
            is_contact: raw.contact,
            is_mutual_contact: raw.mutual_contact,
            phone: text_view(raw.phone),
            username: text_view(raw.username),
            photo_thumb: RawPhoto::thumb_of(raw.photo),
            full_name: raw.full_name@,
            first_name: raw.first_name@,
            last_name: text_view(raw.last_name),
            bio: None,
            date_of_birth: None,
            forum: false,
        }
    }

    /// What is kept of a group: its title stands for both names.
    pub open spec fn seen_group(raw: RawGroup) -> NativeSeenChatView {
        NativeSeenChatView {
            chat_id: raw.id,
            chat_type: ChatType::Group,
            packed_chat: hex_of_handle(raw.packed),
            is_contact: false,
            is_mutual_contact: false,
            phone: None,
            username: None,
            photo_thumb: RawPhoto::thumb_of(raw.photo),
            full_name: raw.title@,
            first_name: raw.title@,
            last_name: None,
            bio: None,
            date_of_birth: None,
            forum: false,
        }
    }

    /// What is kept of a channel: its title stands for both names.
    pub open spec fn seen_channel(raw: RawChannel) -> NativeSeenChatView {
        NativeSeenChatView {
            chat_id: raw.id,
            chat_type: ChatType::Channel,
            packed_chat: hex_of_handle(raw.packed),
            is_contact: false,
            is_mutual_contact: false,
            phone: None,
            username: text_view(raw.username),
            photo_thumb: RawPhoto::thumb_of(raw.photo),
            full_name: raw.title@,
            first_name: raw.title@,
            last_name: None,
            bio: None,
            date_of_birth: None,
            forum: raw.forum,
        }
    }

    /// What is kept of a chat of any kind.
    pub open spec fn seen_chat(raw: RawChat) -> NativeSeenChatView {
        match raw {
            RawChat::User(user) => NativeSeenChat::seen_user(user),
            RawChat::Group(group) => NativeSeenChat::seen_group(group),
            RawChat::Channel(channel) => NativeSeenChat::seen_channel(channel),
        }
    }

    /// Describes a chat of any kind.
    pub fn from_raw(raw: &RawChat) -> (seen: NativeSeenChat)
        ensures
            seen@ == NativeSeenChat::seen_chat(*raw),
            handle_of_hex(seen.packed_chat@) == Some(raw.spec_pack()),
    {
        match raw {
            RawChat::User(user) => NativeSeenChat::from_user(user),
            RawChat::Group(group) => NativeSeenChat::from_group(group),
            RawChat::Channel(channel) => NativeSeenChat::from_channel(channel),
        }
    }

    /// Describes a user.
    pub fn from_user(raw: &RawUser) -> (seen: NativeSeenChat)
        ensures
            seen@ == NativeSeenChat::seen_user(*raw),
            handle_of_hex(seen.packed_chat@) == Some(raw.packed),
    {
        NativeSeenChat {
            chat_id: raw.id,
            chat_type: ChatType::User,
            packed_chat: raw.packed.to_hex(),
            is_contact: raw.contact,
            is_mutual_contact: raw.mutual_contact,
            phone: clone_text(&raw.phone),
            username: clone_text(&raw.username),
            full_name: raw.full_name.clone(),
            first_name: raw.first_name.clone(),
            last_name: clone_text(&raw.last_name),
            bio: None,
            photo_thumb: photo_thumb(&raw.photo),
            date_of_birth: None,
            forum: false,
        }
    }

    /// Describes a group.
    pub fn from_group(raw: &RawGroup) -> (seen: NativeSeenChat)
        ensures
            seen@ == NativeSeenChat::seen_group(*raw),
            handle_of_hex(seen.packed_chat@) == Some(raw.packed),
    {
        NativeSeenChat {
            chat_id: raw.id,
            chat_type: ChatType::Group,
            packed_chat: raw.packed.to_hex(),
            is_contact: false,
            is_mutual_contact: false,
            phone: None,
            username: None,
            full_name: raw.title.clone(),
            first_name: raw.title.clone(),
            last_name: None,
            bio: None,
            photo_thumb: photo_thumb(&raw.photo),
            date_of_birth: None,
            forum: false,
        }
    }

    /// Describes a channel.
    pub fn from_channel(raw: &RawChannel) -> (seen: NativeSeenChat)
        ensures
            seen@ == NativeSeenChat::seen_channel(*raw),
            handle_of_hex(seen.packed_chat@) == Some(raw.packed),
    {
        NativeSeenChat {
            chat_id: raw.id,
            chat_type: ChatType::Channel,
            packed_chat: raw.packed.to_hex(),
            is_contact: false,
            is_mutual_contact: false,
            phone: None,
            username: clone_text(&raw.username),
            full_name: raw.title.clone(),
            first_name: raw.title.clone(),
            last_name: None,
            bio: None,
            photo_thumb: photo_thumb(&raw.photo),
            date_of_birth: None,
            forum: raw.forum,
        }
    }
}

} // verus!

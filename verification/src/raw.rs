//! What the messaging service reports of users, chats, dialogs and
//! messages, held as plain values.

use crate::handle::ChatHandle;
use crate::types::bytes_view;
use vstd::prelude::*;

verus! {

/// The media that a message carries, as the service classifies it.
#[derive(Debug, Clone, Copy, PartialEq, Eq)]
pub enum RawMedia {
    Photo,
    Document,
    Sticker,
    Contact,
    Poll,
    Geo,
    Dice,
    Venue,
    GeoLive,
    WebPage,
    /// A kind of media that this library does not tell apart.
    Other,
}

/// The profile photo of a user or a chat.
#[derive(Debug, Clone)]
pub struct RawPhoto {
    /// The small embedded preview, where the service sent one.
    pub stripped_thumb: Option<Vec<u8>>,
}

/// A user account.
#[derive(Debug, Clone)]
pub struct RawUser {
    pub id: i64,
    pub packed: ChatHandle,
    pub contact: bool,
    pub mutual_contact: bool,
    pub phone: Option<String>,
    pub username: Option<String>,
    pub full_name: String,
    pub first_name: String,
    pub last_name: Option<String>,
    pub photo: Option<RawPhoto>,
}

/// A small group or a megagroup.
#[derive(Debug, Clone)]
pub struct RawGroup {
    pub id: i64,
    pub packed: ChatHandle,
    pub title: String,
    pub megagroup: bool,
    /// The forum flag, where the group is reported in the form of a channel.
    pub channel_forum: Option<bool>,
    pub photo: Option<RawPhoto>,
}

/// A broadcast channel.
#[derive(Debug, Clone)]
pub struct RawChannel {
    pub id: i64,
    pub packed: ChatHandle,
    pub title: String,
    pub username: Option<String>,
    pub forum: bool,
    pub photo: Option<RawPhoto>,
}

/// A user, a group or a channel.
#[derive(Debug, Clone)]
pub enum RawChat {
    User(RawUser),
    Group(RawGroup),
    Channel(RawChannel),
}

/// One message, with the chat it belongs to and its sender where known.
#[derive(Debug, Clone)]
pub struct RawMessage {
    pub id: i32,
    pub chat: RawChat,
    pub sender: Option<RawChat>,
    pub outgoing: bool,
    pub pinned: bool,
    /// When the message was sent, in seconds since the epoch.
    pub date: i64,
    pub text: String,
    pub media: Option<RawMedia>,
    pub edit_date: Option<i64>,
    pub grouped_id: Option<i64>,
    pub reply_to_message_id: Option<i32>,
}

/// One entry of the account's chat list.
#[derive(Debug, Clone)]
pub struct RawDialog {
    pub chat: RawChat,
    pub pinned: bool,
    pub last_message: Option<RawMessage>,
}

impl RawPhoto {
    /// The preview bytes of an optional photo: none without a photo, and none
    /// where the photo has no preview.
    pub open spec fn thumb_of(photo: Option<RawPhoto>) -> Option<Seq<u8>> {
        match photo {
            Some(p) => bytes_view(p.stripped_thumb),
            None => None,
        }
    }
}

impl RawChat {
    /// The id of the chat.
    pub open spec fn spec_id(&self) -> i64 {
        match self {
            RawChat::User(user) => user.id,
            RawChat::Group(group) => group.id,
            RawChat::Channel(channel) => channel.id,
        }
    }

    /// The display name: a user's first name, a group's or channel's title.
    pub open spec fn spec_name(&self) -> Seq<char> {
        match self {
            RawChat::User(user) => user.first_name@,
            RawChat::Group(group) => group.title@,
            RawChat::Channel(channel) => channel.title@,
        }
    }

    /// The handle by which the chat can be addressed again.
    pub open spec fn spec_pack(&self) -> ChatHandle {
        match self {
            RawChat::User(user) => user.packed,
            RawChat::Group(group) => group.packed,
            RawChat::Channel(channel) => channel.packed,
        }
    }

    /// The id of the chat.
    #[verifier::when_used_as_spec(spec_id)]
    pub fn id(&self) -> (id: i64)
        ensures
            id == self.spec_id(),
    {
        match self {
            RawChat::User(user) => user.id,
            RawChat::Group(group) => group.id,
            RawChat::Channel(channel) => channel.id,
        }
    }

    /// The display name: a user's first name, a group's or channel's title.
    pub fn name(&self) -> (name: String)
        ensures
            name@ == self.spec_name(),
    {
        match self {
            RawChat::User(user) => user.first_name.clone(),
            RawChat::Group(group) => group.title.clone(),
            RawChat::Channel(channel) => channel.title.clone(),
        }
    }

    /// The handle by which the chat can be addressed again.
    #[verifier::when_used_as_spec(spec_pack)]
    pub fn pack(&self) -> (handle: ChatHandle)
        ensures
            handle == self.spec_pack(),
    {
        match self {
            RawChat::User(user) => user.packed,
            RawChat::Group(group) => group.packed,
            RawChat::Channel(channel) => channel.packed,
        }
    }
}

/// The name of an optional sender, empty where there is none.
pub open spec fn sender_name_of(sender: Option<RawChat>) -> Seq<char> {
    match sender {
        Some(s) => s.spec_name(),
        None => Seq::empty(),
    }
}

} // verus!

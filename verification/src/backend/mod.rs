//! The engine's state: the login state with its tokens, the two caches, the
//! downloads in flight and the permits that bound them.

pub mod chat;
pub mod download;
pub mod login;
pub mod message;
pub mod run;

use crate::caches::{
    copy_summaries, find_handle, find_summary, handles_in, new_handle_cache, new_summary_cache,
    new_target_set, put_handle, put_summary, summaries_in, targets_in,
};
use crate::handle::ChatHandle;
use crate::raw::RawUser;
use crate::types::{LoginState, NativeChat, NativeChatView};
use dashmap::{DashMap, DashSet};
use vstd::prelude::*;

verus! {

/// Why an operation of the engine did not succeed.
#[derive(Debug, Clone, Copy, PartialEq, Eq, Structural)]
pub enum BackendError {
    /// A request to the service failed; the caller holds the cause.
    Transport,
    /// A password was given though none was asked for.
    PasswordNotRequired,
    /// No handle is known for the chat id.
    UnknownChat,
    /// The service has no such message.
    MessageNotFound,
    /// The chat has no profile photo.
    PhotoNotFound,
    /// The message has no sender.
    NoSender,
    /// The media of the message could not be stored.
    DownloadFailed,
    /// A stored handle is no hexadecimal text of a handle.
    InvalidHandle,
    /// The update loop is running already.
    AlreadyInProgress,
}

/// The state of the engine for one account. `L` is the token of a login in
/// progress, `P` the token of a password challenge and `H` the handle of the
/// running update loop: the engine keeps and hands out such values and never
/// looks into them.
pub struct Backend<L, P, H> {
    user: Option<RawUser>,
    login_token: Option<L>,
    login_state: Option<LoginState>,
    password_token: Option<P>,
    seen_packed_chats_map: DashMap<i64, ChatHandle>,
    chats_map: DashMap<i64, NativeChat>,
    run_handler: Option<H>,
    profile_photo_downloading_set: DashSet<i64>,
    permits: usize,
    free_permits: usize,
}

impl<L, P, H> Backend<L, P, H> {
    /// The handle known for each chat id.
    pub closed spec fn handles(&self) -> Map<i64, ChatHandle> {
        handles_in(self.seen_packed_chats_map)
    }

    /// The summary known for each chat id.
    pub closed spec fn summaries(&self) -> Map<i64, NativeChatView> {
        summaries_in(self.chats_map)
    }

    /// The targets whose profile photo is being downloaded.
    pub closed spec fn in_flight(&self) -> Set<i64> {
        targets_in(self.profile_photo_downloading_set)
    }

    /// The login state, once a login step has set one.
    pub closed spec fn state(&self) -> Option<LoginState> {
        self.login_state
    }

    /// The token of the login in progress.
    pub closed spec fn login_token(&self) -> Option<L> {
        self.login_token
    }

    /// The token of the password challenge.
    pub closed spec fn password_token(&self) -> Option<P> {
        self.password_token
    }

    /// The user who signed in.
    pub closed spec fn user(&self) -> Option<RawUser> {
        self.user
    }

    /// The handle of the update loop that was started last.
    pub closed spec fn run_handler(&self) -> Option<H> {
        self.run_handler
    }

    /// How many downloads may run at once.
    pub closed spec fn permits(&self) -> nat {
        self.permits as nat
    }

    /// How many more downloads may start now.
    pub closed spec fn free_permits(&self) -> nat {
        self.free_permits as nat
    }

    /// What holds of every engine: the downloads in flight are finitely
    /// many, each of them holds one permit and the other permits are free,
    /// and a password is asked for only while its challenge is at hand.
    pub closed spec fn wf(&self) -> bool {
        &&& self.in_flight().finite()
        &&& self.free_permits + self.in_flight().len() == self.permits
        &&& self.login_state == Some(LoginState::PasswordRequired)
            ==> self.password_token is Some
    }

    /// In every engine each download in flight holds one permit and the
    /// other permits are free: never more permits are out than there are.
    pub proof fn lemma_permits_bounded(&self)
        requires
            self.wf(),
        ensures
            self.in_flight().finite(),
            self.free_permits() + self.in_flight().len() == self.permits(),
            self.free_permits() <= self.permits(),
    {
    }

    /// An engine that knows no chat, has taken no login step and lets
    /// `permits` downloads run at once.
    pub fn new(permits: usize) -> (backend: Self)
        ensures
            backend.wf(),
            backend.handles() == Map::<i64, ChatHandle>::empty(),
            backend.summaries() == Map::<i64, NativeChatView>::empty(),
            backend.in_flight() == Set::<i64>::empty(),
            backend.state() is None,
            backend.login_token() is None,
            backend.password_token() is None,
            backend.user() is None,
            backend.run_handler() is None,
            backend.permits() == permits,
            backend.free_permits() == permits,
    {
        let seen_packed_chats_map = new_handle_cache();
        let chats_map = new_summary_cache();
        assert(handles_in(seen_packed_chats_map) =~= Map::<i64, ChatHandle>::empty());
        assert(summaries_in(chats_map) =~= Map::<i64, NativeChatView>::empty());
        Backend {
            user: None,
            login_token: None,
            login_state: None,
            password_token: None,
            seen_packed_chats_map,
            chats_map,
            run_handler: None,
            profile_photo_downloading_set: new_target_set(),
            permits,
            free_permits: permits,
        }
    }

    /// Whether everything but the two caches is the same in both engines.
    pub open spec fn same_but_caches(&self, other: &Self) -> bool {
        &&& self.in_flight() == other.in_flight()
        &&& self.state() == other.state()
        &&& self.login_token() == other.login_token()
        &&& self.password_token() == other.password_token()
        &&& self.user() == other.user()
        &&& self.run_handler() == other.run_handler()
        &&& self.permits() == other.permits()
        &&& self.free_permits() == other.free_permits()
    }

    /// Whether everything but the login fields is the same in both engines.
    pub open spec fn same_but_login(&self, other: &Self) -> bool {
        &&& self.handles() == other.handles()
        &&& self.summaries() == other.summaries()
        &&& self.in_flight() == other.in_flight()
        &&& self.run_handler() == other.run_handler()
        &&& self.permits() == other.permits()
        &&& self.free_permits() == other.free_permits()
    }

    /// Whether everything but the downloads in flight and the free permits is
    /// the same in both engines.
    pub open spec fn same_but_downloads(&self, other: &Self) -> bool {
        &&& self.handles() == other.handles()
        &&& self.summaries() == other.summaries()
        &&& self.state() == other.state()
        &&& self.login_token() == other.login_token()
        &&& self.password_token() == other.password_token()
        &&& self.user() == other.user()
        &&& self.run_handler() == other.run_handler()
        &&& self.permits() == other.permits()
    }

    /// A copy of the summaries that the engine keeps.
    pub fn get_chats_map(&self) -> (copy: DashMap<i64, NativeChat>)
        ensures
            summaries_in(copy) == self.summaries(),
    {
        copy_summaries(&self.chats_map)
    }

    /// The summary of chat `chat_id`, where one is known.
    pub fn get_chat(&self, chat_id: i64) -> (chat: Option<NativeChat>)
        ensures
            match chat {
                Some(c) => self.summaries().contains_key(chat_id) && c@ == self.summaries()[chat_id],
                None => !self.summaries().contains_key(chat_id),
            },
    {
        find_summary(&self.chats_map, chat_id)
    }

    /// The handle of chat `chat_id`, where one is known.
    pub fn get_seen_packed_chat(&self, chat_id: i64) -> (handle: Option<ChatHandle>)
        ensures
            handle == (if self.handles().contains_key(chat_id) {
                Some(self.handles()[chat_id])
            } else {
                None
            }),
    {
        find_handle(&self.seen_packed_chats_map, chat_id)
    }

    /// Stores the summary under its chat id, in place of an earlier one.
    pub fn insert_chat_to(&mut self, chat: &NativeChat)
        requires
            old(self).wf(),
        ensures
            final(self).wf(),
            final(self).summaries() == old(self).summaries().insert(chat.chat_id, chat@),
            final(self).handles() == old(self).handles(),
            final(self).same_but_caches(old(self)),
    {
        let copy = chat.clone();
        put_summary(&mut self.chats_map, chat.chat_id, copy);
    }

    /// Stores the handle under its id, in place of an earlier one.
    pub fn insert_seen_packed_chat(&mut self, seen_packed_chat: &ChatHandle)
        requires
            old(self).wf(),
        ensures
            final(self).wf(),
            final(self).handles() == old(self).handles().insert(
                seen_packed_chat.id,
                *seen_packed_chat,
            ),
            final(self).summaries() == old(self).summaries(),
            final(self).same_but_caches(old(self)),
    {
        put_handle(&mut self.seen_packed_chats_map, seen_packed_chat.id, *seen_packed_chat);
    }
}

} // verus!

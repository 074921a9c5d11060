//! Live updates and the loading of the messages of one chat.

use crate::backend::chat::handle_for;
use crate::backend::{Backend, BackendError};
use crate::batch::{ascending, insert_message, place, views};
use crate::caches::{find_handle, find_summary, put_handle, put_summary};
use crate::utils::{download_dir, get_download_dir, get_media_path, media_path};
use crate::handle::ChatHandle;
use crate::raw::RawMessage;
use crate::types::{NativeChat, NativeChatView, NativeMessage, NativeMessageView};
use vstd::prelude::*;

verus! {

/// What is left to do after a live message was applied.
#[derive(Debug, Clone, Copy, PartialEq, Eq, Structural)]
pub struct IncomingAction {
    /// Whether the chat of the message was unknown until now.
    pub new_chat: bool,
    /// The sender whose profile photo is to be fetched in the background,
    /// where the message has a sender.
    pub prefetch_photo_of: Option<i64>,
}

/// The handles after a message was seen: the chat's handle is recorded, and
/// then the sender's where there is one.
pub open spec fn handles_after_message(handles: Map<i64, ChatHandle>, raw: RawMessage) -> Map<
    i64,
    ChatHandle,
> {
    let with_chat = handles.insert(raw.chat.spec_id(), raw.chat.spec_pack());
    match raw.sender {
        Some(sender) => with_chat.insert(sender.spec_id(), sender.spec_pack()),
        None => with_chat,
    }
}

/// The handles after the sender of a message was seen.
pub open spec fn handles_after_sender(handles: Map<i64, ChatHandle>, raw: RawMessage) -> Map<
    i64,
    ChatHandle,
> {
    match raw.sender {
        Some(sender) => handles.insert(sender.spec_id(), sender.spec_pack()),
        None => handles,
    }
}

/// The summary of a chat after a live message: the summary known so far, or
/// a fresh one of the message's chat where none is known, with the
/// last-message fields of the message.
pub open spec fn summary_after_message(
    known: Option<NativeChatView>,
    raw: RawMessage,
) -> NativeChatView {
    let base = match known {
        Some(summary) => summary,
        None => NativeChat::summary_of(raw.chat),
    };
    NativeChat::with_last_message(base, NativeMessage::snapshot_of(raw))
}

/// The summary stored for `chat_id`, where there is one.
pub open spec fn lookup(summaries: Map<i64, NativeChatView>, chat_id: i64) -> Option<
    NativeChatView,
> {
    if summaries.contains_key(chat_id) {
        Some(summaries[chat_id])
    } else {
        None
    }
}

/// Whether a message is newer than the resume offset: every message is
/// where there is no offset.
pub open spec fn newer_than(id: i32, last_message_id: Option<i32>) -> bool {
    match last_message_id {
        Some(last) => id > last,
        None => true,
    }
}

/// How many messages of one chat are asked for at most.
pub const MESSAGE_PAGE_LIMIT: usize = 100;

/// How many leading messages of a list are newer than the resume offset.
pub open spec fn newer_len(page: Seq<RawMessage>, last_message_id: Option<i32>) -> nat
    decreases page.len(),
{
    if page.len() == 0 {
        0
    } else if newer_than(page[0].id, last_message_id) {
        1 + newer_len(page.drop_first(), last_message_id)
    } else {
        0
    }
}

/// The messages that are asked for: the first `MESSAGE_PAGE_LIMIT` of those
/// that the service lists, all of them where it lists no more.
pub open spec fn first_page(listed: Seq<RawMessage>) -> Seq<RawMessage> {
    if listed.len() > MESSAGE_PAGE_LIMIT {
        listed.take(MESSAGE_PAGE_LIMIT as int)
    } else {
        listed
    }
}

/// How many messages of a listing are loaded: the leading ones of the first
/// page that are newer than the resume offset.
pub open spec fn fresh_len(listed: Seq<RawMessage>, last_message_id: Option<i32>) -> nat {
    newer_len(first_page(listed), last_message_id)
}

/// The messages of a listing that are loaded, newest first.
pub open spec fn fresh(listed: Seq<RawMessage>, last_message_id: Option<i32>) -> Seq<RawMessage> {
    listed.take(fresh_len(listed, last_message_id) as int)
}

/// Whether the listing is asked for one more message after those it
/// listed: every listed message is loaded, and they are fewer than
/// `MESSAGE_PAGE_LIMIT`.
pub open spec fn listing_exhausted(listed: Seq<RawMessage>, last_message_id: Option<i32>) -> bool {
    fresh_len(listed, last_message_id) == listed.len() && listed.len() < MESSAGE_PAGE_LIMIT
}

/// The batch made of the snapshots of `page`, each put at the place of its
/// id in the order in which the page gives them.
pub open spec fn batch_of(page: Seq<RawMessage>) -> Seq<NativeMessageView>
    decreases page.len(),
{
    if page.len() == 0 {
        Seq::empty()
    } else {
        place(batch_of(page.drop_last()), NativeMessage::snapshot_of(page.last()))
    }
}

/// The handles after the senders of all messages of `page` were seen.
pub open spec fn handles_after_page(handles: Map<i64, ChatHandle>, page: Seq<RawMessage>) -> Map<
    i64,
    ChatHandle,
>
    decreases page.len(),
{
    if page.len() == 0 {
        handles
    } else {
        handles_after_sender(handles_after_page(handles, page.drop_last()), page.last())
    }
}

/// A batch made of snapshots is ascending.
pub proof fn lemma_batch_of_ascending(page: Seq<RawMessage>)
    ensures
        ascending(batch_of(page)),
    decreases page.len(),
{
    if page.len() > 0 {
        lemma_batch_of_ascending(page.drop_last());
        crate::batch::lemma_place(
            batch_of(page.drop_last()),
            NativeMessage::snapshot_of(page.last()),
        );
    }
}

/// The leading messages that are newer than the offset are no more than the
/// page holds, each of them is newer, and the one after them is not.
pub proof fn lemma_newer_len(page: Seq<RawMessage>, last_message_id: Option<i32>)
    ensures
        newer_len(page, last_message_id) <= page.len(),
        forall|k: int|
            0 <= k < newer_len(page, last_message_id) ==> newer_than(
                (#[trigger] page[k]).id,
                last_message_id,
            ),
        newer_len(page, last_message_id) < page.len() ==> !newer_than(
            page[newer_len(page, last_message_id) as int].id,
            last_message_id,
        ),
    decreases page.len(),
{
    if page.len() > 0 && newer_than(page[0].id, last_message_id) {
        let rest = page.drop_first();
        lemma_newer_len(rest, last_message_id);
        assert forall|k: int| 0 <= k < newer_len(page, last_message_id) implies newer_than(
            (#[trigger] page[k]).id,
            last_message_id,
        ) by {
            if k > 0 {
                assert(rest[k - 1] == page[k]);
            }
        }
        if newer_len(page, last_message_id) < page.len() {
            assert(rest[newer_len(rest, last_message_id) as int] == page[newer_len(
                page,
                last_message_id,
            ) as int]);
        }
    }
}

/// A prefix whose messages are all newer than the offset, and which ends
/// the page or is followed by a message that is not newer, is the run of
/// leading newer messages.
pub proof fn lemma_newer_len_is(page: Seq<RawMessage>, last_message_id: Option<i32>, n: int)
    requires
        0 <= n <= page.len(),
        forall|k: int| 0 <= k < n ==> newer_than((#[trigger] page[k]).id, last_message_id),
        n < page.len() ==> !newer_than(page[n].id, last_message_id),
    ensures
        newer_len(page, last_message_id) == n,
    decreases page.len(),
{
    if page.len() == 0 {
    } else if n == 0 {
    } else {
        let rest = page.drop_first();
        assert(newer_than(page[0].id, last_message_id));
        assert forall|k: int| 0 <= k < n - 1 implies newer_than(
            (#[trigger] rest[k]).id,
            last_message_id,
        ) by {
            assert(rest[k] == page[k + 1]);
        }
        if n - 1 < rest.len() {
            assert(rest[n - 1] == page[n]);
        }
        lemma_newer_len_is(rest, last_message_id, n - 1);
    }
}

/// How many messages of a listing are loaded.
pub fn count_fresh(page: &Vec<RawMessage>, last_message_id: Option<i32>) -> (count: usize)
    ensures
        count == fresh_len(page@, last_message_id),
        count <= page@.len(),
        count <= MESSAGE_PAGE_LIMIT,
{
    let mut i: usize = 0;
    let ghost asked = first_page(page@);
    while i < page.len() && i < MESSAGE_PAGE_LIMIT
        invariant
            i <= page.len(),
            i <= MESSAGE_PAGE_LIMIT,
            asked == first_page(page@),
            forall|k: int| 0 <= k < i ==> newer_than((#[trigger] asked[k]).id, last_message_id),
        decreases page.len() - i,
    {
        assert(asked[i as int] == page@[i as int]);
        if let Some(last) = last_message_id {
            if page[i].id <= last {
                proof {
                    lemma_newer_len_is(asked, last_message_id, i as int);
                }
                return i;
            }
        }
        i = i + 1;
    }
    proof {
        lemma_newer_len_is(asked, last_message_id, i as int);
    }
    i
}

impl<L, P, H> Backend<L, P, H> {
    /// Applies a message that the update stream delivered.
    ///
    /// The handle of the message's chat is recorded, and the sender's where
    /// there is a sender. The summary of the chat gets the last-message
    /// fields of the message; a chat without a summary gets a fresh one
    /// first. The sender's photo is to be fetched in the background.
    pub fn incoming_message_handler(&mut self, raw_message: &RawMessage) -> (action:
        IncomingAction)
        requires
            old(self).wf(),
        ensures
            final(self).wf(),
            final(self).same_but_caches(old(self)),
            final(self).handles() == handles_after_message(old(self).handles(), *raw_message),
            final(self).summaries() == old(self).summaries().insert(
                raw_message.chat.spec_id(),
                summary_after_message(
                    lookup(old(self).summaries(), raw_message.chat.spec_id()),
                    *raw_message,
                ),
            ),
            final(self).summaries()[raw_message.chat.spec_id()].last_message_id == raw_message.id,
            action.new_chat == !old(self).summaries().contains_key(raw_message.chat.spec_id()),
            action.prefetch_photo_of == match raw_message.sender {
                Some(sender) => Some(sender.spec_id()),
                None => None,
            },
    {
        let chat_id = raw_message.chat.id();
        put_handle(&mut self.seen_packed_chats_map, chat_id, raw_message.chat.pack());
        let prefetch_photo_of = match &raw_message.sender {
            Some(sender) => {
                put_handle(&mut self.seen_packed_chats_map, sender.id(), sender.pack());
                Some(sender.id())
            },
            None => None,
        };
        let message = NativeMessage::from_raw(raw_message);
        let known = find_summary(&self.chats_map, chat_id);
        let new_chat = known.is_none();
        let mut chat = match known {
            Some(old_chat) => old_chat,
            None => NativeChat::from_raw(&raw_message.chat),
        };
        chat.set_last_message(&message);
        put_summary(&mut self.chats_map, chat_id, chat);
        IncomingAction { new_chat, prefetch_photo_of }
    }

    /// Takes the next message of a chat while its messages are loaded,
    /// newest first. A message that is not newer than the resume offset ends
    /// the loading: the result is `false` and nothing changes. Otherwise the
    /// sender's handle is recorded and the snapshot is put into the batch.
    pub fn offer_message(
        &mut self,
        batch: &mut Vec<NativeMessage>,
        raw_message: &RawMessage,
        last_message_id: Option<i32>,
    ) -> (taken: bool)
        requires
            old(self).wf(),
            ascending(views(old(batch)@)),
        ensures
            final(self).wf(),
            final(self).same_but_caches(old(self)),
            final(self).summaries() == old(self).summaries(),
            taken == newer_than(raw_message.id, last_message_id),
            ascending(views(final(batch)@)),
            taken ==> final(self).handles() == handles_after_sender(
                old(self).handles(),
                *raw_message,
            ) && views(final(batch)@) == place(
                views(old(batch)@),
                NativeMessage::snapshot_of(*raw_message),
            ),
            !taken ==> final(self).handles() == old(self).handles()
                && final(batch)@ == old(batch)@,
    {
        if let Some(last) = last_message_id {
            if raw_message.id <= last {
                return false;
            }
        }
        if let Some(sender) = &raw_message.sender {
            put_handle(&mut self.seen_packed_chats_map, sender.id(), sender.pack());
        }
        let message = NativeMessage::from_raw(raw_message);
        insert_message(batch, message);
        true
    }

    /// Loads the new messages of one chat from what the service lists of it,
    /// newest first: of the first `MESSAGE_PAGE_LIMIT` listed messages the
    /// leading ones that are newer than the resume offset, all of them where
    /// there is no offset. Their senders' handles are recorded, and the
    /// result holds their snapshots in ascending order of their ids.
    pub fn load_messages_from_iter(
        &mut self,
        page: &Vec<RawMessage>,
        last_message_id: Option<i32>,
    ) -> (sorted_messages: Vec<NativeMessage>)
        requires
            old(self).wf(),
        ensures
            final(self).wf(),
            final(self).same_but_caches(old(self)),
            final(self).summaries() == old(self).summaries(),
            views(sorted_messages@) == batch_of(fresh(page@, last_message_id)),
            ascending(views(sorted_messages@)),
            sorted_messages@.len() <= MESSAGE_PAGE_LIMIT,
            final(self).handles() == handles_after_page(
                old(self).handles(),
                fresh(page@, last_message_id),
            ),
    {
        let mut sorted_messages: Vec<NativeMessage> = Vec::new();
        let mut i: usize = 0;
        let ghost asked = first_page(page@);
        assert(views(sorted_messages@) =~= batch_of(page@.take(0)));
        while i < page.len() && i < MESSAGE_PAGE_LIMIT
            invariant
                i <= page.len(),
                i <= MESSAGE_PAGE_LIMIT,
                asked == first_page(page@),
                self.wf(),
                self.same_but_caches(old(self)),
                self.summaries() == old(self).summaries(),
                ascending(views(sorted_messages@)),
                views(sorted_messages@) == batch_of(page@.take(i as int)),
                sorted_messages@.len() <= i,
                self.handles() == handles_after_page(old(self).handles(), page@.take(i as int)),
                forall|k: int| 0 <= k < i ==> newer_than((#[trigger] asked[k]).id, last_message_id),
            decreases page.len() - i,
        {
            let ghost before = views(sorted_messages@);
            let taken = self.offer_message(&mut sorted_messages, &page[i], last_message_id);
            assert(asked[i as int] == page@[i as int]);
            if !taken {
                proof {
                    lemma_newer_len_is(asked, last_message_id, i as int);
                }
                return sorted_messages;
            }
            proof {
                let next = page@.take(i + 1);
                assert(next.drop_last() =~= page@.take(i as int));
                assert(next.last() == page@[i as int]);
                crate::batch::lemma_place_len(before, NativeMessage::snapshot_of(page@[i as int]));
            }
            i = i + 1;
        }
        proof {
            lemma_newer_len_is(asked, last_message_id, i as int);
        }
        sorted_messages
    }

    /// The snapshots of the messages of a page that lists them newest first,
    /// oldest first.
    pub fn get_sorted_messages(&self, page: &Vec<RawMessage>) -> (sorted_messages: Vec<
        NativeMessage,
    >)
        ensures
            sorted_messages@.len() == page@.len(),
            forall|k: int|
                0 <= k < page@.len() ==> (#[trigger] sorted_messages@[k])@
                    == NativeMessage::snapshot_of(page@[page@.len() - 1 - k]),
    {
        let mut sorted_messages: Vec<NativeMessage> = Vec::new();
        let mut i: usize = page.len();
        while i > 0
            invariant
                i <= page.len(),
                sorted_messages@.len() == page@.len() - i,
                forall|k: int|
                    0 <= k < sorted_messages@.len() ==> (#[trigger] sorted_messages@[k])@
                        == NativeMessage::snapshot_of(page@[page@.len() - 1 - k]),
            decreases i,
        {
            i = i - 1;
            sorted_messages.push(NativeMessage::from_raw(&page[i]));
        }
        sorted_messages
    }
}

/// One file of an album with the caption it is sent with.
#[derive(Debug)]
pub struct AlbumItem {
    /// The file to upload.
    pub path: String,
    /// The caption of the file.
    pub caption: String,
}

/// What is to be sent to a chat.
#[derive(Debug)]
pub enum SendPlan {
    /// A text message.
    Text { to: ChatHandle, text: String },
    /// An album of files, to be uploaded in their order.
    Album { to: ChatHandle, items: Vec<AlbumItem> },
}

/// The caption of the file at `index` of an album that is sent with the
/// text `text`: the first file carries the text, the others none.
pub open spec fn caption_at(text: Seq<char>, index: int) -> Seq<char> {
    if index == 0 {
        text
    } else {
        Seq::empty()
    }
}

/// Whether the items are the files `medias`, in order, each with its
/// caption.
pub open spec fn album_of(items: Seq<AlbumItem>, text: Seq<char>, medias: Seq<String>) -> bool {
    &&& items.len() == medias.len()
    &&& forall|i: int|
        0 <= i < items.len() ==> (#[trigger] items[i]).path@ == medias[i]@ && items[i].caption@
            == caption_at(text, i)
}

/// Whether `plan` sends `text` to the chat behind `to`: as a text message
/// without files, as an album of the files otherwise.
pub open spec fn sends(plan: SendPlan, to: ChatHandle, text: Seq<char>, medias: Option<Vec<String>>) -> bool {
    match medias {
        None => plan matches SendPlan::Text { to: t, text: sent } && t == to && sent@ == text,
        Some(files) => plan matches SendPlan::Album { to: t, items } && t == to && album_of(
            items@,
            text,
            files@,
        ),
    }
}

/// The media of one message, and where it is stored.
#[derive(Debug)]
pub struct MediaRequest {
    /// The handle of the chat of the message.
    pub chat: ChatHandle,
    pub message_id: i32,
    /// The directory of the chat's media.
    pub download_dir: String,
    /// The file of the message's media.
    pub download_path: String,
}

/// What is to be done for the media of a message that the service knows.
#[derive(Debug, Clone, Copy, PartialEq, Eq, Structural)]
pub enum MediaFetch {
    /// The file is there already.
    Stored,
    /// The media is to be stored; the directory is to be made first where
    /// `create_dir` is set.
    Fetch { create_dir: bool },
}

/// What is to be done after the service was asked for a message.
/// `lookup` holds, for each message it answered with, whether the message
/// exists; it is `None` where the request failed.
pub open spec fn media_plan(lookup: Option<Seq<bool>>, path_exists: bool, dir_exists: bool) -> Result<
    MediaFetch,
    BackendError,
> {
    match lookup {
        None => Err(BackendError::Transport),
        Some(found) => if found.len() == 0 || !found.last() {
            Err(BackendError::MessageNotFound)
        } else if path_exists {
            Ok(MediaFetch::Stored)
        } else {
            Ok(MediaFetch::Fetch { create_dir: !dir_exists })
        },
    }
}

/// The view of an optional list of flags.
pub open spec fn flags_view(lookup: Option<Vec<bool>>) -> Option<Seq<bool>> {
    match lookup {
        Some(found) => Some(found@),
        None => None,
    }
}

/// Decides what is to be done after the service was asked for a message:
/// a failed request gives `Transport`; no answer, or a message that does not
/// exist, gives `MessageNotFound`; a file that is there is kept; otherwise
/// the media is to be stored, in a directory that is made first where it is
/// missing.
pub fn plan_media_fetch(lookup: &Option<Vec<bool>>, path_exists: bool, dir_exists: bool) -> (plan:
    Result<MediaFetch, BackendError>)
    ensures
        plan == media_plan(flags_view(*lookup), path_exists, dir_exists),
{
    match lookup {
        None => Err(BackendError::Transport),
        Some(found) => {
            if found.len() == 0 {
                return Err(BackendError::MessageNotFound);
            }
            if !found[found.len() - 1] {
                return Err(BackendError::MessageNotFound);
            }
            if path_exists {
                Ok(MediaFetch::Stored)
            } else {
                Ok(MediaFetch::Fetch { create_dir: !dir_exists })
            }
        },
    }
}

/// The answer to a media request after the download: the path where the
/// media was stored; `DownloadFailed` where the message had nothing to
/// store; `Transport` where the download failed (`stored` is `None`).
pub fn media_downloaded(download_path: String, stored: Option<bool>) -> (result: Result<
    String,
    BackendError,
>)
    ensures
        stored == Some(true) ==> result is Ok && result->Ok_0@ == download_path@,
        stored == Some(false) ==> result == Err::<String, BackendError>(
            BackendError::DownloadFailed,
        ),
        stored is None ==> result == Err::<String, BackendError>(BackendError::Transport),
{
    match stored {
        Some(success) => {
            if success {
                Ok(download_path)
            } else {
                Err(BackendError::DownloadFailed)
            }
        },
        None => Err(BackendError::Transport),
    }
}

impl<L, P, H> Backend<L, P, H> {
    /// Plans the sending of `text` to the chat `chat_id`, with the files
    /// `medias` where there are any. A chat without a known handle gives
    /// `UnknownChat`. With files an album is sent, whose first file carries
    /// the text as its caption; without files a text message.
    pub fn send_message(&self, chat_id: i64, text: String, medias: Option<Vec<String>>) -> (plan:
        Result<SendPlan, BackendError>)
        ensures
            match handle_for(self.handles(), chat_id) {
                None => plan == Err::<SendPlan, BackendError>(BackendError::UnknownChat),
                Some(to) => plan is Ok && sends(plan->Ok_0, to, text@, medias),
            },
    {
        let to = match find_handle(&self.seen_packed_chats_map, chat_id) {
            Some(handle) => handle,
            None => {
                return Err(BackendError::UnknownChat);
            },
        };
        match medias {
            Some(files) => {
                let mut items: Vec<AlbumItem> = Vec::new();
                let mut index: usize = 0;
                while index < files.len()
                    invariant
                        index <= files.len(),
                        items@.len() == index,
                        forall|i: int|
                            0 <= i < index ==> (#[trigger] items@[i]).path@ == files@[i]@
                                && items@[i].caption@ == caption_at(text@, i),
                    decreases files.len() - index,
                {
                    let caption = if index == 0 {
                        text.clone()
                    } else {
                        String::new()
                    };
                    items.push(AlbumItem { path: files[index].clone(), caption });
                    index = index + 1;
                }
                Ok(SendPlan::Album { to, items })
            },
            None => Ok(SendPlan::Text { to, text }),
        }
    }

    /// Plans the download of the media of message `message_id` of the chat
    /// `chat_id`: the handle by which the message is asked for, and the
    /// directory and the file where its media goes. A chat without a known
    /// handle gives `UnknownChat`.
    pub fn download_media_from_message(&self, chat_id: i64, message_id: i32) -> (request: Result<
        MediaRequest,
        BackendError,
    >)
        ensures
            match handle_for(self.handles(), chat_id) {
                None => request == Err::<MediaRequest, BackendError>(BackendError::UnknownChat),
                Some(chat) => {
                    &&& request is Ok
                    &&& request->Ok_0.chat == chat
                    &&& request->Ok_0.message_id == message_id
                    &&& request->Ok_0.download_dir@ == download_dir(chat_id as int)
                    &&& request->Ok_0.download_path@ == media_path(
                        chat_id as int,
                        message_id as int,
                    )
                },
            },
    {
        let chat = match find_handle(&self.seen_packed_chats_map, chat_id) {
            Some(handle) => handle,
            None => {
                return Err(BackendError::UnknownChat);
            },
        };
        Ok(
            MediaRequest {
                chat,
                message_id,
                download_dir: get_download_dir(chat_id),
                download_path: get_media_path(chat_id, message_id),
            },
        )
    }
}

} // verus!

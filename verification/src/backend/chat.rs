//! Filling the caches from the host's records, the scan of the chat list,
//! and the coordination of profile photo downloads.

use crate::backend::message::{
    batch_of, count_fresh, fresh, handles_after_page, listing_exhausted, MESSAGE_PAGE_LIMIT,
};
use crate::backend::{Backend, BackendError};
use crate::batch::views;
use crate::caches::{find_offset, offsets_in, put_handle, put_summary};
use crate::handle::{handle_of_hex, ChatHandle};
use crate::raw::{RawDialog, RawMessage};
use crate::types::{
    NativeChat, NativeChatView, NativeMessage, NativeMessageView, NativePackedChat, NativeSeenChat,
    NativeSeenChatView,
};
use dashmap::DashMap;
use vstd::prelude::*;

verus! {

/// Whether the text of every record is the hexadecimal text of a handle.
pub open spec fn all_handles_valid(records: Seq<NativePackedChat>) -> bool {
    forall|i: int| 0 <= i < records.len() ==> handle_of_hex(
        (#[trigger] records[i]).packed_chat@,
    ) is Some
}

/// How many leading records hold the hexadecimal text of a handle.
pub open spec fn valid_prefix_len(records: Seq<NativePackedChat>) -> nat
    decreases records.len(),
{
    if records.len() == 0 {
        0
    } else if handle_of_hex(records[0].packed_chat@) is Some {
        1 + valid_prefix_len(records.drop_first())
    } else {
        0
    }
}

/// The entries after `entries` were merged in, one after the other: an
/// entry takes the place of an earlier one with the same chat id.
pub open spec fn merge_entries<V>(base: Map<i64, V>, entries: Seq<(i64, V)>) -> Map<i64, V>
    decreases entries.len(),
{
    if entries.len() == 0 {
        base
    } else {
        merge_entries(base, entries.drop_last()).insert(entries.last().0, entries.last().1)
    }
}

/// The chat id and the handle of each record.
pub open spec fn handle_entries(records: Seq<NativePackedChat>) -> Seq<(i64, ChatHandle)> {
    records.map_values(|r: NativePackedChat| (r.chat_id, handle_of_hex(r.packed_chat@)->0))
}

/// The chat id and the value of each summary.
pub open spec fn summary_entries(chats: Seq<NativeChat>) -> Seq<(i64, NativeChatView)> {
    chats.map_values(|c: NativeChat| (c.chat_id, c@))
}

/// The handles after the records were merged in, one after the other.
pub open spec fn merge_handles(handles: Map<i64, ChatHandle>, records: Seq<NativePackedChat>) -> Map<
    i64,
    ChatHandle,
> {
    merge_entries(handles, handle_entries(records))
}

/// The summaries after the records were merged in, one after the other.
pub open spec fn merge_summaries(summaries: Map<i64, NativeChatView>, chats: Seq<NativeChat>) -> Map<
    i64,
    NativeChatView,
> {
    merge_entries(summaries, summary_entries(chats))
}

/// The leading valid records are no more than there are, each of them is
/// valid, and the one after them is not.
pub proof fn lemma_valid_prefix_len(records: Seq<NativePackedChat>)
    ensures
        valid_prefix_len(records) <= records.len(),
        forall|k: int|
            0 <= k < valid_prefix_len(records) ==> handle_of_hex(
                (#[trigger] records[k]).packed_chat@,
            ) is Some,
        valid_prefix_len(records) < records.len() ==> handle_of_hex(
            records[valid_prefix_len(records) as int].packed_chat@,
        ) is None,
        valid_prefix_len(records) == records.len() <==> all_handles_valid(records),
    decreases records.len(),
{
    if records.len() > 0 && handle_of_hex(records[0].packed_chat@) is Some {
        let rest = records.drop_first();
        lemma_valid_prefix_len(rest);
        assert forall|k: int| 0 <= k < valid_prefix_len(records) implies handle_of_hex(
            (#[trigger] records[k]).packed_chat@,
        ) is Some by {
            if k > 0 {
                assert(rest[k - 1] == records[k]);
            }
        }
        if valid_prefix_len(records) < records.len() {
            assert(rest[valid_prefix_len(rest) as int] == records[valid_prefix_len(records) as int]);
        }
    }
}

/// A prefix of valid records that ends the list or is followed by a record
/// that is not valid is the run of leading valid records.
pub proof fn lemma_valid_prefix_len_is(records: Seq<NativePackedChat>, n: int)
    requires
        0 <= n <= records.len(),
        forall|k: int| 0 <= k < n ==> handle_of_hex((#[trigger] records[k]).packed_chat@) is Some,
        n < records.len() ==> handle_of_hex(records[n].packed_chat@) is None,
    ensures
        valid_prefix_len(records) == n,
    decreases records.len(),
{
    if records.len() == 0 {
    } else if n == 0 {
    } else {
        let rest = records.drop_first();
        assert(handle_of_hex(records[0].packed_chat@) is Some);
        assert forall|k: int| 0 <= k < n - 1 implies handle_of_hex(
            (#[trigger] rest[k]).packed_chat@,
        ) is Some by {
            assert(rest[k] == records[k + 1]);
        }
        if n - 1 < rest.len() {
            assert(rest[n - 1] == records[n]);
        }
        lemma_valid_prefix_len_is(rest, n - 1);
    }
}

impl<L, P, H> Backend<L, P, H> {
    /// Keeps what a stored record was read as: a handle is stored under
    /// `chat_id`, in place of an earlier one; a record that could not be read
    /// gives `InvalidHandle` and changes nothing.
    pub fn keep_parsed_handle(&mut self, chat_id: i64, parsed: Option<ChatHandle>) -> (result:
        Result<(), BackendError>)
        requires
            old(self).wf(),
        ensures
            final(self).wf(),
            final(self).same_but_caches(old(self)),
            final(self).summaries() == old(self).summaries(),
            match parsed {
                Some(handle) => result is Ok && final(self).handles() == old(self).handles().insert(
                    chat_id,
                    handle,
                ),
                None => result == Err::<(), BackendError>(BackendError::InvalidHandle)
                    && final(self).handles() == old(self).handles(),
            },
    {
        match parsed {
            Some(handle) => {
                put_handle(&mut self.seen_packed_chats_map, chat_id, handle);
                Ok(())
            },
            None => Err(BackendError::InvalidHandle),
        }
    }

    /// Fills the caches from what the host has stored: first the handles,
    /// then the summaries, each record under its chat id and in place of an
    /// earlier entry.
    ///
    /// A record whose text is not the hexadecimal text of a handle ends the
    /// call with `InvalidHandle`: the handles before it are merged in, and no
    /// summary is.
    pub fn sync_caches_from_local_db(
        &mut self,
        packed_chats: Vec<NativePackedChat>,
        chats: Vec<NativeChat>,
    ) -> (result: Result<(), BackendError>)
        requires
            old(self).wf(),
        ensures
            final(self).wf(),
            final(self).same_but_caches(old(self)),
            final(self).handles() == merge_handles(
                old(self).handles(),
                packed_chats@.take(valid_prefix_len(packed_chats@) as int),
            ),
            all_handles_valid(packed_chats@) ==> result is Ok && final(self).summaries()
                == merge_summaries(old(self).summaries(), chats@),
            !all_handles_valid(packed_chats@) ==> result == Err::<(), BackendError>(
                BackendError::InvalidHandle,
            ) && final(self).summaries() == old(self).summaries(),
    {
        let mut i: usize = 0;
        while i < packed_chats.len()
            invariant
                i <= packed_chats.len(),
                self.wf(),
                self.same_but_caches(old(self)),
                self.summaries() == old(self).summaries(),
                self.handles() == merge_handles(old(self).handles(), packed_chats@.take(i as int)),
                forall|k: int|
                    0 <= k < i ==> handle_of_hex((#[trigger] packed_chats@[k]).packed_chat@) is Some,
            decreases packed_chats.len() - i,
        {
            let record = &packed_chats[i];
            let parsed = ChatHandle::from_hex(record.packed_chat.as_str());
            if let Err(error) = self.keep_parsed_handle(record.chat_id, parsed) {
                proof {
                    lemma_valid_prefix_len_is(packed_chats@, i as int);
                    lemma_valid_prefix_len(packed_chats@);
                }
                return Err(error);
            }
            proof {
                let next = handle_entries(packed_chats@.take(i + 1));
                assert(next.drop_last() =~= handle_entries(packed_chats@.take(i as int)));
                assert(next.last() == (
                    packed_chats@[i as int].chat_id,
                    handle_of_hex(packed_chats@[i as int].packed_chat@)->0,
                ));
            }
            i = i + 1;
        }
        proof {
            lemma_valid_prefix_len_is(packed_chats@, i as int);
            lemma_valid_prefix_len(packed_chats@);
            assert(packed_chats@.take(i as int) =~= packed_chats@);
        }
        let mut j: usize = 0;
        while j < chats.len()
            invariant
                j <= chats.len(),
                self.wf(),
                self.same_but_caches(old(self)),
                self.handles() == merge_handles(old(self).handles(), packed_chats@),
                self.summaries() == merge_summaries(old(self).summaries(), chats@.take(j as int)),
            decreases chats.len() - j,
        {
            let copy = chats[j].clone();
            put_summary(&mut self.chats_map, chats[j].chat_id, copy);
            proof {
                let next = summary_entries(chats@.take(j + 1));
                assert(next.drop_last() =~= summary_entries(chats@.take(j as int)));
                assert(next.last() == (chats@[j as int].chat_id, chats@[j as int]@));
            }
            j = j + 1;
        }
        proof {
            assert(chats@.take(j as int) =~= chats@);
        }
        Ok(())
    }
}

/// What the host is told of one dialog that has new messages.
#[derive(Debug)]
pub struct SyncEvent {
    /// The chat, with the handle by which it can be addressed again.
    pub seen_chat: NativeSeenChat,
    /// The refreshed summary of the chat.
    pub chat: NativeChat,
    /// The new messages, in ascending order of their ids.
    pub messages: Vec<NativeMessage>,
}

/// The mathematical value of a [`SyncEvent`].
pub struct SyncEventView {
    pub seen_chat: NativeSeenChatView,
    pub chat: NativeChatView,
    pub messages: Seq<NativeMessageView>,
}

impl View for SyncEvent {
    type V = SyncEventView;

    open spec fn view(&self) -> SyncEventView {
        SyncEventView {
            seen_chat: self.seen_chat@,
            chat: self.chat@,
            messages: views(self.messages@),
        }
    }
}

/// How the scan of the chat list goes on after one dialog.
#[derive(Debug)]
pub enum SyncStep {
    /// The dialog has new messages: the caches are refreshed and the host is
    /// to be told.
    Emit(SyncEvent),
    /// A pinned dialog without new messages: the scan goes on.
    Skip,
    /// A dialog without new messages that is not pinned: the scan is over,
    /// since the dialogs after it are taken to be no newer.
    Stop,
}

/// One dialog of the chat list together with the messages that the service
/// lists for it, newest first.
#[derive(Debug)]
pub struct DialogPage {
    pub dialog: RawDialog,
    /// The messages that the service listed, newest first.
    pub messages: Vec<RawMessage>,
    /// Whether asking for the message after the listed ones fails.
    pub failed: bool,
}

/// What a scan of the chat list did.
#[derive(Debug)]
pub struct SyncReport {
    /// One event for each dialog with new messages, in the order of the scan.
    pub events: Vec<SyncEvent>,
    /// How many dialogs the scan asked the messages of.
    pub fetched: usize,
    /// `Transport` where loading the messages of a dialog failed.
    pub result: Result<(), BackendError>,
}

/// The two caches as one value.
pub struct Caches {
    pub handles: Map<i64, ChatHandle>,
    pub summaries: Map<i64, NativeChatView>,
}

/// The handle stored for `chat_id`, where there is one.
pub open spec fn handle_for(handles: Map<i64, ChatHandle>, chat_id: i64) -> Option<ChatHandle> {
    if handles.contains_key(chat_id) {
        Some(handles[chat_id])
    } else {
        None
    }
}

/// The resume offsets, where the caller gave some.
pub open spec fn offsets_view(last_message_ids: Option<DashMap<i64, i32>>) -> Option<Map<i64, i32>> {
    match last_message_ids {
        Some(offsets) => Some(offsets_in(offsets)),
        None => None,
    }
}

/// The resume offset of a chat: the id of the last message that the caller
/// has seen of it, where the caller gave one.
pub open spec fn offset_for(last_message_ids: Option<Map<i64, i32>>, chat_id: i64) -> Option<i32> {
    match last_message_ids {
        Some(offsets) => if offsets.contains_key(chat_id) {
            Some(offsets[chat_id])
        } else {
            None
        },
        None => None,
    }
}

/// The summary of a dialog whose newest loaded message is `newest`.
pub open spec fn dialog_summary(dialog: RawDialog, newest: NativeMessageView) -> NativeChatView {
    NativeChat::with_last_message(
        NativeChatView { pinned: dialog.pinned, ..NativeChat::summary_of(dialog.chat) },
        newest,
    )
}

/// The event of a dialog whose new messages are `messages`.
pub open spec fn event_of(dialog: RawDialog, messages: Seq<NativeMessageView>) -> SyncEventView {
    SyncEventView {
        seen_chat: NativeSeenChat::seen_chat(dialog.chat),
        chat: dialog_summary(dialog, messages.last()),
        messages,
    }
}

/// The caches after a dialog with the new messages `messages` was
/// processed: nothing changes without new messages; otherwise the handle of
/// the chat and the refreshed summary are stored under the chat's id.
pub open spec fn caches_after_dialog(
    caches: Caches,
    dialog: RawDialog,
    messages: Seq<NativeMessageView>,
) -> Caches {
    if messages.len() == 0 {
        caches
    } else {
        Caches {
            handles: caches.handles.insert(dialog.chat.spec_id(), dialog.chat.spec_pack()),
            summaries: caches.summaries.insert(
                dialog.chat.spec_id(),
                dialog_summary(dialog, messages.last()),
            ),
        }
    }
}

impl DialogPage {
    /// The resume offset of the dialog's chat.
    pub open spec fn offset(&self, last_message_ids: Option<Map<i64, i32>>) -> Option<i32> {
        offset_for(last_message_ids, self.dialog.chat.spec_id())
    }

    /// The listed messages that are loaded: the leading ones of the first
    /// page that are newer than the resume offset of the dialog's chat.
    pub open spec fn fresh(&self, last_message_ids: Option<Map<i64, i32>>) -> Seq<RawMessage> {
        fresh(self.messages@, self.offset(last_message_ids))
    }

    /// The new messages of the dialog, in ascending order of their ids.
    pub open spec fn new_messages(&self, last_message_ids: Option<Map<i64, i32>>) -> Seq<
        NativeMessageView,
    > {
        batch_of(self.fresh(last_message_ids))
    }

    /// Whether loading the messages of the dialog fails: every listed
    /// message is loaded, one more is asked for, and asking fails.
    pub open spec fn fails(&self, last_message_ids: Option<Map<i64, i32>>) -> bool {
        self.failed && listing_exhausted(self.messages@, self.offset(last_message_ids))
    }

    /// Whether the scan goes on after this dialog: loading its messages did
    /// not fail, and it has new messages or is pinned.
    pub open spec fn continues(&self, last_message_ids: Option<Map<i64, i32>>) -> bool {
        !self.fails(last_message_ids) && (self.new_messages(last_message_ids).len() > 0
            || self.dialog.pinned)
    }

    /// Whether the host is told of this dialog.
    pub open spec fn emits(&self, last_message_ids: Option<Map<i64, i32>>) -> bool {
        !self.fails(last_message_ids) && self.new_messages(last_message_ids).len() > 0
    }

    /// The caches after this dialog was processed: the handles of the
    /// senders of the loaded messages are recorded in any case; unless
    /// loading failed, the dialog is then finished as `caches_after_dialog`
    /// says.
    pub open spec fn caches_after(
        &self,
        caches: Caches,
        last_message_ids: Option<Map<i64, i32>>,
    ) -> Caches {
        let loaded = Caches {
            handles: handles_after_page(caches.handles, self.fresh(last_message_ids)),
            summaries: caches.summaries,
        };
        if self.fails(last_message_ids) {
            loaded
        } else {
            caches_after_dialog(loaded, self.dialog, self.new_messages(last_message_ids))
        }
    }
}

/// How many dialogs a scan asks the messages of: all up to and including
/// the first one after which the scan does not go on.
pub open spec fn scan_len(pages: Seq<DialogPage>, last_message_ids: Option<Map<i64, i32>>) -> nat
    decreases pages.len(),
{
    if pages.len() == 0 {
        0
    } else if pages[0].continues(last_message_ids) {
        1 + scan_len(pages.drop_first(), last_message_ids)
    } else {
        1
    }
}

/// The caches after the dialogs of `pages` were processed one after the
/// other.
pub open spec fn caches_after_scan(
    caches: Caches,
    pages: Seq<DialogPage>,
    last_message_ids: Option<Map<i64, i32>>,
) -> Caches
    decreases pages.len(),
{
    if pages.len() == 0 {
        caches
    } else {
        pages.last().caches_after(
            caches_after_scan(caches, pages.drop_last(), last_message_ids),
            last_message_ids,
        )
    }
}

/// The events of the dialogs of `pages`, in their order.
pub open spec fn events_of_scan(
    pages: Seq<DialogPage>,
    last_message_ids: Option<Map<i64, i32>>,
) -> Seq<SyncEventView>
    decreases pages.len(),
{
    if pages.len() == 0 {
        Seq::empty()
    } else {
        let before = events_of_scan(pages.drop_last(), last_message_ids);
        if pages.last().emits(last_message_ids) {
            before.push(event_of(pages.last().dialog, pages.last().new_messages(last_message_ids)))
        } else {
            before
        }
    }
}

/// The values of the events of a list, in order.
pub open spec fn event_views(events: Seq<SyncEvent>) -> Seq<SyncEventView> {
    events.map_values(|e: SyncEvent| e@)
}

/// The scan asks no more dialogs than there are; it goes on after each
/// dialog it asks but the last, and it ends before the end of the list only
/// at a dialog after which it does not go on.
pub proof fn lemma_scan_len(pages: Seq<DialogPage>, last_message_ids: Option<Map<i64, i32>>)
    ensures
        scan_len(pages, last_message_ids) <= pages.len(),
        pages.len() > 0 ==> scan_len(pages, last_message_ids) >= 1,
        forall|k: int|
            0 <= k < scan_len(pages, last_message_ids) - 1 ==> (#[trigger] pages[k]).continues(
                last_message_ids,
            ),
        0 < scan_len(pages, last_message_ids) < pages.len() ==> !pages[scan_len(
            pages,
            last_message_ids,
        ) - 1].continues(last_message_ids),
    decreases pages.len(),
{
    if pages.len() > 0 && pages[0].continues(last_message_ids) {
        let rest = pages.drop_first();
        lemma_scan_len(rest, last_message_ids);
        assert forall|k: int| 0 <= k < scan_len(pages, last_message_ids) - 1 implies (
        #[trigger] pages[k]).continues(last_message_ids) by {
            if k > 0 {
                assert(rest[k - 1] == pages[k]);
            }
        }
        if 0 < scan_len(rest, last_message_ids) < rest.len() {
            assert(rest[scan_len(rest, last_message_ids) - 1] == pages[scan_len(
                pages,
                last_message_ids,
            ) - 1]);
        }
    }
}

/// A prefix of `n` dialogs, after each of which but the last the scan goes
/// on, and which ends the list or ends with a dialog after which the scan
/// does not go on, is what the scan asks.
pub proof fn lemma_scan_len_is(
    pages: Seq<DialogPage>,
    last_message_ids: Option<Map<i64, i32>>,
    n: int,
)
    requires
        0 <= n <= pages.len(),
        pages.len() > 0 ==> n >= 1,
        forall|k: int| 0 <= k < n - 1 ==> (#[trigger] pages[k]).continues(last_message_ids),
        0 < n < pages.len() ==> !pages[n - 1].continues(last_message_ids),
    ensures
        scan_len(pages, last_message_ids) == n,
    decreases pages.len(),
{
    if pages.len() == 0 {
    } else if n == 1 {
        if pages[0].continues(last_message_ids) {
            assert(pages.len() == 1);
            assert(pages.drop_first().len() == 0);
            assert(scan_len(pages.drop_first(), last_message_ids) == 0);
        }
    } else {
        let rest = pages.drop_first();
        assert(pages[0].continues(last_message_ids));
        assert forall|k: int| 0 <= k < n - 2 implies (#[trigger] rest[k]).continues(
            last_message_ids,
        ) by {
            assert(rest[k] == pages[k + 1]);
        }
        if 0 < n - 1 < rest.len() {
            assert(rest[n - 2] == pages[n - 1]);
        }
        lemma_scan_len_is(rest, last_message_ids, n - 1);
    }
}

/// The resume offset of chat `chat_id`.
pub fn resume_offset(last_message_ids: &Option<DashMap<i64, i32>>, chat_id: i64) -> (offset:
    Option<i32>)
    ensures
        offset == offset_for(offsets_view(*last_message_ids), chat_id),
{
    match last_message_ids {
        Some(offsets) => find_offset(offsets, chat_id),
        None => None,
    }
}

impl<L, P, H> Backend<L, P, H> {
    /// Finishes one dialog of the scan, whose new messages are
    /// `sorted_messages` in ascending order of their ids.
    ///
    /// Without new messages nothing changes, and the scan stops unless the
    /// dialog is pinned. With new messages the summary of the chat is built
    /// from the newest of them and stored, the handle of the chat is stored,
    /// and the host is to be told of the chat and its new messages.
    pub fn process_dialog(&mut self, dialog: &RawDialog, sorted_messages: Vec<NativeMessage>) -> (step:
        SyncStep)
        requires
            old(self).wf(),
        ensures
            final(self).wf(),
            final(self).same_but_caches(old(self)),
            (Caches { handles: final(self).handles(), summaries: final(self).summaries() })
                == caches_after_dialog(
                Caches { handles: old(self).handles(), summaries: old(self).summaries() },
                *dialog,
                views(sorted_messages@),
            ),
            sorted_messages@.len() == 0 && !dialog.pinned ==> step is Stop,
            sorted_messages@.len() == 0 && dialog.pinned ==> step is Skip,
            sorted_messages@.len() > 0 ==> step is Emit && step->Emit_0@ == event_of(
                *dialog,
                views(sorted_messages@),
            ),
    {
        let mut chat = NativeChat::from_raw(&dialog.chat);
        chat.pinned = dialog.pinned;
        if sorted_messages.len() == 0 {
            if !chat.pinned {
                return SyncStep::Stop;
            }
            return SyncStep::Skip;
        }
        let last_message = &sorted_messages[sorted_messages.len() - 1];
        assert(last_message@ == views(sorted_messages@).last());
        chat.set_last_message(last_message);
        let packed_chat = dialog.chat.pack();
        put_handle(&mut self.seen_packed_chats_map, dialog.chat.id(), packed_chat);
        let seen_chat = NativeSeenChat::from_raw(&dialog.chat);
        put_summary(&mut self.chats_map, dialog.chat.id(), chat.clone());
        SyncStep::Emit(SyncEvent { seen_chat, chat, messages: sorted_messages })
    }

    /// Scans the chat list in the order of `pages` and loads of each dialog,
    /// from the first `MESSAGE_PAGE_LIMIT` messages listed for it, the leading
    /// ones that are newer than the resume offset of its chat, all of them
    /// where the chat has no offset.
    ///
    /// The scan ends at the first dialog without new messages that is not
    /// pinned, and at a dialog the loading of whose messages fails; the
    /// dialogs after it are not looked at. What the dialogs before it changed
    /// in the caches stays.
    pub fn load_chats_with_offset(
        &mut self,
        pages: &Vec<DialogPage>,
        last_message_ids: Option<DashMap<i64, i32>>,
    ) -> (report: SyncReport)
        requires
            old(self).wf(),
        ensures
            final(self).wf(),
            final(self).same_but_caches(old(self)),
            report.fetched == scan_len(pages@, offsets_view(last_message_ids)),
            (Caches { handles: final(self).handles(), summaries: final(self).summaries() })
                == caches_after_scan(
                Caches { handles: old(self).handles(), summaries: old(self).summaries() },
                pages@.take(report.fetched as int),
                offsets_view(last_message_ids),
            ),
            event_views(report.events@) == events_of_scan(
                pages@.take(report.fetched as int),
                offsets_view(last_message_ids),
            ),
            report.result == (if report.fetched > 0 && pages@[report.fetched - 1].fails(
                offsets_view(last_message_ids),
            ) {
                Err::<(), BackendError>(BackendError::Transport)
            } else {
                Ok::<(), BackendError>(())
            }),
    {
        let ghost offsets = offsets_view(last_message_ids);
        let ghost start = Caches { handles: self.handles(), summaries: self.summaries() };
        let mut events: Vec<SyncEvent> = Vec::new();
        let mut i: usize = 0;
        assert(event_views(events@) =~= events_of_scan(pages@.take(0), offsets));
        while i < pages.len()
            invariant
                i <= pages.len(),
                self.wf(),
                self.same_but_caches(old(self)),
                offsets == offsets_view(last_message_ids),
                start == (Caches { handles: old(self).handles(), summaries: old(self).summaries() }),
                (Caches { handles: self.handles(), summaries: self.summaries() })
                    == caches_after_scan(start, pages@.take(i as int), offsets),
                event_views(events@) == events_of_scan(pages@.take(i as int), offsets),
                forall|k: int| 0 <= k < i ==> (#[trigger] pages@[k]).continues(offsets),
            decreases pages.len() - i,
        {
            let page = &pages[i];
            proof {
                let next = pages@.take(i + 1);
                assert(next.drop_last() =~= pages@.take(i as int));
                assert(next.last() == pages@[i as int]);
            }
            let offset = resume_offset(&last_message_ids, page.dialog.chat.id());
            let loaded = count_fresh(&page.messages, offset);
            let sorted_messages = self.load_messages_from_iter(&page.messages, offset);
            if page.failed && loaded == page.messages.len() && loaded < MESSAGE_PAGE_LIMIT {
                proof {
                    lemma_scan_len_is(pages@, offsets, i + 1);
                }
                return SyncReport { events, fetched: i + 1, result: Err(BackendError::Transport) };
            }
            let step = self.process_dialog(&page.dialog, sorted_messages);
            match step {
                SyncStep::Emit(event) => {
                    let ghost before = event_views(events@);
                    events.push(event);
                    assert(event_views(events@) =~= before.push(event@));
                },
                SyncStep::Skip => {},
                SyncStep::Stop => {
                    proof {
                        lemma_scan_len_is(pages@, offsets, i + 1);
                    }
                    return SyncReport { events, fetched: i + 1, result: Ok(()) };
                },
            }
            i = i + 1;
        }
        proof {
            lemma_scan_len_is(pages@, offsets, i as int);
            assert(pages@.take(i as int) =~= pages@);
        }
        SyncReport { events, fetched: i, result: Ok(()) }
    }
}

} // verus!

//! What holds of the engine across calls, stated over the same spec
//! functions as the contracts of its operations.

use crate::backend::chat::{
    caches_after_dialog, handle_for, lemma_scan_len, lemma_scan_len_is,
    merge_entries, merge_handles, merge_summaries, scan_len, Caches, DialogPage,
};
use crate::backend::download::{start_by_id, start_direct, DownloadStep};
use crate::backend::message::{
    batch_of, first_page, fresh, fresh_len, handles_after_message, lemma_batch_of_ascending,
    lemma_newer_len, lookup, newer_than, summary_after_message, MESSAGE_PAGE_LIMIT,
};
use crate::backend::{Backend, BackendError};
use crate::batch::{ascending, lemma_place, lemma_place_len, lemma_place_members, lemma_spot, spot};
use crate::handle::ChatHandle;
use crate::raw::{RawDialog, RawMessage};
use crate::types::{NativeChat, NativeChatView, NativeMessage, NativeMessageView, NativePackedChat};
use crate::offsets::{chat_id_of_text, digit_value, digits_value};
use crate::utils::{decimal, decimal_digits, digit_char, profile_photo_file, ProfilePhotoPath};
use vstd::prelude::*;

verus! {

/// A live message leaves the id of that message as the last message id of
/// its chat, whatever the chat's summary was before.
pub proof fn live_update_sets_own_id(summaries: Map<i64, NativeChatView>, raw: RawMessage)
    ensures
        summaries.insert(
            raw.chat.spec_id(),
            summary_after_message(lookup(summaries, raw.chat.spec_id()), raw),
        )[raw.chat.spec_id()].last_message_id == raw.id,
{
}

/// The summary that a dialog with new messages leaves has a last message id
/// that none of the new messages exceeds.
pub proof fn sync_event_covers_its_messages(
    caches: Caches,
    dialog: RawDialog,
    messages: Seq<NativeMessageView>,
)
    requires
        ascending(messages),
        messages.len() > 0,
    ensures
        forall|i: int|
            0 <= i < messages.len() ==> (#[trigger] messages[i]).message_id <= caches_after_dialog(
                caches,
                dialog,
                messages,
            ).summaries[dialog.chat.spec_id()].last_message_id,
{
    let newest = messages.last();
    assert(newest == messages[messages.len() - 1]);
    assert forall|i: int| 0 <= i < messages.len() implies (#[trigger] messages[i]).message_id
        <= newest.message_id by {
        if i < messages.len() - 1 {
            assert(messages[i].message_id < messages[messages.len() - 1].message_id);
        }
    }
}

/// The index of the last entry with the chat id `chat_id`, or -1 where no
/// entry has it.
pub open spec fn last_index_of<V>(entries: Seq<(i64, V)>, chat_id: i64) -> int
    decreases entries.len(),
{
    if entries.len() == 0 {
        -1
    } else if entries.last().0 == chat_id {
        entries.len() - 1
    } else {
        last_index_of(entries.drop_last(), chat_id)
    }
}

/// After a merge a chat id stands for the last entry that was merged in
/// under it, and for what it stood for before where there is no such entry.
pub proof fn merge_keeps_last_entry<V>(base: Map<i64, V>, entries: Seq<(i64, V)>, chat_id: i64)
    ensures
        -1 <= last_index_of(entries, chat_id) < entries.len(),
        last_index_of(entries, chat_id) >= 0 ==> entries[last_index_of(entries, chat_id)].0
            == chat_id && merge_entries(base, entries).contains_key(chat_id) && merge_entries(
            base,
            entries,
        )[chat_id] == entries[last_index_of(entries, chat_id)].1,
        last_index_of(entries, chat_id) < 0 ==> (merge_entries(base, entries).contains_key(chat_id)
            <==> base.contains_key(chat_id)),
        last_index_of(entries, chat_id) < 0 && base.contains_key(chat_id) ==> merge_entries(
            base,
            entries,
        )[chat_id] == base[chat_id],
    decreases entries.len(),
{
    if entries.len() > 0 {
        merge_keeps_last_entry(base, entries.drop_last(), chat_id);
    }
}

/// Merging the same entries in a second time changes nothing.
pub proof fn merge_is_idempotent<V>(base: Map<i64, V>, entries: Seq<(i64, V)>)
    ensures
        merge_entries(merge_entries(base, entries), entries) == merge_entries(base, entries),
{
    let once = merge_entries(base, entries);
    let twice = merge_entries(once, entries);
    assert forall|chat_id: i64| #[trigger]
        twice.dom().contains(chat_id) == once.dom().contains(chat_id) by {
        merge_keeps_last_entry(base, entries, chat_id);
        merge_keeps_last_entry(once, entries, chat_id);
    }
    assert forall|chat_id: i64| #[trigger] once.dom().contains(chat_id) implies twice[chat_id]
        == once[chat_id] by {
        merge_keeps_last_entry(base, entries, chat_id);
        merge_keeps_last_entry(once, entries, chat_id);
    }
    assert(twice =~= once);
}

/// Filling the caches from the same records twice leaves them as filling
/// them once does.
pub proof fn bootstrap_is_idempotent(
    handles: Map<i64, ChatHandle>,
    summaries: Map<i64, NativeChatView>,
    packed_chats: Seq<NativePackedChat>,
    chats: Seq<NativeChat>,
)
    ensures
        merge_handles(merge_handles(handles, packed_chats), packed_chats) == merge_handles(
            handles,
            packed_chats,
        ),
        merge_summaries(merge_summaries(summaries, chats), chats) == merge_summaries(
            summaries,
            chats,
        ),
{
    merge_is_idempotent(handles, crate::backend::chat::handle_entries(packed_chats));
    merge_is_idempotent(summaries, crate::backend::chat::summary_entries(chats));
}

/// The handle of a sender that a live message brought is the handle that a
/// later download of the sender's photo resolves, as long as a permit is
/// free and no download of it is in flight.
pub proof fn live_sender_handle_is_resolved(
    handles: Map<i64, ChatHandle>,
    raw: RawMessage,
    free_permits: nat,
)
    requires
        raw.sender is Some,
        free_permits > 0,
    ensures
        start_by_id(
            false,
            handle_for(handles_after_message(handles, raw), raw.sender->0.spec_id()),
            free_permits,
        ) == Ok::<DownloadStep, BackendError>(DownloadStep::Resolve(raw.sender->0.spec_pack())),
{
}

/// The handle of the chat of a live message is the handle that a later
/// download of the chat's photo resolves, unless the sender of the message
/// has the id of the chat and so took its place.
pub proof fn live_chat_handle_is_resolved(
    handles: Map<i64, ChatHandle>,
    raw: RawMessage,
    free_permits: nat,
)
    requires
        raw.sender is Some ==> raw.sender->0.spec_id() != raw.chat.spec_id(),
        free_permits > 0,
    ensures
        start_by_id(
            false,
            handle_for(handles_after_message(handles, raw), raw.chat.spec_id()),
            free_permits,
        ) == Ok::<DownloadStep, BackendError>(DownloadStep::Resolve(raw.chat.spec_pack())),
{
}

/// While the photo of a target is being downloaded, a second request for
/// the same target waits and takes nothing: `after` is the engine once the
/// first request has taken its permit.
pub proof fn second_request_waits<L, P, H>(
    before: &Backend<L, P, H>,
    after: &Backend<L, P, H>,
    target: i64,
    has_photo: bool,
)
    requires
        after.took_permit(before, target),
    ensures
        start_by_id(
            after.in_flight().contains(target),
            handle_for(after.handles(), target),
            after.free_permits(),
        ) == Ok::<DownloadStep, BackendError>(DownloadStep::Wait),
        start_direct(after.in_flight().contains(target), has_photo, after.free_permits()) == Ok::<
            DownloadStep,
            BackendError,
        >(DownloadStep::Wait),
{
}

/// Two requests that find the same number of photos in the directory of a
/// chat are given the same next path.
pub proof fn same_count_same_next_path(
    first: ProfilePhotoPath,
    second: ProfilePhotoPath,
    chat_id: int,
    count: int,
)
    requires
        first.describes(chat_id, count),
        second.describes(chat_id, count),
    ensures
        first.next@ == second.next@,
        first.dir@ == second.dir@,
{
}

/// A dialog has no new messages exactly when the newest message listed for
/// it is not newer than its resume offset, or none is listed.
pub proof fn no_new_messages_iff_none_fresh(page: DialogPage, last_message_ids: Option<Map<i64, i32>>)
    ensures
        page.new_messages(last_message_ids).len() == 0 <==> page.fresh(last_message_ids).len()
            == 0,
        ascending(page.new_messages(last_message_ids)),
{
    let fresh = page.fresh(last_message_ids);
    lemma_batch_of_ascending(fresh);
    if fresh.len() > 0 {
        lemma_batch_of_ascending(fresh.drop_last());
        lemma_place(batch_of(fresh.drop_last()), NativeMessage::snapshot_of(fresh.last()));
    }
}

/// The scan stops at the first dialog that is not pinned and has no new
/// messages: the dialogs after it are never asked for their messages.
pub proof fn scan_stops_at_first_stale_dialog(
    pages: Seq<DialogPage>,
    last_message_ids: Option<Map<i64, i32>>,
    stale: int,
)
    requires
        0 <= stale < pages.len(),
        forall|k: int| 0 <= k < stale ==> (#[trigger] pages[k]).continues(last_message_ids),
        !pages[stale].fails(last_message_ids),
        !pages[stale].dialog.pinned,
        pages[stale].new_messages(last_message_ids).len() == 0,
    ensures
        scan_len(pages, last_message_ids) == stale + 1,
{
    lemma_scan_len_is(pages, last_message_ids, stale + 1);
}

/// A pinned dialog never ends the scan: where the scan reaches it and its
/// messages are loaded without failure, the scan reaches the dialog after it
/// too.
pub proof fn pinned_dialog_never_stops_scan(
    pages: Seq<DialogPage>,
    last_message_ids: Option<Map<i64, i32>>,
    pinned: int,
)
    requires
        0 <= pinned < scan_len(pages, last_message_ids),
        pinned + 1 < pages.len(),
        pages[pinned].dialog.pinned,
        !pages[pinned].fails(last_message_ids),
    ensures
        scan_len(pages, last_message_ids) > pinned + 1,
{
    lemma_scan_len(pages, last_message_ids);
    assert(pages[pinned].continues(last_message_ids));
}

/// Whether the message at `k` is the last one that the page lists with its
/// id.
pub open spec fn listed_last(page: Seq<RawMessage>, k: int) -> bool {
    &&& 0 <= k < page.len()
    &&& forall|j: int| k < j < page.len() ==> (#[trigger] page[j]).id != page[k].id
}

/// Whether `entry` is the snapshot of a message that the page lists, and of
/// the one listed last with its id.
pub open spec fn snapshot_of_listed_last(page: Seq<RawMessage>, entry: NativeMessageView) -> bool {
    exists|k: int| #[trigger] listed_last(page, k) && entry == NativeMessage::snapshot_of(page[k])
}

/// The batch made of a page is ascending and holds, for each id that the
/// page lists, the snapshot of the message that is listed last with that id,
/// and nothing else.
pub proof fn batch_holds_each_listed_id_once(page: Seq<RawMessage>)
    ensures
        ascending(batch_of(page)),
        forall|i: int|
            0 <= i < batch_of(page).len() ==> snapshot_of_listed_last(
                page,
                #[trigger] batch_of(page)[i],
            ),
        forall|k: int|
            #[trigger] listed_last(page, k) ==> batch_of(page).contains(
                NativeMessage::snapshot_of(page[k]),
            ),
    decreases page.len(),
{
    lemma_batch_of_ascending(page);
    if page.len() > 0 {
        let front = page.drop_last();
        let newest = NativeMessage::snapshot_of(page.last());
        let before = batch_of(front);
        let batch = batch_of(page);
        let n = page.len() as int;
        batch_holds_each_listed_id_once(front);
        lemma_place_members(before, newest);
        assert(listed_last(page, n - 1));
        assert forall|i: int| 0 <= i < batch.len() implies snapshot_of_listed_last(
            page,
            #[trigger] batch[i],
        ) by {
            if batch[i] == newest {
                assert(listed_last(page, n - 1) && batch[i] == NativeMessage::snapshot_of(
                    page[n - 1],
                ));
            } else {
                assert(before.contains(batch[i]));
                let at = choose|at: int| 0 <= at < before.len() && before[at] == batch[i];
                assert(snapshot_of_listed_last(front, before[at]));
                let k = choose|k: int|
                    #[trigger] listed_last(front, k) && before[at] == NativeMessage::snapshot_of(
                        front[k],
                    );
                assert(front[k] == page[k]);
                assert forall|j: int| k < j < page.len() implies (#[trigger] page[j]).id
                    != page[k].id by {
                    if j < n - 1 {
                        assert(front[j] == page[j]);
                    }
                }
                assert(listed_last(page, k) && batch[i] == NativeMessage::snapshot_of(page[k]));
            }
        }
        assert forall|k: int| #[trigger] listed_last(page, k) implies batch.contains(
            NativeMessage::snapshot_of(page[k]),
        ) by {
            if k < n - 1 {
                assert(front[k] == page[k]);
                assert forall|j: int| k < j < front.len() implies (#[trigger] front[j]).id
                    != front[k].id by {
                    assert(front[j] == page[j]);
                }
                assert(listed_last(front, k));
                let snapshot = NativeMessage::snapshot_of(front[k]);
                assert(before.contains(snapshot));
                let at = choose|at: int| 0 <= at < before.len() && before[at] == snapshot;
                assert(page[n - 1].id != page[k].id);
                assert(before[at].message_id != newest.message_id);
            }
        }
    }
}

/// The decimal digits of a number are digits that stand for that number.
pub proof fn digits_read_back(n: nat)
    ensures
        decimal_digits(n).len() >= 1,
        digit_value(decimal_digits(n)[0]) is Some,
        digits_value(decimal_digits(n)) == Some(n),
    decreases n,
{
    if n >= 10 {
        let front = decimal_digits(n / 10);
        let text = decimal_digits(n);
        digits_read_back(n / 10);
        assert(text.drop_last() =~= front);
        assert(text.last() == digit_char(n % 10));
        assert(text[0] == front[0]);
        assert(digit_value(digit_char(n % 10)) == Some(n % 10));
    }
}

/// The decimal text of a chat id, as it stands in the paths of the chat's
/// downloads, reads back as that chat id.
pub proof fn decimal_text_reads_back(chat_id: i64)
    ensures
        chat_id_of_text(decimal(chat_id as int)) == Some(chat_id),
{
    let text = decimal(chat_id as int);
    if chat_id < 0 {
        let magnitude = (-(chat_id as int)) as nat;
        digits_read_back(magnitude);
        assert(text[0] == '-');
        assert(text.skip(1) =~= decimal_digits(magnitude));
    } else {
        digits_read_back(chat_id as nat);
    }
}

/// A batch holds no more messages than the page it is made of.
pub proof fn batch_is_no_longer_than_its_page(page: Seq<RawMessage>)
    ensures
        batch_of(page).len() <= page.len(),
        page.len() > 0 ==> batch_of(page).len() > 0,
    decreases page.len(),
{
    if page.len() > 0 {
        batch_is_no_longer_than_its_page(page.drop_last());
        lemma_batch_of_ascending(page.drop_last());
        lemma_place_len(batch_of(page.drop_last()), NativeMessage::snapshot_of(page.last()));
    }
}

/// Of one chat no more than `MESSAGE_PAGE_LIMIT` messages are loaded,
/// however many the service lists; each of them is among the first
/// `MESSAGE_PAGE_LIMIT` listed and newer than the resume offset.
pub proof fn loaded_messages_are_bounded(listed: Seq<RawMessage>, last_message_id: Option<i32>)
    ensures
        fresh_len(listed, last_message_id) <= listed.len(),
        fresh_len(listed, last_message_id) <= MESSAGE_PAGE_LIMIT,
        fresh(listed, last_message_id).len() == fresh_len(listed, last_message_id),
        batch_of(fresh(listed, last_message_id)).len() <= MESSAGE_PAGE_LIMIT,
        forall|k: int|
            0 <= k < fresh_len(listed, last_message_id) ==> newer_than(
                (#[trigger] fresh(listed, last_message_id)[k]).id,
                last_message_id,
            ),
{
    let asked = first_page(listed);
    lemma_newer_len(asked, last_message_id);
    batch_is_no_longer_than_its_page(fresh(listed, last_message_id));
    assert forall|k: int| 0 <= k < fresh_len(listed, last_message_id) implies newer_than(
        (#[trigger] fresh(listed, last_message_id)[k]).id,
        last_message_id,
    ) by {
        assert(asked[k] == listed[k]);
    }
}

/// Whether the ids of a page fall strictly from each message to the next.
pub open spec fn falling(page: Seq<RawMessage>) -> bool {
    forall|i: int, j: int| 0 <= i < j < page.len() ==> (#[trigger] page[i]).id > (#[trigger] page[j]).id
}

/// The batch made of a page with falling ids holds every message of the
/// page, in the opposite order.
pub proof fn batch_of_falling_page(page: Seq<RawMessage>)
    requires
        falling(page),
    ensures
        batch_of(page).len() == page.len(),
        forall|k: int|
            0 <= k < page.len() ==> (#[trigger] batch_of(page)[k]) == NativeMessage::snapshot_of(
                page[page.len() - 1 - k],
            ),
    decreases page.len(),
{
    if page.len() > 0 {
        let front = page.drop_last();
        let before = batch_of(front);
        let newest = NativeMessage::snapshot_of(page.last());
        let n = page.len() as int;
        assert forall|i: int, j: int| 0 <= i < j < front.len() implies (#[trigger] front[i]).id > (
        #[trigger] front[j]).id by {
            assert(page[i].id > page[j].id);
        }
        batch_of_falling_page(front);
        lemma_batch_of_ascending(front);
        lemma_spot(before, newest.message_id);
        lemma_place(before, newest);
        if spot(before, newest.message_id) > 0 {
            assert(before[0] == NativeMessage::snapshot_of(front[front.len() - 1]));
            assert(page[n - 2].id > page[n - 1].id);
            assert(before[0].message_id <= newest.message_id);
        }
        assert(batch_of(page) == before.insert(0, newest));
        assert forall|k: int| 0 <= k < page.len() implies (#[trigger] batch_of(page)[k])
            == NativeMessage::snapshot_of(page[page.len() - 1 - k]) by {
            if k > 0 {
                assert(batch_of(page)[k] == before[k - 1]);
                assert(front[front.len() - 1 - (k - 1)] == page[n - 1 - k]);
            }
        }
    }
}

/// A chat without a resume offset whose listing has falling ids yields the
/// first `MESSAGE_PAGE_LIMIT` listed messages, all of them where fewer are
/// listed, and the newest listed message is the last of them.
pub proof fn listing_without_offset_yields_first_page(listed: Seq<RawMessage>)
    requires
        falling(listed),
    ensures
        fresh(listed, None) == first_page(listed),
        batch_of(fresh(listed, None)).len() == if listed.len() > MESSAGE_PAGE_LIMIT {
            MESSAGE_PAGE_LIMIT as nat
        } else {
            listed.len()
        },
        listed.len() > 0 ==> batch_of(fresh(listed, None)).last() == NativeMessage::snapshot_of(
            listed[0],
        ),
{
    let asked = first_page(listed);
    crate::backend::message::lemma_newer_len_is(asked, None, asked.len() as int);
    assert(fresh(listed, None) =~= asked);
    assert forall|i: int, j: int| 0 <= i < j < asked.len() implies (#[trigger] asked[i]).id > (
    #[trigger] asked[j]).id by {
        assert(listed[i].id > listed[j].id);
    }
    batch_of_falling_page(asked);
    if listed.len() > 0 {
        let batch = batch_of(asked);
        assert(batch.last() == batch[asked.len() - 1]);
        assert(asked[0] == listed[0]);
    }
}

/// A permit that a download takes comes back when the download is
/// finished, whether it stored a photo or not: `during` is the engine once
/// the permit is taken, `after` the engine once the download is finished.
pub proof fn permit_comes_back<L, P, H>(
    before: &Backend<L, P, H>,
    during: &Backend<L, P, H>,
    after: &Backend<L, P, H>,
    target: i64,
)
    requires
        !before.in_flight().contains(target),
        during.took_permit(before, target),
        after.released(during, target),
    ensures
        after.free_permits() == before.free_permits(),
        after.in_flight() == before.in_flight(),
        !after.in_flight().contains(target),
{
    assert(before.in_flight().insert(target).remove(target) =~= before.in_flight());
}

/// Never more permits are out than the engine has, and as many are out as
/// downloads are in flight.
pub proof fn permits_out_are_bounded<L, P, H>(engine: &Backend<L, P, H>)
    requires
        engine.wf(),
    ensures
        engine.in_flight().finite(),
        engine.in_flight().len() + engine.free_permits() == engine.permits(),
        engine.in_flight().len() <= engine.permits(),
{
    engine.lemma_permits_bounded();
}

/// Two requests for the photo of one chat, the second made while the first
/// is in flight, come to one fetch and one path: the first is to resolve
/// the chat's handle, the second waits, and where both found the same
/// number of photos in the chat's directory both are given the path of the
/// photo after those. `after` is the engine once the first request has
/// taken its permit.
pub proof fn two_requests_share_fetch_and_path<L, P, H>(
    before: &Backend<L, P, H>,
    after: &Backend<L, P, H>,
    target: i64,
    first: ProfilePhotoPath,
    second: ProfilePhotoPath,
    count: int,
)
    requires
        !before.in_flight().contains(target),
        before.handles().contains_key(target),
        before.free_permits() > 0,
        after.took_permit(before, target),
        first.describes(target as int, count),
        second.describes(target as int, count),
    ensures
        start_by_id(
            before.in_flight().contains(target),
            handle_for(before.handles(), target),
            before.free_permits(),
        ) == Ok::<DownloadStep, BackendError>(DownloadStep::Resolve(before.handles()[target])),
        start_by_id(
            after.in_flight().contains(target),
            handle_for(after.handles(), target),
            after.free_permits(),
        ) == Ok::<DownloadStep, BackendError>(DownloadStep::Wait),
        first.next@ == profile_photo_file(target as int, count + 1),
        second.next@ == first.next@,
{
}

/// Of a listing with falling ids exactly those messages of the first page
/// are loaded that are newer than the resume offset, each of them once, and
/// the batch holds them oldest first.
pub proof fn falling_listing_loads_the_newer_of_the_first_page(
    listed: Seq<RawMessage>,
    last_message_id: Option<i32>,
)
    requires
        falling(listed),
    ensures
        fresh_len(listed, last_message_id) <= first_page(listed).len(),
        forall|k: int|
            0 <= k < first_page(listed).len() ==> (k < fresh_len(listed, last_message_id)
                <==> newer_than((#[trigger] listed[k]).id, last_message_id)),
        batch_of(fresh(listed, last_message_id)).len() == fresh_len(listed, last_message_id),
        forall|k: int|
            0 <= k < fresh_len(listed, last_message_id) ==> (#[trigger] batch_of(
                fresh(listed, last_message_id),
            )[k]) == NativeMessage::snapshot_of(
                listed[fresh_len(listed, last_message_id) - 1 - k],
            ),
{
    let asked = first_page(listed);
    let n = fresh_len(listed, last_message_id) as int;
    let loaded = fresh(listed, last_message_id);
    lemma_newer_len(asked, last_message_id);
    assert forall|k: int| 0 <= k < asked.len() implies (k < n <==> newer_than(
        (#[trigger] listed[k]).id,
        last_message_id,
    )) by {
        assert(asked[k] == listed[k]);
        if k >= n {
            assert(asked[n] == listed[n]);
            if k > n {
                assert(listed[n].id > listed[k].id);
            }
        }
    }
    assert forall|i: int, j: int| 0 <= i < j < loaded.len() implies (#[trigger] loaded[i]).id > (
    #[trigger] loaded[j]).id by {
        assert(listed[i].id > listed[j].id);
    }
    batch_of_falling_page(loaded);
}

} // verus!

//! Batches of messages in ascending order of their ids, in which no id
//! occurs twice.

use crate::types::{NativeMessage, NativeMessageView};
use vstd::prelude::*;

verus! {

/// The values of the messages of a batch, in order.
pub open spec fn views(batch: Seq<NativeMessage>) -> Seq<NativeMessageView> {
    batch.map_values(|m: NativeMessage| m@)
}

/// Whether the ids of a batch grow strictly from each message to the next.
pub open spec fn ascending(batch: Seq<NativeMessageView>) -> bool {
    forall|i: int, j: int|
        0 <= i < j < batch.len() ==> (#[trigger] batch[i]).message_id < (
        #[trigger] batch[j]).message_id
}

/// The batch with `message` put at the place of its id: it takes the place
/// of a message with the same id, and stands in front of the first message
/// with a greater id otherwise.
pub open spec fn place(batch: Seq<NativeMessageView>, message: NativeMessageView) -> Seq<
    NativeMessageView,
>
    decreases batch.len(),
{
    if batch.len() == 0 {
        seq![message]
    } else if batch.last().message_id < message.message_id {
        batch.push(message)
    } else if batch.last().message_id == message.message_id {
        batch.drop_last().push(message)
    } else {
        place(batch.drop_last(), message).push(batch.last())
    }
}

/// The place of the id `id` in a batch: the number of leading messages up
/// to the last one whose id is not greater than `id`.
pub open spec fn spot(batch: Seq<NativeMessageView>, id: i32) -> int
    decreases batch.len(),
{
    if batch.len() == 0 {
        0
    } else if batch.last().message_id <= id {
        batch.len() as int
    } else {
        spot(batch.drop_last(), id)
    }
}

/// In an ascending batch the messages from the place of `id` on have greater
/// ids, and those before it have ids that are not greater.
pub proof fn lemma_spot(batch: Seq<NativeMessageView>, id: i32)
    requires
        ascending(batch),
    ensures
        0 <= spot(batch, id) <= batch.len(),
        forall|k: int| spot(batch, id) <= k < batch.len() ==> (#[trigger] batch[k]).message_id > id,
        forall|k: int| 0 <= k < spot(batch, id) ==> (#[trigger] batch[k]).message_id <= id,
    decreases batch.len(),
{
    if batch.len() == 0 {
    } else if batch.last().message_id <= id {
        let n = batch.len() as int;
        assert forall|k: int| 0 <= k < n implies (#[trigger] batch[k]).message_id <= id by {
            if k < n - 1 {
                assert(batch[k].message_id < batch[n - 1].message_id);
            }
        }
    } else {
        let front = batch.drop_last();
        assert forall|i: int, j: int| 0 <= i < j < front.len() implies (#[trigger] front[i]).message_id
            < (#[trigger] front[j]).message_id by {
            assert(batch[i].message_id < batch[j].message_id);
        }
        lemma_spot(front, id);
        assert forall|k: int| spot(batch, id) <= k < batch.len() implies (#[trigger] batch[k]).message_id
            > id by {
            if k < front.len() {
                assert(front[k].message_id > id);
            }
        }
        assert forall|k: int| 0 <= k < spot(batch, id) implies (#[trigger] batch[k]).message_id
            <= id by {
            assert(front[k].message_id <= id);
        }
    }
}

/// Where `message` goes in an ascending batch whose messages from `at` on
/// all have greater ids and whose message before `at`, if any, has a
/// smaller or the same id.
proof fn lemma_place_at(batch: Seq<NativeMessageView>, message: NativeMessageView, at: int)
    requires
        ascending(batch),
        0 <= at <= batch.len(),
        forall|k: int| at <= k < batch.len() ==> (#[trigger] batch[k]).message_id
            > message.message_id,
        at > 0 ==> batch[at - 1].message_id <= message.message_id,
    ensures
        at > 0 && batch[at - 1].message_id == message.message_id ==> place(batch, message)
            == batch.update(at - 1, message),
        !(at > 0 && batch[at - 1].message_id == message.message_id) ==> place(batch, message)
            == batch.insert(at, message),
    decreases batch.len() - at,
{
    if batch.len() == 0 {
        assert(batch.insert(0, message) =~= seq![message]);
    } else if at == batch.len() {
        if batch.last().message_id < message.message_id {
            assert(batch.insert(at, message) =~= batch.push(message));
        } else {
            assert(batch.update(at - 1, message) =~= batch.drop_last().push(message));
        }
    } else {
        let front = batch.drop_last();
        assert(batch.last() == batch[batch.len() - 1]);
        assert forall|i: int, j: int| 0 <= i < j < front.len() implies (#[trigger] front[i]).message_id
            < (#[trigger] front[j]).message_id by {
            assert(batch[i].message_id < batch[j].message_id);
        }
        assert forall|k: int| at <= k < front.len() implies (#[trigger] front[k]).message_id
            > message.message_id by {
            assert(batch[k].message_id > message.message_id);
        }
        if at > 0 {
            assert(front[at - 1] == batch[at - 1]);
        }
        lemma_place_at(front, message, at);
        if at > 0 && batch[at - 1].message_id == message.message_id {
            assert(front.update(at - 1, message).push(batch.last()) =~= batch.update(
                at - 1,
                message,
            ));
        } else {
            assert(front.insert(at, message).push(batch.last()) =~= batch.insert(at, message));
        }
    }
}

/// Placing a message in an ascending batch either replaces the message
/// with the same id or inserts the message at the place of its id; the batch
/// stays ascending.
pub proof fn lemma_place(batch: Seq<NativeMessageView>, message: NativeMessageView)
    requires
        ascending(batch),
    ensures
        ({
            let at = spot(batch, message.message_id);
            if at > 0 && batch[at - 1].message_id == message.message_id {
                place(batch, message) == batch.update(at - 1, message)
            } else {
                place(batch, message) == batch.insert(at, message)
            }
        }),
        ascending(place(batch, message)),
{
    let at = spot(batch, message.message_id);
    lemma_spot(batch, message.message_id);
    if at > 0 {
        assert(batch[at - 1].message_id <= message.message_id);
    }
    lemma_place_at(batch, message, at);
    let placed = place(batch, message);
    if at > 0 && batch[at - 1].message_id == message.message_id {
        assert forall|i: int, j: int| 0 <= i < j < placed.len() implies (#[trigger] placed[i]).message_id
            < (#[trigger] placed[j]).message_id by {
            assert(batch[i].message_id < batch[j].message_id);
        }
    } else {
        assert forall|i: int, j: int| 0 <= i < j < placed.len() implies (#[trigger] placed[i]).message_id
            < (#[trigger] placed[j]).message_id by {
            if j < at {
                assert(batch[i].message_id < batch[j].message_id);
            } else if j == at {
                assert(batch[i].message_id <= message.message_id);
                if i == at - 1 {
                } else {
                    assert(batch[i].message_id < batch[at - 1].message_id);
                }
            } else if i < at {
                assert(batch[i].message_id <= message.message_id);
                assert(batch[j - 1].message_id > message.message_id);
            } else if i == at {
                assert(batch[j - 1].message_id > message.message_id);
            } else {
                assert(batch[i - 1].message_id < batch[j - 1].message_id);
            }
        }
    }
}

/// Puts `message` into the batch at the place of its id.
pub fn insert_message(batch: &mut Vec<NativeMessage>, message: NativeMessage)
    requires
        ascending(views(old(batch)@)),
    ensures
        views(final(batch)@) == place(views(old(batch)@), message@),
        ascending(views(final(batch)@)),
{
    let ghost before = views(batch@);
    let mut at: usize = batch.len();
    while at > 0 && batch[at - 1].message_id > message.message_id
        invariant
            at <= batch.len(),
            batch@ == old(batch)@,
            before == views(batch@),
            forall|k: int| at <= k < batch.len() ==> (#[trigger] before[k]).message_id
                > message.message_id,
        decreases at,
    {
        assert(before[at - 1] == batch@[at - 1]@);
        at = at - 1;
    }
    proof {
        if at > 0 {
            assert(before[at - 1] == batch@[at - 1]@);
        }
        lemma_place_at(before, message@, at as int);
        lemma_place(before, message@);
    }
    if at > 0 && batch[at - 1].message_id == message.message_id {
        batch.set(at - 1, message);
        assert(views(batch@) =~= before.update(at - 1, message@));
    } else {
        batch.insert(at, message);
        assert(views(batch@) =~= before.insert(at as int, message@));
    }
}

/// What a batch holds after a message was placed in an ascending batch: the
/// message itself, and every message of the batch with another id, and
/// nothing else.
pub proof fn lemma_place_members(batch: Seq<NativeMessageView>, message: NativeMessageView)
    requires
        ascending(batch),
    ensures
        place(batch, message).contains(message),
        forall|i: int|
            0 <= i < place(batch, message).len() ==> (#[trigger] place(batch, message)[i])
                == message || (batch.contains(place(batch, message)[i]) && place(
                batch,
                message,
            )[i].message_id != message.message_id),
        forall|j: int|
            0 <= j < batch.len() && (#[trigger] batch[j]).message_id != message.message_id
                ==> place(batch, message).contains(batch[j]),
{
    let at = spot(batch, message.message_id);
    let placed = place(batch, message);
    lemma_spot(batch, message.message_id);
    lemma_place(batch, message);
    if at > 0 && batch[at - 1].message_id == message.message_id {
        assert(placed[at - 1] == message);
        assert forall|i: int| 0 <= i < placed.len() implies (#[trigger] placed[i]) == message || (
        batch.contains(placed[i]) && placed[i].message_id != message.message_id) by {
            if i != at - 1 {
                assert(batch[i] == placed[i]);
                if i < at - 1 {
                    assert(batch[i].message_id < batch[at - 1].message_id);
                } else {
                    assert(batch[at - 1].message_id < batch[i].message_id);
                }
            }
        }
        assert forall|j: int|
            0 <= j < batch.len() && (#[trigger] batch[j]).message_id
                != message.message_id implies placed.contains(batch[j]) by {
            assert(placed[j] == batch[j]);
        }
    } else {
        assert(placed[at] == message);
        assert forall|i: int| 0 <= i < placed.len() implies (#[trigger] placed[i]) == message || (
        batch.contains(placed[i]) && placed[i].message_id != message.message_id) by {
            if i < at {
                assert(batch[i] == placed[i]);
                assert(batch[i].message_id <= message.message_id);
                if i < at - 1 {
                    assert(batch[i].message_id < batch[at - 1].message_id);
                    assert(batch[at - 1].message_id <= message.message_id);
                }
            } else if i > at {
                assert(batch[i - 1] == placed[i]);
                assert(batch[i - 1].message_id > message.message_id);
            }
        }
        assert forall|j: int|
            0 <= j < batch.len() && (#[trigger] batch[j]).message_id
                != message.message_id implies placed.contains(batch[j]) by {
            if j < at {
                assert(placed[j] == batch[j]);
            } else {
                assert(placed[j + 1] == batch[j]);
            }
        }
    }
}

/// Placing a message makes an ascending batch longer by one message at
/// most, and never empty.
pub proof fn lemma_place_len(batch: Seq<NativeMessageView>, message: NativeMessageView)
    requires
        ascending(batch),
    ensures
        1 <= place(batch, message).len() <= batch.len() + 1,
        place(batch, message).len() >= batch.len(),
{
    lemma_spot(batch, message.message_id);
    lemma_place(batch, message);
}

} // verus!

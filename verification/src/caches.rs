//! The two process-wide caches and the set of downloads in flight, kept in
//! concurrent collections and reached only through the functions below.

use crate::handle::ChatHandle;
use crate::types::{NativeChat, NativeChatView};
use dashmap::{DashMap, DashSet};
use vstd::prelude::*;

verus! {

/// `dashmap::DashMap`, the concurrent map that holds each cache. Nothing is
/// known of what is inside a value of it but what the functions below say.
#[verifier::external_type_specification]
#[verifier::external_body]
#[verifier::reject_recursive_types(K)]
#[verifier::reject_recursive_types(V)]
#[verifier::reject_recursive_types(S)]
pub struct ExDashMap<K, V, S>(DashMap<K, V, S>);

/// `dashmap::DashSet`, the concurrent set that holds the targets of the
/// downloads in flight.
#[verifier::external_type_specification]
#[verifier::external_body]
#[verifier::reject_recursive_types(K)]
#[verifier::reject_recursive_types(S)]
pub struct ExDashSet<K, S>(DashSet<K, S>);

/// The handle stored for each chat id.
pub uninterp spec fn handles_in(cache: DashMap<i64, ChatHandle>) -> Map<i64, ChatHandle>;

/// The summary stored for each chat id.
pub uninterp spec fn summaries_in(cache: DashMap<i64, NativeChat>) -> Map<i64, NativeChatView>;

/// The resume offset stored for each chat id.
pub uninterp spec fn offsets_in(offsets: DashMap<i64, i32>) -> Map<i64, i32>;

/// The target ids that the set holds.
pub uninterp spec fn targets_in(set: DashSet<i64>) -> Set<i64>;

/// Calls `DashMap::new`: the new cache holds nothing.
#[verifier::external_body]
pub(crate) fn new_handle_cache() -> (cache: DashMap<i64, ChatHandle>)
    ensures
        handles_in(cache).dom() == Set::<i64>::empty(),
{
    DashMap::new()
}

/// Calls `DashMap::insert`: afterwards `chat_id` stands for `handle`, and
/// every other entry is as before.
#[verifier::external_body]
pub(crate) fn put_handle(cache: &mut DashMap<i64, ChatHandle>, chat_id: i64, handle: ChatHandle)
    ensures
        handles_in(*final(cache)) == handles_in(*old(cache)).insert(chat_id, handle),
{
    cache.insert(chat_id, handle);
}

/// Calls `DashMap::get` and copies the handle out: the entry of `chat_id`
/// where there is one.
#[verifier::external_body]
pub(crate) fn find_handle(cache: &DashMap<i64, ChatHandle>, chat_id: i64) -> (handle: Option<
    ChatHandle,
>)
    ensures
        handle == (if handles_in(*cache).contains_key(chat_id) {
            Some(handles_in(*cache)[chat_id])
        } else {
            None
        }),
{
    match cache.get(&chat_id) {
        Some(entry) => Some(*entry),
        None => None,
    }
}

/// Calls `DashMap::new`: the new cache holds nothing.
#[verifier::external_body]
pub(crate) fn new_summary_cache() -> (cache: DashMap<i64, NativeChat>)
    ensures
        summaries_in(cache).dom() == Set::<i64>::empty(),
{
    DashMap::new()
}

/// Calls `DashMap::insert`: afterwards `chat_id` stands for `chat`, and every
/// other entry is as before.
#[verifier::external_body]
pub(crate) fn put_summary(cache: &mut DashMap<i64, NativeChat>, chat_id: i64, chat: NativeChat)
    ensures
        summaries_in(*final(cache)) == summaries_in(*old(cache)).insert(chat_id, chat@),
{
    cache.insert(chat_id, chat);
}

/// Calls `DashMap::view` with a closure that clones the summary: a copy of
/// the entry of `chat_id` where there is one.
#[verifier::external_body]
pub(crate) fn find_summary(cache: &DashMap<i64, NativeChat>, chat_id: i64) -> (chat: Option<
    NativeChat,
>)
    ensures
        match chat {
            Some(c) => summaries_in(*cache).contains_key(chat_id) && c@ == summaries_in(
                *cache,
            )[chat_id],
            None => !summaries_in(*cache).contains_key(chat_id),
        },
{
    cache.view(&chat_id, |_, summary| summary.clone())
}

/// Calls `DashMap::clone`, which clones every entry: the copy holds what
/// the cache holds.
#[verifier::external_body]
pub(crate) fn copy_summaries(cache: &DashMap<i64, NativeChat>) -> (copy: DashMap<i64, NativeChat>)
    ensures
        summaries_in(copy) == summaries_in(*cache),
{
    cache.clone()
}

/// Calls `DashSet::new`: the new set is empty.
#[verifier::external_body]
pub(crate) fn new_target_set() -> (set: DashSet<i64>)
    ensures
        targets_in(set) == Set::<i64>::empty(),
{
    DashSet::new()
}

/// Calls `DashSet::insert`: afterwards the set holds `target` too.
#[verifier::external_body]
pub(crate) fn mark_target(set: &mut DashSet<i64>, target: i64)
    ensures
        targets_in(*final(set)) == targets_in(*old(set)).insert(target),
{
    set.insert(target);
}

/// Calls `DashSet::remove`: afterwards the set no longer holds `target`.
#[verifier::external_body]
pub(crate) fn clear_target(set: &mut DashSet<i64>, target: i64)
    ensures
        targets_in(*final(set)) == targets_in(*old(set)).remove(target),
{
    set.remove(&target);
}

/// Calls `DashSet::contains`: whether the set holds `target`.
#[verifier::external_body]
pub(crate) fn has_target(set: &DashSet<i64>, target: i64) -> (held: bool)
    ensures
        held == targets_in(*set).contains(target),
{
    set.contains(&target)
}

/// Calls `DashMap::new`: the new map holds nothing.
#[verifier::external_body]
pub(crate) fn new_offset_map() -> (offsets: DashMap<i64, i32>)
    ensures
        offsets_in(offsets).dom() == Set::<i64>::empty(),
{
    DashMap::new()
}

/// Calls `DashMap::insert`: afterwards `chat_id` stands for
/// `last_message_id`, and every other entry is as before.
#[verifier::external_body]
pub(crate) fn put_offset(offsets: &mut DashMap<i64, i32>, chat_id: i64, last_message_id: i32)
    ensures
        offsets_in(*final(offsets)) == offsets_in(*old(offsets)).insert(chat_id, last_message_id),
{
    offsets.insert(chat_id, last_message_id);
}

/// Calls `DashMap::get` and copies the offset out: the entry of `chat_id`
/// where there is one.
#[verifier::external_body]
pub(crate) fn find_offset(offsets: &DashMap<i64, i32>, chat_id: i64) -> (last_message_id: Option<
    i32,
>)
    ensures
        last_message_id == (if offsets_in(*offsets).contains_key(chat_id) {
            Some(offsets_in(*offsets)[chat_id])
        } else {
            None
        }),
{
    match offsets.get(&chat_id) {
        Some(entry) => Some(*entry),
        None => None,
    }
}

} // verus!

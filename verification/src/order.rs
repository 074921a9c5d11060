//! The order of messages: by the chat they belong to, the chat with the
//! greater id first.

use crate::types::NativeMessage;
use std::cmp::Ordering;
use vstd::prelude::*;
use vstd::std_specs::cmp::PartialOrdSpecImpl;

verus! {

impl NativeMessage {
    /// How `self` stands to `other`: before it where its chat id is
    /// greater, after it where its chat id is smaller, and level with it
    /// where both belong to one chat.
    pub open spec fn order_to(&self, other: &NativeMessage) -> Ordering {
        if self.chat_id > other.chat_id {
            Ordering::Less
        } else if self.chat_id < other.chat_id {
            Ordering::Greater
        } else {
            Ordering::Equal
        }
    }

    /// Compares two messages by their chats.
    pub fn cmp(&self, other: &NativeMessage) -> (order: Ordering)
        ensures
            order == self.order_to(other),
    {
        if self.chat_id != other.chat_id {
            return if self.chat_id > other.chat_id {
                Ordering::Less
            } else {
                Ordering::Greater
            };
        }
        Ordering::Equal
    }
}

impl PartialOrd for NativeMessage {
    fn partial_cmp(&self, other: &NativeMessage) -> (order: Option<Ordering>) {
        Some(self.cmp(other))
    }
}

impl PartialOrdSpecImpl for NativeMessage {
    open spec fn obeys_partial_cmp_spec() -> bool {
        true
    }

    open spec fn partial_cmp_spec(&self, other: &NativeMessage) -> Option<Ordering> {
        Some(self.order_to(other))
    }
}

} // verus!

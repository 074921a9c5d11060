//! Chat handles: the small references by which a chat or a sender that was
//! seen once can be addressed again without a fresh remote lookup.

use grammers_session::{PackedChat, PackedType};
use vstd::prelude::*;

verus! {

/// What kind of peer a handle addresses.
#[derive(Debug, Clone, Copy, PartialEq, Eq, Hash)]
pub enum HandleKind {
    User,
    Bot,
    Chat,
    Megagroup,
    Broadcast,
    Gigagroup,
}

/// A reference to a chat: its kind, its id and the access hash that the
/// service asks for, where it gave one.
#[derive(Debug, Clone, Copy, PartialEq, Eq, Hash)]
pub struct ChatHandle {
    pub kind: HandleKind,
    pub id: i64,
    pub access_hash: Option<i64>,
}

/// The handle that a hexadecimal text stands for, if it stands for one.
pub uninterp spec fn handle_of_hex(hex: Seq<char>) -> Option<ChatHandle>;

/// The hexadecimal text of a handle.
pub uninterp spec fn hex_of_handle(handle: ChatHandle) -> Seq<char>;

/// Calls `grammers_session::PackedChat::from_hex` and copies the fields of
/// what it parsed; a text that it rejects gives `None`. The contract only
/// names the result: the same text always gives the same handle.
#[verifier::external_body]
fn parse_packed_hex(hex: &str) -> (handle: Option<ChatHandle>)
    ensures
        handle == handle_of_hex(hex@),
{
    let packed = PackedChat::from_hex(hex).ok()?;
    let kind = match packed.ty {
        PackedType::User => HandleKind::User,
        PackedType::Bot => HandleKind::Bot,
        PackedType::Chat => HandleKind::Chat,
        PackedType::Megagroup => HandleKind::Megagroup,
        PackedType::Broadcast => HandleKind::Broadcast,
        PackedType::Gigagroup => HandleKind::Gigagroup,
    };
    Some(ChatHandle { kind, id: packed.id, access_hash: packed.access_hash })
}

/// Calls `grammers_session::PackedChat::to_hex` on a packed chat with the
/// handle's fields. The contract names the result and says that the text
/// reads back as the handle: the bytes that `to_bytes` writes are those that
/// `from_bytes` takes apart again, for every kind, id and access hash.
#[verifier::external_body]
fn format_packed_hex(handle: &ChatHandle) -> (hex: String)
    ensures
        hex@ == hex_of_handle(*handle),
        handle_of_hex(hex@) == Some(*handle),
{
    let ty = match handle.kind {
        HandleKind::User => PackedType::User,
        HandleKind::Bot => PackedType::Bot,
        HandleKind::Chat => PackedType::Chat,
        HandleKind::Megagroup => PackedType::Megagroup,
        HandleKind::Broadcast => PackedType::Broadcast,
        HandleKind::Gigagroup => PackedType::Gigagroup,
    };
    PackedChat { ty, id: handle.id, access_hash: handle.access_hash }.to_hex()
}

impl ChatHandle {
    /// Reads a handle from its hexadecimal text.
    pub fn from_hex(hex: &str) -> (handle: Option<ChatHandle>)
        ensures
            handle == handle_of_hex(hex@),
    {
        parse_packed_hex(hex)
    }

    /// Writes the handle as hexadecimal text, which reads back as the
    /// handle.
    pub fn to_hex(&self) -> (hex: String)
        ensures
            hex@ == hex_of_handle(*self),
            handle_of_hex(hex@) == Some(*self),
    {
        format_packed_hex(self)
    }
}

} // verus!

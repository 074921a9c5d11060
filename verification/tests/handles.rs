use grammers_session::{PackedChat, PackedType};
use homogrape::handle::{ChatHandle, HandleKind};

#[test]
fn handle_from_hex_of_a_user() {
    let hex = "0264000000000000000000000000000000";
    assert_eq!(
        ChatHandle::from_hex(hex),
        Some(ChatHandle { kind: HandleKind::User, id: 100, access_hash: None })
    );
}

#[test]
fn handle_from_hex_with_access_hash() {
    let hex = "70640000000000000015cd5b0700000000";
    assert_eq!(
        ChatHandle::from_hex(hex),
        Some(ChatHandle { kind: HandleKind::Broadcast, id: 100, access_hash: Some(123456789) })
    );
}

#[test]
fn handle_from_hex_rejects_what_is_no_handle() {
    assert_eq!(ChatHandle::from_hex("abc"), None);
    assert_eq!(ChatHandle::from_hex(""), None);
    assert_eq!(ChatHandle::from_hex("zz64000000000000000000000000000000"), None);
    assert_eq!(ChatHandle::from_hex("0264"), None);
    assert_eq!(ChatHandle::from_hex("0164000000000000000000000000000000"), None);
}

#[test]
fn handle_to_hex_of_a_user() {
    let handle = ChatHandle { kind: HandleKind::User, id: 100, access_hash: None };
    assert_eq!(handle.to_hex(), "0264000000000000000000000000000000");
}

#[test]
fn handle_to_hex_agrees_with_packed_chat() {
    let kinds = [
        (HandleKind::User, PackedType::User),
        (HandleKind::Bot, PackedType::Bot),
        (HandleKind::Chat, PackedType::Chat),
        (HandleKind::Megagroup, PackedType::Megagroup),
        (HandleKind::Broadcast, PackedType::Broadcast),
        (HandleKind::Gigagroup, PackedType::Gigagroup),
    ];
    for (kind, ty) in kinds {
        for access_hash in [None, Some(-42i64), Some(i64::MAX)] {
            let handle = ChatHandle { kind, id: -1234567, access_hash };
            let packed = PackedChat { ty, id: -1234567, access_hash };
            assert_eq!(handle.to_hex(), packed.to_hex());
            assert_eq!(ChatHandle::from_hex(&packed.to_hex()), Some(handle));
        }
    }
}

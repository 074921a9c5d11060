//! The registration of the device for push notifications.

use vstd::prelude::*;

verus! {

/// The kind of push service whose tokens this engine registers.
pub const PUSH_TOKEN_TYPE: i32 = 13;

/// The request that registers a device for push notifications.
#[derive(Debug)]
pub struct DeviceRegistration {
    pub no_muted: bool,
    pub token_type: i32,
    pub token: String,
    pub app_sandbox: bool,
    pub secret: Vec<u8>,
    pub other_uids: Vec<i64>,
}

/// The request that registers the device with the push token `token`:
/// notifications of muted chats are delivered too, the token is one of the
/// push service of `PUSH_TOKEN_TYPE`, and neither a sandbox, a secret nor
/// other accounts are named.
pub fn register_device(token: String) -> (request: DeviceRegistration)
    ensures
        !request.no_muted,
        request.token_type == PUSH_TOKEN_TYPE,
        request.token@ == token@,
        !request.app_sandbox,
        request.secret@.len() == 0,
        request.other_uids@.len() == 0,
{
    DeviceRegistration {
        no_muted: false,
        token_type: PUSH_TOKEN_TYPE,
        token,
        app_sandbox: false,
        secret: Vec::new(),
        other_uids: Vec::new(),
    }
}

} // verus!

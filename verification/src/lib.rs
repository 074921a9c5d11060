//! Synchronisation and session engine for a single messaging account: the
//! login state machine, the resumable chat scan, the live-update dispatcher
//! and the download coordinator, stated over plain values and verified.

pub mod backend;
pub mod batch;
pub mod caches;
pub mod device;
pub mod handle;
pub mod laws;
pub mod offsets;
pub mod order;
pub mod raw;
pub mod reconnect;
pub mod types;
pub mod utils;

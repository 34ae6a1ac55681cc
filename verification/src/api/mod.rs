//! Rules of the HTTP and WebSocket endpoints.
use vstd::prelude::*;

pub mod maps;
pub mod routes;
pub mod socket;

verus! {

/// Size limit, in bytes, of one uploaded map file.
pub const MAX_UPLOAD_BYTES: usize = 50 * 1024 * 1024;

/// How many pose updates the broadcast channel buffers for slow listeners.
pub const POSE_CHANNEL_CAPACITY: usize = 100;

/// HTTP status 200.
pub const STATUS_OK: u16 = 200;

/// HTTP status 400.
pub const STATUS_BAD_REQUEST: u16 = 400;

/// HTTP status 404.
pub const STATUS_NOT_FOUND: u16 = 404;

/// HTTP status 500.
pub const STATUS_INTERNAL_SERVER_ERROR: u16 = 500;

/// A reply with a status code and a text body.
#[derive(Debug, Clone)]
pub struct Reply {
    pub status: u16,
    pub body: String,
}

} // verus!

//! Constants of the server.
use vstd::prelude::*;

verus! {

/// The ActivityStreams identifier of the public collection.
pub const PUBLIC_IDENTIFIER: &'static str = "https://www.w3.org/ns/activitystreams#Public";

/// The public collection's identifier as a sequence of characters.
pub open spec fn public_identifier() -> Seq<char> {
    PUBLIC_IDENTIFIER@
}

/// One mebibyte, in bytes.
pub const MB_BYTES: u64 = 1048576;

/// The largest request body accepted (5 MiB).
pub const MAX_BODY_SIZE: u64 = 5 * MB_BYTES;

/// How often expired authorisation codes are deleted, in seconds.
pub const DELETE_INTERVAL_SECS: u64 = 60;

/// The number of accounts listed by the Mastodon following/followers endpoints.
pub const ACCOUNTS_PER_LISTING: i64 = 10;

} // verus!

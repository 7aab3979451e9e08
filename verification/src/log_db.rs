//! The log records of the site (views, favorites): reading and creating them.
use vstd::prelude::*;

use crate::bundlesdb::DatabaseReturn;
use crate::text::hex_lower;
use crate::utility::{is_uuid_v4_text, random_id, sha256};
use vstd::utf8::encode_utf8;

verus! {

/// A log entry.
pub struct Log {
    pub id: String,
    pub logtype: String,
    pub timestamp: u128,
    pub content: String,
}

/// The id of a log entry.
pub struct LogIdentifier {
    pub id: String,
}

/// The log that a row of the logs table holds; `None` where a column is missing or
/// the timestamp is not a number.
pub open spec fn log_of_row(row: Map<Seq<char>, String>) -> Option<Log> {
    match crate::bundlesdb::log_of_row(row) {
        Some(l) => Some(
            Log { id: l.id, logtype: l.logtype, timestamp: l.timestamp, content: l.content },
        ),
        None => None,
    }
}

/// Reads a log from a row of the logs table.
pub fn log_from_row(row: &DatabaseReturn) -> (r: Option<Log>)
    ensures
        r == log_of_row(row.data@),
{
    match crate::bundlesdb::log_from_row(row) {
        Some(l) => Some(
            Log { id: l.id, logtype: l.logtype, timestamp: l.timestamp, content: l.content },
        ),
        None => None,
    }
}

/// A new log of type `logtype` holding `content`, with a new random id, stamped `now`.
pub fn new_log(logtype: String, content: String, now: u128) -> (r: Log)
    ensures
        exists|u: Seq<char>| is_uuid_v4_text(u) && r.id@ == hex_lower(sha256(encode_utf8(u))),
        r.logtype == logtype,
        r.content == content,
        r.timestamp == now,
{
    let id = random_id();
    let timestamp = now;
    Log { id, logtype, timestamp, content }
}

} // verus!

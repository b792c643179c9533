use vstd::prelude::*;
use crate::entity::{texts, Timestamp};

verus! {

/// The instant, as whole seconds since the Unix epoch and the nanoseconds past
/// that second, that an RFC 3339 date-time denotes; `None` when `s` is not one.
pub uninterp spec fn rfc3339_instant(s: Seq<char>) -> Option<(i64, u32)>;

/// The list of strings that a JSON text holds; `None` when `s` is not a JSON
/// array of strings.
pub uninterp spec fn json_string_list(s: Seq<char>) -> Option<Seq<Seq<char>>>;

/// Relies on chrono's `DateTime::parse_from_rfc3339`, read back through
/// `timestamp` and `timestamp_subsec_nanos`: the instant depends on the text alone.
#[verifier::external_body]
fn parse_rfc3339(s: &str) -> (r: Option<(i64, u32)>)
    ensures
        r == rfc3339_instant(s@),
{
    chrono::DateTime::parse_from_rfc3339(s).ok().map(|d| (d.timestamp(), d.timestamp_subsec_nanos()))
}

/// Relies on `serde_json::from_str::<Vec<String>>`: the strings of a JSON array
/// of strings, or an error for any other text.
#[verifier::external_body]
fn parse_string_list(s: &str) -> (r: Option<Vec<String>>)
    ensures
        match r {
            Some(v) => json_string_list(s@) == Some(texts(v@)),
            None => json_string_list(s@).is_none(),
        },
{
    serde_json::from_str::<Vec<String>>(s).ok()
}

/// Relies on `serde_json::to_string` on a `Vec<String>`, which cannot fail for
/// that type, and whose output `serde_json::from_str` reads back as the same
/// strings.
#[verifier::external_body]
fn write_string_list(v: &Vec<String>) -> (r: String)
    ensures
        json_string_list(r@) == Some(texts(v@)),
{
    serde_json::to_string(v).unwrap_or_default()
}

/// The instant a stored timestamp denotes, or the epoch when it does not parse.
pub open spec fn timestamp_of(s: Seq<char>) -> Timestamp {
    match rfc3339_instant(s) {
        Some(p) => Timestamp { secs: p.0, nanos: p.1 },
        None => Timestamp::spec_epoch(),
    }
}

/// The strings a JSON-encoded list column holds, or none when it is malformed.
pub open spec fn list_or_empty(s: Seq<char>) -> Seq<Seq<char>> {
    match json_string_list(s) {
        Some(l) => l,
        None => Seq::empty(),
    }
}

/// Reads a stored RFC 3339 timestamp; one that does not parse gives the epoch.
pub fn parse_timestamp(s: &str) -> (r: Timestamp)
    ensures
        r == timestamp_of(s@),
{
    match parse_rfc3339(s) {
        Some(p) => Timestamp { secs: p.0, nanos: p.1 },
        None => Timestamp::epoch(),
    }
}

/// Decodes a JSON-encoded list of strings; malformed text gives the empty list.
pub fn decode_string_list(s: &str) -> (r: Vec<String>)
    ensures
        texts(r@) == list_or_empty(s@),
{
    match parse_string_list(s) {
        Some(v) => v,
        None => {
            let v: Vec<String> = Vec::new();
            assert(texts(v@) =~= Seq::<Seq<char>>::empty());
            v
        },
    }
}

/// Encodes a list of strings as the JSON text that `decode_string_list` reads back.
pub fn encode_string_list(v: &Vec<String>) -> (r: String)
    ensures
        list_or_empty(r@) == texts(v@),
{
    write_string_list(v)
}

} // verus!

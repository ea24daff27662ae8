//! The timestamp of an entry, reformatted for use as a folder name.
use vstd::prelude::*;

verus! {

/// What the date formatter returns for a given date string: `Some` of the
/// `YYYY-MM-DDTHH:MM:SSZ` rendering when the string is a well-formed RFC 3339
/// timestamp, `None` otherwise. The rendering keeps the clock reading exactly
/// as written and replaces the offset with a literal `Z` (the offset is
/// dropped, not converted). It depends on the date string alone.
pub uninterp spec fn rfc3339_stamp(date: Seq<char>) -> Option<Seq<char>>;

/// Relies on chrono's `DateTime::parse_from_rfc3339` and on `format` with
/// `"%Y-%m-%dT%H:%M:%SZ"`: whether the string parses, and what the format
/// string prints of the parsed value, are functions of the string alone.
#[verifier::external_body]
pub(crate) fn format_timestamp(date: &str) -> (r: Option<String>)
    ensures
        r is Some <==> rfc3339_stamp(date@) is Some,
        r matches Some(s) ==> s@ == rfc3339_stamp(date@)->0,
{
    match chrono::DateTime::parse_from_rfc3339(date) {
        Ok(d) => Some(d.format("%Y-%m-%dT%H:%M:%SZ").to_string()),
        Err(_) => None,
    }
}

} // verus!

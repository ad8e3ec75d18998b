use vstd::prelude::*;

verus! {

/// A point in time as seconds since the Unix epoch plus a sub-second part.
///
/// The sub-second part may exceed one second's worth of nanoseconds only while
/// a leap second is being represented; ordering is lexicographic on the pair.
#[derive(Clone, Copy, Debug, PartialEq, Eq, Structural)]
pub struct Timestamp {
    pub secs: i64,
    pub nanos: u32,
}

/// `a` lies strictly after `b`.
pub open spec fn later(a: Timestamp, b: Timestamp) -> bool {
    a.secs > b.secs || (a.secs == b.secs && a.nanos > b.nanos)
}

impl Timestamp {
    /// Whether `self` lies strictly after `other`.
    pub fn is_later_than(&self, other: &Timestamp) -> (r: bool)
        ensures
            r == later(*self, *other),
    {
        self.secs > other.secs || (self.secs == other.secs && self.nanos > other.nanos)
    }
}

/// One dictation record: identifier, creation time, finalized and raw text.
#[derive(Debug)]
pub struct HistoryEntry {
    pub id: String,
    pub timestamp: Timestamp,
    pub text: String,
    pub raw_text: String,
}

impl Clone for HistoryEntry {
    fn clone(&self) -> (r: Self)
        ensures
            r == *self,
    {
        HistoryEntry {
            id: self.id.clone(),
            timestamp: self.timestamp,
            text: self.text.clone(),
            raw_text: self.raw_text.clone(),
        }
    }
}

/// `c` is a lowercase hexadecimal digit.
pub open spec fn is_lower_hex(c: char) -> bool {
    ('0' <= c && c <= '9') || ('a' <= c && c <= 'f')
}

/// `s` is a version-4, RFC 4122 variant identifier in lowercase hyphenated
/// form: 36 characters, hyphens at 8, 13, 18 and 23, `4` at 14, one of
/// `8`, `9`, `a`, `b` at 19, and hexadecimal digits elsewhere.
pub open spec fn is_v4_uuid_text(s: Seq<char>) -> bool {
    &&& s.len() == 36
    &&& forall|i: int| 0 <= i < 36 ==> if i == 8 || i == 13 || i == 18 || i == 23 {
        #[trigger] s[i] == '-'
    } else {
        is_lower_hex(s[i])
    }
    &&& s[14] == '4'
    &&& (s[19] == '8' || s[19] == '9' || s[19] == 'a' || s[19] == 'b')
}

/// Relies on uuid's `Uuid::new_v4` and its `Display`, which writes the
/// lowercase hyphenated form: a random version-4 identifier.
#[verifier::external_body]
fn fresh_id() -> (r: String)
    ensures
        is_v4_uuid_text(r@),
{
    uuid::Uuid::new_v4().to_string()
}

/// Relies on chrono's `Utc::now`, `DateTime::timestamp` and
/// `DateTime::timestamp_subsec_nanos`: the current time, whose sub-second part
/// stays below two seconds' worth of nanoseconds (a leap second at most).
#[verifier::external_body]
fn now() -> (r: Timestamp)
    ensures
        r.nanos < 2_000_000_000,
{
    let t = chrono::Utc::now();
    Timestamp { secs: t.timestamp(), nanos: t.timestamp_subsec_nanos() }
}

impl HistoryEntry {
    /// A new entry with a fresh identifier and the current time.
    pub fn new(text: String, raw_text: String) -> (r: Self)
        ensures
            r.text == text,
            r.raw_text == raw_text,
            is_v4_uuid_text(r.id@),
            r.timestamp.nanos < 2_000_000_000,
    {
        HistoryEntry { id: fresh_id(), timestamp: now(), text, raw_text }
    }
}

} // verus!

use vstd::prelude::*;
use crate::entry::{HistoryEntry, Timestamp};

verus! {

/// A JSON document as a tree; numbers keep their literal text.
#[derive(Debug)]
pub enum JsonValue {
    Null,
    Bool(bool),
    Number(String),
    Str(String),
    Array(Vec<JsonValue>),
    Object(Vec<(String, JsonValue)>),
}

/// The instant that chrono's `FromStr` for `DateTime<FixedOffset>` reads from a
/// text (RFC 3339, relaxed as chrono documents), as seconds and sub-second
/// nanoseconds in UTC; none where it reads nothing.
pub uninterp spec fn rfc3339_parsed(s: Seq<char>) -> Option<(i64, u32)>;

/// The RFC 3339 UTC text that chrono writes for an instant; none where the
/// instant is outside chrono's range.
pub uninterp spec fn rfc3339_rendered(secs: i64, nanos: u32) -> Option<Seq<char>>;

/// Relies on chrono's `FromStr` for `DateTime<FixedOffset>` (the reading that
/// chrono's serde support uses), converted to UTC and read back with
/// `timestamp` and `timestamp_subsec_nanos`.
#[verifier::external_body]
fn parse_rfc3339(s: &str) -> (r: Option<Timestamp>)
    ensures
        match r {
            None => rfc3339_parsed(s@) is None,
            Some(t) => rfc3339_parsed(s@) == Some((t.secs, t.nanos)),
        },
{
    match s.parse::<chrono::DateTime<chrono::FixedOffset>>() {
        Ok(t) => {
            let u = t.with_timezone(&chrono::Utc);
            Some(Timestamp { secs: u.timestamp(), nanos: u.timestamp_subsec_nanos() })
        },
        Err(_) => None,
    }
}

/// Relies on chrono's `DateTime::<Utc>::from_timestamp` and
/// `to_rfc3339_opts(SecondsFormat::AutoSi, true)`: the instant as RFC 3339 text
/// ending in `Z`.
#[verifier::external_body]
fn render_rfc3339(t: Timestamp) -> (r: Option<String>)
    ensures
        match r {
            None => rfc3339_rendered(t.secs, t.nanos) is None,
            Some(s) => rfc3339_rendered(t.secs, t.nanos) == Some(s@),
        },
{
    chrono::DateTime::<chrono::Utc>::from_timestamp(t.secs, t.nanos).map(
        |d| d.to_rfc3339_opts(chrono::SecondsFormat::AutoSi, true),
    )
}

/// The value of the first field of `fields` named `key`.
pub open spec fn field_of(fields: Seq<(String, JsonValue)>, key: Seq<char>) -> Option<JsonValue>
    decreases fields.len(),
{
    if fields.len() == 0 {
        None
    } else if fields[0].0@ == key {
        Some(fields[0].1)
    } else {
        field_of(fields.drop_first(), key)
    }
}

/// The text of field `key`, where it is present and a string.
pub open spec fn text_field(fields: Seq<(String, JsonValue)>, key: Seq<char>) -> Option<Seq<char>> {
    match field_of(fields, key) {
        Some(JsonValue::Str(s)) => Some(s@),
        _ => None,
    }
}

/// An entry object: string `id`, RFC 3339 `timestamp`, string `text`, and
/// `raw_text` either absent or a string; other fields are ignored.
pub open spec fn is_entry_object(v: JsonValue) -> bool {
    match v {
        JsonValue::Object(fs) => {
            &&& text_field(fs@, "id"@) is Some
            &&& text_field(fs@, "timestamp"@) is Some
            &&& rfc3339_parsed(text_field(fs@, "timestamp"@)->0) is Some
            &&& text_field(fs@, "text"@) is Some
            &&& (field_of(fs@, "raw_text"@) is None || text_field(fs@, "raw_text"@) is Some)
        },
        _ => false,
    }
}

/// `e` is what entry object `v` holds; an absent `raw_text` reads as empty.
pub open spec fn entry_read_from(v: JsonValue, e: HistoryEntry) -> bool {
    match v {
        JsonValue::Object(fs) => {
            &&& e.id@ == text_field(fs@, "id"@)->0
            &&& rfc3339_parsed(text_field(fs@, "timestamp"@)->0) == Some(
                (e.timestamp.secs, e.timestamp.nanos),
            )
            &&& e.text@ == text_field(fs@, "text"@)->0
            &&& e.raw_text@ == match text_field(fs@, "raw_text"@) {
                Some(s) => s,
                None => Seq::<char>::empty(),
            }
        },
        _ => false,
    }
}

/// A history document: an object whose `entries` field is an array.
pub open spec fn entries_of(v: JsonValue) -> Option<Seq<JsonValue>> {
    match v {
        JsonValue::Object(fs) => match field_of(fs@, "entries"@) {
            Some(JsonValue::Array(items)) => Some(items@),
            _ => None,
        },
        _ => None,
    }
}

/// The value of field `key` of `fields`, found as `field_of` finds it.
fn find_field<'a>(fields: &'a Vec<(String, JsonValue)>, key: &str) -> (r: Option<&'a JsonValue>)
    ensures
        match r {
            None => field_of(fields@, key@) is None,
            Some(v) => field_of(fields@, key@) == Some(*v),
        },
{
    let target: String = key.to_owned();
    let mut i: usize = 0;
    proof {
        assert(fields@.skip(0) =~= fields@);
    }
    while i < fields.len()
        invariant
            0 <= i <= fields.len(),
            target@ == key@,
            field_of(fields@, key@) == field_of(fields@.skip(i as int), key@),
        decreases fields.len() - i,
    {
        let ghost rest = fields@.skip(i as int);
        if fields[i].0 == target {
            return Some(&fields[i].1);
        }
        proof {
            assert(rest.drop_first() =~= fields@.skip(i + 1));
        }
        i = i + 1;
    }
    None
}

/// The text of field `key`, where present and a string.
fn find_text(fields: &Vec<(String, JsonValue)>, key: &str) -> (r: Option<String>)
    ensures
        match r {
            None => text_field(fields@, key@) is None,
            Some(s) => text_field(fields@, key@) == Some(s@),
        },
{
    match find_field(fields, key) {
        Some(JsonValue::Str(s)) => Some(s.clone()),
        _ => None,
    }
}

/// Reads one entry object; none where `v` is not one.
pub fn decode_entry(v: &JsonValue) -> (r: Option<HistoryEntry>)
    ensures
        r is Some <==> is_entry_object(*v),
        r is Some ==> entry_read_from(*v, r->0),
{
    match v {
        JsonValue::Object(fs) => {
            let id = match find_text(fs, "id") {
                Some(s) => s,
                None => return None,
            };
            let stamp = match find_text(fs, "timestamp") {
                Some(s) => s,
                None => return None,
            };
            let timestamp = match parse_rfc3339(stamp.as_str()) {
                Some(t) => t,
                None => return None,
            };
            let text = match find_text(fs, "text") {
                Some(s) => s,
                None => return None,
            };
            let raw_text = match find_field(fs, "raw_text") {
                None => String::new(),
                Some(JsonValue::Str(s)) => s.clone(),
                Some(_) => return None,
            };
            Some(HistoryEntry { id, timestamp, text, raw_text })
        },
        _ => None,
    }
}

/// Reads a history document: every entry of its `entries` array, in order;
/// none where the document or any entry is malformed.
pub fn decode_history(v: &JsonValue) -> (r: Option<Vec<HistoryEntry>>)
    ensures
        r is Some <==> (entries_of(*v) is Some && forall|k: int|
            0 <= k < entries_of(*v)->0.len() ==> is_entry_object(#[trigger] entries_of(*v)->0[k])),
        r is Some ==> r->0@.len() == entries_of(*v)->0.len() && forall|k: int|
            0 <= k < r->0@.len() ==> entry_read_from(entries_of(*v)->0[k], #[trigger] r->0@[k]),
{
    let items = match v {
        JsonValue::Object(fs) => match find_field(fs, "entries") {
            Some(JsonValue::Array(items)) => items,
            _ => return None,
        },
        _ => return None,
    };
    let mut out: Vec<HistoryEntry> = Vec::new();
    let mut i: usize = 0;
    while i < items.len()
        invariant
            entries_of(*v) == Some(items@),
            0 <= i <= items.len(),
            out@.len() == i,
            forall|k: int| 0 <= k < i ==> is_entry_object(#[trigger] items@[k]),
            forall|k: int| 0 <= k < i ==> entry_read_from(items@[k], #[trigger] out@[k]),
        decreases items.len() - i,
    {
        match decode_entry(&items[i]) {
            Some(e) => out.push(e),
            None => {
                assert(entries_of(*v)->0[i as int] == items@[i as int]);
                assert(!is_entry_object(entries_of(*v)->0[i as int]));
                return None;
            },
        }
        i = i + 1;
    }
    Some(out)
}

/// `v` is the object written for `e`: `id`, `timestamp`, `text` and
/// `raw_text`, in that order, the time as chrono renders it.
pub open spec fn entry_written_as(e: HistoryEntry, v: JsonValue) -> bool {
    match v {
        JsonValue::Object(fs) => {
            &&& fs@.len() == 4
            &&& fs@[0].0@ == "id"@ && fs@[0].1 is Str && fs@[0].1->Str_0@ == e.id@
            &&& fs@[1].0@ == "timestamp"@ && fs@[1].1 is Str && Some(fs@[1].1->Str_0@)
                == rfc3339_rendered(e.timestamp.secs, e.timestamp.nanos)
            &&& fs@[2].0@ == "text"@ && fs@[2].1 is Str && fs@[2].1->Str_0@ == e.text@
            &&& fs@[3].0@ == "raw_text"@ && fs@[3].1 is Str && fs@[3].1->Str_0@ == e.raw_text@
        },
        _ => false,
    }
}

/// The object for one entry; none where chrono cannot render its time.
pub fn encode_entry(e: &HistoryEntry) -> (r: Option<JsonValue>)
    ensures
        r is Some <==> rfc3339_rendered(e.timestamp.secs, e.timestamp.nanos) is Some,
        r is Some ==> entry_written_as(*e, r->0),
{
    let stamp = match render_rfc3339(e.timestamp) {
        Some(s) => s,
        None => return None,
    };
    let mut fields: Vec<(String, JsonValue)> = Vec::new();
    fields.push(("id".to_owned(), JsonValue::Str(e.id.clone())));
    fields.push(("timestamp".to_owned(), JsonValue::Str(stamp)));
    fields.push(("text".to_owned(), JsonValue::Str(e.text.clone())));
    fields.push(("raw_text".to_owned(), JsonValue::Str(e.raw_text.clone())));
    Some(JsonValue::Object(fields))
}

/// The history document for `entries`: an object with one field, `entries`,
/// holding each entry's object in order; none where a time cannot be rendered.
pub fn encode_history(entries: &Vec<HistoryEntry>) -> (r: Option<JsonValue>)
    ensures
        r is Some <==> forall|k: int|
            0 <= k < entries@.len() ==> (rfc3339_rendered(
                #[trigger] entries@[k].timestamp.secs,
                entries@[k].timestamp.nanos,
            ) is Some),
        r is Some ==> entries_of(r->0) is Some && entries_of(r->0)->0.len() == entries@.len()
            && forall|k: int|
            0 <= k < entries@.len() ==> entry_written_as(entries@[k], #[trigger] entries_of(r->0)->0[k]),
{
    let mut items: Vec<JsonValue> = Vec::new();
    let mut i: usize = 0;
    while i < entries.len()
        invariant
            0 <= i <= entries.len(),
            items@.len() == i,
            forall|k: int|
                0 <= k < i ==> (rfc3339_rendered(
                    #[trigger] entries@[k].timestamp.secs,
                    entries@[k].timestamp.nanos,
                ) is Some),
            forall|k: int| 0 <= k < i ==> entry_written_as(entries@[k], #[trigger] items@[k]),
        decreases entries.len() - i,
    {
        match encode_entry(&entries[i]) {
            Some(v) => items.push(v),
            None => return None,
        }
        i = i + 1;
    }
    let mut fields: Vec<(String, JsonValue)> = Vec::new();
    fields.push(("entries".to_owned(), JsonValue::Array(items)));
    proof {
        assert(fields@[0].0@ == "entries"@);
    }
    Some(JsonValue::Object(fields))
}

} // verus!

verus! {

/// An object with string `id`, RFC 3339 `timestamp`, string `text` and no
/// `raw_text` field.
pub open spec fn is_entry_without_raw_text(v: JsonValue) -> bool {
    match v {
        JsonValue::Object(fs) => {
            &&& text_field(fs@, "id"@) is Some
            &&& text_field(fs@, "timestamp"@) is Some
            &&& rfc3339_parsed(text_field(fs@, "timestamp"@)->0) is Some
            &&& text_field(fs@, "text"@) is Some
            &&& field_of(fs@, "raw_text"@) is None
        },
        _ => false,
    }
}

/// An entry object that lacks `raw_text` is still read, with an empty raw text.
pub proof fn lemma_missing_raw_text_reads_empty(v: JsonValue, e: HistoryEntry)
    requires
        is_entry_without_raw_text(v),
    ensures
        is_entry_object(v),
        entry_read_from(v, e) ==> e.raw_text@ == Seq::<char>::empty(),
{
}

/// A history document whose entries all lack `raw_text` is read whole, and
/// every entry read from it has an empty raw text.
pub proof fn lemma_document_without_raw_text_reads(doc: JsonValue, read: Seq<HistoryEntry>)
    requires
        entries_of(doc) is Some,
        forall|k: int|
            0 <= k < entries_of(doc)->0.len() ==> is_entry_without_raw_text(
                #[trigger] entries_of(doc)->0[k],
            ),
    ensures
        forall|k: int| 0 <= k < entries_of(doc)->0.len() ==> is_entry_object(#[trigger] entries_of(doc)->0[k]),
        read.len() == entries_of(doc)->0.len() && (forall|k: int|
            0 <= k < read.len() ==> entry_read_from(entries_of(doc)->0[k], #[trigger] read[k]))
            ==> forall|k: int| 0 <= k < read.len() ==> (#[trigger] read[k]).raw_text@ == Seq::<char>::empty(),
{
    assert forall|k: int| 0 <= k < entries_of(doc)->0.len() implies is_entry_object(#[trigger] entries_of(doc)->0[k]) by {
        lemma_missing_raw_text_reads_empty(entries_of(doc)->0[k], read[0]);
    }
    if read.len() == entries_of(doc)->0.len() && (forall|k: int|
        0 <= k < read.len() ==> entry_read_from(entries_of(doc)->0[k], #[trigger] read[k])) {
        assert forall|k: int| 0 <= k < read.len() implies (#[trigger] read[k]).raw_text@ == Seq::<char>::empty() by {
            lemma_missing_raw_text_reads_empty(entries_of(doc)->0[k], read[k]);
        }
    }
}

/// An entry's object is read back, as far as chrono reads its own time text,
/// to an entry with the same id, text and raw text.
pub proof fn lemma_written_entry_reads_back(e: HistoryEntry, v: JsonValue, back: HistoryEntry)
    requires
        entry_written_as(e, v),
    ensures
        is_entry_object(v) <==> rfc3339_parsed(
            rfc3339_rendered(e.timestamp.secs, e.timestamp.nanos)->0,
        ) is Some,
        entry_read_from(v, back) ==> back.id@ == e.id@ && back.text@ == e.text@ && back.raw_text@
            == e.raw_text@ && rfc3339_parsed(rfc3339_rendered(e.timestamp.secs, e.timestamp.nanos)->0)
            == Some((back.timestamp.secs, back.timestamp.nanos)),
{
    reveal_strlit("id");
    reveal_strlit("timestamp");
    reveal_strlit("text");
    reveal_strlit("raw_text");
    assert("id"@.len() == 2 && "timestamp"@.len() == 9 && "text"@.len() == 4 && "raw_text"@.len() == 8);
    if let JsonValue::Object(fs) = v {
        let s = fs@;
        assert(s.drop_first().drop_first().drop_first().drop_first().len() == 0);
        assert(field_of(s, "id"@) == Some(s[0].1));
        assert(field_of(s.drop_first(), "timestamp"@) == Some(s[1].1));
        assert(field_of(s, "timestamp"@) == Some(s[1].1));
        assert(field_of(s.drop_first().drop_first(), "text"@) == Some(s[2].1));
        assert(field_of(s.drop_first(), "text"@) == Some(s[2].1));
        assert(field_of(s, "text"@) == Some(s[2].1));
        assert(field_of(s.drop_first().drop_first().drop_first(), "raw_text"@) == Some(s[3].1));
        assert(field_of(s.drop_first().drop_first(), "raw_text"@) == Some(s[3].1));
        assert(field_of(s.drop_first(), "raw_text"@) == Some(s[3].1));
        assert(field_of(s, "raw_text"@) == Some(s[3].1));
    }
}

/// A written history document reads back, entry by entry and in order, to
/// entries with the same id, text and raw text, and with the time that chrono
/// reads from the text it wrote; it reads back whole exactly when chrono reads
/// every such time text.
pub proof fn lemma_written_history_reads_back(
    written: Seq<HistoryEntry>,
    doc: JsonValue,
    back: Seq<HistoryEntry>,
)
    requires
        entries_of(doc) is Some,
        entries_of(doc)->0.len() == written.len(),
        forall|k: int| 0 <= k < written.len() ==> entry_written_as(written[k], #[trigger] entries_of(doc)->0[k]),
    ensures
        (forall|k: int| 0 <= k < written.len() ==> is_entry_object(#[trigger] entries_of(doc)->0[k]))
            <==> (forall|k: int| 0 <= k < written.len() ==> (rfc3339_parsed(
            rfc3339_rendered(#[trigger] written[k].timestamp.secs, written[k].timestamp.nanos)->0,
        ) is Some)),
        back.len() == written.len() && (forall|k: int|
            0 <= k < back.len() ==> entry_read_from(entries_of(doc)->0[k], #[trigger] back[k]))
            ==> forall|k: int| 0 <= k < back.len() ==> {
                &&& (#[trigger] back[k]).id@ == written[k].id@
                &&& back[k].text@ == written[k].text@
                &&& back[k].raw_text@ == written[k].raw_text@
                &&& rfc3339_parsed(rfc3339_rendered(written[k].timestamp.secs, written[k].timestamp.nanos)->0)
                    == Some((back[k].timestamp.secs, back[k].timestamp.nanos))
            },
{
    let items = entries_of(doc)->0;
    assert forall|k: int| 0 <= k < written.len() implies (is_entry_object(#[trigger] items[k])
        <==> rfc3339_parsed(rfc3339_rendered(written[k].timestamp.secs, written[k].timestamp.nanos)->0) is Some) by {
        lemma_written_entry_reads_back(written[k], items[k], written[k]);
    }
    if forall|k: int| 0 <= k < written.len() ==> is_entry_object(#[trigger] items[k]) {
        assert forall|k: int| 0 <= k < written.len() implies (rfc3339_parsed(
            rfc3339_rendered(#[trigger] written[k].timestamp.secs, written[k].timestamp.nanos)->0,
        ) is Some) by {
            assert(is_entry_object(items[k]));
        }
    }
    if forall|k: int| 0 <= k < written.len() ==> (rfc3339_parsed(
        rfc3339_rendered(#[trigger] written[k].timestamp.secs, written[k].timestamp.nanos)->0,
    ) is Some) {
        assert forall|k: int| 0 <= k < written.len() implies is_entry_object(#[trigger] items[k]) by {
            assert(rfc3339_parsed(rfc3339_rendered(written[k].timestamp.secs, written[k].timestamp.nanos)->0) is Some);
        }
    }
    if back.len() == written.len() && (forall|k: int|
        0 <= k < back.len() ==> entry_read_from(items[k], #[trigger] back[k])) {
        assert forall|k: int| 0 <= k < back.len() implies {
            &&& (#[trigger] back[k]).id@ == written[k].id@
            &&& back[k].text@ == written[k].text@
            &&& back[k].raw_text@ == written[k].raw_text@
            &&& rfc3339_parsed(rfc3339_rendered(written[k].timestamp.secs, written[k].timestamp.nanos)->0)
                == Some((back[k].timestamp.secs, back[k].timestamp.nanos))
        } by {
            lemma_written_entry_reads_back(written[k], items[k], back[k]);
        }
    }
}

} // verus!

//! The structured event carried in a contract log line, and its decoder.
//!
//! A well-formed log line holds a JSON object starting at the line's first
//! `{`; the object carries a `standard` string, an `event` string and a
//! `data` array of event records. Decoding failures are per-event, never
//! fatal to the poll loop.

use vstd::prelude::*;

verus! {

/// Mathematical image of one event record.
pub struct EventDataView {
    pub request_id: Option<u32>,
    pub yield_id: Option<Seq<char>>,
    pub prompt: Option<Seq<char>>,
    pub status: Seq<char>,
    pub response: Option<Seq<char>>,
}

/// One decoded event record: the request being driven, an opaque correlation
/// id, free-form prompt/response text and a status string.
#[derive(Debug, PartialEq)]
pub struct EventData {
    pub request_id: Option<u32>,
    pub yield_id: Option<String>,
    pub prompt: Option<String>,
    pub status: String,
    pub response: Option<String>,
}

impl View for EventData {
    type V = EventDataView;

    open spec fn view(&self) -> EventDataView {
        EventDataView {
            request_id: self.request_id,
            yield_id: match self.yield_id {
                Some(s) => Some(s@),
                None => None,
            },
            prompt: match self.prompt {
                Some(s) => Some(s@),
                None => None,
            },
            status: self.status@,
            response: match self.response {
                Some(s) => Some(s@),
                None => None,
            },
        }
    }
}

/// Mathematical image of a whole event log object.
pub struct EventLogView {
    pub standard: Seq<char>,
    pub event: Seq<char>,
    pub data: Seq<EventDataView>,
}

/// The JSON object a log line carries: an event standard, an event name, and
/// the emitted records.
#[derive(Debug)]
pub struct EventLog {
    pub standard: String,
    pub event: String,
    pub data: Vec<EventData>,
}

impl View for EventLog {
    type V = EventLogView;

    open spec fn view(&self) -> EventLogView {
        EventLogView {
            standard: self.standard@,
            event: self.event@,
            data: self.data@.map_values(|d: EventData| d@),
        }
    }
}

/// Why a log line failed to decode. All three are non-fatal, per-event
/// failures.
#[derive(Debug, PartialEq, Eq, Structural)]
pub enum DecodeError {
    /// The line contains no `{`, so no JSON object can start in it.
    NoJsonObject,
    /// The text from the first `{` on is not a JSON object of the expected
    /// schema.
    BadSchema,
    /// The object decoded but its `data` array is empty.
    NoData,
}

/// The top-level shape of a decoded log object: its `standard` string, its
/// `event` string and how many records its `data` array holds.
pub struct LogHeaderView {
    pub standard: Seq<char>,
    pub event: Seq<char>,
    pub data_len: usize,
}

/// The `standard` string, `event` string and `data` length of the JSON
/// object `s` parses to, when `s` is a JSON object with fields of those
/// names and types; what serde_json's parser accepts, named rather than
/// written out.
pub uninterp spec fn json_log_header(s: Seq<char>) -> Option<LogHeaderView>;

/// The record at index `i` of the `data` array of the JSON object `s`
/// parses to, when that element is an object of the record schema.
pub uninterp spec fn json_log_record(s: Seq<char>, i: usize) -> Option<EventDataView>;

/// Relies on serde_json's `from_str` and the `Value` accessors `get`,
/// `as_str` and `as_array`: parses `json` and hands back the `standard`
/// string, the `event` string and the length of the `data` array, or `None`
/// when `json` is not a JSON object of that shape. The result depends on the
/// text alone.
#[verifier::external_body]
fn parse_log_header(json: &str) -> (r: Option<(String, String, usize)>)
    ensures
        (match json_log_header(json@) {
            Some(h) => r matches Some(t) && t.0@ == h.standard && t.1@ == h.event && t.2
                == h.data_len,
            None => r is None,
        }),
{
    let v: serde_json::Value = serde_json::from_str(json).ok()?;
    Some(
        (
            v.get("standard")?.as_str()?.to_string(),
            v.get("event")?.as_str()?.to_string(),
            v.get("data")?.as_array()?.len(),
        ),
    )
}

/// Relies on serde_json's `from_str` and the `Value` accessors `get`,
/// `as_str`, `as_u64` and `as_array`: hands back the `i`-th element of the
/// `data` array of the object `json` parses to, as a plain record, or `None`
/// when there is no such element or it lacks a `status` string. The result
/// depends on the text and index alone.
#[verifier::external_body]
fn parse_log_record(json: &str, i: usize) -> (r: Option<EventData>)
    ensures
        (match json_log_record(json@, i) {
            Some(d) => r matches Some(e) && e@ == d,
            None => r is None,
        }),
{
    let v: serde_json::Value = serde_json::from_str(json).ok()?;
    let d = v.get("data")?.as_array()?.get(i)?;
    Some(
        EventData {
            request_id: d.get("request_id").and_then(serde_json::Value::as_u64).and_then(
                |n| u32::try_from(n).ok(),
            ),
            yield_id: d.get("yield_id").and_then(serde_json::Value::as_str).map(str::to_string),
            prompt: d.get("prompt").and_then(serde_json::Value::as_str).map(str::to_string),
            status: d.get("status")?.as_str()?.to_string(),
            response: d.get("response").and_then(serde_json::Value::as_str).map(str::to_string),
        },
    )
}

/// `i` is the position of the first `{` in `s`.
pub open spec fn is_first_brace(s: Seq<char>, i: int) -> bool {
    &&& 0 <= i < s.len()
    &&& s[i] == '{'
    &&& forall|k: int| 0 <= k < i ==> s[k] != '{'
}

/// Position of the first `{` in `s`, if any.
pub open spec fn first_brace(s: Seq<char>) -> Option<int>
    decreases s.len(),
{
    if s.len() == 0 {
        None
    } else if s[0] == '{' {
        Some(0)
    } else {
        match first_brace(s.drop_first()) {
            Some(i) => Some(i + 1),
            None => None,
        }
    }
}

/// `first_brace` finds exactly the first `{`: a found index is the least one
/// holding `{`, and `None` means the sequence holds none.
pub proof fn lemma_first_brace_characterization(s: Seq<char>)
    ensures
        (match first_brace(s) {
            Some(i) => is_first_brace(s, i),
            None => forall|k: int| 0 <= k < s.len() ==> s[k] != '{',
        }),
    decreases s.len(),
{
    if s.len() == 0 {
    } else if s[0] == '{' {
    } else {
        lemma_first_brace_characterization(s.drop_first());
        match first_brace(s.drop_first()) {
            Some(i) => {
                assert(s.drop_first()[i] == s[i + 1]);
                assert(forall|k: int| 1 <= k < i + 1 ==> s[k] == s.drop_first()[k - 1]);
            },
            None => {
                assert(forall|k: int| 1 <= k < s.len() ==> s[k] == s.drop_first()[k - 1]);
            },
        }
    }
}

/// Any position of a first `{` agrees with `first_brace`.
pub proof fn lemma_first_brace_unique(s: Seq<char>, i: int)
    requires
        is_first_brace(s, i),
    ensures
        first_brace(s) == Some(i),
{
    lemma_first_brace_characterization(s);
    match first_brace(s) {
        Some(j) => {
            if j < i {
                assert(s[j] != '{');
            } else if i < j {
                assert(s[i] != '{');
            }
        },
        None => {
            assert(s[i] != '{');
        },
    }
}

/// The whole `data` array of the object in `s` decodes record by record.
pub open spec fn all_records_decode(s: Seq<char>, n: int) -> bool {
    forall|i: usize| i < n ==> json_log_record(s, i) is Some
}

/// What decoding a raw log line yields: the first record of the JSON object
/// starting at the line's first `{`, or the error naming what was missing.
pub open spec fn decode_spec(log: Seq<char>) -> Result<EventDataView, DecodeError> {
    match first_brace(log) {
        None => Err(DecodeError::NoJsonObject),
        Some(b) => {
            let json = log.subrange(b, log.len() as int);
            match json_log_header(json) {
                None => Err(DecodeError::BadSchema),
                Some(h) => if !all_records_decode(json, h.data_len as int) {
                    Err(DecodeError::BadSchema)
                } else if h.data_len == 0 {
                    Err(DecodeError::NoData)
                } else {
                    Ok(json_log_record(json, 0)->0)
                },
            }
        },
    }
}

/// Find the position of the first `{` in `log`.
pub fn find_json_start(log: &str) -> (r: Option<usize>)
    ensures
        (match r {
            Some(i) => is_first_brace(log@, i as int),
            None => first_brace(log@) is None,
        }),
{
    let n = log.unicode_len();
    let mut i: usize = 0;
    while i < n
        invariant
            n == log@.len(),
            i <= n,
            forall|k: int| 0 <= k < i ==> log@[k] != '{',
        decreases n - i,
    {
        if log.get_char(i) == '{' {
            return Some(i);
        }
        i += 1;
    }
    proof {
        lemma_first_brace_characterization(log@);
        match first_brace(log@) {
            Some(j) => {
                assert(log@[j] != '{');
            },
            None => {},
        }
    }
    None
}

/// Decode the JSON object in `json` into an event log: its header fields
/// and every record of its `data` array. `None` when the header or any
/// record does not fit the schema.
pub fn parse_event_log(json: &str) -> (r: Option<EventLog>)
    ensures
        (match json_log_header(json@) {
            None => r is None,
            Some(h) => if all_records_decode(json@, h.data_len as int) {
                r matches Some(l) && l.standard@ == h.standard && l.event@ == h.event
                    && l.data@.len() == h.data_len && forall|i: int|
                    0 <= i < h.data_len ==> l.data@[i]@ == json_log_record(json@, i as usize)->0
            } else {
                r is None
            },
        }),
{
    let header = parse_log_header(json);
    match header {
        None => None,
        Some((standard, event, n)) => {
            let mut data: Vec<EventData> = Vec::new();
            let mut i: usize = 0;
            while i < n
                invariant
                    i <= n,
                    json_log_header(json@) matches Some(h) && h.data_len == n,
                    data@.len() == i,
                    forall|k: usize| k < i ==> json_log_record(json@, k) is Some,
                    forall|k: int|
                        0 <= k < i ==> data@[k]@ == json_log_record(json@, k as usize)->0,
                decreases n - i,
            {
                match parse_log_record(json, i) {
                    None => {
                        return None;
                    },
                    Some(d) => {
                        data.push(d);
                    },
                }
                i += 1;
            }
            Some(EventLog { standard, event, data })
        },
    }
}

/// Decode one raw log line: find the first `{`, parse the object from there,
/// and hand back the first emitted record. Fails per spec with the reason.
pub fn process_log(log: &str) -> (r: Result<EventData, DecodeError>)
    ensures
        (match decode_spec(log@) {
            Ok(v) => r matches Ok(d) && d@ == v,
            Err(e) => r matches Err(e2) && e2 == e,
        }),
{
    let start = find_json_start(log);
    match start {
        None => Err(DecodeError::NoJsonObject),
        Some(b) => {
            proof {
                lemma_first_brace_unique(log@, b as int);
            }
            let n = log.unicode_len();
            let json = log.substring_char(b, n);
            match parse_event_log(json) {
                None => Err(DecodeError::BadSchema),
                Some(l) => {
                    if l.data.len() == 0 {
                        Err(DecodeError::NoData)
                    } else {
                        let mut l = l;
                        let first = l.data.remove(0);
                        Ok(first)
                    }
                },
            }
        },
    }
}

/// Decoding is a pure function of the log line: two decodes of the same
/// line yield structurally equal results.
pub proof fn lemma_decode_idempotent(
    log: Seq<char>,
    r1: Result<EventDataView, DecodeError>,
    r2: Result<EventDataView, DecodeError>,
)
    requires
        r1 == decode_spec(log),
        r2 == decode_spec(log),
    ensures
        r1 == r2,
{
}

} // verus!

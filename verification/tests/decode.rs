use omnibox::event::{parse_event_log, process_log, DecodeError, EventData};

const LINE: &str = "EVENT_JSON:{\"standard\":\"x\",\"event\":\"y\",\"data\":[{\"request_id\":1,\"yield_id\":\"abc123\",\"prompt\":\"say hi\",\"status\":\"created\",\"response\":null}]}";

#[test]
fn event_decode_round_trip() {
    let event = process_log(LINE).unwrap();
    assert_eq!(
        event,
        EventData {
            request_id: Some(1),
            yield_id: Some("abc123".to_string()),
            prompt: Some("say hi".to_string()),
            status: "created".to_string(),
            response: None,
        }
    );
}

#[test]
fn line_without_brace_is_malformed() {
    assert_eq!(process_log("no object at all").unwrap_err(), DecodeError::NoJsonObject);
    assert_eq!(process_log("").unwrap_err(), DecodeError::NoJsonObject);
}

#[test]
fn non_json_after_brace_is_bad_schema() {
    assert_eq!(process_log("EVENT_JSON:{not json").unwrap_err(), DecodeError::BadSchema);
}

#[test]
fn object_of_wrong_shape_is_bad_schema() {
    // Parses as JSON, but has no `standard`/`event`/`data` fields.
    assert_eq!(process_log("x{\"a\":1}").unwrap_err(), DecodeError::BadSchema);
    // `data` records must carry a `status` string.
    let no_status = "{\"standard\":\"x\",\"event\":\"y\",\"data\":[{\"request_id\":1}]}";
    assert_eq!(process_log(no_status).unwrap_err(), DecodeError::BadSchema);
}

#[test]
fn empty_data_array_is_no_data() {
    let line = "EVENT_JSON:{\"standard\":\"x\",\"event\":\"y\",\"data\":[]}";
    assert_eq!(process_log(line).unwrap_err(), DecodeError::NoData);
}

#[test]
fn decode_is_idempotent() {
    let first = process_log(LINE).unwrap();
    let second = process_log(LINE).unwrap();
    assert_eq!(first, second);
}

#[test]
fn whole_log_object_is_decoded() {
    let json = "{\"standard\":\"x\",\"event\":\"y\",\"data\":[{\"status\":\"a\"},{\"request_id\":2,\"status\":\"b\"}]}";
    let log = parse_event_log(json).unwrap();
    assert_eq!(log.standard, "x");
    assert_eq!(log.event, "y");
    assert_eq!(log.data.len(), 2);
    assert_eq!(log.data[0].status, "a");
    assert_eq!(log.data[0].request_id, None);
    assert_eq!(log.data[1].request_id, Some(2));
    assert_eq!(log.data[1].status, "b");
}

#[test]
fn decode_starts_at_first_brace() {
    // The record carries a `{` inside a string; only the first `{` of the
    // whole line starts the object.
    let line = "prefix {\"standard\":\"s\",\"event\":\"e\",\"data\":[{\"status\":\"ok {inner}\"}]}";
    let event = process_log(line).unwrap();
    assert_eq!(event.status, "ok {inner}");
}

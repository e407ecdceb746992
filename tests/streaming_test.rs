use instructor_rs::extract::{get_object, model_name_of};
use instructor_rs::streaming::{
    cached_streamer, collect_stream, process_streaming_response, SseFrame, SseFramer, StreamingError, CACHED_EVENTS,
};

#[test]
fn cached_events_frame_into_chunks_and_done() {
    let frames = process_streaming_response(&cached_streamer());
    assert_eq!(frames.len(), 9);
    for f in &frames[..8] {
        match f {
            Ok(SseFrame::Json(t)) => {
                assert!(t.starts_with("{\"id\":\"chatcmpl-9A0hcaguAav3PrvNA54IFivY2API7\""));
                assert!(t.ends_with("}]}"));
                assert!(serde_json::from_str::<serde_json::Value>(t).is_ok());
            },
            _ => panic!("expected a JSON frame"),
        }
    }
    assert!(matches!(frames[8], Ok(SseFrame::Done)));
}

#[test]
fn collect_stream_reads_bytes_and_errors() {
    assert_eq!(collect_stream(&cached_streamer()), CACHED_EVENTS);
    let items = vec![Ok((b'a', 0)), Err(StreamingError::Generic("x\"y".to_string())), Ok((b'b', 1))];
    assert_eq!(collect_stream(&items), "aError: Generic(\"x\\\"y\")b");
}

#[test]
fn read_errors_are_passed_on() {
    let items = vec![Err(StreamingError::IoError("reset".to_string()))];
    let frames = process_streaming_response(&items);
    match &frames[0] {
        Err(StreamingError::Generic(m)) => assert_eq!(m, "IoError(reset)"),
        _ => panic!("expected an error"),
    }
}

#[test]
fn framer_reports_end_before_start() {
    let mut framer = SseFramer::new();
    let mut last = None;
    for b in "}\ndata: {".bytes() {
        last = framer.push_byte(b);
    }
    assert!(matches!(last, Some(SseFrame::Malformed)));
}

#[test]
fn get_object_cuts_first_balanced_object() {
    let (obj, rest) = get_object("xx {\"a\": {\"b\": 1}} , {\"c\"", 0);
    assert_eq!(obj.unwrap(), "{\"a\": {\"b\": 1}}");
    assert_eq!(rest, " , {\"c\"");
    let (obj, rest) = get_object("{\"a\": 1", 0);
    assert!(obj.is_none());
    assert_eq!(rest, "{\"a\": 1");
    let (obj, rest) = get_object("no object", 0);
    assert!(obj.is_none());
    assert_eq!(rest, "no object");
}

#[test]
fn model_name_is_last_path_segment() {
    assert_eq!(model_name_of("my_crate::models::Weather"), "Weather");
    assert_eq!(model_name_of("Weather"), "Weather");
    assert_eq!(model_name_of("a::"), "");
}

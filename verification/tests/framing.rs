use chatstream::framing::{StreamDecoder, WireStyle};
use chatstream::orchestrator::{run_stream, AdapterEnd, StreamEventPayload, StreamOutcome};

#[test]
fn ndjson_extracts_fragments_and_done() {
    let mut dec = StreamDecoder::new(WireStyle::NewlineJson);
    let r = dec.feed_text("{\"message\":{\"content\":\"Hel\"},\"done\":false}\n");
    assert_eq!(r.fragments, vec!["Hel".to_string()]);
    assert!(!r.done);
    let r = dec.feed_text("{\"message\":{\"content\":\"lo\"},\"done\":false}\n{\"message\":{\"content\":\"\"},\"done\":true}\n");
    assert_eq!(r.fragments, vec!["lo".to_string(), "".to_string()]);
    assert!(r.done);
}

#[test]
fn ndjson_buffers_partial_lines_across_chunks() {
    let mut dec = StreamDecoder::new(WireStyle::NewlineJson);
    let r = dec.feed_text("{\"message\":{\"content\":");
    assert!(r.fragments.is_empty());
    assert!(!r.done);
    let r = dec.feed_text("\"ab\"},\"done\":false}\n");
    assert_eq!(r.fragments, vec!["ab".to_string()]);
}

#[test]
fn ndjson_skips_malformed_and_empty_lines() {
    let mut dec = StreamDecoder::new(WireStyle::NewlineJson);
    let r = dec.feed_text("not json\n\n   \n{\"message\":{\"content\":\"ok\"}}\n");
    assert_eq!(r.fragments, vec!["ok".to_string()]);
    assert!(!r.done);
}

#[test]
fn ndjson_feed_bytes_decodes_utf8() {
    let mut dec = StreamDecoder::new(WireStyle::NewlineJson);
    let wire = "{\"message\":{\"content\":\"héllo\"},\"done\":false}\n".as_bytes();
    let r = dec.feed_bytes(wire);
    assert_eq!(r.fragments, vec!["héllo".to_string()]);
}

#[test]
fn sse_extracts_delta_content() {
    let mut dec = StreamDecoder::new(WireStyle::ServerSentEvents);
    let r = dec.feed_text(
        "data: {\"choices\":[{\"delta\":{\"content\":\"Hi\"}}]}\n\ndata: {\"choices\":[{\"delta\":{}}]}\n",
    );
    assert_eq!(r.fragments, vec!["Hi".to_string()]);
    assert!(!r.done);
}

#[test]
fn sse_done_sentinel_ends_stream() {
    let mut dec = StreamDecoder::new(WireStyle::ServerSentEvents);
    let r = dec.feed_text("data: {\"choices\":[{\"delta\":{\"content\":\"x\"}}]}\ndata: [DONE]\n");
    assert_eq!(r.fragments, vec!["x".to_string()]);
    assert!(r.done);
}

#[test]
fn sse_ignores_lines_without_data_prefix() {
    let mut dec = StreamDecoder::new(WireStyle::ServerSentEvents);
    let r = dec.feed_text("event: ping\n: comment\ndata: {\"choices\":[{\"delta\":{\"content\":\"y\"}}]}\n");
    assert_eq!(r.fragments, vec!["y".to_string()]);
}

#[test]
fn sse_lines_are_trimmed_before_prefix_check() {
    let mut dec = StreamDecoder::new(WireStyle::ServerSentEvents);
    let r = dec.feed_text("   data: [DONE]   \n");
    assert!(r.fragments.is_empty());
    assert!(r.done);
}

#[test]
fn ndjson_stops_handling_after_done_line() {
    // lines after the end signal stay buffered
    let mut dec = StreamDecoder::new(WireStyle::NewlineJson);
    let r = dec.feed_text(
        "{\"done\":true}\n{\"message\":{\"content\":\"late\"},\"done\":false}\n",
    );
    assert!(r.fragments.is_empty());
    assert!(r.done);
}

#[test]
fn wire_to_stream_end_to_end() {
    // the decoded fragments drive a whole stream: wire bytes in, ordered
    // chunk events and the DONE sentinel out
    let mut dec = StreamDecoder::new(WireStyle::NewlineJson);
    let mut fragments: Vec<String> = Vec::new();
    let chunks: [&[u8]; 3] = [
        b"{\"message\":{\"content\":\"Hel\"},\"done\":false}\n{\"message\":{\"con",
        b"tent\":\"lo\"},\"done\":false}\n",
        b"{\"message\":{\"content\":\" world\"},\"done\":true}\n",
    ];
    let mut done = false;
    for chunk in chunks {
        let fed = dec.feed_bytes(chunk);
        fragments.extend(fed.fragments);
        if fed.done {
            done = true;
            break;
        }
    }
    assert!(done);
    assert_eq!(fragments, vec!["Hel", "lo", " world"]);
    let arrivals = vec![0u64; fragments.len()];
    let run = run_stream(
        "conv".to_string(),
        0,
        &fragments,
        &arrivals,
        AdapterEnd::Finished,
        None,
    );
    assert_eq!(run.accumulated, "Hello world");
    assert!(matches!(run.outcome, StreamOutcome::Completed));
    assert!(matches!(run.events.last().unwrap(), StreamEventPayload::Done));
}

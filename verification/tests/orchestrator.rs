use chatstream::models::{Conversation, Message};
use chatstream::orchestrator::{
    run_stream, stream_channel_name, AdapterEnd, StreamEventPayload, StreamOutcome, StreamSession,
};
use chatstream::errors::StreamError;

fn fresh_conversation() -> Conversation {
    Conversation {
        id: "conv-1".to_string(),
        title: "t".to_string(),
        created_at: "2024-01-01T00:00:00Z".to_string(),
        updated_at: "2024-01-01T00:00:00Z".to_string(),
        messages: Vec::new(),
    }
}

fn chunk_text(e: &StreamEventPayload) -> String {
    e.wire_text()
}

#[test]
fn scenario_complete_stream() {
    // fragments delivered without cancellation: three chunk events then DONE,
    // final content is the concatenation, message marked complete
    let fragments = vec!["Hel".to_string(), "lo".to_string(), " world".to_string()];
    let arrivals = vec![0u64, 0, 0];
    let run = run_stream(
        "conv-1".to_string(),
        0,
        &fragments,
        &arrivals,
        AdapterEnd::Finished,
        None,
    );
    assert!(matches!(run.outcome, StreamOutcome::Completed));
    assert_eq!(run.events.len(), 4);
    assert_eq!(chunk_text(&run.events[0]), "Hel");
    assert_eq!(chunk_text(&run.events[1]), "lo");
    assert_eq!(chunk_text(&run.events[2]), " world");
    assert!(matches!(run.events[3], StreamEventPayload::Done));
    assert_eq!(chunk_text(&run.events[3]), "DONE");
    assert_eq!(run.accumulated, "Hello world");

    let mut conv = fresh_conversation();
    let added = conv.ensure_user_message("hi", "2024-01-01T00:00:01Z");
    assert!(added);
    conv.push_incomplete_assistant("2024-01-01T00:00:02Z");
    assert!(!conv.messages.last().unwrap().complete);
    let applied = conv.finalize_completed(&run.accumulated, "2024-01-01T00:00:03Z");
    assert!(applied);
    let last = conv.messages.last().unwrap();
    assert_eq!(last.content, "Hello world");
    assert!(last.complete);
    assert_eq!(conv.updated_at, "2024-01-01T00:00:03Z");
}

#[test]
fn scenario_cancelled_after_first_fragment() {
    // cancellation observed after the first fragment: one chunk then
    // CANCELLED; the partial output is kept as final content
    let fragments = vec!["Par".to_string(), "tial".to_string()];
    let arrivals = vec![0u64, 0];
    let run = run_stream(
        "conv-1".to_string(),
        0,
        &fragments,
        &arrivals,
        AdapterEnd::Finished,
        Some(1),
    );
    assert!(matches!(run.outcome, StreamOutcome::Cancelled));
    assert_eq!(run.events.len(), 2);
    assert_eq!(chunk_text(&run.events[0]), "Par");
    assert!(matches!(run.events[1], StreamEventPayload::Cancelled));
    assert_eq!(chunk_text(&run.events[1]), "CANCELLED");
    assert_eq!(run.accumulated, "Par");

    let mut conv = fresh_conversation();
    conv.ensure_user_message("hi", "ts1");
    conv.push_incomplete_assistant("ts2");
    let applied = conv.finalize_cancelled(&run.accumulated, "ts3");
    assert!(applied);
    let last = conv.messages.last().unwrap();
    assert_eq!(last.content, "Par");
    assert!(last.complete);
}

#[test]
fn scenario_adapter_failure_leaves_incomplete_message() {
    // adapter failure mid-stream: the caller gets the error, no terminal
    // sentinel is emitted, and the assistant message stays incomplete
    let fragments = vec!["rate".to_string()];
    let arrivals = vec![0u64];
    let run = run_stream(
        "conv-1".to_string(),
        0,
        &fragments,
        &arrivals,
        AdapterEnd::Failed(StreamError::HttpStatus(429, "rate limited".to_string())),
        None,
    );
    match &run.outcome {
        StreamOutcome::Failed(StreamError::HttpStatus(code, body)) => {
            assert_eq!(*code, 429);
            assert_eq!(body, "rate limited");
        }
        other => panic!("unexpected outcome: {:?}", other),
    }
    assert_eq!(run.events.len(), 1);

    let mut conv = fresh_conversation();
    conv.ensure_user_message("hi", "ts1");
    conv.push_incomplete_assistant("ts2");
    let applied = conv.apply_checkpoint(&run.accumulated, "ts3");
    assert!(applied);
    let last = conv.messages.last().unwrap();
    assert_eq!(last.content, "rate");
    assert!(!last.complete);
}

#[test]
fn fragment_concatenation() {
    // the persisted content after completion is the concatenation of the
    // fragments in delivery order
    let fragments: Vec<String> = ["a", "b", "c", "d", "e"].iter().map(|s| s.to_string()).collect();
    let arrivals = vec![0u64; 5];
    let run = run_stream(
        "c".to_string(),
        0,
        &fragments,
        &arrivals,
        AdapterEnd::Finished,
        None,
    );
    assert_eq!(run.accumulated, "abcde");
}

#[test]
fn checkpoints_are_time_gated_and_monotone() {
    // checkpoints happen at most every two seconds, and each snapshot
    // extends the previous one
    let fragments = vec!["Hel".to_string(), "lo".to_string(), " world".to_string()];
    let arrivals = vec![2000u64, 2500, 6000];
    let run = run_stream(
        "c".to_string(),
        0,
        &fragments,
        &arrivals,
        AdapterEnd::Finished,
        None,
    );
    assert_eq!(run.checkpoints, vec!["Hel".to_string(), "Hello world".to_string()]);
    for w in run.checkpoints.windows(2) {
        assert!(w[1].starts_with(w[0].as_str()));
    }
    for cp in &run.checkpoints {
        assert!(run.accumulated.starts_with(cp.as_str()));
    }
}

#[test]
fn checkpoint_failure_is_isolated() {
    // a failing checkpoint store write never feeds back into the session:
    // the stream still completes and the terminal event is still emitted
    let mut session = StreamSession::begin("c".to_string(), 0);
    let due = session.absorb_fragment("one", 5000);
    assert!(due);
    let content = session.checkpoint_content(5000);
    assert_eq!(content, "one");
    // the store write fails; the session is unaffected
    session.note_checkpoint_result(false);
    let due2 = session.absorb_fragment(" two", 5100);
    assert!(!due2);
    assert_eq!(session.accumulated, "one two");

    let fragments = vec!["x".to_string(), "y".to_string()];
    let arrivals = vec![3000u64, 9000];
    let run = run_stream(
        "c".to_string(),
        0,
        &fragments,
        &arrivals,
        AdapterEnd::Finished,
        None,
    );
    // every checkpoint write may fail and the trace is unchanged
    assert_eq!(run.checkpoints.len(), 2);
    assert!(matches!(run.events.last().unwrap(), StreamEventPayload::Done));
    assert!(matches!(run.outcome, StreamOutcome::Completed));
}

#[test]
fn cancellation_observed_at_end_keeps_all_fragments() {
    // the flag set during the last fragment's transit is seen by the final
    // poll: everything was emitted, the stream still resolves as cancelled
    let fragments = vec!["a".to_string(), "b".to_string()];
    let arrivals = vec![0u64, 0];
    let run = run_stream(
        "c".to_string(),
        0,
        &fragments,
        &arrivals,
        AdapterEnd::Finished,
        Some(2),
    );
    assert!(matches!(run.outcome, StreamOutcome::Cancelled));
    assert_eq!(run.accumulated, "ab");
    assert_eq!(run.events.len(), 3);
    assert!(matches!(run.events[2], StreamEventPayload::Cancelled));
}

#[test]
fn channel_name_is_conversation_scoped() {
    assert_eq!(stream_channel_name("conv-42"), "stream-chunk-conv-42");
}

#[test]
fn user_message_not_duplicated() {
    // a conversation that already ends in the same user message gets no
    // second copy
    let mut conv = fresh_conversation();
    conv.messages.push(Message {
        role: "user".to_string(),
        content: "hi".to_string(),
        timestamp: "ts0".to_string(),
        complete: true,
    });
    let added = conv.ensure_user_message("hi", "ts1");
    assert!(!added);
    assert_eq!(conv.messages.len(), 1);
    let added2 = conv.ensure_user_message("other", "ts2");
    assert!(added2);
    assert_eq!(conv.messages.len(), 2);
}

#[test]
fn checkpoint_without_incomplete_assistant_is_a_no_op() {
    let mut conv = fresh_conversation();
    conv.ensure_user_message("hi", "ts1");
    let applied = conv.apply_checkpoint("partial", "ts2");
    assert!(!applied);
    assert_eq!(conv.updated_at, "2024-01-01T00:00:00Z");
}

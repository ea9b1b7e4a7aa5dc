use panw_api_ollama::jsonrec::encode_chat_record;
use panw_api_ollama::security::{Assessment, SecurityClient, SecurityError};
use panw_api_ollama::stream::{create_blocked_response, OutChunk, SecurityAssessedStream, VerdictOutcome};
use panw_api_ollama::types::ScanResponse;

fn chat_chunk(content: &str) -> Vec<u8> {
    let quoted = serde_json::to_string(content).unwrap();
    format!("{{\"message\":{{\"content\":{}}},\"done\":false}}", quoted).into_bytes()
}

fn generate_chunk(content: &str) -> Vec<u8> {
    let quoted = serde_json::to_string(content).unwrap();
    format!("{{\"response\":{},\"done\":false}}", quoted).into_bytes()
}

fn client() -> SecurityClient {
    SecurityClient::new("https://inspector.example", "key", "profile", "app", "user")
}

fn safe_assessment() -> Assessment {
    client().process_scan_result(ScanResponse::default_safe_response()).unwrap()
}

fn blocking_assessment(tune: impl FnOnce(&mut ScanResponse)) -> Assessment {
    let mut scan = ScanResponse::default_safe_response();
    scan.category = "malicious".to_string();
    scan.action = "block".to_string();
    tune(&mut scan);
    client().process_scan_result(scan).unwrap()
}

fn response_stream() -> SecurityAssessedStream {
    SecurityAssessedStream::new("m".to_string(), false, true)
}

fn drain_raw(s: &mut SecurityAssessedStream) -> Vec<Vec<u8>> {
    let mut out = Vec::new();
    while let Some(chunk) = s.get_next_chunk() {
        match chunk {
            OutChunk::Raw(v) => out.push(v),
            OutChunk::Synthesized(_) => panic!("expected raw chunks only"),
        }
    }
    out
}

// Streaming allow: three short chunks never reach a trigger, the final
// inspection at upstream end covers them, and on the allow verdict all
// three are delivered unchanged, in receipt order.
#[test]
fn stream_allow_preserves_order() {
    let mut s = response_stream();
    let chunks = vec![chat_chunk("A. "), chat_chunk("B. "), chat_chunk("C.")];
    for c in &chunks {
        assert!(s.process_stream_chunk(c.clone()).is_none());
    }
    let env = s.process_stream_end().expect("unassessed content needs a final inspection");
    assert_eq!(env.response.as_deref(), Some("A. B. C."));
    assert_eq!(env.code_response, None);
    let outcome = s.process_assessment_result(Ok(safe_assessment()), "t0");
    assert!(matches!(outcome, VerdictOutcome::Released));
    assert!(s.process_stream_end().is_none());
    let delivered = drain_raw(&mut s);
    assert_eq!(delivered, chunks);
    assert!(s.is_drained());
}

// A sentence boundary past the length threshold triggers an inspection
// mid-stream, and a chunk arriving while it is in flight is held, not
// inspected separately: at most one inspection is in flight.
#[test]
fn boundary_trigger_and_single_inflight() {
    let mut s = response_stream();
    let c1 = chat_chunk("This is sentence one.");
    let env = s.process_stream_chunk(c1.clone()).expect("boundary trigger expected");
    assert_eq!(env.response.as_deref(), Some("This is sentence one."));
    let c2 = chat_chunk(" And more.");
    assert!(s.process_stream_chunk(c2.clone()).is_none());
    assert!(s.buffer.waiting_for_assessment);
    let outcome = s.process_assessment_result(Ok(safe_assessment()), "t0");
    assert!(matches!(outcome, VerdictOutcome::Released));
    let delivered = drain_raw(&mut s);
    assert_eq!(delivered, vec![c1, c2]);
}

// A run of boundary endings fires only once until an ordinary character
// resets the debounce.
#[test]
fn boundary_is_debounced() {
    let mut s = response_stream();
    assert!(s.process_stream_chunk(chat_chunk("abcdefghijklmnop.\n")).is_some());
    assert!(matches!(
        s.process_assessment_result(Ok(safe_assessment()), "t0"),
        VerdictOutcome::Released
    ));
    // Ends on a boundary and is long enough, but the debounce holds it back.
    assert!(s.process_stream_chunk(chat_chunk("qrstuvwxyzabcdef.\n")).is_none());
    // A non-boundary ending resets the debounce.
    assert!(s.process_stream_chunk(chat_chunk("x")).is_none());
    // The next boundary ending triggers again.
    assert!(s.process_stream_chunk(chat_chunk("ab.")).is_some());
}

// Streaming mid-response block: the verdict yields exactly one terminal
// envelope naming the detection, the held chunks are dropped, and nothing
// further is emitted.
#[test]
fn stream_block_is_terminal() {
    let mut s = response_stream();
    assert!(s.process_stream_chunk(chat_chunk("here is how to\n")).is_none());
    let env = s.process_stream_end().expect("final inspection expected");
    assert_eq!(env.response.as_deref(), Some("here is how to\n"));
    let a = blocking_assessment(|scan| scan.response_detected.toxic_content = true);
    match s.process_assessment_result(Ok(a), "t0") {
        VerdictOutcome::Blocked(rec) => {
            assert!(rec.starts_with("{\"model\":\"security-filter\",\"created_at\":\"t0\""));
            assert!(rec.ends_with("\"done\":true}"));
            assert!(rec.contains("Response contains harmful content"));
            let v: serde_json::Value = serde_json::from_str(&rec).unwrap();
            assert_eq!(v["done"].as_bool(), Some(true));
            assert_eq!(v["message"]["role"].as_str(), Some("assistant"));
        },
        other => panic!("expected a block, got {:?}", other),
    }
    assert!(s.buffer.blocked);
    assert!(s.get_next_chunk().is_none());
    assert!(s.get_next_chunk().is_none());
}

// A code fence broken across chunk boundaries is reassembled: the language
// tag is dropped, fence content goes to the code buffer, and the closing
// fence returns the parser to text and triggers one inspection whose
// envelope carries both fields.
#[test]
fn fence_crossing_chunk_boundary() {
    let mut s = response_stream();
    assert!(s.process_stream_chunk(chat_chunk("text ``")).is_none());
    assert!(s.process_stream_chunk(chat_chunk("`py\ncode\n``")).is_none());
    let env = s.process_stream_chunk(chat_chunk("` done")).expect("code-close trigger expected");
    assert_eq!(s.buffer.text_buffer, "text  done");
    assert_eq!(s.buffer.code_buffer, "code\n");
    assert!(!s.buffer.in_code_block);
    assert_eq!(env.response.as_deref(), Some("text  done"));
    assert_eq!(env.code_response.as_deref(), Some("code\n"));
}

// Inspector failure during streaming is degraded-open: the held chunks are
// released, no blocked envelope appears, and the stream goes on.
#[test]
fn inspector_rate_limit_releases_chunks() {
    let mut s = response_stream();
    let c1 = chat_chunk("This is sentence one.");
    assert!(s.process_stream_chunk(c1.clone()).is_some());
    let outcome = s.process_assessment_result(
        Err(SecurityError::RateLimited { retry_after: Some(5) }),
        "t0",
    );
    assert!(matches!(outcome, VerdictOutcome::DegradedReleased));
    assert!(!s.buffer.blocked);
    let delivered = drain_raw(&mut s);
    assert_eq!(delivered, vec![c1.clone()]);
    // The stream continues afterwards.
    let c2 = chat_chunk("more");
    assert!(s.process_stream_chunk(c2.clone()).is_none());
    assert!(s.process_stream_end().is_some());
    assert!(matches!(
        s.process_assessment_result(Ok(safe_assessment()), "t1"),
        VerdictOutcome::Released
    ));
    assert!(s.process_stream_end().is_none());
    assert_eq!(drain_raw(&mut s), vec![c2]);
    assert!(s.is_drained());
}

// A masked verdict replaces the whole held range with one synthesized
// record carrying the rewrite under the stream's wire shape.
#[test]
fn masked_verdict_substitutes_single_record() {
    let mut s = response_stream();
    assert!(s.process_stream_chunk(chat_chunk("My card is 41111111.")).is_some());
    let mut scan = ScanResponse::default_safe_response();
    scan.action = "mask".to_string();
    scan.response_masked_data.data = "My card is ****.".to_string();
    let a = client().process_scan_result(scan).unwrap();
    let outcome = s.process_assessment_result(Ok(a), "tm");
    assert!(matches!(outcome, VerdictOutcome::MaskedSubstituted));
    match s.get_next_chunk() {
        Some(OutChunk::Synthesized(rec)) => {
            assert_eq!(rec, encode_chat_record("m", "tm", "assistant", "My card is ****.", false));
        },
        other => panic!("expected the synthesized record, got {:?}", other),
    }
    assert!(s.get_next_chunk().is_none());
}

// A chunk that is not a wire record contributes nothing to the buffers but
// still reaches the client.
#[test]
fn unparseable_chunk_passes_through() {
    let mut s = response_stream();
    let raw = b"not a record".to_vec();
    assert!(s.process_stream_chunk(raw.clone()).is_none());
    assert_eq!(s.buffer.text_buffer, "");
    assert_eq!(s.buffer.code_buffer, "");
    assert!(s.process_stream_end().is_none());
    assert_eq!(drain_raw(&mut s), vec![raw]);
    assert!(s.is_drained());
}

// Generate-shaped streams read the `response` field and synthesize
// generate-shaped envelopes.
#[test]
fn generate_shape_is_supported() {
    let mut s = SecurityAssessedStream::new("g".to_string(), false, false);
    let env = s.process_stream_chunk(generate_chunk("hello world, ok.")).expect("trigger");
    assert_eq!(env.response.as_deref(), Some("hello world, ok."));
    let a = blocking_assessment(|scan| scan.response_detected.malicious_code = true);
    match s.process_assessment_result(Ok(a), "t0") {
        VerdictOutcome::Blocked(rec) => {
            assert!(rec.starts_with("{\"model\":\"security-filter\",\"created_at\":\"t0\",\"response\":"));
            assert!(!rec.contains("\"message\""));
        },
        other => panic!("expected a block, got {:?}", other),
    }
}

// The assessed watermarks only ever move forward.
#[test]
fn watermarks_are_monotonic() {
    let mut s = response_stream();
    let mut last_text = s.buffer.last_assessed_text_pos;
    let mut last_code = s.buffer.last_assessed_code_pos;
    let steps = vec![
        chat_chunk("First sentence, quite long."),
        chat_chunk("``"),
        chat_chunk("`\ncode line\n``"),
        chat_chunk("`tail"),
    ];
    for c in steps {
        if s.process_stream_chunk(c).is_some() {
            s.process_assessment_result(Ok(safe_assessment()), "t");
        }
        assert!(s.buffer.last_assessed_text_pos >= last_text);
        assert!(s.buffer.last_assessed_code_pos >= last_code);
        last_text = s.buffer.last_assessed_text_pos;
        last_code = s.buffer.last_assessed_code_pos;
    }
    if s.process_stream_end().is_some() {
        s.process_assessment_result(Ok(safe_assessment()), "t");
    }
    assert!(s.buffer.last_assessed_text_pos >= last_text);
    assert!(s.buffer.last_assessed_code_pos >= last_code);
}

// The record parser extracts the content field: the buffer holds the
// content, not the raw record text.
#[test]
fn parser_extracts_content_field() {
    let mut s = response_stream();
    assert!(s.process_stream_chunk(chat_chunk("hello")).is_none());
    assert_eq!(s.buffer.text_buffer, "hello");
}

// A closed fence with unassessed code triggers an inspection on its own.
#[test]
fn closed_fence_triggers_inspection() {
    let mut s = response_stream();
    let env = s.process_stream_chunk(chat_chunk("```\nx = 1\n``` ")).expect("code-close trigger");
    assert_eq!(env.code_response.as_deref(), Some("x = 1\n"));
}

// A prompt-direction stream puts the unassessed suffixes on the prompt
// side of its envelopes.
#[test]
fn prompt_direction_envelopes() {
    let mut s = SecurityAssessedStream::new("m".to_string(), true, true);
    let env = s.process_stream_chunk(chat_chunk("This is sentence one.")).expect("trigger");
    assert_eq!(env.prompt.as_deref(), Some("This is sentence one."));
    assert_eq!(env.response, None);
    assert_eq!(env.code_prompt, None);
    assert_eq!(env.code_response, None);
}

#[test]
fn blocked_response_record_shape() {
    let a = blocking_assessment(|scan| scan.prompt_detected.toxic_content = true);
    let rec = create_blocked_response(&a);
    assert!(rec.starts_with("{\"model\":\"security-filter\",\"created_at\":\""));
    assert!(rec.ends_with("\"done\":true}"));
    let v: serde_json::Value = serde_json::from_str(&rec).unwrap();
    assert_eq!(v["done"].as_bool(), Some(true));
    assert!(v["message"]["content"].as_str().unwrap().contains("Prompt contains harmful content"));
}

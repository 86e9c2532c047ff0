use h2_poll_traces::config::TraceConfig;
use h2_poll_traces::handler::HttpRequest;
use h2_poll_traces::pipeline::{TraceEvent, TracedServer};

fn plain_request() -> HttpRequest {
    HttpRequest {
        method: "GET".to_string(),
        path: "/anything".to_string(),
        headers: vec![],
        body: b"an arbitrary body".to_vec(),
    }
}

fn fixed_resource_attrs() -> Vec<(String, String)> {
    vec![("service.name".to_string(), "h2-poll-traces".to_string())]
}

#[test]
fn one_span_per_request() {
    let mut srv = TracedServer::new(TraceConfig::otlp_batch(), 10);
    let resp = srv.handle_traced(&plain_request());
    assert_eq!(resp.status, 200);
    assert!(resp.body.is_empty());
    assert_eq!(srv.pending.len(), 1);
    assert_eq!(srv.pending[0].name, "serve_req");
    assert_eq!(
        srv.events,
        vec![
            TraceEvent::SpanOpened,
            TraceEvent::HandlerReturned,
            TraceEvent::SpanClosed,
        ]
    );
}

#[test]
fn span_lifecycle_brackets_every_handler_call() {
    let mut srv = TracedServer::new(TraceConfig::otlp_batch(), 10);
    for _ in 0..3 {
        srv.handle_traced(&plain_request());
    }
    assert_eq!(srv.handled, 3);
    assert_eq!(srv.pending.len(), 3);
    assert_eq!(srv.events.len(), 9);
    for chunk in srv.events.chunks(3) {
        assert_eq!(
            chunk,
            &[
                TraceEvent::SpanOpened,
                TraceEvent::HandlerReturned,
                TraceEvent::SpanClosed,
            ]
        );
    }
}

#[test]
fn resource_identical_across_all_spans() {
    let mut srv = TracedServer::new(TraceConfig::otlp_batch(), 10);
    for _ in 0..3 {
        srv.handle_traced(&plain_request());
    }
    for span in &srv.pending {
        assert_eq!(span.resource, fixed_resource_attrs());
    }
    let sent = srv.flush_batch(true).unwrap();
    assert_eq!(sent.len(), 3);
    for span in &sent {
        assert_eq!(span.resource, fixed_resource_attrs());
    }
}

#[test]
fn export_failure_invisible_to_request_path() {
    let mut reached = TracedServer::new(TraceConfig::otlp_batch(), 10);
    let mut unreached = TracedServer::new(TraceConfig::otlp_batch(), 10);
    reached.handle_traced(&plain_request());
    unreached.handle_traced(&plain_request());

    let delivered = reached.flush_batch(true);
    let lost = unreached.flush_batch(false);
    assert!(delivered.is_some());
    assert!(lost.is_none());

    let ok = reached.handle_traced(&plain_request());
    let still_ok = unreached.handle_traced(&plain_request());
    assert_eq!(ok.status, 200);
    assert_eq!(still_ok.status, 200);
    assert_eq!(ok.status, still_ok.status);
    assert_eq!(ok.body, still_ok.body);
    assert_eq!(reached.events, unreached.events);
}

#[test]
fn hundred_requests_hundred_empty_ok_responses() {
    let mut srv = TracedServer::new(TraceConfig::otlp_batch(), 10);
    let mut responses = Vec::new();
    for _ in 0..100 {
        responses.push(srv.handle_traced(&plain_request()));
    }
    assert_eq!(responses.len(), 100);
    for resp in &responses {
        assert_eq!(resp.status, 200);
        assert!(resp.body.is_empty());
    }
    assert_eq!(srv.handled, 100);
    assert_eq!(srv.pending.len(), 100);
}

#[test]
fn spans_arrive_batched_not_one_by_one() {
    let mut srv = TracedServer::new(TraceConfig::otlp_batch(), 10);
    for _ in 0..100 {
        srv.handle_traced(&plain_request());
    }
    let mut collector: Vec<Vec<_>> = Vec::new();
    while !srv.pending.is_empty() {
        collector.push(srv.flush_batch(true).unwrap());
    }
    assert_eq!(collector.len(), 10);
    for batch in &collector {
        assert_eq!(batch.len(), 10);
    }
    let total: usize = collector.iter().map(|b| b.len()).sum();
    assert_eq!(total, 100);
}

#[test]
fn delivery_is_best_effort_when_collector_is_down() {
    let mut srv = TracedServer::new(TraceConfig::otlp_batch(), 10);
    for _ in 0..100 {
        srv.handle_traced(&plain_request());
    }
    let mut arrived: usize = 0;
    for attempt in 0..5 {
        let reachable = attempt % 2 == 0;
        match srv.flush_batch(reachable) {
            Some(batch) => arrived += batch.len(),
            None => {}
        }
    }
    // Five attempts drained five batches; only the delivered ones arrived,
    // and the rest of the buffer is dropped when the process exits.
    assert_eq!(arrived, 30);
    assert_eq!(srv.pending.len(), 50);
}

#[test]
fn partial_batch_flushes_oldest_spans_first() {
    let mut srv = TracedServer::new(TraceConfig::otlp_batch(), 2);
    for _ in 0..3 {
        srv.handle_traced(&plain_request());
    }
    let first = srv.flush_batch(true).unwrap();
    assert_eq!(first.len(), 2);
    assert_eq!(srv.pending.len(), 1);
    let second = srv.flush_batch(true).unwrap();
    assert_eq!(second.len(), 1);
    assert!(srv.pending.is_empty());
}

#[test]
fn flush_of_empty_buffer_changes_nothing() {
    let mut srv = TracedServer::new(TraceConfig::otlp_batch(), 10);
    let sent = srv.flush_batch(true).unwrap();
    assert!(sent.is_empty());
    assert!(srv.pending.is_empty());
    let lost = srv.flush_batch(false);
    assert!(lost.is_none());
    assert_eq!(srv.handled, 0);
    assert!(srv.events.is_empty());
}

#[test]
fn size_trigger_fires_at_a_full_batch() {
    let mut srv = TracedServer::new(TraceConfig::otlp_batch(), 3);
    assert!(!srv.flush_due());
    srv.handle_traced(&plain_request());
    srv.handle_traced(&plain_request());
    assert!(!srv.flush_due());
    srv.handle_traced(&plain_request());
    assert!(srv.flush_due());
}

//! The traced serving loop: one span per handled request, every span
//! carrying the fixed resource descriptor, finished spans buffered and
//! handed to the collector in batches by a background flush task whose
//! failures never reach the request path.

use vstd::prelude::*;
use vstd::string::StringExecFns;
use crate::config::{attrs_view, fixed_resource, resource_attributes, ConfigView, TraceConfig};
use crate::handler::{serve_req, spec_handle, HttpRequest, HttpResponse, ReqView, RespView};

verus! {

/// The span name the handler's instrumentation uses.
pub open spec fn handler_span_name() -> Seq<char> {
    "serve_req"@
}

/// A finished span: its name and the resource descriptor it carries.
pub struct SpanRecord {
    pub name: String,
    pub resource: Vec<(String, String)>,
}

/// The mathematical value of a finished span.
#[verifier::ext_equal]
pub struct SpanView {
    pub name: Seq<char>,
    pub resource: Seq<(Seq<char>, Seq<char>)>,
}

impl View for SpanRecord {
    type V = SpanView;

    open spec fn view(&self) -> SpanView {
        SpanView { name: self.name@, resource: attrs_view(self.resource@) }
    }
}

/// The mathematical values of a sequence of finished spans.
pub open spec fn spans_view(v: Seq<SpanRecord>) -> Seq<SpanView> {
    v.map_values(|s: SpanRecord| s@)
}

/// One step of a span's lifecycle, as the tracing layer observes it.
#[derive(Clone, Copy, PartialEq, Eq, Debug)]
pub enum TraceEvent {
    SpanOpened,
    HandlerReturned,
    SpanClosed,
}

/// The lifecycle events one handled request appends to the log: the span
/// is opened at handler entry and closed at handler return, so its
/// lifetime brackets the handler's execution.
pub open spec fn span_bracket() -> Seq<TraceEvent> {
    seq![TraceEvent::SpanOpened, TraceEvent::HandlerReturned, TraceEvent::SpanClosed]
}

/// The event log after `n` handled requests: `n` complete brackets.
pub open spec fn request_trace(n: nat) -> Seq<TraceEvent>
    decreases n,
{
    if n == 0 {
        Seq::empty()
    } else {
        request_trace((n - 1) as nat) + span_bracket()
    }
}

/// The mathematical value of the traced server's state.
#[verifier::ext_equal]
pub struct ServerView {
    pub config: ConfigView,
    pub max_batch: int,
    pub pending: Seq<SpanView>,
    pub events: Seq<TraceEvent>,
    pub handled: int,
}

impl ServerView {
    pub open spec fn wf(&self) -> bool {
        &&& self.config.wf()
        &&& 1 <= self.max_batch
        &&& 0 <= self.handled
        &&& forall|i: int|
            0 <= i < self.pending.len() ==> (#[trigger] self.pending[i]).name
                == handler_span_name()
        &&& forall|i: int|
            0 <= i < self.pending.len() ==> (#[trigger] self.pending[i]).resource
                == self.config.resource
        &&& self.events == request_trace(self.handled as nat)
    }
}

/// The span recorded for one handled request: named after the handler,
/// carrying the configured resource descriptor.
pub open spec fn spec_request_span(s: ServerView) -> SpanView {
    SpanView { name: handler_span_name(), resource: s.config.resource }
}

/// One handled request: the state after it and the response to it. The
/// buffer gains exactly one finished span; the log gains exactly one
/// opened-returned-closed bracket; the response is the empty success,
/// whatever the request and whatever the state.
pub open spec fn spec_handle_step(s: ServerView, req: ReqView) -> (ServerView, RespView) {
    (
        ServerView {
            config: s.config,
            max_batch: s.max_batch,
            pending: s.pending.push(spec_request_span(s)),
            events: s.events + span_bracket(),
            handled: s.handled + 1,
        },
        spec_handle(req),
    )
}

/// How many spans the next flush takes: a full batch, or what is left.
pub open spec fn spec_batch_len(s: ServerView) -> int {
    if s.pending.len() <= s.max_batch {
        s.pending.len() as int
    } else {
        s.max_batch
    }
}

/// One flush attempt by the background export task. `reachable` says
/// whether the collector answered. The batch leaves the buffer either way:
/// a failed attempt is swallowed and its spans are lost (best-effort
/// delivery), and nothing else of the state changes.
pub open spec fn spec_flush_step(s: ServerView, reachable: bool) -> (
    ServerView,
    Option<Seq<SpanView>>,
) {
    (
        ServerView {
            config: s.config,
            max_batch: s.max_batch,
            pending: s.pending.subrange(spec_batch_len(s), s.pending.len() as int),
            events: s.events,
            handled: s.handled,
        },
        if reachable {
            Some(s.pending.subrange(0, spec_batch_len(s)))
        } else {
            None
        },
    )
}

/// A handle step keeps the server well formed.
pub proof fn lemma_handle_preserves_wf(s: ServerView, req: ReqView)
    requires
        s.wf(),
    ensures
        spec_handle_step(s, req).0.wf(),
{
    let t = spec_handle_step(s, req).0;
    assert(request_trace(t.handled as nat) == request_trace(s.handled as nat) + span_bracket());
    assert(t.events == request_trace(t.handled as nat));
}

/// A flush attempt keeps the server well formed, whether or not the
/// collector could be reached.
pub proof fn lemma_flush_preserves_wf(s: ServerView, reachable: bool)
    requires
        s.wf(),
    ensures
        spec_flush_step(s, reachable).0.wf(),
{
}

/// Exactly one span per handled request: a handle step appends exactly one
/// finished span to the batch buffer — the span of this request — and
/// exactly one complete lifecycle bracket to the event log: the span is
/// created at handler entry and closed at handler return.
pub proof fn lemma_one_span_per_request(s: ServerView, req: ReqView)
    ensures
        spec_handle_step(s, req).0.pending == s.pending.push(spec_request_span(s)),
        spec_handle_step(s, req).0.events == s.events + span_bracket(),
        spec_handle_step(s, req).0.handled == s.handled + 1,
{
}

/// Every span the pipeline holds carries the same resource descriptor,
/// and it is the fixed configured set.
pub proof fn lemma_resource_uniform(s: ServerView, i: int, j: int)
    requires
        s.wf(),
        0 <= i < s.pending.len(),
        0 <= j < s.pending.len(),
    ensures
        s.pending[i].resource == s.pending[j].resource,
        s.pending[i].resource == fixed_resource(),
{
}

/// Every span a successful flush delivers carries the fixed resource
/// descriptor.
pub proof fn lemma_exported_resource_uniform(s: ServerView, k: int)
    requires
        s.wf(),
        0 <= k < spec_batch_len(s),
    ensures
        spec_flush_step(s, true).1 == Some(s.pending.subrange(0, spec_batch_len(s))),
        s.pending.subrange(0, spec_batch_len(s))[k].resource == fixed_resource(),
{
}

/// A successful flush hands the oldest spans — at most one batch — to the
/// collector and keeps the rest, losing and duplicating nothing.
pub proof fn lemma_flush_conserves_spans(s: ServerView)
    requires
        s.wf(),
    ensures
        spec_batch_len(s) <= s.max_batch,
        spec_flush_step(s, true).1 == Some(s.pending.subrange(0, spec_batch_len(s))),
        s.pending.subrange(0, spec_batch_len(s)) + spec_flush_step(s, true).0.pending
            == s.pending,
{
    assert(s.pending.subrange(0, spec_batch_len(s)) + spec_flush_step(s, true).0.pending =~= s
        .pending);
}

/// An unreachable collector is invisible to the request path: a flush
/// attempt, failed or delivered, leaves the server well formed, and the
/// next request's response is the same empty success either way.
pub proof fn lemma_export_failure_harmless(s: ServerView, req: ReqView)
    requires
        s.wf(),
    ensures
        spec_flush_step(s, false).0.wf(),
        spec_flush_step(s, true).0.wf(),
        spec_handle_step(spec_flush_step(s, false).0, req).1 == spec_handle_step(
            spec_flush_step(s, true).0,
            req,
        ).1,
        spec_handle_step(s, req).1 == spec_handle(req),
{
    lemma_flush_preserves_wf(s, false);
    lemma_flush_preserves_wf(s, true);
}

/// The traced server: the fixed configuration, the batch processor's
/// buffer of finished spans, the span lifecycle log, and how many requests
/// have been handled.
pub struct TracedServer {
    pub config: TraceConfig,
    pub max_batch: usize,
    pub pending: Vec<SpanRecord>,
    pub events: Vec<TraceEvent>,
    pub handled: usize,
}

impl View for TracedServer {
    type V = ServerView;

    open spec fn view(&self) -> ServerView {
        ServerView {
            config: self.config@,
            max_batch: self.max_batch as int,
            pending: spans_view(self.pending@),
            events: self.events@,
            handled: self.handled as int,
        }
    }
}

impl TracedServer {
    /// Start the traced serving loop: the given configuration, an empty
    /// span buffer, an empty event log, no request handled yet.
    pub fn new(config: TraceConfig, max_batch: usize) -> (s: TracedServer)
        requires
            config@.wf(),
            1 <= max_batch,
        ensures
            s@.wf(),
            s@.config == config@,
            s@.max_batch == max_batch as int,
            s@.pending == Seq::<SpanView>::empty(),
            s@.events == Seq::<TraceEvent>::empty(),
            s@.handled == 0,
    {
        let s = TracedServer {
            config,
            max_batch,
            pending: Vec::new(),
            events: Vec::new(),
            handled: 0,
        };
        proof {
            assert(s@.pending =~= Seq::<SpanView>::empty());
        }
        s
    }

    /// Handle one request under instrumentation: open the span, run the
    /// handler, close the span, queue it for export. The response is the
    /// empty success; the buffer gains exactly this request's span.
    pub fn handle_traced(&mut self, req: &HttpRequest) -> (r: HttpResponse)
        requires
            old(self)@.wf(),
            old(self).handled < usize::MAX,
        ensures
            final(self)@.wf(),
            final(self)@ == spec_handle_step(old(self)@, req@).0,
            r@ == spec_handle_step(old(self)@, req@).1,
            r.status == 200,
            r.body@ == Seq::<u8>::empty(),
    {
        self.events.push(TraceEvent::SpanOpened);
        let r = serve_req(req);
        self.events.push(TraceEvent::HandlerReturned);
        self.events.push(TraceEvent::SpanClosed);
        let span = SpanRecord {
            name: String::from_str("serve_req"),
            resource: resource_attributes(),
        };
        self.pending.push(span);
        self.handled = self.handled + 1;
        proof {
            assert(self@.pending =~= spec_handle_step(old(self)@, req@).0.pending);
            assert(self@.events =~= spec_handle_step(old(self)@, req@).0.events);
            assert(self@ =~= spec_handle_step(old(self)@, req@).0);
            lemma_handle_preserves_wf(old(self)@, req@);
        }
        r
    }

    /// Whether the batch processor's size trigger has been reached.
    pub fn flush_due(&self) -> (b: bool)
        ensures
            b == (self@.pending.len() >= self@.max_batch),
    {
        self.pending.len() >= self.max_batch
    }

    /// One flush attempt by the background export task: take the oldest
    /// spans — at most one batch — out of the buffer and hand them to the
    /// collector. `reachable` reports the collector's availability; on
    /// failure the batch is dropped silently and nothing is returned.
    pub fn flush_batch(&mut self, reachable: bool) -> (sent: Option<Vec<SpanRecord>>)
        requires
            old(self)@.wf(),
        ensures
            final(self)@.wf(),
            final(self)@ == spec_flush_step(old(self)@, reachable).0,
            reachable <==> sent is Some,
            sent matches Some(batch) ==> Some(spans_view(batch@)) == spec_flush_step(
                old(self)@,
                reachable,
            ).1,
    {
        let ghost pre = *self;
        let ghost orig = self.pending@;
        let n = if self.pending.len() < self.max_batch {
            self.pending.len()
        } else {
            self.max_batch
        };
        let mut batch: Vec<SpanRecord> = Vec::new();
        let mut i: usize = 0;
        while i < n
            invariant
                self.config == pre.config,
                self.max_batch == pre.max_batch,
                self.events == pre.events,
                self.handled == pre.handled,
                i <= n,
                n <= orig.len(),
                self.pending@.len() == orig.len() - i,
                forall|j: int|
                    0 <= j < self.pending@.len() ==> self.pending@[j] == orig[i + j],
                batch@.len() == i,
                forall|j: int| 0 <= j < i ==> batch@[j] == orig[j],
            decreases n - i,
        {
            let s = self.pending.remove(0);
            batch.push(s);
            i = i + 1;
        }
        proof {
            assert(n as int == spec_batch_len(old(self)@));
            assert(self.pending@ =~= orig.subrange(n as int, orig.len() as int));
            assert(batch@ =~= orig.subrange(0, n as int));
            assert(spans_view(self.pending@) =~= old(self)@.pending.subrange(
                n as int,
                old(self)@.pending.len() as int,
            ));
            assert(spans_view(batch@) =~= old(self)@.pending.subrange(0, n as int));
            assert(self@ =~= spec_flush_step(old(self)@, reachable).0);
            lemma_flush_preserves_wf(old(self)@, reachable);
        }
        if reachable {
            Some(batch)
        } else {
            None
        }
    }
}

} // verus!

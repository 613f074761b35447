//! The batch executor: a FIFO queue of pending request descriptors, a window
//! limit, and the pass that dispatches one window and advances the queue.
//!
//! The executor owns the queue exclusively (`&mut self` covers every append,
//! prefix read and prefix removal, so the three are linearizable with respect
//! to each other), and the transport client is shared read-only by the calls
//! of a window.

use vstd::prelude::*;

use crate::request::{dispatch_view, Request};
use crate::transport::{
    new_transport_client, send_descriptor, HttpError, HttpErrorKind, HttpResponse,
};

verus! {

/// Configuration for [`RollingRequests`].
#[derive(Clone, Copy, Debug)]
pub struct RollingRequestsConfig {
    /// The maximum number of requests one pass dispatches; positive.
    pub simultaneous_limit: usize,
    /// The transport timeout for each call, in milliseconds.
    pub timeout_ms: u64,
    /// Whether the transport is restricted to HTTP/2.
    pub force_http2: bool,
    /// Whether a pass removes the descriptors it dispatched itself, or
    /// leaves them for an explicit [`RollingRequests::advance`].
    pub auto_advance: bool,
}

impl Default for RollingRequestsConfig {
    /// The default configuration: one request at a time, a thirty second
    /// timeout, no protocol forcing, automatic advancement.
    fn default() -> (c: Self)
        ensures
            c.simultaneous_limit == 1,
            c.timeout_ms == 30_000,
            !c.force_http2,
            c.auto_advance,
    {
        RollingRequestsConfig {
            simultaneous_limit: 1,
            timeout_ms: 30_000,
            force_http2: false,
            auto_advance: true,
        }
    }
}

/// Builder for [`RollingRequests`].
pub struct RollingRequestsBuilder {
    config: RollingRequestsConfig,
}

impl View for RollingRequestsBuilder {
    type V = RollingRequestsConfig;

    closed spec fn view(&self) -> RollingRequestsConfig {
        self.config
    }
}

impl RollingRequestsBuilder {
    /// Creates a new builder with the default configuration.
    pub fn new() -> (b: Self)
        ensures
            b@.simultaneous_limit == 1,
            b@.timeout_ms == 30_000,
            !b@.force_http2,
            b@.auto_advance,
    {
        RollingRequestsBuilder { config: RollingRequestsConfig::default() }
    }

    /// Sets the simultaneous request limit; it must be positive.
    pub fn simultaneous_limit(self, limit: usize) -> (b: Self)
        requires
            limit >= 1,
        ensures
            b@ == (RollingRequestsConfig { simultaneous_limit: limit, ..self@ }),
    {
        RollingRequestsBuilder {
            config: RollingRequestsConfig { simultaneous_limit: limit, ..self.config },
        }
    }

    /// Sets the per-request timeout, in milliseconds.
    pub fn timeout(self, timeout_ms: u64) -> (b: Self)
        ensures
            b@ == (RollingRequestsConfig { timeout_ms: timeout_ms, ..self@ }),
    {
        RollingRequestsBuilder {
            config: RollingRequestsConfig { timeout_ms, ..self.config },
        }
    }

    /// Forces the use of HTTP/2 for requests.
    pub fn force_http2(self, force: bool) -> (b: Self)
        ensures
            b@ == (RollingRequestsConfig { force_http2: force, ..self@ }),
    {
        RollingRequestsBuilder {
            config: RollingRequestsConfig { force_http2: force, ..self.config },
        }
    }

    /// Chooses between automatic advancement (a pass removes what it
    /// dispatched) and manual advancement (the queue is untouched until
    /// [`RollingRequests::advance`] is called).
    pub fn auto_advance(self, auto: bool) -> (b: Self)
        ensures
            b@ == (RollingRequestsConfig { auto_advance: auto, ..self@ }),
    {
        RollingRequestsBuilder {
            config: RollingRequestsConfig { auto_advance: auto, ..self.config },
        }
    }

    /// Builds the [`RollingRequests`] instance. Fails only where the
    /// transport client itself cannot be built.
    pub fn build(self) -> (r: Result<RollingRequests, HttpError>)
        requires
            self@.simultaneous_limit >= 1,
        ensures
            r matches Ok(rr) ==> rr@ == (RollingView {
                limit: self@.simultaneous_limit as int,
                queue: Seq::empty(),
                auto_advance: self@.auto_advance,
            }),
            r matches Err(e) ==> e.kind == HttpErrorKind::Build,
    {
        RollingRequests::new(self.config)
    }
}

/// The abstract state of a [`RollingRequests`] executor.
#[verifier::ext_equal]
pub ghost struct RollingView {
    /// The window limit; positive.
    pub limit: int,
    /// The pending descriptors, head first.
    pub queue: Seq<Request>,
    /// Whether a pass advances the queue itself.
    pub auto_advance: bool,
}

/// The outcome produced for one dispatched descriptor: the dispatch copy of
/// the descriptor it belongs to, and the transported response or the error.
#[derive(Debug)]
pub struct RequestOutcome {
    /// The descriptor this outcome answers, as dispatched.
    pub request: Request,
    /// The success payload, or the per-request error.
    pub result: Result<HttpResponse, HttpError>,
}

/// The size of the window one pass dispatches: the whole queue where it is
/// shorter than the limit, the limit otherwise.
pub open spec fn window_len(limit: int, pending: int) -> int {
    if pending <= limit {
        pending
    } else {
        limit
    }
}

/// A struct to manage and execute HTTP requests with a concurrency limit.
pub struct RollingRequests {
    /// The maximum number of requests one pass dispatches.
    simultaneous_limit: usize,
    /// The pending descriptors, head first.
    pending_requests: Vec<Request>,
    /// The HTTP client used to send requests; shared read-only by the calls
    /// of a window.
    client: reqwest::blocking::Client,
    /// Whether a pass removes the descriptors it dispatched itself.
    auto_advance: bool,
}

impl View for RollingRequests {
    type V = RollingView;

    closed spec fn view(&self) -> RollingView {
        RollingView {
            limit: self.simultaneous_limit as int,
            queue: self.pending_requests@,
            auto_advance: self.auto_advance,
        }
    }
}

impl RollingRequests {
    /// Creates a new `RollingRequests` executor with the specified
    /// configuration: an empty queue and a transport client built with the
    /// configured timeout and protocol choice. Fails only where the
    /// transport client itself cannot be built.
    pub fn new(config: RollingRequestsConfig) -> (r: Result<Self, HttpError>)
        requires
            config.simultaneous_limit >= 1,
        ensures
            r matches Ok(rr) ==> rr@ == (RollingView {
                limit: config.simultaneous_limit as int,
                queue: Seq::empty(),
                auto_advance: config.auto_advance,
            }),
            r matches Err(e) ==> e.kind == HttpErrorKind::Build,
    {
        match new_transport_client(config.timeout_ms, config.force_http2) {
            Ok(client) => Ok(
                RollingRequests {
                    simultaneous_limit: config.simultaneous_limit,
                    pending_requests: Vec::new(),
                    client,
                    auto_advance: config.auto_advance,
                },
            ),
            Err(e) => Err(e),
        }
    }

    /// Appends a request to the tail of the pending queue. Never fails; the
    /// queue grows by exactly this one entry.
    pub fn add_request(&mut self, request: Request)
        ensures
            final(self)@ == (RollingView { queue: old(self)@.queue.push(request), ..old(self)@ }),
    {
        self.pending_requests.push(request);
    }

    /// The number of descriptors waiting in the queue.
    pub fn pending_count(&self) -> (n: usize)
        ensures
            n == self@.queue.len(),
    {
        self.pending_requests.len()
    }

    /// The configured window limit.
    pub fn get_simultaneous_limit(&self) -> (n: usize)
        ensures
            n == self@.limit,
    {
        self.simultaneous_limit
    }

    /// Whether a pass advances the queue itself.
    pub fn is_auto_advance(&self) -> (b: bool)
        ensures
            b == self@.auto_advance,
    {
        self.auto_advance
    }

    /// Copies the window the next pass would dispatch: the first
    /// `min(limit, queue.len())` descriptors from the head of the queue, in
    /// queue order, without removing them. Each entry is the descriptor's
    /// dispatch copy.
    pub fn pending_window(&self) -> (w: Vec<Request>)
        ensures
            w@.len() == window_len(self@.limit, self@.queue.len() as int),
            forall|i: int|
                0 <= i < w@.len() ==> (#[trigger] w@[i])@ == dispatch_view(self@.queue[i]@),
    {
        let len = self.pending_requests.len();
        let count = if len < self.simultaneous_limit {
            len
        } else {
            self.simultaneous_limit
        };
        let mut w: Vec<Request> = Vec::new();
        let mut i: usize = 0;
        while i < count
            invariant
                i <= count,
                count == window_len(self@.limit, self@.queue.len() as int),
                count <= self@.queue.len(),
                w@.len() == i,
                forall|j: int|
                    0 <= j < i ==> (#[trigger] w@[j])@ == dispatch_view(self@.queue[j]@),
            decreases count - i,
        {
            let copy = self.pending_requests[i].dispatch_clone();
            w.push(copy);
            i += 1;
        }
        w
    }

    /// Removes `count` descriptors from the head of the queue: the explicit
    /// advancement past a window that was already executed. The caller must
    /// not remove more than exist.
    pub fn advance(&mut self, count: usize)
        requires
            count <= old(self)@.queue.len(),
        ensures
            final(self)@ == (RollingView {
                queue: old(self)@.queue.skip(count as int),
                ..old(self)@
            }),
    {
        let rest = self.pending_requests.split_off(count);
        self.pending_requests = rest;
        proof {
            assert(old(self)@.queue.skip(count as int) =~= old(self)@.queue.subrange(
                count as int,
                old(self)@.queue.len() as int,
            ));
        }
    }

    /// Executes one window of pending requests: dispatches the first
    /// `min(limit, queue.len())` descriptors from the head of the queue, one
    /// call after another, and returns exactly one outcome per dispatched
    /// descriptor, in queue order. An empty queue yields an empty pass, which
    /// is not an error; one descriptor's failure never disturbs its siblings'
    /// slots, and every error in a slot is a per-request failure, never one
    /// of the construction class. With automatic advancement the dispatched
    /// prefix — failed calls included — is removed; with manual advancement
    /// the queue is untouched until [`Self::advance`] is called.
    ///
    /// This dispatch issues the calls sequentially and must not run inside an
    /// async runtime (the blocking transport refuses that context); the
    /// embedding application's concurrent driver fans a window out on tasks
    /// instead.
    pub fn execute_requests(&mut self) -> (outcomes: Vec<RequestOutcome>)
        ensures
            outcomes@.len() == window_len(old(self)@.limit, old(self)@.queue.len() as int),
            forall|i: int|
                0 <= i < outcomes@.len() ==> (#[trigger] outcomes@[i]).request@ == dispatch_view(
                    old(self)@.queue[i]@,
                ),
            forall|i: int|
                0 <= i < outcomes@.len() ==> ((#[trigger] outcomes@[i]).result matches Err(e)
                    ==> e.kind != HttpErrorKind::Build),
            old(self)@.auto_advance ==> final(self)@ == (RollingView {
                queue: old(self)@.queue.skip(outcomes@.len() as int),
                ..old(self)@
            }),
            !old(self)@.auto_advance ==> final(self)@ == old(self)@,
    {
        let len = self.pending_requests.len();
        let count = if len < self.simultaneous_limit {
            len
        } else {
            self.simultaneous_limit
        };
        let mut outcomes: Vec<RequestOutcome> = Vec::new();
        let mut i: usize = 0;
        while i < count
            invariant
                i <= count,
                count == window_len(old(self)@.limit, old(self)@.queue.len() as int),
                count <= self@.queue.len(),
                self@ == old(self)@,
                outcomes@.len() == i,
                forall|j: int|
                    0 <= j < i ==> (#[trigger] outcomes@[j]).request@ == dispatch_view(
                        old(self)@.queue[j]@,
                    ),
                forall|j: int|
                    0 <= j < i ==> ((#[trigger] outcomes@[j]).result matches Err(e) ==> e.kind
                        != HttpErrorKind::Build),
            decreases count - i,
        {
            let req = self.pending_requests[i].dispatch_clone();
            let result = send_descriptor(&self.client, &req);
            outcomes.push(RequestOutcome { request: req, result });
            i += 1;
        }
        if self.auto_advance {
            self.advance(count);
        }
        outcomes
    }
}

/// The descriptors a full drain dispatches: window after window, each pass
/// taking `window_len` descriptors from the head and the next pass starting
/// from the rest, until the queue is empty.
pub open spec fn drain_windows(queue: Seq<Request>, limit: int) -> Seq<Request>
    decreases queue.len()
    when limit >= 1
{
    if queue.len() == 0 {
        Seq::empty()
    } else {
        let k = window_len(limit, queue.len() as int);
        queue.take(k) + drain_windows(queue.skip(k), limit)
    }
}

/// Idempotent draining: repeatedly executing a window and advancing past it,
/// until the queue is empty, dispatches every enqueued descriptor exactly
/// once — the windows concatenate back to the queue itself, and in queue
/// order, so the total number of outcomes over a full drain equals the
/// number of descriptors enqueued.
pub proof fn lemma_drain_windows_exact(queue: Seq<Request>, limit: int)
    requires
        limit >= 1,
    ensures
        drain_windows(queue, limit) == queue,
    decreases queue.len(),
{
    if queue.len() == 0 {
        assert(drain_windows(queue, limit) =~= queue);
    } else {
        let k = window_len(limit, queue.len() as int);
        lemma_drain_windows_exact(queue.skip(k), limit);
        assert(queue.take(k) + queue.skip(k) =~= queue);
    }
}

} // verus!

//! Per-request tracing: a fresh trace id on the way in, one completion
//! record on the way out.
use vstd::prelude::*;

use crate::ids::{fresh_id, id_text, uuid_text};

verus! {

/// The logging layer's configuration; it has none.
#[derive(Clone, Default)]
pub struct RequestLogging;

impl RequestLogging {
    /// The logging layer around `service`.
    pub fn new_transform<S>(&self, service: S) -> (r: RequestLoggingMiddleware<S>)
        ensures
            r.service == service,
    {
        RequestLoggingMiddleware { service }
    }
}

/// The logging layer around a service.
pub struct RequestLoggingMiddleware<S> {
    pub service: S,
}

/// What a request carries while it is handled: its trace id.
pub struct TraceContext {
    pub trace_id: u128,
}

/// The one record written when a request is done.
pub struct CompletionRecord {
    pub method: String,
    pub path: String,
    pub status: u16,
    pub duration_ms: u128,
    /// The trace id, hyphenated.
    pub trace_id: String,
}

impl<S> RequestLoggingMiddleware<S> {
    /// A fresh trace context for a request that comes in.
    pub fn start(&self) -> (r: TraceContext) {
        TraceContext { trace_id: fresh_id() }
    }

    /// The completion record of a request, from what the transport measured.
    pub fn finish(
        &self,
        trace: &TraceContext,
        method: String,
        path: String,
        status: u16,
        duration_ms: u128,
    ) -> (r: CompletionRecord)
        ensures
            r.method == method,
            r.path == path,
            r.status == status,
            r.duration_ms == duration_ms,
            r.trace_id@ == uuid_text(trace.trace_id),
    {
        CompletionRecord { method, path, status, duration_ms, trace_id: id_text(trace.trace_id) }
    }
}

} // verus!

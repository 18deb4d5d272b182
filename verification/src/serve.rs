//! Serving: what is observed of a request, what the access log shows of a
//! connection, and what the listeners do next.

use std::time::Duration;

use vstd::prelude::*;

use crate::health::{Probe, ReadyReport};
use crate::proxy;
use crate::proxy::{classify_request, RequestHead};
use crate::text;

verus! {

/// The paths that health checks and scrapers hit every few seconds.
pub open spec fn probe_paths() -> Set<Seq<char>> {
    set!["/livez"@, "/readyz"@, "/healthz"@, "/metrics"@]
}

/// Whether a path is left out of the access log and of the request metrics.
pub fn is_probe_path(path: &str) -> (r: bool)
    ensures
        r == probe_paths().contains(path@),
{
    text::str_eq(path, "/livez") || text::str_eq(path, "/readyz") || text::str_eq(path, "/healthz")
        || text::str_eq(path, "/metrics")
}

/// What is kept of a request for its span, its metrics and its log line.
#[derive(Debug)]
pub struct Observation {
    pub method: String,
    /// Empty where neither a log line nor a span will show it.
    pub path: String,
    pub upstream: &'static str,
    pub proto: &'static str,
}

/// What is kept of a request; nothing of one on a probe path.
pub fn observe(req: &RequestHead, show_path: bool) -> (r: Option<Observation>)
    ensures
        (r is None) == probe_paths().contains(req.path@),
        r matches Some(o) ==> {
            &&& o.method@ == req.method@
            &&& o.path@ == (if show_path {
                req.path@
            } else {
                Seq::empty()
            })
            &&& (o.upstream@, o.proto@) == proxy::class_of(*req)
        },
{
    if is_probe_path(req.path.as_str()) {
        return None;
    }
    let class = classify_request(req);
    proof {
        reveal_strlit("");
        assert(""@ =~= Seq::<char>::empty());
    }
    Some(
        Observation {
            method: req.method.clone(),
            path: if show_path {
                req.path.clone()
            } else {
                "".to_owned()
            },
            upstream: class.0,
            proto: class.1,
        },
    )
}

// ---- the access log ----

/// The access log of one connection: one line at most, for its first request that
/// is not a probe.
#[derive(Debug, Clone, Copy, PartialEq, Eq, Structural)]
pub struct AccessLog {
    pub enabled: bool,
    pub written: bool,
}

impl AccessLog {
    pub fn new(enabled: bool) -> (r: AccessLog)
        ensures
            r.enabled == enabled,
            !r.written,
    {
        AccessLog { enabled, written: false }
    }

    /// Whether a request for `path` is the one that is logged.
    pub open spec fn logs(self, path: Seq<char>) -> bool {
        self.enabled && !self.written && !probe_paths().contains(path)
    }

    /// The log after a request for `path`.
    pub open spec fn after(self, path: Seq<char>) -> AccessLog {
        AccessLog { enabled: self.enabled, written: self.written || self.logs(path) }
    }

    /// Takes a request in: whether it is logged.
    pub fn record(&mut self, path: &str) -> (r: bool)
        ensures
            r == old(self).logs(path@),
            *final(self) == old(self).after(path@),
    {
        let log = self.enabled && !self.written && !is_probe_path(path);
        if log {
            self.written = true;
        }
        log
    }
}

/// The access log of a connection after requests for these paths, in order.
pub open spec fn access_log_after(enabled: bool, paths: Seq<Seq<char>>) -> AccessLog
    decreases paths.len(),
{
    if paths.len() == 0 {
        AccessLog { enabled, written: false }
    } else {
        access_log_after(enabled, paths.drop_last()).after(paths.last())
    }
}

/// Whether the `i`-th request of a connection is logged.
pub open spec fn access_logged(enabled: bool, paths: Seq<Seq<char>>, i: int) -> bool {
    access_log_after(enabled, paths.take(i)).logs(paths[i])
}

proof fn lemma_access_log_written(enabled: bool, paths: Seq<Seq<char>>, n: int)
    requires
        0 <= n <= paths.len(),
    ensures
        access_log_after(enabled, paths.take(n)).enabled == enabled,
        access_log_after(enabled, paths.take(n)).written == (enabled && exists|j: int|
            0 <= j < n && !probe_paths().contains(#[trigger] paths[j])),
    decreases n,
{
    if n > 0 {
        lemma_access_log_written(enabled, paths, n - 1);
        assert(paths.take(n).drop_last() =~= paths.take(n - 1));
        assert(paths.take(n).last() == paths[n - 1]);
    }
}

/// With the access log on, a connection has a line for exactly the first of its
/// requests that is not a probe; with it off, it has none.
pub proof fn law_one_access_line_per_connection(enabled: bool, paths: Seq<Seq<char>>, i: int)
    requires
        0 <= i < paths.len(),
    ensures
        access_logged(enabled, paths, i) == (enabled && !probe_paths().contains(paths[i])
            && forall|j: int| 0 <= j < i ==> probe_paths().contains(#[trigger] paths[j])),
{
    lemma_access_log_written(enabled, paths, i);
}

// ---- upstream metrics ----

/// The values of the upstream gauges. A peer count that is not known shows as zero.
#[derive(Debug, Clone, Copy, PartialEq, Eq, Structural)]
pub struct UpstreamGauges {
    pub el_up: bool,
    pub cl_up: bool,
    pub el_peers: u64,
    pub cl_peers: u64,
}

/// The gauges after a poll: each layer's sync verdict and its peer count.
pub fn update_metrics(probe: &Probe, report: &ReadyReport) -> (r: UpstreamGauges)
    ensures
        r.el_up == report.el_syncing.ok,
        r.cl_up == report.cl_syncing.ok,
        r.el_peers == (match probe.el_peers {
            Ok(hex) => match text::hex_value(hex@) {
                Some(n) => n,
                None => 0,
            },
            Err(_) => 0,
        }),
        r.cl_peers == (match probe.cl_peers {
            Ok(n) => n,
            Err(_) => 0,
        }),
{
    let el_peers = match &probe.el_peers {
        Ok(hex) => match text::hex_to_u64(hex.as_str()) {
            Some(n) => n,
            None => 0,
        },
        Err(_) => 0,
    };
    let cl_peers = match &probe.cl_peers {
        Ok(n) => *n,
        Err(_) => 0,
    };
    UpstreamGauges { el_up: report.el_syncing.ok, cl_up: report.cl_syncing.ok, el_peers, cl_peers }
}

/// How a gauge is exported: by its value, or by the sum of its changes.
#[derive(Debug, Clone, Copy, PartialEq, Eq, Structural)]
pub enum GaugeBackend {
    Gauge,
    UpDown,
}

/// The count of open connections is only ever moved up and down; every other gauge is set.
pub fn gauge_backend(name: &str) -> (r: GaugeBackend)
    ensures
        r == (if name@ == "ethryx_active_connections"@ {
            GaugeBackend::UpDown
        } else {
            GaugeBackend::Gauge
        }),
{
    if text::str_eq(name, "ethryx_active_connections") {
        GaugeBackend::UpDown
    } else {
        GaugeBackend::Gauge
    }
}

// ---- lifecycle ----

/// The name that the startup line gives to the EL transport.
pub fn el_protocol_name(use_h2: bool) -> (r: &'static str)
    ensures
        r@ == (if use_h2 {
            "HTTP/2 (h2c)"@
        } else {
            "HTTP/1.1"@
        }),
{
    if use_h2 {
        "HTTP/2 (h2c)"
    } else {
        "HTTP/1.1"
    }
}

/// How long a listener pauses after a failed `accept`, in nanoseconds.
pub const ACCEPT_BACKOFF_NANOS: u32 = 100_000_000;

/// What happened to a listener.
#[derive(Debug, Clone, Copy, PartialEq, Eq, Structural)]
pub enum AcceptEvent {
    Shutdown,
    Accepted,
    Failed,
}

/// What a listener does next.
#[derive(Debug, PartialEq, Eq)]
pub enum AcceptAction {
    Stop,
    Serve,
    /// Pause for this long before the next `accept`.
    BackOff(Duration),
}

/// A failed `accept` is followed by a pause, so that an error that persists does
/// not keep a core busy.
pub fn accept_loop(event: AcceptEvent) -> (r: AcceptAction)
    ensures
        r == (match event {
            AcceptEvent::Shutdown => AcceptAction::Stop,
            AcceptEvent::Accepted => AcceptAction::Serve,
            AcceptEvent::Failed => AcceptAction::BackOff(
                crate::time::duration_of(0, ACCEPT_BACKOFF_NANOS),
            ),
        }),
{
    match event {
        AcceptEvent::Shutdown => AcceptAction::Stop,
        AcceptEvent::Accepted => AcceptAction::Serve,
        AcceptEvent::Failed => AcceptAction::BackOff(Duration::new(0, ACCEPT_BACKOFF_NANOS)),
    }
}

/// Whether open connections get time to finish on shutdown.
pub fn drains(grace: &Duration) -> (r: bool)
    ensures
        r == (*grace != crate::time::secs_duration(0)),
{
    !grace.is_zero()
}

} // verus!

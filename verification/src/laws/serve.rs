//! Laws of observation, gauges, the poller and the listeners.

use std::time::Duration;

use vstd::prelude::*;

use crate::health::{Probe, ReadyReport};
use crate::poll;
use crate::poll::{NotReadyLine, PollAction, PollEvent, Poller, Transition};
use crate::proxy;
use crate::proxy::RequestHead;
use crate::serve;
use crate::serve::{AcceptAction, AcceptEvent, AccessLog, GaugeBackend, Observation, UpstreamGauges};
use crate::text;

verus! {

/// The paths that are probed and scraped all the time.
pub open spec fn probed(path: Seq<char>) -> bool {
    path == "/livez"@ || path == "/readyz"@ || path == "/healthz"@ || path == "/metrics"@
}

/// A path is left out exactly where it is one of those.
pub proof fn law_probe_paths(path: &str, r: bool)
    requires
        call_ensures(serve::is_probe_path, (path,), r),
    ensures
        r <==> probed(path@),
{
}

/// A request is observed exactly where its path is not probed, with its method, its
/// class, and its path only where that is to be shown.
pub proof fn law_observations(
    req: RequestHead,
    show_path: bool,
    r: Option<Observation>,
    class: (&'static str, &'static str),
)
    requires
        call_ensures(serve::observe, (&req, show_path), r),
        call_ensures(proxy::classify_request, (&req,), class),
    ensures
        r is None <==> probed(req.path@),
        r matches Some(o) ==> {
            &&& o.method@ == req.method@
            &&& show_path ==> o.path@ == req.path@
            &&& !show_path ==> o.path@.len() == 0
            &&& o.upstream@ == class.0@ && o.proto@ == class.1@
        },
{
}

/// An access log writes a line exactly for a path that is not probed, where it is on and
/// has not written one; that line is then written, and nothing else changes it.
pub proof fn law_access_log(log: AccessLog, path: Seq<char>)
    ensures
        log.logs(path) <==> log.enabled && !log.written && !probed(path),
        log.after(path).enabled == log.enabled,
        log.after(path).written <==> log.written || log.logs(path),
{
}

/// A new access log is on where it was asked for, and has written nothing.
pub proof fn law_new_access_log(enabled: bool, log: AccessLog)
    requires
        call_ensures(AccessLog::new, (enabled,), log),
    ensures
        log.enabled == enabled && !log.written,
{
}

/// The gauges show each layer's own verdict and its own peers; peers that are not known
/// show as zero.
pub proof fn law_gauges(probe: Probe, report: ReadyReport, g: UpstreamGauges, n: u64)
    requires
        call_ensures(serve::update_metrics, (&probe, &report), g),
    ensures
        g.el_up == report.el_syncing.ok,
        g.cl_up == report.cl_syncing.ok,
        probe.cl_peers matches Ok(peers) ==> g.cl_peers == peers,
        probe.cl_peers is Err ==> g.cl_peers == 0,
        probe.el_peers matches Ok(hex) ==> (text::hex_value(hex@) == Some(n) ==> g.el_peers == n),
        !(probe.el_peers matches Ok(hex) && text::hex_value(hex@) is Some) ==> g.el_peers == 0,
{
}

/// Only the count of open connections is summed.
pub proof fn law_gauge_backends(name: &str, r: GaugeBackend)
    requires
        call_ensures(serve::gauge_backend, (name,), r),
    ensures
        r is UpDown <==> name@ == "ethryx_active_connections"@,
{
}

/// A listener goes on until shutdown, and pauses after a failure only.
pub proof fn law_listeners(event: AcceptEvent, r: AcceptAction)
    requires
        call_ensures(serve::accept_loop, (event,), r),
    ensures
        r is Stop <==> event is Shutdown,
        r is Serve <==> event is Accepted,
        event is Failed ==> r == AcceptAction::BackOff(
            crate::time::duration_of(0, 100_000_000),
        ),
{
}

/// Connections are waited for exactly where there is any time to wait.
pub proof fn law_draining(grace: Duration, r: bool)
    requires
        call_ensures(serve::drains, (&grace,), r),
    ensures
        r <==> grace != crate::time::duration_of(0, 0),
{
}

/// A poller pauses for its interval first.
pub proof fn law_poller_starts_with_a_pause<P>(interval: Duration, r: (Poller, PollAction<P>))
    requires
        call_ensures(Poller::start::<P>, (interval,), r),
    ensures
        r.1 == PollAction::<P>::Sleep(interval),
        r.0.interval == interval,
        r.0.prev_ready is None,
{
}

/// What follows what: a pause is followed by a poll, a poll by its own publication, a
/// publication that was taken by another pause of the same length, and anything else
/// by the end.
pub proof fn law_poller_goes_round<P>(interval: Duration, probe: P, ready: bool, taken: bool)
    ensures
        poll::action_after(interval, PollEvent::<P>::Slept) is Poll,
        poll::action_after(interval, PollEvent::Polled { probe, ready }) == PollAction::Publish(
            probe,
        ),
        poll::action_after(interval, PollEvent::<P>::Published(taken)) == (if taken {
            PollAction::<P>::Sleep(interval)
        } else {
            PollAction::<P>::Stop
        }),
        poll::action_after(interval, PollEvent::<P>::Shutdown) is Stop,
{
}

/// A poller remembers the verdict of a poll and nothing else, and logs exactly where
/// that verdict is news: where it differs from the last one, or is the first and bad.
pub proof fn law_poller_logs_news<P>(p: Poller, probe: P, ready: bool, other: PollEvent<P>)
    requires
        !(other is Polled),
    ensures
        p.after(PollEvent::Polled { probe, ready }) == (Poller {
            interval: p.interval,
            prev_ready: Some(ready),
        }),
        p.after(other) == p && p.logs(other) is Silent,
        p.logs(PollEvent::Polled { probe, ready }) is BecameNotReady <==> !ready && p.prev_ready
            != Some(false),
        p.logs(PollEvent::Polled { probe, ready }) is Recovered <==> ready && p.prev_ready == Some(
            false,
        ),
{
    if let Some(last) = p.prev_ready {
        assert(p.prev_ready == Some(if last { true } else { false }));
    }
}

/// Readiness is news exactly where it changed, or where it is bad from the start.
pub proof fn law_transitions(prev_ready: Option<bool>, ready: bool, t: Transition)
    requires
        call_ensures(poll::readiness_transition, (prev_ready, ready), t),
    ensures
        t is BecameNotReady <==> !ready && prev_ready != Some(false),
        t is Recovered <==> ready && prev_ready == Some(false),
{
    if let Some(last) = prev_ready {
        assert(prev_ready == Some(if last { true } else { false }));
    }
}

/// The line of a pair that is not ready shows each check's own detail, and a dash for
/// one that was not made.
pub proof fn law_not_ready_lines(report: ReadyReport, line: NotReadyLine)
    requires
        call_ensures(poll::not_ready_line, (&report,), line),
    ensures
        line.el_syncing@ == report.el_syncing.detail@,
        line.cl_syncing@ == report.cl_syncing.detail@,
        report.el_block_fresh matches Some(c) ==> line.el_block@ == c.detail@,
        report.el_block_fresh is None ==> line.el_block@ == "-"@,
        report.cl_slot_fresh matches Some(c) ==> line.cl_slot@ == c.detail@,
        report.cl_slot_fresh is None ==> line.cl_slot@ == "-"@,
{
    assert(report@.el_syncing == report.el_syncing@ && report@.cl_syncing == report.cl_syncing@);
}

/// A poller that takes an event in does and logs what follows, remembers the verdict of
/// a poll, and keeps its pause.
pub proof fn law_poller_steps<P>(event: PollEvent<P>, r: (PollAction<P>, Transition))
    ensures
        forall|p: &mut Poller| #[trigger]
            call_ensures(Poller::step::<P>, (p, event), r) ==> {
                &&& final(p).interval == p.interval
                &&& event matches PollEvent::Polled { probe, ready } ==> {
                    &&& final(p).prev_ready == Some(ready)
                    &&& r.0 == PollAction::Publish(probe)
                    &&& r.1 is BecameNotReady <==> !ready && p.prev_ready != Some(false)
                    &&& r.1 is Silent <==> p.prev_ready == Some(ready) || (p.prev_ready is None
                        && ready)
                }
                &&& !(event is Polled) ==> final(p).prev_ready == p.prev_ready && r.1 is Silent
                &&& event is Slept ==> r.0 is Poll
                &&& event is Shutdown ==> r.0 is Stop
                &&& event matches PollEvent::Published(taken) ==> (if taken {
                    r.0 == PollAction::<P>::Sleep(p.interval)
                } else {
                    r.0 is Stop
                })
            },
{
    assert forall|p: &mut Poller| #[trigger]
        call_ensures(Poller::step::<P>, (p, event), r) implies (
        event matches PollEvent::Polled { probe, ready } ==> (r.1 is BecameNotReady <==> !ready
            && p.prev_ready != Some(false))) by {
        if let Some(last) = p.prev_ready {
            assert(p.prev_ready == Some(if last { true } else { false }));
        }
    }
}

/// A request is logged exactly where the log is on, has no line yet, and the path is not
/// probed; the log then has its line.
pub proof fn law_access_log_records(path: &str, r: bool)
    ensures
        forall|log: &mut AccessLog| #[trigger]
            call_ensures(AccessLog::record, (log, path), r) ==> {
                &&& r <==> log.enabled && !log.written && !probed(path@)
                &&& final(log).enabled == log.enabled
                &&& final(log).written <==> log.written || r
            },
{
}

} // verus!

//! The background poller: what it does next, and when readiness is logged.

use std::time::Duration;

use vstd::prelude::*;

use crate::health::ReadyReport;

verus! {

/// What to log about readiness after a poll.
#[derive(Debug, Clone, Copy, PartialEq, Eq, Structural)]
pub enum Transition {
    Silent,
    BecameNotReady,
    Recovered,
}

/// A poll is logged when readiness changed. The first poll has nothing to differ
/// from, and is logged when it is not ready.
pub open spec fn transition_of(prev_ready: Option<bool>, ready: bool) -> Transition {
    if prev_ready == Some(ready) || (prev_ready is None && ready) {
        Transition::Silent
    } else if ready {
        Transition::Recovered
    } else {
        Transition::BecameNotReady
    }
}

pub fn readiness_transition(prev_ready: Option<bool>, ready: bool) -> (t: Transition)
    ensures
        t == transition_of(prev_ready, ready),
{
    match prev_ready {
        Some(p) => if p == ready {
            Transition::Silent
        } else if ready {
            Transition::Recovered
        } else {
            Transition::BecameNotReady
        },
        None => if ready {
            Transition::Silent
        } else {
            Transition::BecameNotReady
        },
    }
}

/// What happened to the poller. A poll is carried along as a `P`.
#[derive(Debug, PartialEq, Eq)]
pub enum PollEvent<P> {
    /// The process is shutting down.
    Shutdown,
    /// The pause between two polls is over.
    Slept,
    /// A poll landed, with its verdict.
    Polled { probe: P, ready: bool },
    /// The poll was handed on, or there was nobody left to hand it to.
    Published(bool),
}

/// What the poller does next.
#[derive(Debug, PartialEq, Eq)]
pub enum PollAction<P> {
    /// Pause for this long.
    Sleep(Duration),
    Poll,
    /// Hand this poll on.
    Publish(P),
    Stop,
}

/// The poller, which knows its pause and remembers the last verdict.
#[derive(Debug, PartialEq, Eq)]
pub struct Poller {
    pub interval: Duration,
    pub prev_ready: Option<bool>,
}

/// The action that follows an event: poll, publish that poll, then pause for a full
/// interval; stop on shutdown or when nobody listens any more.
pub open spec fn action_after<P>(interval: Duration, event: PollEvent<P>) -> PollAction<P> {
    match event {
        PollEvent::Shutdown => PollAction::Stop,
        PollEvent::Slept => PollAction::Poll,
        PollEvent::Polled { probe, ready } => PollAction::Publish(probe),
        PollEvent::Published(true) => PollAction::Sleep(interval),
        PollEvent::Published(false) => PollAction::Stop,
    }
}

impl Poller {
    /// The poller after an event: it remembers the verdict of a poll.
    pub open spec fn after<P>(self, event: PollEvent<P>) -> Poller {
        match event {
            PollEvent::Polled { probe, ready } => Poller {
                interval: self.interval,
                prev_ready: Some(ready),
            },
            _ => self,
        }
    }

    /// What is logged of an event.
    pub open spec fn logs<P>(self, event: PollEvent<P>) -> Transition {
        match event {
            PollEvent::Polled { probe, ready } => transition_of(self.prev_ready, ready),
            _ => Transition::Silent,
        }
    }

    /// A poller that has seen nothing yet, and what it does first: it pauses.
    pub fn start<P>(interval: Duration) -> (r: (Poller, PollAction<P>))
        ensures
            r.0.interval == interval,
            r.0.prev_ready is None,
            r.1 == PollAction::<P>::Sleep(interval),
    {
        (Poller { interval, prev_ready: None }, PollAction::Sleep(interval))
    }

    /// Takes an event in: what to do next, and what to log.
    pub fn step<P>(&mut self, event: PollEvent<P>) -> (r: (PollAction<P>, Transition))
        ensures
            r.0 == action_after(old(self).interval, event),
            r.1 == old(self).logs(event),
            *final(self) == old(self).after(event),
    {
        match event {
            PollEvent::Shutdown => (PollAction::Stop, Transition::Silent),
            PollEvent::Slept => (PollAction::Poll, Transition::Silent),
            PollEvent::Polled { probe, ready } => {
                let t = readiness_transition(self.prev_ready, ready);
                self.prev_ready = Some(ready);
                (PollAction::Publish(probe), t)
            },
            PollEvent::Published(delivered) => if delivered {
                (PollAction::Sleep(self.interval), Transition::Silent)
            } else {
                (PollAction::Stop, Transition::Silent)
            },
        }
    }
}

/// The details that a not-ready line carries.
#[derive(Debug)]
pub struct NotReadyLine {
    pub el_syncing: String,
    pub cl_syncing: String,
    pub el_block: String,
    pub cl_slot: String,
}

/// The detail of a check that may not apply; a dash stands for one that does not.
pub open spec fn detail_or_dash(c: Option<crate::health::CheckView>) -> Seq<char> {
    match c {
        Some(c) => c.detail,
        None => "-"@,
    }
}

pub fn not_ready_line(report: &ReadyReport) -> (line: NotReadyLine)
    ensures
        line.el_syncing@ == report@.el_syncing.detail,
        line.cl_syncing@ == report@.cl_syncing.detail,
        line.el_block@ == detail_or_dash(report@.el_block_fresh),
        line.cl_slot@ == detail_or_dash(report@.cl_slot_fresh),
{
    NotReadyLine {
        el_syncing: report.el_syncing.detail.clone(),
        cl_syncing: report.cl_syncing.detail.clone(),
        el_block: match &report.el_block_fresh {
            Some(c) => c.detail.clone(),
            None => "-".to_owned(),
        },
        cl_slot: match &report.cl_slot_fresh {
            Some(c) => c.detail.clone(),
            None => "-".to_owned(),
        },
    }
}

// ---- whole runs of the poller ----

/// What the poller does when it has seen the first `i` of these events.
pub open spec fn action_at<P>(interval: Duration, events: Seq<PollEvent<P>>, i: int) -> PollAction<
    P,
> {
    if i == 0 {
        PollAction::Sleep(interval)
    } else {
        action_after(interval, events[i - 1])
    }
}

/// Whether an action can end in an event. A pause and a poll can be cut short by
/// shutdown; after a stop nothing happens.
pub open spec fn ends_in<P>(action: PollAction<P>, event: PollEvent<P>) -> bool {
    match action {
        PollAction::Sleep(_) => event is Slept || event is Shutdown,
        PollAction::Poll => event is Polled || event is Shutdown,
        PollAction::Publish(_) => event is Published,
        PollAction::Stop => false,
    }
}

/// The events of a poller from its start on.
pub open spec fn is_run<P>(interval: Duration, events: Seq<PollEvent<P>>) -> bool {
    forall|i: int|
        0 <= i < events.len() ==> ends_in(#[trigger] action_at(interval, events, i), events[i])
}

/// The polls that landed, in order.
pub open spec fn landed<P>(events: Seq<PollEvent<P>>) -> Seq<P>
    decreases events.len(),
{
    if events.len() == 0 {
        Seq::empty()
    } else {
        match events.last() {
            PollEvent::Polled { probe, ready } => landed(events.drop_last()).push(probe),
            _ => landed(events.drop_last()),
        }
    }
}

/// The polls that were handed on, in order.
pub open spec fn handed_on<P>(interval: Duration, events: Seq<PollEvent<P>>) -> Seq<P>
    decreases events.len(),
{
    if events.len() == 0 {
        Seq::empty()
    } else {
        let before = handed_on(interval, events.drop_last());
        match action_at(interval, events, events.len() - 1) {
            PollAction::Publish(probe) => before.push(probe),
            _ => before,
        }
    }
}

/// Every poll, the first one too, starts when a pause of a full interval is over.
pub proof fn law_every_poll_follows_a_pause<P>(
    interval: Duration,
    events: Seq<PollEvent<P>>,
    i: int,
)
    requires
        is_run(interval, events),
        0 <= i <= events.len(),
        action_at(interval, events, i) is Poll,
    ensures
        i >= 1,
        events[i - 1] is Slept,
        action_at(interval, events, i - 1) == PollAction::<P>::Sleep(interval),
{
    assert(ends_in(action_at(interval, events, i - 1), events[i - 1]));
    if i >= 2 {
        assert(ends_in(action_at(interval, events, i - 2), events[i - 2]));
    }
}

/// A poll that landed is handed on next, before anything else happens.
pub proof fn law_a_landed_poll_is_handed_on<P>(
    interval: Duration,
    events: Seq<PollEvent<P>>,
    i: int,
)
    requires
        is_run(interval, events),
        0 <= i < events.len(),
    ensures
        events[i] matches PollEvent::Polled { probe, ready } ==> action_at(interval, events, i + 1)
            == PollAction::Publish(probe) && (i + 1 < events.len() ==> events[i + 1] is Published),
{
    if i + 1 < events.len() {
        assert(ends_in(action_at(interval, events, i + 1), events[i + 1]));
    }
}

/// Every poll that landed is handed on once and in order, and nothing else is: a poll
/// that shutdown cut short is not. Only the last one may still be about to be.
pub proof fn law_polls_are_handed_on_once_in_order<P>(interval: Duration, events: Seq<PollEvent<P>>)
    requires
        is_run(interval, events),
    ensures
        handed_on(interval, events) == (if events.len() > 0 && events.last() is Polled {
            landed(events).drop_last()
        } else {
            landed(events)
        }),
    decreases events.len(),
{
    if events.len() > 0 {
        let n = events.len() - 1;
        let before = events.drop_last();
        assert forall|i: int| 0 <= i < before.len() implies ends_in(
            #[trigger] action_at(interval, before, i),
            before[i],
        ) by {
            assert(ends_in(action_at(interval, events, i), events[i]));
            assert(action_at(interval, before, i) == action_at(interval, events, i));
        }
        law_polls_are_handed_on_once_in_order(interval, before);
        assert(ends_in(action_at(interval, events, n), events[n]));
        if n > 0 {
            assert(before.last() == events[n - 1]);
            match events[n - 1] {
                PollEvent::Polled { probe, ready } => {
                    assert(landed(before) == landed(before.drop_last()).push(probe));
                    assert(landed(before).drop_last() =~= landed(before.drop_last()));
                    assert(landed(before).drop_last().push(probe) =~= landed(before));
                },
                _ => {},
            }
        }
        match events[n] {
            PollEvent::Polled { probe, ready } => {
                assert(landed(events).drop_last() =~= landed(before));
            },
            _ => {},
        }
    }
}

/// Nothing follows shutdown, whether it comes in a pause or in a poll, and nothing
/// follows a poll that nobody took.
pub proof fn law_the_poller_stops<P>(interval: Duration, events: Seq<PollEvent<P>>, i: int)
    requires
        is_run(interval, events),
        0 <= i < events.len(),
        events[i] is Shutdown || events[i] == PollEvent::<P>::Published(false),
    ensures
        i == events.len() - 1,
        action_at(interval, events, i + 1) is Stop,
{
    if i + 1 < events.len() {
        assert(ends_in(action_at(interval, events, i + 1), events[i + 1]));
    }
}

// ---- what is logged ----

/// What a poller that has seen the verdicts `readies`, in order, remembers.
pub open spec fn remembered(readies: Seq<bool>) -> Option<bool> {
    if readies.len() == 0 {
        None
    } else {
        Some(readies.last())
    }
}

/// What is logged at the `i`-th of a run of polls with these verdicts.
pub open spec fn logged_at(readies: Seq<bool>, i: int) -> Transition {
    transition_of(remembered(readies.take(i)), readies[i])
}

/// A poller that started and then took these events in.
pub open spec fn poller_after<P>(interval: Duration, events: Seq<PollEvent<P>>) -> Poller
    decreases events.len(),
{
    if events.len() == 0 {
        Poller { interval, prev_ready: None }
    } else {
        poller_after(interval, events.drop_last()).after(events.last())
    }
}

/// The verdicts of the polls that landed, in order.
pub open spec fn verdicts<P>(events: Seq<PollEvent<P>>) -> Seq<bool>
    decreases events.len(),
{
    if events.len() == 0 {
        Seq::empty()
    } else {
        match events.last() {
            PollEvent::Polled { probe, ready } => verdicts(events.drop_last()).push(ready),
            _ => verdicts(events.drop_last()),
        }
    }
}

/// After any events a poller remembers the last verdict among them, and its pause is
/// the one it started with.
pub proof fn law_poller_remembers_the_last_verdict<P>(
    interval: Duration,
    events: Seq<PollEvent<P>>,
)
    ensures
        poller_after(interval, events).prev_ready == remembered(verdicts(events)),
        poller_after(interval, events).interval == interval,
    decreases events.len(),
{
    if events.len() > 0 {
        law_poller_remembers_the_last_verdict(interval, events.drop_last());
    }
}

/// What a poller logs of an event depends on the verdicts alone: of a poll, what is
/// logged at its place among them, and of anything else nothing.
pub proof fn law_poller_logs_by_the_verdicts<P>(
    interval: Duration,
    events: Seq<PollEvent<P>>,
    event: PollEvent<P>,
)
    ensures
        ({
            let logged = poller_after(interval, events).logs(event);
            let readies = verdicts(events.push(event));
            if event is Polled {
                readies.len() > 0 && logged == logged_at(readies, readies.len() - 1)
            } else {
                logged is Silent
            }
        }),
{
    law_poller_remembers_the_last_verdict(interval, events);
    assert(events.push(event).drop_last() =~= events);
    if let PollEvent::Polled { probe, ready } = event {
        let readies = verdicts(events.push(event));
        assert(readies == verdicts(events).push(ready));
        assert(readies.take(readies.len() - 1) =~= verdicts(events));
    }
}

/// A sustained state is logged once: a poll is silent exactly where its verdict
/// repeats the one before it.
pub proof fn law_logged_exactly_on_change(readies: Seq<bool>, i: int)
    requires
        0 < i < readies.len(),
    ensures
        logged_at(readies, i) is Silent <==> readies[i] == readies[i - 1],
        logged_at(readies, i) is BecameNotReady <==> readies[i - 1] && !readies[i],
        logged_at(readies, i) is Recovered <==> !readies[i - 1] && readies[i],
{
}

/// The first poll is logged exactly where it is not ready.
pub proof fn law_first_poll_logged_when_degraded(readies: Seq<bool>)
    requires
        readies.len() > 0,
    ensures
        logged_at(readies, 0) == (if readies[0] {
            Transition::Silent
        } else {
            Transition::BecameNotReady
        }),
{
}

proof fn lemma_silence_keeps_verdict(readies: Seq<bool>, i: int, j: int)
    requires
        0 <= i <= j < readies.len(),
        forall|k: int| i < k <= j ==> #[trigger] logged_at(readies, k) is Silent,
    ensures
        readies[j] == readies[i],
    decreases j - i,
{
    if i < j {
        lemma_silence_keeps_verdict(readies, i, j - 1);
        law_logged_exactly_on_change(readies, j);
        assert(logged_at(readies, j) is Silent);
    }
}

/// Log lines alternate: between two lines of one kind there is one of the other.
pub proof fn law_log_lines_alternate(readies: Seq<bool>, i: int, j: int)
    requires
        0 <= i < j < readies.len(),
        !(logged_at(readies, i) is Silent),
        !(logged_at(readies, j) is Silent),
        forall|k: int| i < k < j ==> #[trigger] logged_at(readies, k) is Silent,
    ensures
        logged_at(readies, i) != logged_at(readies, j),
{
    lemma_silence_keeps_verdict(readies, i, j - 1);
    law_logged_exactly_on_change(readies, j);
}

} // verus!

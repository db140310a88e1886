//! The input pipeline's two activities as state machines: the
//! edge-sampling debounce activity and the report-aggregation activity.
//!
//! The surrounding tasks perform the suspending work (waiting for an
//! edge, the settle timer, the queue, the readiness gate, the endpoint
//! write) and drive these step functions, which own every decision:
//! whether an edge becomes a button event, how an event mutates the
//! report model, what is transmitted, and how a transport failure is
//! absorbed.

use vstd::prelude::*;
use crate::mapping::ButtonEvent;
use crate::mapping::apply_event;
use crate::mapping::apply_event_spec;
use crate::mapping::field_at;
use crate::mapping::position_mapped;
use crate::queue::EventQueue;
use crate::queue::queue_events;
use crate::report::XinputControlReport;
use crate::report::all_released;
use crate::report::wire_bytes;

verus! {

/// The edge rate the debounce activity settles to: after each emitted
/// event the line is left unobserved for 1/120 s.
pub const DEBOUNCE_RATE_HZ: u64 = 120;

/// The debounce activity's state. Debouncing here is rate limiting, not
/// edge filtering: after emitting an event the activity suspends for the
/// fixed settle interval, and edges arriving inside that interval are
/// missed rather than filtered.
pub struct Debouncer {
    /// Tick instant up to which observed edges are ignored.
    pub settled_until: u64,
    /// The fixed settle interval in scheduler ticks (1/120 s).
    pub settle_ticks: u64,
}

/// Whether an edge observed at tick `now` emits a button event: only
/// once the settle interval after the previous emitted event has passed.
pub open spec fn edge_emits(d: Debouncer, now: u64) -> bool {
    now >= d.settled_until
}

/// The debouncer's state after observing an edge at tick `now`: an
/// emitted event starts a fresh settle interval, a missed edge changes
/// nothing.
pub open spec fn debounce_next(d: Debouncer, now: u64) -> Debouncer {
    if edge_emits(d, now) {
        Debouncer { settled_until: (now + d.settle_ticks) as u64, settle_ticks: d.settle_ticks }
    } else {
        d
    }
}

impl Debouncer {
    /// A fresh debouncer: the first edge is always emitted.
    pub fn new(settle_ticks: u64) -> (d: Debouncer)
        ensures
            d.settled_until == 0,
            d.settle_ticks == settle_ticks,
    {
        Debouncer { settled_until: 0, settle_ticks }
    }

    /// Debounce step: observe one edge of the monitored line at tick
    /// `now` with the sampled level. Emits one button event for the
    /// fixed scan position (0, 0) and starts the settle interval, or
    /// emits nothing when the edge falls inside the previous interval.
    pub fn observe_edge(&mut self, now: u64, level_is_low: bool) -> (r: Option<ButtonEvent>)
        requires
            now + old(self).settle_ticks <= u64::MAX,
        ensures
            *final(self) == debounce_next(*old(self), now),
            edge_emits(*old(self), now) ==> r == Some((level_is_low, (0usize, 0usize))),
            !edge_emits(*old(self), now) ==> r is None,
    {
        if now >= self.settled_until {
            self.settled_until = now + self.settle_ticks;
            Some((level_is_low, (0, 0)))
        } else {
            None
        }
    }
}

/// Law: debounce timing. Two edges on the same line separated by less
/// than the settle interval produce exactly one button event: the first
/// is emitted and the second, falling inside the interval the first
/// started, is not.
pub proof fn lemma_debounce_rate_limit(d: Debouncer, t1: u64, t2: u64)
    requires
        edge_emits(d, t1),
        t1 <= t2,
        t2 - t1 < d.settle_ticks,
        t1 + d.settle_ticks <= u64::MAX,
    ensures
        !edge_emits(debounce_next(d, t1), t2),
{
}

/// The aggregation activity's state: the readiness gate of the writer
/// and the session's live report model.
pub struct Aggregator {
    /// Whether the writer's readiness gate has resolved. No report may
    /// be transmitted before the host has configured the data-IN
    /// endpoint.
    pub ready: bool,
    /// The one live report model of this device session.
    pub report: XinputControlReport,
}

impl Aggregator {
    /// Session start: the writer is not yet ready and every button is
    /// released.
    pub fn new() -> (a: Aggregator)
        ensures
            !a.ready,
            a.report == all_released(),
    {
        Aggregator { ready: false, report: XinputControlReport::default() }
    }

    /// The writer's readiness gate resolved: the data-IN endpoint is
    /// usable and reports may be transmitted from now on.
    pub fn on_ready(&mut self)
        ensures
            final(self).ready,
            final(self).report == old(self).report,
    {
        self.ready = true;
    }

    /// Handle one dequeued button event: mutate the report model through
    /// the fixed mapping table and produce the complete wire snapshot to
    /// transmit. Exactly one transmit per event, with no coalescing;
    /// an unmapped position changes nothing but is still followed by a
    /// transmit of the unchanged state.
    pub fn on_event(&mut self, pressed: bool, col: usize, row: usize) -> (frame: Vec<u8>)
        requires
            old(self).ready,
        ensures
            final(self).ready,
            final(self).report == apply_event_spec(old(self).report, pressed, col, row),
            frame@ == wire_bytes(final(self).report),
    {
        apply_event(&mut self.report, pressed, col, row);
        self.report.serialize()
    }

    /// Record the outcome of one transmit. A transport failure is
    /// non-fatal: the caller logs it and the loop continues with the
    /// next event, whose snapshot supersedes the failed report; nothing
    /// in the session state changes either way.
    pub fn on_write_result(&mut self, write_ok: bool) -> (keep_running: bool)
        ensures
            *final(self) == *old(self),
            keep_running,
    {
        let _ = write_ok;
        true
    }
}

/// One iteration of the aggregation activity's loop body once the writer
/// is ready: dequeue the oldest pending button event, apply it to the
/// report model, and hand back the wire report owed to the host. With no
/// event pending nothing changes and no transmit is due.
pub fn aggregation_step(agg: &mut Aggregator, q: &mut EventQueue) -> (frame: Option<Vec<u8>>)
    requires
        old(agg).ready,
    ensures
        final(agg).ready,
        queue_events(*old(q)).len() == 0 ==> frame is None && *final(agg) == *old(agg)
            && queue_events(*final(q)) == queue_events(*old(q)),
        queue_events(*old(q)).len() > 0 ==> {
            let e = queue_events(*old(q)).first();
            &&& queue_events(*final(q)) == queue_events(*old(q)).drop_first()
            &&& final(agg).report == apply_event_spec(old(agg).report, e.0, (e.1).0, (e.1).1)
            &&& frame matches Some(f) && f@ == wire_bytes(final(agg).report)
        },
{
    match q.take_event() {
        Option::Some(e) => {
            let (pressed, (col, row)) = e;
            Option::Some(agg.on_event(pressed, col, row))
        },
        Option::None => Option::None,
    }
}

/// Drain every pending button event in FIFO order: exactly one transmit
/// per event, with no coalescing. The `i`-th returned frame is the
/// complete snapshot of the report model after the first `i + 1` pending
/// events, and the final model state is the fold of all of them.
pub fn drain_pending(agg: &mut Aggregator, q: &mut EventQueue) -> (frames: Vec<Vec<u8>>)
    requires
        old(agg).ready,
    ensures
        final(agg).ready,
        queue_events(*final(q)).len() == 0,
        final(agg).report == run_events(old(agg).report, queue_events(*old(q))),
        frames@.len() == queue_events(*old(q)).len(),
        forall|i: int|
            0 <= i < frames@.len() ==> frames@[i]@ == wire_bytes(
                run_events(old(agg).report, queue_events(*old(q)).take(i + 1)),
            ),
{
    let ghost entry_r = old(agg).report;
    let ghost entry_evs = queue_events(*old(q));
    let mut frames: Vec<Vec<u8>> = Vec::new();
    loop
        invariant
            agg.ready,
            frames@.len() <= entry_evs.len(),
            agg.report == run_events(entry_r, entry_evs.take(frames@.len() as int)),
            queue_events(*q) == entry_evs.skip(frames@.len() as int),
            forall|i: int|
                0 <= i < frames@.len() ==> frames@[i]@ == wire_bytes(
                    run_events(entry_r, entry_evs.take(i + 1)),
                ),
        ensures
            agg.ready,
            queue_events(*q).len() == 0,
            frames@.len() == entry_evs.len(),
            agg.report == run_events(entry_r, entry_evs.take(frames@.len() as int)),
            forall|i: int|
                0 <= i < frames@.len() ==> frames@[i]@ == wire_bytes(
                    run_events(entry_r, entry_evs.take(i + 1)),
                ),
        decreases queue_events(*q).len(),
    {
        let ghost k = frames@.len() as int;
        match aggregation_step(agg, q) {
            Option::Some(f) => {
                proof {
                    assert(entry_evs.skip(k).first() == entry_evs[k]);
                    assert(entry_evs.skip(k).drop_first() =~= entry_evs.skip(k + 1));
                    assert(entry_evs.take(k + 1) =~= entry_evs.take(k).push(entry_evs[k]));
                    lemma_run_events_push(entry_r, entry_evs.take(k), entry_evs[k]);
                }
                frames.push(f);
            },
            Option::None => {
                break;
            },
        }
    }
    proof {
        assert(entry_evs.take(entry_evs.len() as int) =~= entry_evs);
    }
    frames
}

/// The report model after consuming a sequence of button events front to
/// back, as the aggregation activity does when draining the queue.
pub open spec fn run_events(r: XinputControlReport, evs: Seq<ButtonEvent>) -> XinputControlReport
    decreases evs.len(),
{
    if evs.len() == 0 {
        r
    } else {
        run_events(
            apply_event_spec(r, evs.first().0, (evs.first().1).0, (evs.first().1).1),
            evs.drop_first(),
        )
    }
}

/// Consuming the events up to a newly appended one applies that event
/// last.
pub proof fn lemma_run_events_push(r: XinputControlReport, evs: Seq<ButtonEvent>, e: ButtonEvent)
    ensures
        run_events(r, evs.push(e)) == apply_event_spec(run_events(r, evs), e.0, (e.1).0, (e.1).1),
    decreases evs.len(),
{
    reveal_with_fuel(run_events, 3);
    if evs.len() == 0 {
        assert(evs.push(e).first() == e);
        assert(evs.push(e).drop_first() =~= Seq::<ButtonEvent>::empty());
    } else {
        assert(evs.push(e).first() == evs.first());
        assert(evs.push(e).drop_first() =~= evs.drop_first().push(e));
        lemma_run_events_push(
            apply_event_spec(r, evs.first().0, (evs.first().1).0, (evs.first().1).1),
            evs.drop_first(),
            e,
        );
    }
}

/// Law: ordering. For two events enqueued in order A then B after any
/// earlier events, draining the queue applies A's effect strictly before
/// B's; in particular, when both bind the same mapped position the final
/// field value is B's level.
pub proof fn lemma_event_ordering(
    r: XinputControlReport,
    evs: Seq<ButtonEvent>,
    a: ButtonEvent,
    b: ButtonEvent,
)
    ensures
        run_events(r, evs.push(a).push(b)) == apply_event_spec(
            apply_event_spec(run_events(r, evs), a.0, (a.1).0, (a.1).1),
            b.0,
            (b.1).0,
            (b.1).1,
        ),
        position_mapped((b.1).0, (b.1).1) && a.1 == b.1 ==> field_at(
            run_events(r, evs.push(a).push(b)),
            (b.1).0,
            (b.1).1,
        ) == b.0,
{
    lemma_run_events_push(r, evs.push(a), b);
    lemma_run_events_push(r, evs, a);
}

} // verus!

//! The monitoring loop's state machine over device-read outcomes: a batch of
//! events is classified and dispatched in order, a would-block read only asks
//! for a fixed-interval retry, and any other read error terminates the loop.

use vstd::prelude::*;
use crate::signal::{LidSignal, RawEvent, classified};

verus! {

/// Milliseconds to sleep before retrying a read that would have blocked.
pub const POLL_RETRY_INTERVAL_MS: u64 = 10;

/// Outcome of one fetch of events from the resolved device.
#[derive(Debug, PartialEq)]
pub enum ReadOutcome {
    /// The fetch yielded this batch of raw events, in device order.
    Events(Vec<RawEvent>),
    /// No events were ready; the read would have blocked.
    WouldBlock,
    /// Any other read error: the device has become invalid.
    Fatal,
}

/// What the monitoring loop does next for one read outcome.
#[derive(Debug, PartialEq)]
pub enum LoopStep {
    /// Dispatch these classified signals, in order, then fetch again.
    Dispatch(Vec<LidSignal>),
    /// Sleep the fixed poll interval, then fetch again.
    Retry,
    /// Unrecoverable: leave the loop and terminate the daemon.
    Terminate,
}

/// The lid signals one batch of raw events classifies to, in batch order,
/// events that do not concern the lid switch contributing nothing.
pub open spec fn signals_of_batch(events: Seq<RawEvent>) -> Seq<LidSignal>
    decreases events.len(),
{
    if events.len() == 0 {
        Seq::empty()
    } else {
        let rest = signals_of_batch(events.drop_last());
        match classified(events.last()) {
            Some(s) => rest.push(s),
            None => rest,
        }
    }
}

/// The lid signals one read outcome contributes: those of its batch for a
/// successful fetch, and none for a would-block or a fatal read.
pub open spec fn signals_of_outcome(outcome: ReadOutcome) -> Seq<LidSignal> {
    match outcome {
        ReadOutcome::Events(batch) => signals_of_batch(batch@),
        ReadOutcome::WouldBlock => Seq::empty(),
        ReadOutcome::Fatal => Seq::empty(),
    }
}

/// The lid signals a whole sequence of read outcomes contributes, in order.
pub open spec fn signals_of_trace(trace: Seq<ReadOutcome>) -> Seq<LidSignal>
    decreases trace.len(),
{
    if trace.len() == 0 {
        Seq::empty()
    } else {
        signals_of_outcome(trace[0]) + signals_of_trace(trace.drop_first())
    }
}

/// Classify one batch of raw events, keeping the device's order and dropping
/// every event that does not concern the lid switch.
pub fn classify_batch(events: &Vec<RawEvent>) -> (signals: Vec<LidSignal>)
    ensures
        signals@ == signals_of_batch(events@),
{
    let mut signals: Vec<LidSignal> = Vec::new();
    let mut k: usize = 0;
    while k < events.len()
        invariant
            k <= events@.len(),
            signals@ == signals_of_batch(events@.take(k as int)),
        decreases events@.len() - k,
    {
        proof {
            assert(events@.take(k + 1).drop_last() =~= events@.take(k as int));
            assert(events@.take(k + 1).last() == events@[k as int]);
        }
        match crate::signal::classify(&events[k]) {
            Some(s) => signals.push(s),
            None => {},
        }
        k = k + 1;
    }
    proof {
        assert(events@.take(events@.len() as int) =~= events@);
    }
    signals
}

/// Advance the monitoring loop by one read outcome: a successful fetch is
/// classified into the signals to dispatch, in order; a would-block read asks
/// only for the fixed-interval retry; any other read error terminates.
pub fn loop_step(outcome: ReadOutcome) -> (r: LoopStep)
    ensures
        outcome matches ReadOutcome::Events(batch) ==> r matches LoopStep::Dispatch(signals)
            && signals@ == signals_of_batch(batch@),
        outcome is WouldBlock ==> r is Retry,
        outcome is Fatal ==> r is Terminate,
{
    match outcome {
        ReadOutcome::Events(batch) => LoopStep::Dispatch(classify_batch(&batch)),
        ReadOutcome::WouldBlock => LoopStep::Retry,
        ReadOutcome::Fatal => LoopStep::Terminate,
    }
}

/// Law: would-block reads never produce spurious actions. Any run of
/// consecutive would-block reads followed by one successful fetch contributes
/// exactly the signals of that fetch's batch, in the batch's order.
pub proof fn lemma_would_blocks_then_batch(trace: Seq<ReadOutcome>, batch: Vec<RawEvent>)
    requires
        trace.len() >= 1,
        forall|i: int| 0 <= i < trace.len() - 1 ==> trace[i] is WouldBlock,
        trace.last() == ReadOutcome::Events(batch),
    ensures
        signals_of_trace(trace) == signals_of_batch(batch@),
    decreases trace.len(),
{
    if trace.len() == 1 {
        assert(trace[0] == ReadOutcome::Events(batch));
        assert(trace.drop_first().len() == 0);
        assert(signals_of_trace(trace.drop_first()) =~= Seq::<LidSignal>::empty());
        assert(signals_of_trace(trace) == signals_of_outcome(trace[0]) + signals_of_trace(
            trace.drop_first(),
        ));
        assert(signals_of_outcome(trace[0]) == signals_of_batch(batch@));
        assert(signals_of_trace(trace) =~= signals_of_batch(batch@));
    } else {
        assert(trace[0] is WouldBlock);
        let rest = trace.drop_first();
        assert(rest.last() == trace.last());
        assert(forall|i: int| 0 <= i < rest.len() - 1 ==> rest[i] is WouldBlock);
        lemma_would_blocks_then_batch(rest, batch);
        assert(signals_of_trace(trace) =~= signals_of_batch(batch@));
    }
}

} // verus!

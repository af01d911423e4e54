//! What holds of every tick of the log drain.

use vstd::prelude::*;
use crate::error::{BrokerErrorView, LinkErrorView};
use crate::log_drain::{idle, stopped, DrainActionView, DrainEventView, DrainPhase, LogDrainView};

verus! {

/// The state of a drain that was in `start` after `events`, in order.
pub open spec fn drain_after(start: LogDrainView, events: Seq<DrainEventView>) -> LogDrainView
    decreases events.len(),
{
    if events.len() == 0 {
        start
    } else {
        drain_after(start, events.drop_last()).step(events.last()).0
    }
}

/// The action that answered the event at `index`.
pub open spec fn drain_action_at(
    start: LogDrainView,
    events: Seq<DrainEventView>,
    index: int,
) -> DrainActionView {
    drain_after(start, events.take(index)).step(events[index]).1
}

/// What the caller reports in the course of one tick in which the peer
/// hands out `records` and the sink answers with `outcomes`, one for each
/// record.
pub open spec fn tick_events(records: Seq<Seq<u8>>, outcomes: Seq<Result<(), Seq<char>>>) -> Seq<
    DrainEventView,
> {
    seq![DrainEventView::Tick, DrainEventView::Logs(Ok(records))] + outcomes.map_values(
        |outcome: Result<(), Seq<char>>| DrainEventView::Forwarded(outcome),
    )
}

/// After the tick, the peer's answer and the sink's first `done` answers,
/// the drain is forwarding the record at `done`.
proof fn lemma_tick_progress(records: Seq<Seq<u8>>, outcomes: Seq<Result<(), Seq<char>>>, done: int)
    requires
        outcomes.len() == records.len(),
        0 <= done < records.len(),
    ensures
        drain_after(idle(), tick_events(records, outcomes).take(2 + done)) == (LogDrainView {
            records,
            next: done as nat,
            phase: DrainPhase::Forwarding,
        }),
    decreases done,
{
    let events = tick_events(records, outcomes);
    assert(events.take(2 + done).drop_last() =~= events.take(1 + done));
    if done == 0 {
        assert(drain_after(idle(), events.take(1).drop_last()) == idle());
    } else {
        lemma_tick_progress(records, outcomes, done - 1);
    }
}

/// Every record that the peer hands out is forwarded, in the order given,
/// whether or not the sink took the records before it; the tick then ends
/// in a sleep, never in a shutdown, and the drain is ready for the next
/// tick.
pub proof fn law_every_record_is_attempted(
    records: Seq<Seq<u8>>,
    outcomes: Seq<Result<(), Seq<char>>>,
    index: int,
)
    requires
        outcomes.len() == records.len(),
        0 <= index < records.len(),
    ensures
        drain_action_at(idle(), tick_events(records, outcomes), 1 + index) == (DrainActionView::Forward {
            record: records[index],
        }),
        drain_action_at(idle(), tick_events(records, outcomes), 1 + records.len() as int)
            == DrainActionView::Sleep,
        drain_after(idle(), tick_events(records, outcomes)) == idle(),
{
    let events = tick_events(records, outcomes);
    if index == 0 {
        assert(drain_after(idle(), events.take(1).drop_last()) == idle());
    } else {
        lemma_tick_progress(records, outcomes, index - 1);
    }
    lemma_tick_progress(records, outcomes, records.len() - 1);
}

/// The drain while the peer is being asked for its records.
pub open spec fn fetching() -> LogDrainView {
    LogDrainView { phase: DrainPhase::Fetching, ..idle() }
}

/// A tick in which the peer has nothing to hand out forwards nothing.
pub proof fn law_empty_tick_is_a_no_op()
    ensures
        fetching().step(
            DrainEventView::Logs(Ok(Seq::<Seq<u8>>::empty())),
        ) == (idle(), DrainActionView::Sleep),
{
}

/// A broken control link stops the drain, whatever it is told afterwards,
/// and the failure is handed up for the shutdown of the broker.
pub proof fn law_broken_link_stops_the_drain(why: Seq<char>, later: Seq<DrainEventView>, index: int)
    requires
        0 <= index < later.len(),
    ensures
        fetching().step(
            DrainEventView::Logs(Err(LinkErrorView::Transport(why))),
        ) == (stopped(), DrainActionView::Shutdown(BrokerErrorView::Transport(why))),
        drain_after(stopped(), later) == stopped(),
        drain_action_at(stopped(), later, index) == DrainActionView::Ignore,
{
    lemma_stopped_stays(later);
    lemma_stopped_stays(later.take(index));
}

/// A stopped drain stays stopped.
proof fn lemma_stopped_stays(events: Seq<DrainEventView>)
    ensures
        drain_after(stopped(), events) == stopped(),
    decreases events.len(),
{
    if events.len() > 0 {
        lemma_stopped_stays(events.drop_last());
    }
}

} // verus!

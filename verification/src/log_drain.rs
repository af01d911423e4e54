//! The log drain: a periodic task that pulls the peer's buffered log
//! records over the control link and forwards each to the local log sink.
//!
//! A broken control link stops the broker. Anything else that goes wrong,
//! such as the sink turning a record down, costs that record only: the
//! remaining records are still forwarded and the next tick comes as usual.

use vstd::prelude::*;
use serde_bytes::ByteBuf;
use crate::error::{BrokerError, BrokerErrorView, LinkError, LinkErrorView};

verus! {

/// Time between two ticks of the drain, in milliseconds.
pub const DRAIN_PERIOD_MS: u64 = 1000;

/// `serde_bytes::ByteBuf`, the form in which log records arrive. Nothing
/// is known of a value but what [`byte_buf_contents`] names.
#[verifier::external_type_specification]
#[verifier::external_body]
pub struct ExByteBuf(serde_bytes::ByteBuf);

/// The bytes that a log record wraps.
pub uninterp spec fn byte_buf_contents(record: ByteBuf) -> Seq<u8>;

/// Calls `Deref::deref` of `serde_bytes::ByteBuf`, which hands out the
/// wrapped vector as it is, and copies that vector. The result holds the
/// bytes of the record, in order.
#[verifier::external_body]
fn record_bytes(record: &ByteBuf) -> (bytes: Vec<u8>)
    ensures
        bytes@ == byte_buf_contents(*record),
{
    std::ops::Deref::deref(record).clone()
}

/// The bytes of each record, in order.
pub open spec fn contents_of(records: Seq<ByteBuf>) -> Seq<Seq<u8>> {
    records.map_values(|record: ByteBuf| byte_buf_contents(record))
}

/// Where the drain stands.
#[derive(Clone, Copy, Debug, PartialEq, Eq, Structural)]
pub enum DrainPhase {
    /// Between two ticks.
    Idle,
    /// The peer is being asked for its records.
    Fetching,
    /// A record is with the sink.
    Forwarding,
    /// The control link is broken; the drain has stopped for good.
    Stopped,
}

/// The drain and the records of the current tick.
#[derive(Debug)]
pub struct LogDrain {
    records: Vec<ByteBuf>,
    next: usize,
    phase: DrainPhase,
}

/// Mathematical value of a [`LogDrain`].
pub struct LogDrainView {
    /// The records of the current tick.
    pub records: Seq<Seq<u8>>,
    /// Position of the record that is with the sink.
    pub next: nat,
    pub phase: DrainPhase,
}

impl View for LogDrain {
    type V = LogDrainView;

    closed spec fn view(&self) -> LogDrainView {
        LogDrainView { records: contents_of(self.records@), next: self.next as nat, phase: self.phase }
    }
}

/// What the caller reports to the drain.
#[derive(Debug)]
pub enum DrainEvent {
    /// A period has passed.
    Tick,
    /// The peer's answer to the request for its records.
    Logs(Result<Vec<ByteBuf>, LinkError>),
    /// Whether the sink took the record.
    Forwarded(Result<(), String>),
}

/// Mathematical value of a [`DrainEvent`].
pub enum DrainEventView {
    Tick,
    Logs(Result<Seq<Seq<u8>>, LinkErrorView>),
    Forwarded(Result<(), Seq<char>>),
}

impl View for DrainEvent {
    type V = DrainEventView;

    open spec fn view(&self) -> DrainEventView {
        match self {
            DrainEvent::Tick => DrainEventView::Tick,
            DrainEvent::Logs(Ok(records)) => DrainEventView::Logs(Ok(contents_of(records@))),
            DrainEvent::Logs(Err(e)) => DrainEventView::Logs(Err(e@)),
            DrainEvent::Forwarded(Ok(())) => DrainEventView::Forwarded(Ok(())),
            DrainEvent::Forwarded(Err(why)) => DrainEventView::Forwarded(Err(why@)),
        }
    }
}

/// What the caller has to do next.
#[derive(Debug, PartialEq, Eq)]
pub enum DrainAction {
    /// Issue `get_logs` on the control link.
    GetLogs,
    /// Write this record to the local log sink.
    Forward { record: Vec<u8> },
    /// The tick is over: wait one period, then report a tick.
    Sleep,
    /// The control link is broken: shut the broker down with this failure.
    Shutdown(BrokerError),
    /// The event did not answer the pending action; nothing changed.
    Ignore,
}

/// Mathematical value of a [`DrainAction`].
pub enum DrainActionView {
    GetLogs,
    Forward { record: Seq<u8> },
    Sleep,
    Shutdown(BrokerErrorView),
    Ignore,
}

impl View for DrainAction {
    type V = DrainActionView;

    open spec fn view(&self) -> DrainActionView {
        match self {
            DrainAction::GetLogs => DrainActionView::GetLogs,
            DrainAction::Forward { record } => DrainActionView::Forward { record: record@ },
            DrainAction::Sleep => DrainActionView::Sleep,
            DrainAction::Shutdown(e) => DrainActionView::Shutdown(e@),
            DrainAction::Ignore => DrainActionView::Ignore,
        }
    }
}

/// The drain between two ticks.
pub open spec fn idle() -> LogDrainView {
    LogDrainView { records: Seq::empty(), next: 0, phase: DrainPhase::Idle }
}

/// The drain after a broken control link.
pub open spec fn stopped() -> LogDrainView {
    LogDrainView { records: Seq::empty(), next: 0, phase: DrainPhase::Stopped }
}

impl LogDrainView {
    /// Whether the drain holds records exactly while it forwards them.
    pub open spec fn well_formed(self) -> bool {
        if self.phase == DrainPhase::Forwarding {
            self.next < self.records.len()
        } else {
            self.records.len() == 0 && self.next == 0
        }
    }

    /// The drain's rules: the state after `event`, and the action it calls
    /// for.
    pub open spec fn step(self, event: DrainEventView) -> (LogDrainView, DrainActionView) {
        match (self.phase, event) {
            (DrainPhase::Idle, DrainEventView::Tick) => (
                LogDrainView { phase: DrainPhase::Fetching, ..self },
                DrainActionView::GetLogs,
            ),
            (DrainPhase::Fetching, DrainEventView::Logs(Ok(records))) => if records.len() == 0 {
                (idle(), DrainActionView::Sleep)
            } else {
                (
                    LogDrainView { records, next: 0, phase: DrainPhase::Forwarding },
                    DrainActionView::Forward { record: records[0] },
                )
            },
            (DrainPhase::Fetching, DrainEventView::Logs(Err(LinkErrorView::Transport(why)))) => (
                stopped(),
                DrainActionView::Shutdown(BrokerErrorView::Transport(why)),
            ),
            (DrainPhase::Fetching, DrainEventView::Logs(Err(LinkErrorView::Peer(_)))) => (
                idle(),
                DrainActionView::Sleep,
            ),
            (DrainPhase::Forwarding, DrainEventView::Forwarded(_)) => if self.next + 1
                < self.records.len() {
                (
                    LogDrainView { next: self.next + 1, ..self },
                    DrainActionView::Forward { record: self.records[self.next as int + 1] },
                )
            } else {
                (idle(), DrainActionView::Sleep)
            },
            _ => (self, DrainActionView::Ignore),
        }
    }
}

impl LogDrain {
    #[verifier::type_invariant]
    spec fn holds_records_while_forwarding(self) -> bool {
        self@.well_formed()
    }

    /// A drain between two ticks.
    pub fn new() -> (drain: LogDrain)
        ensures
            drain@ == idle(),
    {
        let drain = LogDrain { records: Vec::new(), next: 0, phase: DrainPhase::Idle };
        assert(drain@.records =~= Seq::empty());
        drain
    }

    /// Where the drain stands.
    pub fn phase(&self) -> (phase: DrainPhase)
        ensures
            phase == self@.phase,
    {
        self.phase
    }

    /// Takes what the caller reports and answers with the next action.
    pub fn step(self, event: DrainEvent) -> (next: (LogDrain, DrainAction))
        ensures
            (next.0@, next.1@) == self@.step(event@),
            next.0@.well_formed(),
    {
        proof {
            use_type_invariant(&self);
        }
        match self.phase {
            DrainPhase::Idle => match event {
                DrainEvent::Tick => (
                    LogDrain { phase: DrainPhase::Fetching, ..self },
                    DrainAction::GetLogs,
                ),
                _ => (self, DrainAction::Ignore),
            },
            DrainPhase::Fetching => match event {
                DrainEvent::Logs(Ok(records)) => {
                    if records.len() == 0 {
                        (LogDrain::new(), DrainAction::Sleep)
                    } else {
                        let record = record_bytes(&records[0]);
                        (
                            LogDrain { records, next: 0, phase: DrainPhase::Forwarding },
                            DrainAction::Forward { record },
                        )
                    }
                },
                DrainEvent::Logs(Err(LinkError::Transport(why))) => {
                    let halted = LogDrain { records: Vec::new(), next: 0, phase: DrainPhase::Stopped };
                    assert(halted@.records =~= Seq::empty());
                    (halted, DrainAction::Shutdown(BrokerError::Transport(why)))
                },
                DrainEvent::Logs(Err(LinkError::Peer(_))) => (LogDrain::new(), DrainAction::Sleep),
                _ => (self, DrainAction::Ignore),
            },
            DrainPhase::Forwarding => match event {
                DrainEvent::Forwarded(_) => {
                    assert(self.next < self.records.len());
                    if self.next + 1 < self.records.len() {
                        let record = record_bytes(&self.records[self.next + 1]);
                        (LogDrain { next: self.next + 1, ..self }, DrainAction::Forward { record })
                    } else {
                        (LogDrain::new(), DrainAction::Sleep)
                    }
                },
                _ => (self, DrainAction::Ignore),
            },
            DrainPhase::Stopped => (self, DrainAction::Ignore),
        }
    }
}

/// Whether a failure met by the drain stops the broker. Only a broken
/// control link does; every other failure is logged and the drain goes on.
pub fn is_fatal_to_drain(failure: &BrokerError) -> (fatal: bool)
    ensures
        fatal == (failure@ is Transport),
{
    match failure {
        BrokerError::Transport(_) => true,
        _ => false,
    }
}

} // verus!

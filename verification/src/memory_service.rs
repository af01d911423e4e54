//! Provisioning of the memory-service channel: the same rendezvous as for
//! a session, in one direction only.

use vstd::prelude::*;
use vstd::string::*;
use crate::error::{surfaced, BrokerError, BrokerErrorView, LinkError, LinkErrorView};
use crate::session::NO_PORT;
use crate::transport::{port_of, Transport, TransportType};

verus! {

/// Where the provisioning of the channel stands.
#[derive(Clone, Copy, Debug, PartialEq, Eq, Structural)]
pub enum MemoryServicePhase {
    /// The rendezvous endpoint is being bound.
    Requested,
    /// The peer is being told the port.
    Announce,
    /// The peer is expected to dial back.
    Rendezvous,
    /// The read handle has been handed out.
    Connected,
    /// The channel could not be set up.
    Failed,
}

/// The outcome of an action, as the caller reports it.
#[derive(Debug)]
pub enum MemoryServiceEvent {
    /// The address the endpoint was bound to, or why binding failed.
    Bound(Result<TransportType, String>),
    /// The peer's answer to the announcement of the port.
    Announced(Result<(), LinkError>),
    /// What the finished rendezvous handed out, or why it failed.
    Finalized(Result<Transport, String>),
}

/// Mathematical value of a [`MemoryServiceEvent`].
pub enum MemoryServiceEventView {
    Bound(Result<TransportType, Seq<char>>),
    Announced(Result<(), LinkErrorView>),
    Finalized(Result<Transport, Seq<char>>),
}

impl View for MemoryServiceEvent {
    type V = MemoryServiceEventView;

    open spec fn view(&self) -> MemoryServiceEventView {
        match self {
            MemoryServiceEvent::Bound(Ok(address)) => MemoryServiceEventView::Bound(Ok(*address)),
            MemoryServiceEvent::Bound(Err(why)) => MemoryServiceEventView::Bound(Err(why@)),
            MemoryServiceEvent::Announced(Ok(())) => MemoryServiceEventView::Announced(Ok(())),
            MemoryServiceEvent::Announced(Err(e)) => MemoryServiceEventView::Announced(Err(e@)),
            MemoryServiceEvent::Finalized(Ok(channel)) => MemoryServiceEventView::Finalized(Ok(*channel)),
            MemoryServiceEvent::Finalized(Err(why)) => MemoryServiceEventView::Finalized(Err(why@)),
        }
    }
}

/// What the caller has to do next.
#[derive(Debug, PartialEq, Eq)]
pub enum MemoryServiceAction {
    /// Open a transport endpoint and bind it.
    Bind,
    /// Issue `prepare_manatee_memory_service_socket` on the control link.
    Announce { port_number: u32 },
    /// Complete the rendezvous on the bound endpoint.
    Finalize,
    /// Done: hand the read handle to the requester. The write handle is
    /// not handed out.
    Connected { read: i32 },
    /// Done: report this failure to the requester.
    Failed(BrokerError),
    /// The event did not answer the pending action; nothing changed.
    Ignore,
}

/// Mathematical value of a [`MemoryServiceAction`].
pub enum MemoryServiceActionView {
    Bind,
    Announce { port_number: u32 },
    Finalize,
    Connected { read: i32 },
    Failed(BrokerErrorView),
    Ignore,
}

impl View for MemoryServiceAction {
    type V = MemoryServiceActionView;

    open spec fn view(&self) -> MemoryServiceActionView {
        match self {
            MemoryServiceAction::Bind => MemoryServiceActionView::Bind,
            MemoryServiceAction::Announce { port_number } => MemoryServiceActionView::Announce {
                port_number: *port_number,
            },
            MemoryServiceAction::Finalize => MemoryServiceActionView::Finalize,
            MemoryServiceAction::Connected { read } => MemoryServiceActionView::Connected { read: *read },
            MemoryServiceAction::Failed(e) => MemoryServiceActionView::Failed(e@),
            MemoryServiceAction::Ignore => MemoryServiceActionView::Ignore,
        }
    }
}

/// The protocol: the phase after `event`, and the action it calls for.
pub open spec fn memory_service_step(phase: MemoryServicePhase, event: MemoryServiceEventView) -> (
    MemoryServicePhase,
    MemoryServiceActionView,
) {
    match (phase, event) {
        (MemoryServicePhase::Requested, MemoryServiceEventView::Bound(Ok(address))) => match port_of(
            address,
        ) {
            Some(port_number) => (
                MemoryServicePhase::Announce,
                MemoryServiceActionView::Announce { port_number },
            ),
            None => (
                MemoryServicePhase::Failed,
                MemoryServiceActionView::Failed(BrokerErrorView::Transport(NO_PORT@)),
            ),
        },
        (MemoryServicePhase::Requested, MemoryServiceEventView::Bound(Err(why))) => (
            MemoryServicePhase::Failed,
            MemoryServiceActionView::Failed(BrokerErrorView::Transport(why)),
        ),
        (MemoryServicePhase::Announce, MemoryServiceEventView::Announced(Ok(()))) => (
            MemoryServicePhase::Rendezvous,
            MemoryServiceActionView::Finalize,
        ),
        (MemoryServicePhase::Announce, MemoryServiceEventView::Announced(Err(e))) => (
            MemoryServicePhase::Failed,
            MemoryServiceActionView::Failed(surfaced(e)),
        ),
        (MemoryServicePhase::Rendezvous, MemoryServiceEventView::Finalized(Ok(channel))) => (
            MemoryServicePhase::Connected,
            MemoryServiceActionView::Connected { read: channel.r },
        ),
        (MemoryServicePhase::Rendezvous, MemoryServiceEventView::Finalized(Err(why))) => (
            MemoryServicePhase::Failed,
            MemoryServiceActionView::Failed(BrokerErrorView::Transport(why)),
        ),
        _ => (phase, MemoryServiceActionView::Ignore),
    }
}

/// Begins the provisioning. The first action is always
/// [`MemoryServiceAction::Bind`].
pub fn get_manatee_memory_service_socket() -> (begun: (MemoryServicePhase, MemoryServiceAction))
    ensures
        begun.0 == MemoryServicePhase::Requested,
        begun.1@ == MemoryServiceActionView::Bind,
{
    (MemoryServicePhase::Requested, MemoryServiceAction::Bind)
}

/// Takes the outcome of the pending action and answers with the next
/// action.
pub fn memory_service_next(phase: MemoryServicePhase, event: MemoryServiceEvent) -> (next: (
    MemoryServicePhase,
    MemoryServiceAction,
))
    ensures
        (next.0, next.1@) == memory_service_step(phase, event@),
{
    match phase {
        MemoryServicePhase::Requested => match event {
            MemoryServiceEvent::Bound(Ok(address)) => match address.get_port() {
                Some(port_number) => (
                    MemoryServicePhase::Announce,
                    MemoryServiceAction::Announce { port_number },
                ),
                None => (
                    MemoryServicePhase::Failed,
                    MemoryServiceAction::Failed(BrokerError::Transport(NO_PORT.to_owned())),
                ),
            },
            MemoryServiceEvent::Bound(Err(why)) => (
                MemoryServicePhase::Failed,
                MemoryServiceAction::Failed(BrokerError::Transport(why)),
            ),
            _ => (phase, MemoryServiceAction::Ignore),
        },
        MemoryServicePhase::Announce => match event {
            MemoryServiceEvent::Announced(Ok(())) => (
                MemoryServicePhase::Rendezvous,
                MemoryServiceAction::Finalize,
            ),
            MemoryServiceEvent::Announced(Err(e)) => (
                MemoryServicePhase::Failed,
                MemoryServiceAction::Failed(e.surface()),
            ),
            _ => (phase, MemoryServiceAction::Ignore),
        },
        MemoryServicePhase::Rendezvous => match event {
            MemoryServiceEvent::Finalized(Ok(channel)) => (
                MemoryServicePhase::Connected,
                MemoryServiceAction::Connected { read: channel.r },
            ),
            MemoryServiceEvent::Finalized(Err(why)) => (
                MemoryServicePhase::Failed,
                MemoryServiceAction::Failed(BrokerError::Transport(why)),
            ),
            _ => (phase, MemoryServiceAction::Ignore),
        },
        MemoryServicePhase::Connected => (phase, MemoryServiceAction::Ignore),
        MemoryServicePhase::Failed => (phase, MemoryServiceAction::Ignore),
    }
}

} // verus!

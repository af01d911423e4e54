//! The closed failure taxonomy of the broker.

use vstd::prelude::*;
use vstd::string::*;

verus! {

/// A failure that the peer itself reported at the application level.
#[derive(Clone, Debug, PartialEq, Eq)]
pub enum PeerError {
    /// The peer does not have the requested application resident.
    AppNotLoaded,
    /// Any other failure, in the peer's own words.
    Other(String),
}

/// Mathematical value of a [`PeerError`].
pub enum PeerErrorView {
    AppNotLoaded,
    Other(Seq<char>),
}

impl View for PeerError {
    type V = PeerErrorView;

    open spec fn view(&self) -> PeerErrorView {
        match self {
            PeerError::AppNotLoaded => PeerErrorView::AppNotLoaded,
            PeerError::Other(text) => PeerErrorView::Other(text@),
        }
    }
}

/// What an operation on the control link can fail with: either the peer
/// answered with an error of its own, or the connection itself broke.
#[derive(Clone, Debug, PartialEq, Eq)]
pub enum LinkError {
    Peer(PeerError),
    Transport(String),
}

/// Mathematical value of a [`LinkError`].
pub enum LinkErrorView {
    Peer(PeerErrorView),
    Transport(Seq<char>),
}

impl View for LinkError {
    type V = LinkErrorView;

    open spec fn view(&self) -> LinkErrorView {
        match self {
            LinkError::Peer(e) => LinkErrorView::Peer(e@),
            LinkError::Transport(text) => LinkErrorView::Transport(text@),
        }
    }
}

/// A refusal that the broker decides on its own, from the manifest and the
/// developer-mode predicate. Never retried.
#[derive(Clone, Copy, Debug, PartialEq, Eq, Structural)]
pub enum PolicyError {
    /// The manifest has no entry for the application.
    AppNotFound,
    /// The image is not verified and developer mode is off.
    UnverifiedNotAllowed,
}

/// Every failure the broker can surface.
#[derive(Clone, Debug, PartialEq, Eq)]
pub enum BrokerError {
    Policy(PolicyError),
    PeerApplication(PeerError),
    Transport(String),
    LocalIo(String),
}

/// Mathematical value of a [`BrokerError`].
pub enum BrokerErrorView {
    Policy(PolicyError),
    PeerApplication(PeerErrorView),
    Transport(Seq<char>),
    LocalIo(Seq<char>),
}

impl View for BrokerError {
    type V = BrokerErrorView;

    open spec fn view(&self) -> BrokerErrorView {
        match self {
            BrokerError::Policy(p) => BrokerErrorView::Policy(*p),
            BrokerError::PeerApplication(e) => BrokerErrorView::PeerApplication(e@),
            BrokerError::Transport(text) => BrokerErrorView::Transport(text@),
            BrokerError::LocalIo(text) => BrokerErrorView::LocalIo(text@),
        }
    }
}

/// The failure a broker operation ends with when a link call fails and the
/// failure is surfaced as it is.
pub open spec fn surfaced(e: LinkErrorView) -> BrokerErrorView {
    match e {
        LinkErrorView::Peer(p) => BrokerErrorView::PeerApplication(p),
        LinkErrorView::Transport(text) => BrokerErrorView::Transport(text),
    }
}

/// Text shown for a peer error.
pub open spec fn peer_message(e: PeerErrorView) -> Seq<char> {
    match e {
        PeerErrorView::AppNotLoaded => "app not loaded"@,
        PeerErrorView::Other(text) => text,
    }
}

/// Text shown for a policy refusal.
pub open spec fn policy_message(e: PolicyError) -> Seq<char> {
    match e {
        PolicyError::AppNotFound => "app not found"@,
        PolicyError::UnverifiedNotAllowed => "unverified app not allowed"@,
    }
}

/// Text shown for a broker failure.
pub open spec fn broker_message(e: BrokerErrorView) -> Seq<char> {
    match e {
        BrokerErrorView::Policy(p) => policy_message(p),
        BrokerErrorView::PeerApplication(p) => peer_message(p),
        BrokerErrorView::Transport(text) => text,
        BrokerErrorView::LocalIo(text) => text,
    }
}

impl PeerError {
    /// The error as text, for callers that report failures as strings.
    pub fn message(&self) -> (text: String)
        ensures
            text@ == peer_message(self@),
    {
        match self {
            PeerError::AppNotLoaded => "app not loaded".to_owned(),
            PeerError::Other(text) => text.clone(),
        }
    }
}

impl PolicyError {
    /// The refusal as text.
    pub fn message(&self) -> (text: String)
        ensures
            text@ == policy_message(*self),
    {
        match self {
            PolicyError::AppNotFound => "app not found".to_owned(),
            PolicyError::UnverifiedNotAllowed => "unverified app not allowed".to_owned(),
        }
    }
}

impl LinkError {
    /// Converts a link failure into the failure the broker surfaces for it.
    pub fn surface(self) -> (e: BrokerError)
        ensures
            e@ == surfaced(self@),
    {
        match self {
            LinkError::Peer(p) => BrokerError::PeerApplication(p),
            LinkError::Transport(text) => BrokerError::Transport(text),
        }
    }

    /// Whether the connection itself failed, as opposed to the peer
    /// answering with an error.
    pub fn is_transport(&self) -> (b: bool)
        ensures
            b == (self@ is Transport),
    {
        match self {
            LinkError::Peer(_) => false,
            LinkError::Transport(_) => true,
        }
    }
}

impl BrokerError {
    /// The failure as text.
    pub fn message(&self) -> (text: String)
        ensures
            text@ == broker_message(self@),
    {
        match self {
            BrokerError::Policy(p) => p.message(),
            BrokerError::PeerApplication(p) => p.message(),
            BrokerError::Transport(text) => text.clone(),
            BrokerError::LocalIo(text) => text.clone(),
        }
    }
}

} // verus!

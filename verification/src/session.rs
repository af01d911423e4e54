//! The start-session protocol as a step function.
//!
//! A run begins in [`Phase::Requested`] with the action [`SessionAction::Bind`].
//! The caller carries out each action and reports its outcome as a
//! [`SessionEvent`]; [`StartSession::step`] answers with the next action. The
//! run ends with [`SessionAction::Connected`] or [`SessionAction::Failed`].
//!
//! The image of an application is sent to the peer only after the peer has
//! said that the application is not loaded, only if the manifest allows it,
//! and the start request is repeated at most once.

use vstd::prelude::*;
use vstd::string::*;
use crate::error::{
    surfaced, BrokerError, BrokerErrorView, LinkError, LinkErrorView, PeerError, PeerErrorView,
    PolicyError,
};
use crate::manifest::{Manifest, ManifestEntryView};
use crate::transport::{port_of, Transport, TransportType};
use crate::trichechus::{copy_strings, texts, AppInfo, AppInfoView};

verus! {

/// What a run fails with when the bound address has no port to tell the
/// peer.
pub const NO_PORT: &'static str = "failed to get port";

/// Where a run of the protocol stands.
#[derive(Clone, Copy, Debug, PartialEq, Eq, Structural)]
pub enum Phase {
    /// Nothing has happened yet; the rendezvous endpoint is being bound.
    Requested,
    /// The first start request is with the peer.
    AttemptStart,
    /// The peer lacks the application and policy allows loading it; the
    /// image is being read.
    ReadImage,
    /// The image is with the peer.
    LoadImage,
    /// The second and last start request is with the peer.
    RetryStart,
    /// The peer has accepted the session and is expected to dial back.
    Rendezvous,
    /// The data-plane handles have been handed out.
    Connected,
    /// The run has ended without a session.
    Failed,
}

/// One run of the start-session protocol.
#[derive(Debug)]
pub struct StartSession {
    app_id: String,
    args: Vec<String>,
    developer_mode: bool,
    port_number: u32,
    phase: Phase,
}

/// Mathematical value of a [`StartSession`].
pub struct StartSessionView {
    pub app_id: Seq<char>,
    pub args: Seq<Seq<char>>,
    pub developer_mode: bool,
    pub port_number: u32,
    pub phase: Phase,
}

impl View for StartSession {
    type V = StartSessionView;

    closed spec fn view(&self) -> StartSessionView {
        StartSessionView {
            app_id: self.app_id@,
            args: texts(self.args@),
            developer_mode: self.developer_mode,
            port_number: self.port_number,
            phase: self.phase,
        }
    }
}

/// The outcome of an action, as the caller reports it.
#[derive(Debug)]
pub enum SessionEvent {
    /// The address the endpoint was bound to, or why binding failed.
    Bound(Result<TransportType, String>),
    /// The peer's answer to a start request.
    Started(Result<(), LinkError>),
    /// The image bytes, or why they could not be read.
    ImageRead(Result<Vec<u8>, String>),
    /// The peer's answer to a load request: its own verdict, or a failure
    /// of the call.
    Loaded(Result<Result<(), String>, LinkError>),
    /// What the finished rendezvous handed out, or why it failed.
    Finalized(Result<Transport, String>),
}

/// Mathematical value of a [`SessionEvent`].
pub enum SessionEventView {
    Bound(Result<TransportType, Seq<char>>),
    Started(Result<(), LinkErrorView>),
    ImageRead(Result<Seq<u8>, Seq<char>>),
    Loaded(Result<Result<(), Seq<char>>, LinkErrorView>),
    Finalized(Result<Transport, Seq<char>>),
}

impl View for SessionEvent {
    type V = SessionEventView;

    open spec fn view(&self) -> SessionEventView {
        match self {
            SessionEvent::Bound(Ok(address)) => SessionEventView::Bound(Ok(*address)),
            SessionEvent::Bound(Err(why)) => SessionEventView::Bound(Err(why@)),
            SessionEvent::Started(Ok(())) => SessionEventView::Started(Ok(())),
            SessionEvent::Started(Err(e)) => SessionEventView::Started(Err(e@)),
            SessionEvent::ImageRead(Ok(image)) => SessionEventView::ImageRead(Ok(image@)),
            SessionEvent::ImageRead(Err(why)) => SessionEventView::ImageRead(Err(why@)),
            SessionEvent::Loaded(Ok(Ok(()))) => SessionEventView::Loaded(Ok(Ok(()))),
            SessionEvent::Loaded(Ok(Err(why))) => SessionEventView::Loaded(Ok(Err(why@))),
            SessionEvent::Loaded(Err(e)) => SessionEventView::Loaded(Err(e@)),
            SessionEvent::Finalized(Ok(channel)) => SessionEventView::Finalized(Ok(*channel)),
            SessionEvent::Finalized(Err(why)) => SessionEventView::Finalized(Err(why@)),
        }
    }
}

/// What the caller has to do next.
#[derive(Debug, PartialEq, Eq)]
pub enum SessionAction {
    /// Open a transport endpoint and bind it.
    Bind,
    /// Issue `start_session` on the control link.
    StartSession { app_info: AppInfo, args: Vec<String> },
    /// Read the image at `path`.
    ReadImage { path: String },
    /// Issue `load_app` on the control link.
    LoadApp { app_id: String, image: Vec<u8> },
    /// Complete the rendezvous on the bound endpoint.
    Finalize,
    /// Done: hand these handles to the requester.
    Connected { read: i32, write: i32 },
    /// Done: report this failure to the requester.
    Failed(BrokerError),
    /// The event did not answer the pending action; nothing changed.
    Ignore,
}

/// Mathematical value of a [`SessionAction`].
pub enum SessionActionView {
    Bind,
    StartSession { app_info: AppInfoView, args: Seq<Seq<char>> },
    ReadImage { path: Seq<char> },
    LoadApp { app_id: Seq<char>, image: Seq<u8> },
    Finalize,
    Connected { read: i32, write: i32 },
    Failed(BrokerErrorView),
    Ignore,
}

impl View for SessionAction {
    type V = SessionActionView;

    open spec fn view(&self) -> SessionActionView {
        match self {
            SessionAction::Bind => SessionActionView::Bind,
            SessionAction::StartSession { app_info, args } => SessionActionView::StartSession {
                app_info: app_info@,
                args: texts(args@),
            },
            SessionAction::ReadImage { path } => SessionActionView::ReadImage { path: path@ },
            SessionAction::LoadApp { app_id, image } => SessionActionView::LoadApp {
                app_id: app_id@,
                image: image@,
            },
            SessionAction::Finalize => SessionActionView::Finalize,
            SessionAction::Connected { read, write } => SessionActionView::Connected {
                read: *read,
                write: *write,
            },
            SessionAction::Failed(e) => SessionActionView::Failed(e@),
            SessionAction::Ignore => SessionActionView::Ignore,
        }
    }
}

/// What the manifest and the developer-mode predicate say about loading
/// `app_id`: the path of its image, or the refusal.
pub open spec fn load_decision(
    manifest: Map<Seq<char>, ManifestEntryView>,
    app_id: Seq<char>,
    developer_mode: bool,
) -> Result<Seq<char>, PolicyError> {
    if !manifest.dom().contains(app_id) {
        Err(PolicyError::AppNotFound)
    } else if !manifest[app_id].is_verified() && !developer_mode {
        Err(PolicyError::UnverifiedNotAllowed)
    } else {
        Ok(manifest[app_id].path)
    }
}

/// The state a run starts in.
pub open spec fn initial(app_id: Seq<char>, args: Seq<Seq<char>>, developer_mode: bool) -> StartSessionView {
    StartSessionView { app_id, args, developer_mode, port_number: 0, phase: Phase::Requested }
}

impl StartSessionView {
    /// The run in phase `phase`, otherwise unchanged.
    pub open spec fn at(self, phase: Phase) -> StartSessionView {
        StartSessionView { phase, ..self }
    }

    /// The start request of this run.
    pub open spec fn start_request(self) -> SessionActionView {
        SessionActionView::StartSession {
            app_info: AppInfoView { app_id: self.app_id, port_number: self.port_number },
            args: self.args,
        }
    }

    /// The run ended by `e`.
    pub open spec fn fail(self, e: BrokerErrorView) -> (StartSessionView, SessionActionView) {
        (self.at(Phase::Failed), SessionActionView::Failed(e))
    }

    /// The protocol: the state after `event`, and the action it calls for.
    pub open spec fn step(self, manifest: Map<Seq<char>, ManifestEntryView>, event: SessionEventView) -> (
        StartSessionView,
        SessionActionView,
    ) {
        match (self.phase, event) {
            (Phase::Requested, SessionEventView::Bound(Ok(address))) => match port_of(address) {
                Some(port) => {
                    let next = StartSessionView { port_number: port, phase: Phase::AttemptStart, ..self };
                    (next, next.start_request())
                },
                None => self.fail(BrokerErrorView::Transport(NO_PORT@)),
            },
            (Phase::Requested, SessionEventView::Bound(Err(why))) => self.fail(
                BrokerErrorView::Transport(why),
            ),
            (Phase::AttemptStart, SessionEventView::Started(Ok(()))) => (
                self.at(Phase::Rendezvous),
                SessionActionView::Finalize,
            ),
            (
                Phase::AttemptStart,
                SessionEventView::Started(Err(LinkErrorView::Peer(PeerErrorView::AppNotLoaded))),
            ) => match load_decision(manifest, self.app_id, self.developer_mode) {
                Ok(path) => (self.at(Phase::ReadImage), SessionActionView::ReadImage { path }),
                Err(refusal) => self.fail(BrokerErrorView::Policy(refusal)),
            },
            (Phase::AttemptStart, SessionEventView::Started(Err(e))) => self.fail(surfaced(e)),
            (Phase::ReadImage, SessionEventView::ImageRead(Ok(image))) => (
                self.at(Phase::LoadImage),
                SessionActionView::LoadApp { app_id: self.app_id, image },
            ),
            (Phase::ReadImage, SessionEventView::ImageRead(Err(why))) => self.fail(
                BrokerErrorView::LocalIo(why),
            ),
            (Phase::LoadImage, SessionEventView::Loaded(Ok(Ok(())))) => (
                self.at(Phase::RetryStart),
                self.start_request(),
            ),
            (Phase::LoadImage, SessionEventView::Loaded(Ok(Err(why)))) => self.fail(
                BrokerErrorView::PeerApplication(PeerErrorView::Other(why)),
            ),
            (Phase::LoadImage, SessionEventView::Loaded(Err(e))) => self.fail(surfaced(e)),
            (Phase::RetryStart, SessionEventView::Started(Ok(()))) => (
                self.at(Phase::Rendezvous),
                SessionActionView::Finalize,
            ),
            (Phase::RetryStart, SessionEventView::Started(Err(e))) => self.fail(surfaced(e)),
            (Phase::Rendezvous, SessionEventView::Finalized(Ok(channel))) => (
                self.at(Phase::Connected),
                SessionActionView::Connected { read: channel.r, write: channel.w },
            ),
            (Phase::Rendezvous, SessionEventView::Finalized(Err(why))) => self.fail(
                BrokerErrorView::Transport(why),
            ),
            _ => (self, SessionActionView::Ignore),
        }
    }
}

/// Decides from the manifest and the developer-mode predicate whether the
/// image of `app_id` may be sent to the peer, and from where it is read.
pub fn load_tee_app(manifest: &Manifest, app_id: &str, developer_mode: bool) -> (decision: Result<
    String,
    PolicyError,
>)
    ensures
        decision is Ok <==> load_decision(manifest@, app_id@, developer_mode) is Ok,
        decision matches Ok(path) ==> load_decision(manifest@, app_id@, developer_mode) == Ok::<
            Seq<char>,
            PolicyError,
        >(path@),
        decision matches Err(refusal) ==> load_decision(manifest@, app_id@, developer_mode) == Err::<
            Seq<char>,
            PolicyError,
        >(refusal),
{
    match manifest.lookup(app_id) {
        None => Err(PolicyError::AppNotFound),
        Some(entry) => {
            if !entry.is_verified() && !developer_mode {
                Err(PolicyError::UnverifiedNotAllowed)
            } else {
                Ok(entry.path.clone())
            }
        },
    }
}

impl StartSession {
    /// Begins a run for `app_id`. The first action is always
    /// [`SessionAction::Bind`].
    pub fn new(app_id: &str, args: Vec<String>, developer_mode: bool) -> (begun: (StartSession, SessionAction))
        ensures
            begun.0@ == initial(app_id@, texts(args@), developer_mode),
            begun.1@ == SessionActionView::Bind,
    {
        (
            StartSession {
                app_id: app_id.to_owned(),
                args,
                developer_mode,
                port_number: 0,
                phase: Phase::Requested,
            },
            SessionAction::Bind,
        )
    }

    /// Where the run stands.
    pub fn phase(&self) -> (phase: Phase)
        ensures
            phase == self@.phase,
    {
        self.phase
    }

    /// Whether the run has ended, with or without a session.
    pub fn is_finished(&self) -> (done: bool)
        ensures
            done == (self@.phase == Phase::Connected || self@.phase == Phase::Failed),
    {
        match self.phase {
            Phase::Connected => true,
            Phase::Failed => true,
            _ => false,
        }
    }

    fn start_request(&self) -> (action: SessionAction)
        ensures
            action@ == self@.start_request(),
    {
        SessionAction::StartSession {
            app_info: AppInfo { app_id: self.app_id.clone(), port_number: self.port_number },
            args: copy_strings(&self.args),
        }
    }

    fn at(self, phase: Phase) -> (next: StartSession)
        ensures
            next@ == self@.at(phase),
    {
        StartSession { phase, ..self }
    }

    fn fail(self, e: BrokerError) -> (next: (StartSession, SessionAction))
        ensures
            (next.0@, next.1@) == self@.fail(e@),
    {
        (self.at(Phase::Failed), SessionAction::Failed(e))
    }

    /// Takes the outcome of the pending action and answers with the next
    /// action. `manifest` is consulted only when the peer reports that the
    /// application is not loaded.
    pub fn step(self, manifest: &Manifest, event: SessionEvent) -> (next: (StartSession, SessionAction))
        ensures
            (next.0@, next.1@) == self@.step(manifest@, event@),
    {
        match self.phase {
            Phase::Requested => match event {
                SessionEvent::Bound(Ok(address)) => match address.get_port() {
                    Some(port) => {
                        let next = StartSession { port_number: port, phase: Phase::AttemptStart, ..self };
                        let action = next.start_request();
                        (next, action)
                    },
                    None => self.fail(BrokerError::Transport(NO_PORT.to_owned())),
                },
                SessionEvent::Bound(Err(why)) => self.fail(BrokerError::Transport(why)),
                _ => (self, SessionAction::Ignore),
            },
            Phase::AttemptStart => match event {
                SessionEvent::Started(Ok(())) => (self.at(Phase::Rendezvous), SessionAction::Finalize),
                SessionEvent::Started(Err(LinkError::Peer(PeerError::AppNotLoaded))) => {
                    match load_tee_app(manifest, self.app_id.as_str(), self.developer_mode) {
                        Ok(path) => (self.at(Phase::ReadImage), SessionAction::ReadImage { path }),
                        Err(refusal) => self.fail(BrokerError::Policy(refusal)),
                    }
                },
                SessionEvent::Started(Err(e)) => self.fail(e.surface()),
                _ => (self, SessionAction::Ignore),
            },
            Phase::ReadImage => match event {
                SessionEvent::ImageRead(Ok(image)) => {
                    let app_id = self.app_id.clone();
                    (self.at(Phase::LoadImage), SessionAction::LoadApp { app_id, image })
                },
                SessionEvent::ImageRead(Err(why)) => self.fail(BrokerError::LocalIo(why)),
                _ => (self, SessionAction::Ignore),
            },
            Phase::LoadImage => match event {
                SessionEvent::Loaded(Ok(Ok(()))) => {
                    let action = self.start_request();
                    (self.at(Phase::RetryStart), action)
                },
                SessionEvent::Loaded(Ok(Err(why))) => self.fail(
                    BrokerError::PeerApplication(PeerError::Other(why)),
                ),
                SessionEvent::Loaded(Err(e)) => self.fail(e.surface()),
                _ => (self, SessionAction::Ignore),
            },
            Phase::RetryStart => match event {
                SessionEvent::Started(Ok(())) => (self.at(Phase::Rendezvous), SessionAction::Finalize),
                SessionEvent::Started(Err(e)) => self.fail(e.surface()),
                _ => (self, SessionAction::Ignore),
            },
            Phase::Rendezvous => match event {
                SessionEvent::Finalized(Ok(channel)) => (
                    self.at(Phase::Connected),
                    SessionAction::Connected { read: channel.r, write: channel.w },
                ),
                SessionEvent::Finalized(Err(why)) => self.fail(BrokerError::Transport(why)),
                _ => (self, SessionAction::Ignore),
            },
            Phase::Connected => (self, SessionAction::Ignore),
            Phase::Failed => (self, SessionAction::Ignore),
        }
    }
}

} // verus!

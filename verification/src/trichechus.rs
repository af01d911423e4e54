//! The values exchanged with the peer over the control link.

use vstd::prelude::*;
use vstd::string::*;
use serde_bytes::ByteBuf;
use crate::error::{peer_message, BrokerError, BrokerErrorView, LinkError, LinkErrorView};
use crate::log_drain::{DrainAction, DrainEvent};
use crate::manifest::Manifest;
use crate::memory_service::{MemoryServiceAction, MemoryServiceEvent};
use crate::session::{SessionAction, SessionEvent};

verus! {

/// What the peer needs to know to start a session: which application, and
/// the rendezvous port it has to dial back to.
#[derive(Clone, Debug, PartialEq, Eq)]
pub struct AppInfo {
    pub app_id: String,
    pub port_number: u32,
}

/// Mathematical value of an [`AppInfo`].
pub struct AppInfoView {
    pub app_id: Seq<char>,
    pub port_number: u32,
}

impl View for AppInfo {
    type V = AppInfoView;

    open spec fn view(&self) -> AppInfoView {
        AppInfoView { app_id: self.app_id@, port_number: self.port_number }
    }
}

/// The texts of `items`, in order.
pub open spec fn texts(items: Seq<String>) -> Seq<Seq<char>> {
    items.map_values(|s: String| s@)
}

/// An independent copy of a list of strings.
pub fn copy_strings(items: &Vec<String>) -> (copy: Vec<String>)
    ensures
        texts(copy@) == texts(items@),
{
    let mut copy: Vec<String> = Vec::new();
    let mut i: usize = 0;
    while i < items.len()
        invariant
            i <= items.len(),
            copy.len() == i,
            forall|k: int| 0 <= k < i ==> #[trigger] copy@[k]@ == items@[k]@,
        decreases items.len() - i,
    {
        copy.push(items[i].clone());
        i = i + 1;
    }
    copy
}

/// An event of the host system that the peer is told about.
#[derive(Clone, Copy, Debug, PartialEq, Eq, Structural)]
pub enum SystemEvent {
    Halt,
    PowerOff,
    Reboot,
}

/// The event that `text` names, if it names one.
pub open spec fn event_named(text: Seq<char>) -> Option<SystemEvent> {
    if text == "halt"@ {
        Some(SystemEvent::Halt)
    } else if text == "poweroff"@ {
        Some(SystemEvent::PowerOff)
    } else if text == "reboot"@ {
        Some(SystemEvent::Reboot)
    } else {
        None
    }
}

/// Reads a system event from the name the host gives it.
pub fn parse_system_event(text: &str) -> (event: Option<SystemEvent>)
    ensures
        event == event_named(text@),
{
    let name = text.to_owned();
    if name == "halt".to_owned() {
        Some(SystemEvent::Halt)
    } else if name == "poweroff".to_owned() {
        Some(SystemEvent::PowerOff)
    } else if name == "reboot".to_owned() {
        Some(SystemEvent::Reboot)
    } else {
        None
    }
}

/// The operations of the peer, as the control link offers them. Each call
/// blocks until the peer has answered or the connection has failed, and
/// tells the two kinds of failure apart.
pub trait Trichechus {
    fn start_session(&mut self, app_info: AppInfo, args: Vec<String>) -> Result<(), LinkError>;

    fn load_app(&mut self, app_id: String, elf: Vec<u8>) -> Result<Result<(), String>, LinkError>;

    fn get_logs(&mut self) -> Result<Vec<ByteBuf>, LinkError>;

    fn system_event(&mut self, event: SystemEvent) -> Result<(), LinkError>;

    fn prepare_manatee_memory_service_socket(&mut self, port_number: u32) -> Result<(), LinkError>;

    fn get_apps(&mut self) -> Result<Manifest, LinkError>;
}

/// Carries out on `link` the request that `action` asks for and reports the
/// peer's answer as the event that answers it. An action that is no request
/// to the peer is handed back untouched.
pub fn send_session_request<L: Trichechus>(link: &mut L, action: SessionAction) -> (answer: Result<
    SessionEvent,
    SessionAction,
>)
    ensures
        action@ is StartSession ==> answer is Ok && answer->Ok_0@ is Started,
        action@ is LoadApp ==> answer is Ok && answer->Ok_0@ is Loaded,
        !(action@ is StartSession) && !(action@ is LoadApp) ==> answer is Err && answer->Err_0@
            == action@,
{
    match action {
        SessionAction::StartSession { app_info, args } => Ok(
            SessionEvent::Started(link.start_session(app_info, args)),
        ),
        SessionAction::LoadApp { app_id, image } => Ok(SessionEvent::Loaded(link.load_app(app_id, image))),
        other => Err(other),
    }
}

/// Carries out on `link` the announcement that `action` asks for and
/// reports the peer's answer. An action that is no request to the peer is
/// handed back untouched.
pub fn send_memory_service_request<L: Trichechus>(link: &mut L, action: MemoryServiceAction) -> (answer:
    Result<MemoryServiceEvent, MemoryServiceAction>)
    ensures
        action@ is Announce ==> answer is Ok && answer->Ok_0@ is Announced,
        !(action@ is Announce) ==> answer is Err && answer->Err_0@ == action@,
{
    match action {
        MemoryServiceAction::Announce { port_number } => Ok(
            MemoryServiceEvent::Announced(link.prepare_manatee_memory_service_socket(port_number)),
        ),
        other => Err(other),
    }
}

/// Asks the peer for its log records where `action` asks for that, and
/// reports the answer. Any other action is handed back untouched.
pub fn send_drain_request<L: Trichechus>(link: &mut L, action: DrainAction) -> (answer: Result<
    DrainEvent,
    DrainAction,
>)
    ensures
        action@ is GetLogs ==> answer is Ok && answer->Ok_0@ is Logs,
        !(action@ is GetLogs) ==> answer is Err && answer->Err_0@ == action@,
{
    match action {
        DrainAction::GetLogs => Ok(DrainEvent::Logs(link.get_logs())),
        other => Err(other),
    }
}

/// What the requester of a system event is told, given the peer's answer.
/// The event channel is informational: an error that the peer reports is
/// passed on as text. Only a broken link is a failure.
pub open spec fn system_event_reply(answer: Result<(), LinkErrorView>) -> Result<Seq<char>, BrokerErrorView> {
    match answer {
        Ok(()) => Ok(Seq::empty()),
        Err(LinkErrorView::Peer(e)) => Ok(peer_message(e)),
        Err(LinkErrorView::Transport(why)) => Err(BrokerErrorView::Transport(why)),
    }
}

/// Turns the peer's answer to a system event into what the requester is
/// told.
pub fn system_event_outcome(answer: Result<(), LinkError>) -> (reply: Result<String, BrokerError>)
    ensures
        match system_event_reply(
            match answer {
                Ok(()) => Ok(()),
                Err(e) => Err(e@),
            },
        ) {
            Ok(text) => reply is Ok && reply->Ok_0@ == text,
            Err(e) => reply is Err && reply->Err_0@ == e,
        },
{
    match answer {
        Ok(()) => Ok(String::new()),
        Err(LinkError::Peer(e)) => Ok(e.message()),
        Err(LinkError::Transport(why)) => Err(BrokerError::Transport(why)),
    }
}

/// Why a system event was not forwarded, or what forwarding it failed
/// with.
#[derive(Debug, PartialEq, Eq)]
pub enum EventFailure {
    /// The text names no event; nothing was sent to the peer.
    UnknownEvent(String),
    /// The link broke while the event was forwarded.
    Broker(BrokerError),
}

/// Reads the event that `event` names and forwards it to the peer. A text
/// that names no event is turned down before anything is sent. Whatever
/// the peer answers, the only other failure is a broken link.
pub fn system_event<L: Trichechus>(link: &mut L, event: &str) -> (reply: Result<String, EventFailure>)
    ensures
        event_named(event@) is None ==> reply is Err && reply->Err_0 is UnknownEvent
            && reply->Err_0->UnknownEvent_0@ == event@,
        event_named(event@) is Some ==> (reply is Err ==> reply->Err_0 is Broker
            && reply->Err_0->Broker_0@ is Transport),
{
    match parse_system_event(event) {
        None => Err(EventFailure::UnknownEvent(event.to_owned())),
        Some(parsed) => match system_event_outcome(link.system_event(parsed)) {
            Ok(text) => Ok(text),
            Err(e) => Err(EventFailure::Broker(e)),
        },
    }
}

} // verus!

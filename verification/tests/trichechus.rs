use dugong::error::{BrokerError, LinkError, PeerError, PolicyError};
use dugong::log_drain::{DrainAction, DrainEvent, LogDrain};
use dugong::manifest::{Manifest, ManifestEntry};
use dugong::memory_service::{
    get_manatee_memory_service_socket, memory_service_next, MemoryServiceAction, MemoryServiceEvent,
};
use dugong::session::{SessionAction, SessionEvent, StartSession};
use dugong::transport::{Transport, TransportType};
use dugong::trichechus::{
    copy_strings, parse_system_event, send_drain_request, send_memory_service_request,
    send_session_request, system_event, system_event_outcome, AppInfo, EventFailure, SystemEvent,
    Trichechus,
};
use serde_bytes::ByteBuf;

fn channel(r: i32, w: i32) -> Transport {
    Transport { r, w, id: TransportType::VsockConnection { cid: 2, port: 1024 } }
}

/// A peer that answers from a script and remembers what it was asked.
#[derive(Default)]
struct ScriptedPeer {
    loaded: Vec<String>,
    start_calls: Vec<AppInfo>,
    load_calls: Vec<(String, Vec<u8>)>,
    announced: Vec<u32>,
    events: Vec<SystemEvent>,
    logs: Vec<Vec<u8>>,
    broken: bool,
}

impl Trichechus for ScriptedPeer {
    fn start_session(&mut self, app_info: AppInfo, _args: Vec<String>) -> Result<(), LinkError> {
        self.start_calls.push(app_info.clone());
        if self.broken {
            Err(LinkError::Transport("link down".to_string()))
        } else if self.loaded.contains(&app_info.app_id) {
            Ok(())
        } else {
            Err(LinkError::Peer(PeerError::AppNotLoaded))
        }
    }

    fn load_app(&mut self, app_id: String, elf: Vec<u8>) -> Result<Result<(), String>, LinkError> {
        self.load_calls.push((app_id.clone(), elf));
        self.loaded.push(app_id);
        Ok(Ok(()))
    }

    fn get_logs(&mut self) -> Result<Vec<ByteBuf>, LinkError> {
        if self.broken {
            Err(LinkError::Transport("link down".to_string()))
        } else {
            Ok(self.logs.drain(..).map(ByteBuf::from).collect())
        }
    }

    fn system_event(&mut self, event: SystemEvent) -> Result<(), LinkError> {
        self.events.push(event);
        if self.broken {
            Err(LinkError::Transport("link down".to_string()))
        } else if event == SystemEvent::Halt {
            Ok(())
        } else {
            Err(LinkError::Peer(PeerError::Other(format!("cannot {:?} now", event))))
        }
    }

    fn prepare_manatee_memory_service_socket(&mut self, port_number: u32) -> Result<(), LinkError> {
        self.announced.push(port_number);
        Ok(())
    }

    fn get_apps(&mut self) -> Result<Manifest, LinkError> {
        Ok(Manifest::new())
    }
}

/// Runs the start-session protocol against `peer`, with a transport that
/// binds port 7000 and hands out the handles 20 and 21.
fn start(peer: &mut ScriptedPeer, manifest: &Manifest, app_id: &str) -> Result<(i32, i32), BrokerError> {
    let (mut session, mut action) = StartSession::new(app_id, vec!["arg".to_string()], false);
    loop {
        let event = match action {
            SessionAction::Bind => {
                SessionEvent::Bound(Ok(TransportType::VsockConnection { cid: 3, port: 7000 }))
            }
            SessionAction::ReadImage { path } => SessionEvent::ImageRead(Ok(path.into_bytes())),
            SessionAction::Finalize => SessionEvent::Finalized(Ok(channel(20, 21))),
            SessionAction::Connected { read, write } => return Ok((read, write)),
            SessionAction::Failed(e) => return Err(e),
            SessionAction::Ignore => panic!("the run ignored an event"),
            request => send_session_request(peer, request).expect("a request to the peer"),
        };
        let (next, next_action) = session.step(manifest, event);
        session = next;
        action = next_action;
    }
}

fn manifest_with(app_id: &str, verified: Option<bool>) -> Manifest {
    let mut manifest = Manifest::new();
    manifest.insert(ManifestEntry::new(app_id.to_string(), format!("/images/{}", app_id), verified));
    manifest
}

#[test]
fn session_with_a_peer_that_lacks_the_app() {
    let mut peer = ScriptedPeer::default();
    let manifest = manifest_with("app-a", Some(true));
    assert_eq!(start(&mut peer, &manifest, "app-a"), Ok((20, 21)));
    let info = AppInfo { app_id: "app-a".to_string(), port_number: 7000 };
    assert_eq!(peer.start_calls, vec![info.clone(), info]);
    assert_eq!(peer.load_calls, vec![("app-a".to_string(), b"/images/app-a".to_vec())]);
}

#[test]
fn session_with_a_peer_that_has_the_app() {
    let mut peer = ScriptedPeer::default();
    peer.loaded.push("app-a".to_string());
    assert_eq!(start(&mut peer, &Manifest::new(), "app-a"), Ok((20, 21)));
    assert_eq!(peer.start_calls.len(), 1);
    assert!(peer.load_calls.is_empty());
}

#[test]
fn session_for_an_unknown_app_never_reaches_load_app() {
    let mut peer = ScriptedPeer::default();
    let outcome = start(&mut peer, &Manifest::new(), "app-x");
    assert_eq!(outcome, Err(BrokerError::Policy(PolicyError::AppNotFound)));
    assert_eq!(outcome.unwrap_err().message(), "app not found");
    assert_eq!(peer.start_calls.len(), 1);
    assert!(peer.load_calls.is_empty());
}

#[test]
fn session_for_an_unverified_app_never_reaches_load_app() {
    let mut peer = ScriptedPeer::default();
    let manifest = manifest_with("app-u", Some(false));
    assert_eq!(
        start(&mut peer, &manifest, "app-u"),
        Err(BrokerError::Policy(PolicyError::UnverifiedNotAllowed))
    );
    assert!(peer.load_calls.is_empty());
}

#[test]
fn session_over_a_broken_link_fails_with_a_transport_error() {
    let mut peer = ScriptedPeer { broken: true, ..ScriptedPeer::default() };
    let manifest = manifest_with("app-a", Some(true));
    assert_eq!(
        start(&mut peer, &manifest, "app-a"),
        Err(BrokerError::Transport("link down".to_string()))
    );
    assert!(peer.load_calls.is_empty());
}

#[test]
fn actions_that_are_no_requests_come_back() {
    let mut peer = ScriptedPeer::default();
    assert_eq!(send_session_request(&mut peer, SessionAction::Bind).unwrap_err(), SessionAction::Bind);
    assert_eq!(
        send_session_request(&mut peer, SessionAction::Finalize).unwrap_err(),
        SessionAction::Finalize
    );
    assert_eq!(
        send_memory_service_request(&mut peer, MemoryServiceAction::Finalize).unwrap_err(),
        MemoryServiceAction::Finalize
    );
    assert_eq!(send_drain_request(&mut peer, DrainAction::Sleep).unwrap_err(), DrainAction::Sleep);
    assert!(peer.start_calls.is_empty() && peer.load_calls.is_empty() && peer.announced.is_empty());
}

#[test]
fn memory_service_port_is_announced_to_the_peer() {
    let mut peer = ScriptedPeer::default();
    let (phase, _) = get_manatee_memory_service_socket();
    let (phase, action) = memory_service_next(
        phase,
        MemoryServiceEvent::Bound(Ok(TransportType::VsockConnection { cid: 3, port: 4321 })),
    );
    let answer = send_memory_service_request(&mut peer, action).unwrap();
    assert_eq!(peer.announced, vec![4321]);
    let (_, action) = memory_service_next(phase, answer);
    assert_eq!(action, MemoryServiceAction::Finalize);
}

#[test]
fn drain_pulls_the_logs_of_the_peer() {
    let mut peer = ScriptedPeer::default();
    peer.logs = vec![b"first".to_vec(), b"second".to_vec()];
    let (drain, action) = LogDrain::new().step(DrainEvent::Tick);
    let answer = send_drain_request(&mut peer, action).unwrap();
    let (drain, action) = drain.step(answer);
    assert_eq!(action, DrainAction::Forward { record: b"first".to_vec() });
    let (_, action) = drain.step(DrainEvent::Forwarded(Ok(())));
    assert_eq!(action, DrainAction::Forward { record: b"second".to_vec() });
}

#[test]
fn drain_over_a_broken_link_shuts_the_broker_down() {
    let mut peer = ScriptedPeer { broken: true, ..ScriptedPeer::default() };
    let (drain, action) = LogDrain::new().step(DrainEvent::Tick);
    let answer = send_drain_request(&mut peer, action).unwrap();
    let (_, action) = drain.step(answer);
    assert_eq!(action, DrainAction::Shutdown(BrokerError::Transport("link down".to_string())));
}

#[test]
fn system_event_outcomes() {
    assert_eq!(system_event_outcome(Ok(())), Ok(String::new()));
    assert_eq!(
        system_event_outcome(Err(LinkError::Peer(PeerError::Other("not now".to_string())))),
        Ok("not now".to_string())
    );
    assert_eq!(
        system_event_outcome(Err(LinkError::Peer(PeerError::AppNotLoaded))),
        Ok("app not loaded".to_string())
    );
    assert_eq!(
        system_event_outcome(Err(LinkError::Transport("eof".to_string()))),
        Err(BrokerError::Transport("eof".to_string()))
    );
}

#[test]
fn system_events_are_read_from_their_names() {
    assert_eq!(parse_system_event("halt"), Some(SystemEvent::Halt));
    assert_eq!(parse_system_event("poweroff"), Some(SystemEvent::PowerOff));
    assert_eq!(parse_system_event("reboot"), Some(SystemEvent::Reboot));
    assert_eq!(parse_system_event("Halt"), None);
    assert_eq!(parse_system_event("halt "), None);
    assert_eq!(parse_system_event(""), None);
}

#[test]
fn system_events_reach_the_peer() {
    let mut peer = ScriptedPeer::default();
    assert_eq!(system_event(&mut peer, "halt"), Ok(String::new()));
    assert_eq!(system_event(&mut peer, "reboot"), Ok("cannot Reboot now".to_string()));
    assert_eq!(peer.events, vec![SystemEvent::Halt, SystemEvent::Reboot]);
    peer.broken = true;
    assert_eq!(
        system_event(&mut peer, "halt"),
        Err(EventFailure::Broker(BrokerError::Transport("link down".to_string())))
    );
}

#[test]
fn unknown_system_event_is_not_sent() {
    let mut peer = ScriptedPeer::default();
    assert_eq!(system_event(&mut peer, "dance"), Err(EventFailure::UnknownEvent("dance".to_string())));
    assert!(peer.events.is_empty());
}

#[test]
fn copied_strings_equal_the_originals() {
    let items = vec!["a".to_string(), String::new(), "b c".to_string()];
    assert_eq!(copy_strings(&items), items);
    assert_eq!(copy_strings(&Vec::new()), Vec::<String>::new());
}

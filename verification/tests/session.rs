use dugong::error::{BrokerError, LinkError, PeerError, PolicyError};
use dugong::manifest::{Manifest, ManifestEntry};
use dugong::session::{load_tee_app, Phase, SessionAction, SessionEvent, StartSession};
use dugong::transport::{Transport, TransportType};
use dugong::trichechus::AppInfo;

fn channel(r: i32, w: i32) -> Transport {
    Transport { r, w, id: TransportType::VsockConnection { cid: 2, port: 1024 } }
}

fn manifest_with(app_id: &str, verified: Option<bool>) -> Manifest {
    let mut manifest = Manifest::new();
    manifest.insert(ManifestEntry::new(
        app_id.to_string(),
        format!("/usr/share/manatee/{}", app_id),
        verified,
    ));
    manifest
}

fn bound(port: u32) -> SessionEvent {
    SessionEvent::Bound(Ok(TransportType::VsockConnection { cid: 3, port }))
}

fn not_loaded() -> SessionEvent {
    SessionEvent::Started(Err(LinkError::Peer(PeerError::AppNotLoaded)))
}

fn start_request(app_id: &str, port: u32, args: &[&str]) -> SessionAction {
    SessionAction::StartSession {
        app_info: AppInfo { app_id: app_id.to_string(), port_number: port },
        args: args.iter().map(|a| a.to_string()).collect(),
    }
}

/// Feeds `events` to a fresh run and collects the answers.
fn run(
    app_id: &str,
    developer_mode: bool,
    manifest: &Manifest,
    events: Vec<SessionEvent>,
) -> (StartSession, Vec<SessionAction>) {
    let (mut session, first) = StartSession::new(app_id, vec!["--flag".to_string()], developer_mode);
    let mut actions = vec![first];
    for event in events {
        let (next, action) = session.step(manifest, event);
        session = next;
        actions.push(action);
    }
    (session, actions)
}

#[test]
fn run_begins_with_bind() {
    let (session, first) = StartSession::new("app-a", vec![], false);
    assert_eq!(first, SessionAction::Bind);
    assert_eq!(session.phase(), Phase::Requested);
    assert!(!session.is_finished());
}

#[test]
fn loaded_app_starts_at_the_first_attempt() {
    let manifest = manifest_with("app-a", Some(true));
    let (session, actions) = run(
        "app-a",
        false,
        &manifest,
        vec![bound(7000), SessionEvent::Started(Ok(())), SessionEvent::Finalized(Ok(channel(10, 11)))],
    );
    assert_eq!(
        actions,
        vec![
            SessionAction::Bind,
            start_request("app-a", 7000, &["--flag"]),
            SessionAction::Finalize,
            SessionAction::Connected { read: 10, write: 11 },
        ]
    );
    assert_eq!(session.phase(), Phase::Connected);
    assert!(session.is_finished());
}

#[test]
fn app_not_loaded_is_loaded_and_started_again() {
    let manifest = manifest_with("app-a", Some(true));
    let (session, actions) = run(
        "app-a",
        false,
        &manifest,
        vec![
            bound(7000),
            not_loaded(),
            SessionEvent::ImageRead(Ok(vec![0x7f, b'E', b'L', b'F'])),
            SessionEvent::Loaded(Ok(Ok(()))),
            SessionEvent::Started(Ok(())),
            SessionEvent::Finalized(Ok(channel(5, 6))),
        ],
    );
    assert_eq!(
        actions,
        vec![
            SessionAction::Bind,
            start_request("app-a", 7000, &["--flag"]),
            SessionAction::ReadImage { path: "/usr/share/manatee/app-a".to_string() },
            SessionAction::LoadApp { app_id: "app-a".to_string(), image: vec![0x7f, b'E', b'L', b'F'] },
            start_request("app-a", 7000, &["--flag"]),
            SessionAction::Finalize,
            SessionAction::Connected { read: 5, write: 6 },
        ]
    );
    match &actions[6] {
        SessionAction::Connected { read, write } => {
            assert!(*read >= 0 && *write >= 0);
            assert_ne!(read, write);
        }
        other => panic!("expected handles, got {:?}", other),
    }
    assert_eq!(session.phase(), Phase::Connected);
}

#[test]
fn unknown_app_is_refused_and_never_loaded() {
    let manifest = Manifest::new();
    let (session, actions) = run(
        "app-x",
        true,
        &manifest,
        vec![
            bound(7000),
            not_loaded(),
            SessionEvent::ImageRead(Ok(vec![1, 2, 3])),
            SessionEvent::Loaded(Ok(Ok(()))),
            SessionEvent::Started(Ok(())),
        ],
    );
    assert_eq!(actions[2], SessionAction::Failed(BrokerError::Policy(PolicyError::AppNotFound)));
    assert_eq!(BrokerError::Policy(PolicyError::AppNotFound).message(), "app not found");
    assert_eq!(&actions[3..], &[SessionAction::Ignore, SessionAction::Ignore, SessionAction::Ignore]);
    assert!(actions.iter().all(|a| !matches!(a, SessionAction::LoadApp { .. })));
    assert!(actions.iter().all(|a| !matches!(a, SessionAction::ReadImage { .. })));
    assert_eq!(session.phase(), Phase::Failed);
}

#[test]
fn unverified_app_is_refused_without_developer_mode() {
    for verified in [Some(false), None] {
        let manifest = manifest_with("app-u", verified);
        let (session, actions) = run("app-u", false, &manifest, vec![bound(7000), not_loaded()]);
        assert_eq!(
            actions[2],
            SessionAction::Failed(BrokerError::Policy(PolicyError::UnverifiedNotAllowed))
        );
        assert!(actions.iter().all(|a| !matches!(a, SessionAction::LoadApp { .. })));
        assert_eq!(session.phase(), Phase::Failed);
    }
}

#[test]
fn unverified_app_is_loaded_in_developer_mode() {
    let manifest = manifest_with("app-u", Some(false));
    let (session, actions) = run("app-u", true, &manifest, vec![bound(7000), not_loaded()]);
    assert_eq!(actions[2], SessionAction::ReadImage { path: "/usr/share/manatee/app-u".to_string() });
    assert_eq!(session.phase(), Phase::ReadImage);
}

#[test]
fn start_is_retried_once_and_no_more() {
    let manifest = manifest_with("app-a", Some(true));
    let (session, actions) = run(
        "app-a",
        false,
        &manifest,
        vec![
            bound(7000),
            not_loaded(),
            SessionEvent::ImageRead(Ok(vec![9])),
            SessionEvent::Loaded(Ok(Ok(()))),
            not_loaded(),
            not_loaded(),
            SessionEvent::Loaded(Ok(Ok(()))),
            SessionEvent::Started(Ok(())),
        ],
    );
    let starts = actions.iter().filter(|a| matches!(a, SessionAction::StartSession { .. })).count();
    assert_eq!(starts, 2);
    assert_eq!(
        actions[5],
        SessionAction::Failed(BrokerError::PeerApplication(PeerError::AppNotLoaded))
    );
    assert_eq!(&actions[6..], &[SessionAction::Ignore, SessionAction::Ignore, SessionAction::Ignore]);
    assert_eq!(session.phase(), Phase::Failed);
}

#[test]
fn other_peer_error_is_surfaced_as_it_is() {
    let manifest = manifest_with("app-a", Some(true));
    let (_, actions) = run(
        "app-a",
        false,
        &manifest,
        vec![
            bound(7000),
            SessionEvent::Started(Err(LinkError::Peer(PeerError::Other("sandbox failed".to_string())))),
        ],
    );
    assert_eq!(
        actions[2],
        SessionAction::Failed(BrokerError::PeerApplication(PeerError::Other("sandbox failed".to_string())))
    );
}

#[test]
fn transport_error_on_start_is_terminal() {
    let manifest = manifest_with("app-a", Some(true));
    let (session, actions) = run(
        "app-a",
        false,
        &manifest,
        vec![bound(7000), SessionEvent::Started(Err(LinkError::Transport("broken pipe".to_string())))],
    );
    assert_eq!(actions[2], SessionAction::Failed(BrokerError::Transport("broken pipe".to_string())));
    assert_eq!(session.phase(), Phase::Failed);
}

#[test]
fn bind_failure_is_a_transport_error() {
    let manifest = Manifest::new();
    let (session, actions) =
        run("app-a", false, &manifest, vec![SessionEvent::Bound(Err("address in use".to_string()))]);
    assert_eq!(actions[1], SessionAction::Failed(BrokerError::Transport("address in use".to_string())));
    assert_eq!(session.phase(), Phase::Failed);
}

#[test]
fn address_without_port_fails_the_run() {
    let manifest = Manifest::new();
    let (_, actions) = run(
        "app-a",
        false,
        &manifest,
        vec![SessionEvent::Bound(Ok(TransportType::FdConnection { read: 3, write: 4 }))],
    );
    assert_eq!(actions[1], SessionAction::Failed(BrokerError::Transport("failed to get port".to_string())));
}

#[test]
fn image_read_failure_is_local_io() {
    let manifest = manifest_with("app-a", Some(true));
    let (_, actions) = run(
        "app-a",
        false,
        &manifest,
        vec![bound(1), not_loaded(), SessionEvent::ImageRead(Err("no such file".to_string()))],
    );
    assert_eq!(actions[3], SessionAction::Failed(BrokerError::LocalIo("no such file".to_string())));
}

#[test]
fn peer_load_failure_is_terminal() {
    let manifest = manifest_with("app-a", Some(true));
    let (session, actions) = run(
        "app-a",
        false,
        &manifest,
        vec![
            bound(1),
            not_loaded(),
            SessionEvent::ImageRead(Ok(vec![1])),
            SessionEvent::Loaded(Ok(Err("bad digest".to_string()))),
        ],
    );
    assert_eq!(
        actions[4],
        SessionAction::Failed(BrokerError::PeerApplication(PeerError::Other("bad digest".to_string())))
    );
    assert_eq!(session.phase(), Phase::Failed);
}

#[test]
fn load_call_failure_is_surfaced() {
    let manifest = manifest_with("app-a", Some(true));
    let (_, actions) = run(
        "app-a",
        false,
        &manifest,
        vec![
            bound(1),
            not_loaded(),
            SessionEvent::ImageRead(Ok(vec![1])),
            SessionEvent::Loaded(Err(LinkError::Transport("reset".to_string()))),
        ],
    );
    assert_eq!(actions[4], SessionAction::Failed(BrokerError::Transport("reset".to_string())));
}

#[test]
fn rendezvous_failure_is_a_transport_error() {
    let manifest = manifest_with("app-a", Some(true));
    let (_, actions) = run(
        "app-a",
        false,
        &manifest,
        vec![bound(1), SessionEvent::Started(Ok(())), SessionEvent::Finalized(Err("timed out".to_string()))],
    );
    assert_eq!(actions[3], SessionAction::Failed(BrokerError::Transport("timed out".to_string())));
}

#[test]
fn event_out_of_turn_changes_nothing() {
    let manifest = manifest_with("app-a", Some(true));
    let (session, actions) = run(
        "app-a",
        false,
        &manifest,
        vec![SessionEvent::Started(Ok(())), SessionEvent::Finalized(Ok(channel(1, 2))), bound(9)],
    );
    assert_eq!(actions[1], SessionAction::Ignore);
    assert_eq!(actions[2], SessionAction::Ignore);
    assert_eq!(actions[3], start_request("app-a", 9, &["--flag"]));
    assert_eq!(session.phase(), Phase::AttemptStart);
}

#[test]
fn load_decision_follows_manifest_and_developer_mode() {
    let manifest = manifest_with("app-a", Some(true));
    assert_eq!(load_tee_app(&manifest, "app-a", false), Ok("/usr/share/manatee/app-a".to_string()));
    assert_eq!(load_tee_app(&manifest, "app-b", false), Err(PolicyError::AppNotFound));
    assert_eq!(load_tee_app(&manifest, "app-b", true), Err(PolicyError::AppNotFound));
    let unverified = manifest_with("app-a", None);
    assert_eq!(load_tee_app(&unverified, "app-a", false), Err(PolicyError::UnverifiedNotAllowed));
    assert_eq!(load_tee_app(&unverified, "app-a", true), Ok("/usr/share/manatee/app-a".to_string()));
}

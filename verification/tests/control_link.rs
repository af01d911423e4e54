use dugong::control_link::ControlLink;
use dugong::manifest::{Manifest, ManifestEntry};
use dugong::state::DugongState;
use dugong::transport::TransportType;

#[test]
fn link_is_handed_to_one_caller_at_a_time() {
    let mut link = ControlLink::new("client");
    assert!(!link.is_held());
    let first = link.acquire();
    assert_eq!(first, Some("client"));
    assert!(link.is_held());
    assert_eq!(link.acquire(), None);
    assert_eq!(link.acquire(), None);
    assert_eq!(link.release("client"), None);
    assert!(!link.is_held());
    assert_eq!(link.acquire(), Some("client"));
}

#[test]
fn full_slot_keeps_what_it_has() {
    let mut link = ControlLink::new(1);
    assert_eq!(link.release(2), Some(2));
    assert_eq!(link.acquire(), Some(1));
}

#[test]
fn new_state_knows_no_application() {
    let address = TransportType::VsockConnection { cid: 3, port: 5552 };
    let state = DugongState::new(7u8, address);
    assert_eq!(*state.transport_type(), address);
    assert!(state.supported_apps().is_empty());
    assert!(!state.trichechus_client().is_held());
}

#[test]
fn registered_apps_replace_the_manifest() {
    let mut state = DugongState::new((), TransportType::IpConnection { addr: 1, port: 2 });
    let mut apps = Manifest::new();
    apps.insert(ManifestEntry::new("app-a".to_string(), "/a".to_string(), Some(true)));
    state.register_supported_apps(apps);
    assert_eq!(state.supported_apps().len(), 1);
    assert!(state.supported_apps().lookup("app-a").is_some());
    state.register_supported_apps(Manifest::new());
    assert!(state.supported_apps().lookup("app-a").is_none());
    assert_eq!(*state.transport_type(), TransportType::IpConnection { addr: 1, port: 2 });
}

#[test]
fn state_lends_its_link_exclusively() {
    let mut state = DugongState::new(String::from("rpc"), TransportType::VsockConnection { cid: 1, port: 2 });
    let client = state.acquire_link();
    assert_eq!(client, Some(String::from("rpc")));
    assert!(state.trichechus_client().is_held());
    assert_eq!(state.acquire_link(), None);
    assert_eq!(state.release_link(client.unwrap()), None);
    assert!(!state.trichechus_client().is_held());
    assert_eq!(state.release_link(String::from("other")), Some(String::from("other")));
    assert_eq!(state.acquire_link(), Some(String::from("rpc")));
}

use dugong::error::{BrokerError, LinkError, PeerError, PolicyError};

#[test]
fn messages_of_each_failure() {
    assert_eq!(PeerError::AppNotLoaded.message(), "app not loaded");
    assert_eq!(PeerError::Other("out of memory".to_string()).message(), "out of memory");
    assert_eq!(PolicyError::AppNotFound.message(), "app not found");
    assert_eq!(PolicyError::UnverifiedNotAllowed.message(), "unverified app not allowed");
    assert_eq!(BrokerError::Policy(PolicyError::AppNotFound).message(), "app not found");
    assert_eq!(BrokerError::PeerApplication(PeerError::AppNotLoaded).message(), "app not loaded");
    assert_eq!(BrokerError::Transport("eof".to_string()).message(), "eof");
    assert_eq!(BrokerError::LocalIo("denied".to_string()).message(), "denied");
}

#[test]
fn link_errors_surface_by_kind() {
    assert_eq!(
        LinkError::Peer(PeerError::AppNotLoaded).surface(),
        BrokerError::PeerApplication(PeerError::AppNotLoaded)
    );
    assert_eq!(
        LinkError::Peer(PeerError::Other("x".to_string())).surface(),
        BrokerError::PeerApplication(PeerError::Other("x".to_string()))
    );
    assert_eq!(LinkError::Transport("eof".to_string()).surface(), BrokerError::Transport("eof".to_string()));
}

#[test]
fn only_a_broken_connection_is_a_transport_error() {
    assert!(LinkError::Transport("eof".to_string()).is_transport());
    assert!(!LinkError::Peer(PeerError::AppNotLoaded).is_transport());
    assert!(!LinkError::Peer(PeerError::Other("x".to_string())).is_transport());
}

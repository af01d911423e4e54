use dugong::ippusb_bridge::{sigint_handler, Error, SigintAction};

#[test]
fn first_interrupt_wakes_pollers() {
    assert_eq!(sigint_handler(false, 7), (SigintAction::Notify { fd: 7 }, true));
    assert_eq!(sigint_handler(false, 0), (SigintAction::Notify { fd: 0 }, true));
}

#[test]
fn first_interrupt_without_descriptor_only_raises_the_flag() {
    assert_eq!(sigint_handler(false, -1), (SigintAction::Nothing, true));
}

#[test]
fn second_interrupt_forces_exit() {
    let (_, requested) = sigint_handler(false, 7);
    assert_eq!(sigint_handler(requested, 7), (SigintAction::ForceExit, true));
    assert_eq!(sigint_handler(true, -1), (SigintAction::ForceExit, true));
}

#[test]
fn bridge_error_messages() {
    assert_eq!(Error::EventFd("EMFILE".to_string()).message(), "Failed to create/duplicate EventFd: EMFILE");
    assert_eq!(Error::ParseArgs("bad flag".to_string()).message(), "Failed to parse arguments: bad flag");
    assert_eq!(
        Error::RegisterHandler("EINVAL".to_string()).message(),
        "Registering SIGINT handler failed: EINVAL"
    );
    assert_eq!(Error::SysUtil("EIO".to_string()).message(), "Sysutil error: EIO");
}

#[test]
fn syslog_error_messages() {
    assert_eq!(
        dugong::syslog::Error::SyslogUnix("no socket".to_string()).message(),
        "unix socket syslog setup failed: no socket"
    );
    assert_eq!(
        dugong::syslog::Error::SetLoggerError("already set".to_string()).message(),
        "failed to set logger: already set"
    );
}

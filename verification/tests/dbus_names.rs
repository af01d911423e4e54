use dugong::dbus_names::{
    dbus_identifier, interface_name, object_path, INTERFACE_PREFIX, PATH_PREFIX, SERVICE_NAME, SERVICE_PATH,
    START_METHOD,
};

#[test]
fn hyphens_become_underscores() {
    assert_eq!(dbus_identifier("app-a"), "app_a");
    assert_eq!(dbus_identifier("demo-app-2"), "demo_app_2");
    assert_eq!(dbus_identifier("--"), "__");
}

#[test]
fn other_characters_stay() {
    assert_eq!(dbus_identifier("shell"), "shell");
    assert_eq!(dbus_identifier("a_b.c"), "a_b.c");
    assert_eq!(dbus_identifier(""), "");
    assert_eq!(dbus_identifier("caf\u{e9}-\u{2013}"), "caf\u{e9}_\u{2013}");
}

#[test]
fn names_of_an_application_on_the_bus() {
    assert_eq!(interface_name("demo-app"), "org.chromium.manatee.demo_app");
    assert_eq!(object_path("demo-app"), "/org/chromium/ManaTEE1/demo_app");
}

#[test]
fn names_of_the_broker_on_the_bus() {
    assert_eq!(SERVICE_NAME, "org.chromium.ManaTEE");
    assert_eq!(SERVICE_PATH, "/org/chromium/ManaTEE1");
    assert_eq!(START_METHOD, "StartInstance");
    assert_eq!(INTERFACE_PREFIX, "org.chromium.manatee.");
    assert_eq!(PATH_PREFIX, "/org/chromium/ManaTEE1/");
}

use wifi_manager::actor::{Action, Event, WifiActor, WifiCommand};
use wifi_manager::config::{AccessPointConfig, AuthMethod, ClientNetworkConfig, ConfigStore};
use wifi_manager::engine::{
    make_client_target, select_network, DriverError, RadioTarget, ScanEntry, WifiError, WifiStatus,
};

fn s(text: &str) -> String {
    text.to_string()
}

fn entry(name: &str, strength: u8) -> ScanEntry {
    ScanEntry { ssid: s(name), signal_strength: strength }
}

fn client(name: &str, key: &str) -> ClientNetworkConfig {
    ClientNetworkConfig { ssid: s(name), password: s(key), channel: None }
}

fn ap(name: &str, key: &str) -> AccessPointConfig {
    AccessPointConfig {
        ssid: s(name),
        password: s(key),
        channel: 1,
        auth_method: AuthMethod::Wpa2Wpa3Personal,
    }
}

fn connect(name: &str, key: &str) -> Event {
    Event::Command(WifiCommand::ConnectWPA2PSK(s(name), s(key)))
}

fn create_ap(name: &str, key: &str) -> Event {
    Event::Command(WifiCommand::CreateApWPA2PSK(s(name), s(key)))
}

fn step(actor: &mut WifiActor, ev: Event) -> Action {
    assert!(actor.accepts(&ev));
    actor.step(ev)
}

#[test]
fn distinct_registrations_give_one_entry_each() {
    let mut store = ConfigStore::new();
    store.register_client(s("a"), s("ka"));
    store.register_client(s("b"), s("kb"));
    store.register_client(s("c"), s("kc"));
    assert_eq!(store.client_count(), 3);
    assert_eq!(store.lookup_client(&s("a")), Some(&client("a", "ka")));
    assert_eq!(store.lookup_client(&s("b")), Some(&client("b", "kb")));
    assert_eq!(store.lookup_client(&s("c")), Some(&client("c", "kc")));
    assert_eq!(store.lookup_client(&s("d")), None);
}

#[test]
fn re_registration_overwrites_key() {
    let mut store = ConfigStore::new();
    store.register_client(s("home"), s("old"));
    store.register_client(s("work"), s("w"));
    store.register_client(s("home"), s("new"));
    assert_eq!(store.client_count(), 2);
    assert_eq!(store.lookup_client(&s("home")), Some(&client("home", "new")));
    assert_eq!(store.lookup_client(&s("work")), Some(&client("work", "w")));
}

#[test]
fn empty_store_has_no_clients() {
    let store = ConfigStore::new();
    assert!(store.has_no_clients());
    assert_eq!(store.client_count(), 0);
    assert_eq!(store.access_point(), &None);
}

#[test]
fn set_access_point_replaces_earlier_one() {
    let mut store = ConfigStore::new();
    store.set_access_point(s("first"), s("k1"));
    store.set_access_point(s("second"), s("k2"));
    assert_eq!(store.access_point(), &Some(ap("second", "k2")));
    assert!(store.has_no_clients());
}

#[test]
fn client_only_connects_to_scanned_network() {
    let mut actor = WifiActor::new();
    assert_eq!(step(&mut actor, connect("home", "secret")), Action::Scan);
    let scan = vec![entry("cafe", 70), entry("home", 33)];
    assert_eq!(
        step(&mut actor, Event::ScanFinished(Ok(scan))),
        Action::Apply(RadioTarget::Client(client("home", "secret")))
    );
    assert_eq!(
        step(&mut actor, Event::ApplyFinished(Ok(()))),
        Action::Report(WifiStatus::Connected(s("home"), 33))
    );
}

#[test]
fn access_point_alone_needs_no_scan() {
    let mut actor = WifiActor::new();
    assert_eq!(
        step(&mut actor, create_ap("bricc", "showscreen")),
        Action::Apply(RadioTarget::AccessPointOnly(ap("bricc", "showscreen")))
    );
    assert_eq!(
        step(&mut actor, Event::ApplyFinished(Ok(()))),
        Action::Report(WifiStatus::ApOnly(s("bricc")))
    );
}

#[test]
fn access_point_and_client_give_mixed_target() {
    let mut actor = WifiActor::new();
    step(&mut actor, create_ap("spot", "pw"));
    step(&mut actor, Event::ApplyFinished(Ok(())));
    assert_eq!(step(&mut actor, connect("net", "key")), Action::Scan);
    assert_eq!(
        step(&mut actor, Event::ScanFinished(Ok(vec![entry("net", 5)]))),
        Action::Apply(RadioTarget::Mixed(client("net", "key"), ap("spot", "pw")))
    );
    assert_eq!(
        step(&mut actor, Event::ApplyFinished(Ok(()))),
        Action::Report(WifiStatus::Connected(s("net"), 5))
    );
}

#[test]
fn no_known_network_in_scan_reports_disconnected() {
    let mut actor = WifiActor::new();
    step(&mut actor, connect("home", "secret"));
    let scan = vec![entry("x", 1), entry("y", 2)];
    assert_eq!(
        step(&mut actor, Event::ScanFinished(Ok(scan))),
        Action::Report(WifiStatus::Disconnected)
    );
    assert_eq!(actor.store().client_count(), 1);
    assert_eq!(actor.store().lookup_client(&s("home")), Some(&client("home", "secret")));
    assert_eq!(actor.store().access_point(), &None);
}

#[test]
fn empty_scan_reports_disconnected() {
    let mut actor = WifiActor::new();
    step(&mut actor, connect("home", "secret"));
    assert_eq!(
        step(&mut actor, Event::ScanFinished(Ok(Vec::new()))),
        Action::Report(WifiStatus::Disconnected)
    );
}

#[test]
fn earlier_scan_entry_wins_over_stronger_one() {
    let mut store = ConfigStore::new();
    store.register_client(s("strong"), s("k1"));
    store.register_client(s("weak"), s("k2"));
    let scan = vec![entry("other", 90), entry("weak", 10), entry("strong", 99)];
    assert_eq!(select_network(&store, &scan), Some(1));

    let mut actor = WifiActor::new();
    step(&mut actor, connect("strong", "k1"));
    step(&mut actor, Event::ScanFinished(Ok(Vec::new())));
    step(&mut actor, connect("weak", "k2"));
    let scan = vec![entry("weak", 10), entry("strong", 99)];
    assert_eq!(
        step(&mut actor, Event::ScanFinished(Ok(scan))),
        Action::Apply(RadioTarget::Client(client("weak", "k2")))
    );
    assert_eq!(
        step(&mut actor, Event::ApplyFinished(Ok(()))),
        Action::Report(WifiStatus::Connected(s("weak"), 10))
    );
}

#[test]
fn duplicate_scan_entries_use_first_strength() {
    let mut store = ConfigStore::new();
    store.register_client(s("home"), s("k"));
    let scan = vec![entry("home", 20), entry("home", 80)];
    assert_eq!(select_network(&store, &scan), Some(0));
    assert_eq!(select_network(&store, &vec![entry("away", 3)]), None);
}

#[test]
fn client_target_with_and_without_access_point() {
    let mut store = ConfigStore::new();
    store.register_client(s("home"), s("k"));
    let c = client("home", "k");
    assert_eq!(make_client_target(&store, &c), RadioTarget::Client(client("home", "k")));
    store.set_access_point(s("spot"), s("pw"));
    assert_eq!(
        make_client_target(&store, &c),
        RadioTarget::Mixed(client("home", "k"), ap("spot", "pw"))
    );
}

#[test]
fn end_to_end_access_point_then_client() {
    let mut actor = WifiActor::new();
    assert_eq!(
        step(&mut actor, create_ap("bricc", "showscreen")),
        Action::Apply(RadioTarget::AccessPointOnly(ap("bricc", "showscreen")))
    );
    assert_eq!(
        step(&mut actor, Event::ApplyFinished(Ok(()))),
        Action::Report(WifiStatus::ApOnly(s("bricc")))
    );
    assert_eq!(step(&mut actor, connect("home", "secret")), Action::Scan);
    let scan = vec![entry("other", 10), entry("home", 40)];
    assert_eq!(
        step(&mut actor, Event::ScanFinished(Ok(scan))),
        Action::Apply(RadioTarget::Mixed(client("home", "secret"), ap("bricc", "showscreen")))
    );
    assert_eq!(
        step(&mut actor, Event::ApplyFinished(Ok(()))),
        Action::Report(WifiStatus::Connected(s("home"), 40))
    );
}

#[test]
fn idle_tick_reports_disconnected_and_keeps_store() {
    let mut actor = WifiActor::new();
    step(&mut actor, create_ap("bricc", "showscreen"));
    step(&mut actor, Event::ApplyFinished(Ok(())));
    assert_eq!(step(&mut actor, Event::Timeout), Action::Report(WifiStatus::Disconnected));
    assert_eq!(actor.store().access_point(), &Some(ap("bricc", "showscreen")));
    assert_eq!(actor.store().client_count(), 0);
    assert!(actor.accepts(&Event::Timeout));
}

#[test]
fn idle_tick_on_fresh_manager() {
    let mut actor = WifiActor::new();
    assert_eq!(step(&mut actor, Event::Timeout), Action::Report(WifiStatus::Disconnected));
    assert!(actor.store().has_no_clients());
    assert_eq!(actor.store().access_point(), &None);
}

#[test]
fn scan_failure_reports_fatal_error() {
    let mut actor = WifiActor::new();
    step(&mut actor, connect("home", "secret"));
    assert_eq!(
        step(&mut actor, Event::ScanFinished(Err(DriverError { code: 261 }))),
        Action::Report(WifiStatus::Error(WifiError::Fatal(s(
            "Unknown error during wifi operation"
        ))))
    );
}

#[test]
fn access_point_failure_reports_fatal_error() {
    let mut actor = WifiActor::new();
    step(&mut actor, create_ap("bricc", "showscreen"));
    assert_eq!(
        step(&mut actor, Event::ApplyFinished(Err(DriverError { code: -1 }))),
        Action::Report(WifiStatus::Error(WifiError::Fatal(s("Failed to create AP"))))
    );
}

#[test]
fn client_apply_failure_reports_network_error_without_fallback() {
    let mut actor = WifiActor::new();
    step(&mut actor, connect("a", "ka"));
    step(&mut actor, Event::ScanFinished(Ok(Vec::new())));
    step(&mut actor, connect("b", "kb"));
    let scan = vec![entry("a", 50), entry("b", 60)];
    assert_eq!(
        step(&mut actor, Event::ScanFinished(Ok(scan))),
        Action::Apply(RadioTarget::Client(client("a", "ka")))
    );
    assert_eq!(
        step(&mut actor, Event::ApplyFinished(Err(DriverError { code: 12 }))),
        Action::Report(WifiStatus::Error(WifiError::NetworkNotFound(s("a"))))
    );
    assert!(actor.accepts(&Event::Timeout));
}

#[test]
fn driver_error_converts_to_fatal() {
    assert_eq!(
        WifiError::from(DriverError { code: 5 }),
        WifiError::Fatal(s("Unknown error during wifi operation"))
    );
}

#[test]
fn manager_accepts_only_awaited_events() {
    let mut actor = WifiActor::new();
    assert!(actor.accepts(&Event::Timeout));
    assert!(!actor.accepts(&Event::ApplyFinished(Ok(()))));
    assert!(!actor.accepts(&Event::ScanFinished(Ok(Vec::new()))));
    step(&mut actor, connect("home", "k"));
    assert!(actor.accepts(&Event::ScanFinished(Ok(Vec::new()))));
    assert!(!actor.accepts(&Event::Timeout));
    assert!(!actor.accepts(&connect("x", "y")));
}

#[test]
fn new_configs_have_expected_fields() {
    assert_eq!(ClientNetworkConfig::new(s("n"), s("k")), client("n", "k"));
    assert_eq!(AccessPointConfig::new(s("n"), s("k")), ap("n", "k"));
    assert_eq!(ap("n", "k").duplicate(), ap("n", "k"));
    assert_eq!(client("n", "k").duplicate(), client("n", "k"));
}

use std::collections::HashMap;

use ambient_lamp::color::{black, blue};
use ambient_lamp::led::Led;
use ambient_lamp::setup::{Provisioning, SetupAction, SetupEvent, SetupPhase, WifiCredentials, WIFI_NVS_NAME};
use ambient_lamp::storage::{PostcardSerDe, SerDeError};

fn creds(ssid: &str, password: &str) -> WifiCredentials {
    WifiCredentials { ssid: ssid.to_string(), password: password.to_string() }
}

#[test]
fn fresh_device_provisions_then_boots_from_storage() {
    let mut store: HashMap<String, Vec<u8>> = HashMap::new();
    let serde = PostcardSerDe;

    let mut led = Led::new();
    let mut p = Provisioning::new();
    let stored = store.get(WIFI_NVS_NAME).map(|b| serde.deserialize(b).unwrap());
    assert!(matches!(p.step(&mut led, SetupEvent::Stored(stored), 0), SetupAction::OpenAccessPoint));
    match p.step(&mut led, SetupEvent::AccessPointOpen, 0) {
        SetupAction::Wait { color } => assert_eq!(color, blue()),
        other => panic!("unexpected {other:?}"),
    }
    assert!(matches!(p.step(&mut led, SetupEvent::Polled(None), 500), SetupAction::Wait { .. }));
    assert_eq!(led.color().value, 10000);

    let q: HashMap<String, String> = serde_qs::from_str("ssid=HomeNet&password=secret1").unwrap();
    let submitted = creds(&q["ssid"], &q["password"]);
    match p.step(&mut led, SetupEvent::Polled(Some(submitted)), 700) {
        SetupAction::Persist { credentials, color } => {
            assert_eq!(credentials.ssid, "HomeNet");
            assert_eq!(credentials.password, "secret1");
            assert_eq!(color, black());
            store.insert(WIFI_NVS_NAME.to_string(), serde.serialize(&credentials).unwrap());
        }
        other => panic!("unexpected {other:?}"),
    }
    assert_eq!(p.phase, SetupPhase::Handoff);
    assert_eq!(led.color(), black());

    let mut led = Led::new();
    let mut p = Provisioning::new();
    let stored = store.get(WIFI_NVS_NAME).map(|b| serde.deserialize(b).unwrap());
    match p.step(&mut led, SetupEvent::Stored(stored), 0) {
        SetupAction::HandOff { credentials } => {
            assert_eq!(credentials.ssid, "HomeNet");
            assert_eq!(credentials.password, "secret1");
        }
        other => panic!("unexpected {other:?}"),
    }
    assert_eq!(p.phase, SetupPhase::Handoff);
}

#[test]
fn reset_sends_device_back_to_access_point() {
    let mut store: HashMap<String, Vec<u8>> = HashMap::new();
    store.insert(WIFI_NVS_NAME.to_string(), PostcardSerDe.serialize(&creds("HomeNet", "secret1")).unwrap());
    store.remove(WIFI_NVS_NAME);
    let mut led = Led::new();
    let mut p = Provisioning::new();
    assert!(store.get(WIFI_NVS_NAME).is_none());
    assert!(matches!(p.step(&mut led, SetupEvent::Stored(None), 0), SetupAction::OpenAccessPoint));
    assert_eq!(p.phase, SetupPhase::OpeningAccessPoint);
}

#[test]
fn events_out_of_turn_are_ignored() {
    let mut led = Led::new();
    let mut p = Provisioning::new();
    assert!(matches!(p.step(&mut led, SetupEvent::Polled(Some(creds("a", "b"))), 0), SetupAction::Ignore));
    assert!(matches!(p.step(&mut led, SetupEvent::AccessPointOpen, 0), SetupAction::Ignore));
    assert_eq!(p.phase, SetupPhase::CheckStorage);
    assert_eq!(led.color(), Led::new().color());
}

#[test]
fn handoff_is_one_way() {
    let mut led = Led::new();
    let mut p = Provisioning::new();
    p.step(&mut led, SetupEvent::Stored(Some(creds("n", "p"))), 0);
    assert!(matches!(p.step(&mut led, SetupEvent::Stored(None), 0), SetupAction::Ignore));
    assert_eq!(p.phase, SetupPhase::Handoff);
}

#[test]
fn record_layout_is_postcard() {
    let bytes = PostcardSerDe.serialize(&creds("HomeNet", "secret1")).unwrap();
    let mut expected = vec![7u8];
    expected.extend_from_slice(b"HomeNet");
    expected.push(7);
    expected.extend_from_slice(b"secret1");
    assert_eq!(bytes, expected);
}

#[test]
fn oversized_record_is_refused() {
    let long = "x".repeat(600);
    assert_eq!(PostcardSerDe.serialize(&creds(&long, "p")).unwrap_err(), SerDeError::BufferFull);
}

#[test]
fn malformed_record_is_refused() {
    assert_eq!(PostcardSerDe.deserialize(&[9, 1, 2]).unwrap_err(), SerDeError::Malformed);
}

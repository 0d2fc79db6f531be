use bluetooi::device::{DeviceInfo, PairingState};
use bluetooi::error::ManagerError;
use bluetooi::registry::DeviceRegistry;

fn record(address: &str, state: PairingState) -> DeviceInfo {
    DeviceInfo {
        address: address.to_string(),
        device_name: format!("dev {}", address),
        device_type: String::new(),
        trusted: false,
        pairing_state: state,
        battery: None,
    }
}

fn addresses(r: &DeviceRegistry) -> Vec<String> {
    r.snapshot().into_iter().map(|d| d.address).collect()
}

#[test]
fn upsert_appends_new_addresses_in_order() {
    let mut r = DeviceRegistry::new();
    assert!(r.is_empty());
    r.upsert(record("AA:AA:AA:AA:AA:01", PairingState::Unpaired));
    r.upsert(record("AA:AA:AA:AA:AA:02", PairingState::Paired));
    assert_eq!(r.len(), 2);
    assert_eq!(addresses(&r), vec!["AA:AA:AA:AA:AA:01", "AA:AA:AA:AA:AA:02"]);
}

#[test]
fn upsert_same_address_replaces_in_place() {
    let mut r = DeviceRegistry::new();
    r.upsert(record("AA:AA:AA:AA:AA:01", PairingState::Unpaired));
    r.upsert(record("AA:AA:AA:AA:AA:02", PairingState::Unpaired));
    r.upsert(record("AA:AA:AA:AA:AA:01", PairingState::Connected));
    assert_eq!(r.len(), 2);
    assert_eq!(addresses(&r), vec!["AA:AA:AA:AA:AA:01", "AA:AA:AA:AA:AA:02"]);
    assert_eq!(r.get(0).pairing_state, PairingState::Connected);
}

#[test]
fn registry_never_holds_an_address_twice() {
    let mut r = DeviceRegistry::new();
    for i in 0..5 {
        r.upsert(record("AA:AA:AA:AA:AA:01", PairingState::Unpaired));
        r.upsert(record(&format!("AA:AA:AA:AA:AA:1{}", i), PairingState::Paired));
    }
    let a = addresses(&r);
    let mut d = a.clone();
    d.sort();
    d.dedup();
    assert_eq!(a.len(), d.len());
    assert_eq!(a.len(), 6);
}

#[test]
fn remove_present_address() {
    let mut r = DeviceRegistry::new();
    r.upsert(record("AA:AA:AA:AA:AA:01", PairingState::Unpaired));
    r.upsert(record("AA:AA:AA:AA:AA:02", PairingState::Unpaired));
    r.upsert(record("AA:AA:AA:AA:AA:03", PairingState::Unpaired));
    assert_eq!(r.remove(&"AA:AA:AA:AA:AA:02".to_string()), Ok(()));
    assert_eq!(addresses(&r), vec!["AA:AA:AA:AA:AA:01", "AA:AA:AA:AA:AA:03"]);
    assert!(!r.contains(&"AA:AA:AA:AA:AA:02".to_string()));
}

#[test]
fn remove_absent_address_is_not_found() {
    let mut r = DeviceRegistry::new();
    r.upsert(record("AA:AA:AA:AA:AA:01", PairingState::Unpaired));
    assert_eq!(r.remove(&"AA:AA:AA:AA:AA:09".to_string()), Err(ManagerError::NotFound));
    assert_eq!(addresses(&r), vec!["AA:AA:AA:AA:AA:01"]);
}

#[test]
fn remove_from_empty_registry_is_not_found() {
    let mut r = DeviceRegistry::new();
    assert_eq!(r.remove(&"AA:AA:AA:AA:AA:01".to_string()), Err(ManagerError::NotFound));
    assert!(r.is_empty());
}

#[test]
fn purge_drops_only_unpaired_records() {
    let mut r = DeviceRegistry::new();
    r.upsert(record("AA:AA:AA:AA:AA:01", PairingState::Unpaired));
    r.upsert(record("AA:AA:AA:AA:AA:02", PairingState::Connected));
    r.upsert(record("AA:AA:AA:AA:AA:03", PairingState::Unpaired));
    r.upsert(record("AA:AA:AA:AA:AA:04", PairingState::Paired));
    r.purge_unpaired();
    assert_eq!(addresses(&r), vec!["AA:AA:AA:AA:AA:02", "AA:AA:AA:AA:AA:04"]);
    assert_eq!(r.get(0).pairing_state, PairingState::Connected);
    assert_eq!(r.get(1).pairing_state, PairingState::Paired);
}

#[test]
fn position_finds_the_record() {
    let mut r = DeviceRegistry::new();
    r.upsert(record("AA:AA:AA:AA:AA:01", PairingState::Unpaired));
    r.upsert(record("AA:AA:AA:AA:AA:02", PairingState::Unpaired));
    assert_eq!(r.position(&"AA:AA:AA:AA:AA:02".to_string()), Some(1));
    assert_eq!(r.position(&"AA:AA:AA:AA:AA:05".to_string()), None);
}

use bluetooi::actions::{dis_connect_plan, forget_device, record_paired, DeviceOp, PlannedOp};
use bluetooi::cache::{CacheOp, PairedCache};
use bluetooi::device::{DeviceProps, PairingState};
use bluetooi::error::ManagerError;
use bluetooi::registry::DeviceRegistry;
use bluetooi::scan::{begin_scan, scan_event, ScanOutcome, ScanSession};

fn props(address: &str, paired: bool) -> DeviceProps {
    DeviceProps {
        address: address.to_string(),
        name: Some("Keyboard".to_string()),
        icon: Some("input-keyboard".to_string()),
        trusted: false,
        paired,
        connected: false,
        battery: None,
    }
}

#[test]
fn toggle_connect_on_unpaired_pairs_then_connects() {
    assert_eq!(
        dis_connect_plan(PairingState::Unpaired),
        vec![
            PlannedOp { op: DeviceOp::Pair, report_failure: false },
            PlannedOp { op: DeviceOp::Connect, report_failure: true },
        ]
    );
}

#[test]
fn toggle_connect_on_connected_disconnects() {
    assert_eq!(
        dis_connect_plan(PairingState::Connected),
        vec![PlannedOp { op: DeviceOp::Disconnect, report_failure: true }]
    );
}

#[test]
fn toggle_connect_on_paired_connects() {
    assert_eq!(
        dis_connect_plan(PairingState::Paired),
        vec![PlannedOp { op: DeviceOp::Connect, report_failure: true }]
    );
}

#[test]
fn pairing_marks_the_device_once() {
    let mut r = DeviceRegistry::new();
    let mut k = PairedCache::new();
    let a = "AA:BB:CC:DD:EE:01";
    assert_eq!(
        record_paired(&mut r, &mut k, &props(a, true)),
        Some(CacheOp::Create(a.to_string()))
    );
    assert_eq!(record_paired(&mut r, &mut k, &props(a, true)), None);
    assert_eq!(r.len(), 1);
    assert_eq!(r.get(0).pairing_state, PairingState::Paired);
    assert!(k.contains(&a.to_string()));
}

#[test]
fn forget_present_device() {
    let mut r = DeviceRegistry::new();
    let mut k = PairedCache::new();
    let a = "AA:BB:CC:DD:EE:01".to_string();
    record_paired(&mut r, &mut k, &props(&a, true));
    assert_eq!(forget_device(&mut r, &mut k, &a), Ok(CacheOp::Delete(a.clone())));
    assert!(!r.contains(&a));
    assert!(!k.contains(&a));
}

#[test]
fn forget_absent_device_is_not_found() {
    let mut r = DeviceRegistry::new();
    let mut k = PairedCache::new();
    k.insert("AA:BB:CC:DD:EE:02".to_string());
    assert_eq!(
        forget_device(&mut r, &mut k, &"AA:BB:CC:DD:EE:02".to_string()),
        Err(ManagerError::NotFound)
    );
    assert_eq!(k.len(), 1);
    assert_eq!(r.len(), 0);
}

#[test]
fn scan_pair_forget_leaves_no_trace() {
    let mut s = ScanSession::new();
    let mut r = DeviceRegistry::new();
    let mut k = PairedCache::new();
    record_paired(&mut r, &mut k, &props("AA:BB:CC:DD:EE:00", true));
    begin_scan(&mut s, &mut r, 0).unwrap();
    let before: Vec<String> = r.snapshot().into_iter().map(|d| d.address).collect();
    let a = "AA:BB:CC:DD:EE:07".to_string();
    assert_eq!(scan_event(&mut s, &mut r, &mut k, &props(&a, false), 1), ScanOutcome::Stored);
    assert_eq!(r.len(), 2);
    record_paired(&mut r, &mut k, &props(&a, true));
    assert_eq!(k.len(), 2);
    assert_eq!(forget_device(&mut r, &mut k, &a), Ok(CacheOp::Delete(a.clone())));
    let after: Vec<String> = r.snapshot().into_iter().map(|d| d.address).collect();
    assert_eq!(before, after);
    assert_eq!(k.len(), 1);
    assert_eq!(k.get(0), "AA:BB:CC:DD:EE:00");
}

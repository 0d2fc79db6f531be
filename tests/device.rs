use bluetooi::device::{pairing_state_of, DeviceInfo, DeviceProps, PairingState};
use bluetooi::display::{
    battery_glyph, battery_label, border_tint, decimal_label, pairing_label, row_is_bold,
    row_text, row_tint, trusted_label, Tint,
};
use bluetooi::icons::{build_icon_map, category_for_lowercase, category_of, text_contains};

fn props(address: &str, name: Option<&str>, icon: Option<&str>) -> DeviceProps {
    DeviceProps {
        address: address.to_string(),
        name: name.map(|n| n.to_string()),
        icon: icon.map(|i| i.to_string()),
        trusted: false,
        paired: false,
        connected: false,
        battery: None,
    }
}

#[test]
fn icon_map_has_every_keyword() {
    let m = build_icon_map();
    assert_eq!(m.len(), 12);
    assert_eq!(m[0], ("headset", "\u{ee59}"));
    assert_eq!(m[10], ("unknown", "\u{eb32}"));
    assert_eq!(m[11], ("tv", "\u{f26c}"));
}

#[test]
fn contains_finds_substrings() {
    assert!(text_contains("audio-headset", "headset"));
    assert!(text_contains("abc", ""));
    assert!(text_contains("abc", "abc"));
    assert!(!text_contains("ab", "abc"));
    assert!(!text_contains("audio-card", "cart"));
}

#[test]
fn longest_keyword_wins() {
    // "audio-headphones" holds both "headphone" and "phone".
    assert_eq!(category_for_lowercase("audio-headphones"), "\u{f025}");
    assert_eq!(category_for_lowercase("phone"), "\u{f10b}");
    assert_eq!(category_for_lowercase("input-gaming"), "\u{f02b4}");
    assert_eq!(category_for_lowercase("input-mouse"), "\u{efba}");
}

#[test]
fn unmatched_hint_is_unknown() {
    assert_eq!(category_for_lowercase("computer"), "\u{eb32}");
    assert_eq!(category_for_lowercase(""), "\u{eb32}");
}

#[test]
fn icon_hint_is_lowercased() {
    assert_eq!(category_of(&Some("Audio-HEADSET".to_string())), "\u{ee59}");
    assert_eq!(category_of(&None), "\u{eb32}");
}

#[test]
fn state_from_flags() {
    assert_eq!(pairing_state_of(false, false), PairingState::Unpaired);
    assert_eq!(pairing_state_of(true, false), PairingState::Paired);
    assert_eq!(pairing_state_of(true, true), PairingState::Connected);
    assert_eq!(pairing_state_of(false, true), PairingState::Connected);
}

#[test]
fn record_from_properties() {
    let mut p = props("AA:BB:CC:DD:EE:FF", Some("Buds"), Some("audio-headphones"));
    p.trusted = true;
    p.paired = true;
    p.connected = true;
    p.battery = Some(80);
    let d = DeviceInfo::from_props(&p);
    assert_eq!(d.address, "AA:BB:CC:DD:EE:FF");
    assert_eq!(d.device_name, "Buds");
    assert_eq!(d.device_type, "\u{f025}");
    assert!(d.trusted);
    assert_eq!(d.pairing_state, PairingState::Connected);
    assert_eq!(d.battery, Some(80));
}

#[test]
fn record_defaults() {
    let mut p = props("AA:BB:CC:DD:EE:FF", None, None);
    p.battery = Some(50);
    let d = DeviceInfo::from_props(&p);
    assert_eq!(d.device_name, "Unknown");
    assert_eq!(d.device_type, "\u{eb32}");
    assert_eq!(d.pairing_state, PairingState::Unpaired);
    assert_eq!(d.battery, None);
}

#[test]
fn labels() {
    assert_eq!(trusted_label(true), "T");
    assert_eq!(trusted_label(false), " ");
    assert_eq!(pairing_label(PairingState::Connected), "\u{ee29}");
    assert_eq!(pairing_label(PairingState::Paired), "\u{f00c}");
    assert_eq!(pairing_label(PairingState::Unpaired), " ");
}

#[test]
fn decimal_forms() {
    assert_eq!(decimal_label(0), "0");
    assert_eq!(decimal_label(7), "7");
    assert_eq!(decimal_label(42), "42");
    assert_eq!(decimal_label(100), "100");
    assert_eq!(decimal_label(255), "255");
}

#[test]
fn battery_glyph_thresholds() {
    assert_eq!(battery_glyph(76), "\u{f0079}");
    assert_eq!(battery_glyph(75), "\u{f0080}");
    assert_eq!(battery_glyph(51), "\u{f0080}");
    assert_eq!(battery_glyph(50), "\u{f007e}");
    assert_eq!(battery_glyph(26), "\u{f007e}");
    assert_eq!(battery_glyph(25), "\u{f007b}");
    assert_eq!(battery_glyph(2), "\u{f007b}");
    assert_eq!(battery_glyph(1), " ");
}

#[test]
fn battery_column() {
    assert_eq!(battery_label(PairingState::Connected, Some(80)), "80% \u{f0079}");
    assert_eq!(battery_label(PairingState::Connected, None), "0%  ");
    assert_eq!(battery_label(PairingState::Paired, Some(80)), " ");
}

#[test]
fn row_of_connected_device() {
    let d = DeviceInfo {
        address: "AA:BB:CC:DD:EE:FF".to_string(),
        device_name: "Buds".to_string(),
        device_type: "\u{f025}".to_string(),
        trusted: true,
        pairing_state: PairingState::Connected,
        battery: Some(30),
    };
    assert_eq!(
        row_text(&d),
        "T | \u{ee29}     \u{f025}    [AA:BB:CC:DD:EE:FF] Buds 30% \u{f007e} "
    );
}

#[test]
fn row_and_border_tints() {
    assert!(row_is_bold(PairingState::Connected));
    assert!(!row_is_bold(PairingState::Paired));
    assert_eq!(row_tint(PairingState::Connected, true), Tint::LightGreen);
    assert_eq!(row_tint(PairingState::Connected, false), Tint::Red);
    assert_eq!(row_tint(PairingState::Paired, true), Tint::White);
    assert_eq!(border_tint(true, false), Tint::LightYellow);
    assert_eq!(border_tint(false, true), Tint::White);
    assert_eq!(border_tint(false, false), Tint::Red);
}

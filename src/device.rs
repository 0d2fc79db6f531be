use vstd::prelude::*;
use vstd::string::*;
use crate::icons::{category_of, category_spec, lower_of};

verus! {

/// How far a device has gone through pairing and connection.
/// `Connected` implies that the device is also paired.
#[derive(Clone, Copy, Debug, PartialEq, Eq, Structural)]
pub enum PairingState {
    Unpaired,
    Paired,
    Connected,
}

/// The abstract content of a device record.
pub ghost struct DeviceModel {
    pub address: Seq<char>,
    pub device_name: Seq<char>,
    pub device_type: Seq<char>,
    pub trusted: bool,
    pub pairing_state: PairingState,
    pub battery: Option<u8>,
}

/// One row of the device list, keyed by the device's canonical address.
#[derive(Clone, Debug)]
pub struct DeviceInfo {
    pub address: String,
    pub device_name: String,
    pub device_type: String,
    pub trusted: bool,
    pub pairing_state: PairingState,
    pub battery: Option<u8>,
}

impl View for DeviceInfo {
    type V = DeviceModel;

    open spec fn view(&self) -> DeviceModel {
        DeviceModel {
            address: self.address@,
            device_name: self.device_name@,
            device_type: self.device_type@,
            trusted: self.trusted,
            pairing_state: self.pairing_state,
            battery: self.battery,
        }
    }
}

impl DeviceInfo {
    /// A field-by-field copy of the record.
    pub fn duplicate(&self) -> (r: DeviceInfo)
        ensures
            r@ == self@,
    {
        DeviceInfo {
            address: self.address.clone(),
            device_name: self.device_name.clone(),
            device_type: self.device_type.clone(),
            trusted: self.trusted,
            pairing_state: self.pairing_state,
            battery: self.battery,
        }
    }
}

/// The pairing state that the adapter's two flags describe: a connected device
/// counts as connected whatever its paired flag says.
pub open spec fn state_of(paired: bool, connected: bool) -> PairingState {
    if connected {
        PairingState::Connected
    } else if paired {
        PairingState::Paired
    } else {
        PairingState::Unpaired
    }
}

/// Maps the adapter's paired and connected flags to a pairing state.
pub fn pairing_state_of(paired: bool, connected: bool) -> (r: PairingState)
    ensures
        r == state_of(paired, connected),
{
    if connected {
        PairingState::Connected
    } else if paired {
        PairingState::Paired
    } else {
        PairingState::Unpaired
    }
}

/// What the adapter reports of one device.
#[derive(Clone, Debug)]
pub struct DeviceProps {
    pub address: String,
    pub name: Option<String>,
    pub icon: Option<String>,
    pub trusted: bool,
    pub paired: bool,
    pub connected: bool,
    pub battery: Option<u8>,
}

/// The name shown for a device: its own, or "Unknown".
pub open spec fn shown_name(name: Option<String>) -> Seq<char> {
    match name {
        Some(n) => n@,
        None => "Unknown"@,
    }
}

/// The glyph for a device's icon hint.
pub open spec fn icon_category(icon: Option<String>) -> Seq<char> {
    match icon {
        Some(h) => category_spec(lower_of(h@)),
        None => category_spec("unknown"@),
    }
}

/// The record that the reported properties describe.
pub open spec fn record_of(p: DeviceProps) -> DeviceModel {
    DeviceModel {
        address: p.address@,
        device_name: shown_name(p.name),
        device_type: icon_category(p.icon),
        trusted: p.trusted,
        pairing_state: state_of(p.paired, p.connected),
        battery: if p.connected {
            p.battery
        } else {
            None
        },
    }
}

impl DeviceInfo {
    /// Builds the record for a device from what the adapter reports of it; the
    /// battery level is kept only while the device is connected.
    pub fn from_props(p: &DeviceProps) -> (r: DeviceInfo)
        ensures
            r@ == record_of(*p),
    {
        let device_name = match &p.name {
            Some(n) => n.clone(),
            None => String::from_str("Unknown"),
        };
        DeviceInfo {
            address: p.address.clone(),
            device_name,
            device_type: category_of(&p.icon),
            trusted: p.trusted,
            pairing_state: pairing_state_of(p.paired, p.connected),
            battery: if p.connected {
                p.battery
            } else {
                None
            },
        }
    }
}

} // verus!

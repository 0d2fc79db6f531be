use vstd::prelude::*;
use vstd::string::*;
use crate::device::{DeviceInfo, DeviceModel, PairingState};

verus! {

/// The mark shown for a trusted device.
pub open spec fn trusted_text(trusted: bool) -> Seq<char> {
    if trusted {
        "T"@
    } else {
        " "@
    }
}

/// The mark shown for each pairing state.
pub open spec fn pairing_text(state: PairingState) -> Seq<char> {
    match state {
        PairingState::Connected => "\u{ee29}"@,
        PairingState::Paired => "\u{f00c}"@,
        PairingState::Unpaired => " "@,
    }
}

/// The battery glyph for a charge level in percent.
pub open spec fn battery_glyph_text(pct: u8) -> Seq<char> {
    if pct > 75 {
        "\u{f0079}"@
    } else if pct > 50 {
        "\u{f0080}"@
    } else if pct > 25 {
        "\u{f007e}"@
    } else if pct > 1 {
        "\u{f007b}"@
    } else {
        " "@
    }
}

/// The text of one decimal digit.
pub open spec fn digit_text(d: nat) -> Seq<char> {
    if d == 0 {
        "0"@
    } else if d == 1 {
        "1"@
    } else if d == 2 {
        "2"@
    } else if d == 3 {
        "3"@
    } else if d == 4 {
        "4"@
    } else if d == 5 {
        "5"@
    } else if d == 6 {
        "6"@
    } else if d == 7 {
        "7"@
    } else if d == 8 {
        "8"@
    } else {
        "9"@
    }
}

/// The decimal form of `n`, without leading zeros.
pub open spec fn decimal(n: nat) -> Seq<char>
    decreases n,
{
    if n < 10 {
        digit_text(n)
    } else {
        decimal(n / 10) + digit_text(n % 10)
    }
}

/// The battery column: level and glyph for a connected device (an unknown
/// level reads as zero), a blank otherwise.
pub open spec fn battery_text(state: PairingState, battery: Option<u8>) -> Seq<char> {
    if state == PairingState::Connected {
        let pct: u8 = match battery {
            Some(p) => p,
            None => 0,
        };
        decimal(pct as nat) + "% "@ + battery_glyph_text(pct)
    } else {
        " "@
    }
}

/// One line of the device list.
pub open spec fn row_text_spec(d: DeviceModel) -> Seq<char> {
    trusted_text(d.trusted) + " | "@ + pairing_text(d.pairing_state) + "     "@ + d.device_type
        + "    ["@ + d.address + "] "@ + d.device_name + " "@ + battery_text(
        d.pairing_state,
        d.battery,
    ) + " "@
}

/// The mark shown for a trusted device.
pub fn trusted_label(trusted: bool) -> (r: &'static str)
    ensures
        r@ == trusted_text(trusted),
{
    if trusted {
        "T"
    } else {
        " "
    }
}

/// The mark shown for a pairing state.
pub fn pairing_label(state: PairingState) -> (r: &'static str)
    ensures
        r@ == pairing_text(state),
{
    match state {
        PairingState::Connected => "\u{ee29}",
        PairingState::Paired => "\u{f00c}",
        PairingState::Unpaired => " ",
    }
}

/// The battery glyph for a charge level in percent.
pub fn battery_glyph(pct: u8) -> (r: &'static str)
    ensures
        r@ == battery_glyph_text(pct),
{
    if pct > 75 {
        "\u{f0079}"
    } else if pct > 50 {
        "\u{f0080}"
    } else if pct > 25 {
        "\u{f007e}"
    } else if pct > 1 {
        "\u{f007b}"
    } else {
        " "
    }
}

/// The text of one decimal digit.
fn digit_label(d: u8) -> (r: &'static str)
    requires
        d < 10,
    ensures
        r@ == digit_text(d as nat),
{
    if d == 0 {
        "0"
    } else if d == 1 {
        "1"
    } else if d == 2 {
        "2"
    } else if d == 3 {
        "3"
    } else if d == 4 {
        "4"
    } else if d == 5 {
        "5"
    } else if d == 6 {
        "6"
    } else if d == 7 {
        "7"
    } else if d == 8 {
        "8"
    } else {
        "9"
    }
}

/// The decimal form of a byte.
pub fn decimal_label(n: u8) -> (r: String)
    ensures
        r@ == decimal(n as nat),
{
    let mut r = String::new();
    if n >= 100 {
        r.append(digit_label(n / 100));
        assert((n / 10) as nat / 10 == n as nat / 100);
    }
    if n >= 10 {
        r.append(digit_label((n / 10) % 10));
    }
    r.append(digit_label(n % 10));
    proof {
        let m = n as nat;
        if m >= 100 {
            assert(decimal(m / 10 / 10) == digit_text(m / 100));
            assert(decimal(m / 10) == decimal(m / 10 / 10) + digit_text((m / 10) % 10));
        } else if m >= 10 {
            assert(decimal(m / 10) == digit_text(m / 10));
        }
        assert(r@ =~= decimal(m));
    }
    r
}

/// The battery column of a row.
pub fn battery_label(state: PairingState, battery: Option<u8>) -> (r: String)
    ensures
        r@ == battery_text(state, battery),
{
    if state == PairingState::Connected {
        let pct: u8 = match battery {
            Some(p) => p,
            None => 0,
        };
        let mut r = decimal_label(pct);
        r.append("% ");
        r.append(battery_glyph(pct));
        r
    } else {
        String::from_str(" ")
    }
}

/// One line of the device list: trust mark, pairing mark, kind glyph, address,
/// name and battery column.
pub fn row_text(d: &DeviceInfo) -> (r: String)
    ensures
        r@ == row_text_spec(d@),
{
    let mut r = String::from_str(trusted_label(d.trusted));
    r.append(" | ");
    r.append(pairing_label(d.pairing_state));
    r.append("     ");
    r.append(d.device_type.as_str());
    r.append("    [");
    r.append(d.address.as_str());
    r.append("] ");
    r.append(d.device_name.as_str());
    r.append(" ");
    let b = battery_label(d.pairing_state, d.battery);
    r.append(b.as_str());
    r.append(" ");
    r
}

/// The colours the list is drawn in.
#[derive(Clone, Copy, Debug, PartialEq, Eq, Structural)]
pub enum Tint {
    White,
    Red,
    LightGreen,
    LightYellow,
}

/// A connected device's row stands out in bold.
pub fn row_is_bold(state: PairingState) -> (b: bool)
    ensures
        b == (state == PairingState::Connected),
{
    state == PairingState::Connected
}

/// A row is green when its device is connected and the adapter is on, red
/// whenever the adapter is off, white otherwise.
pub fn row_tint(state: PairingState, powered: bool) -> (t: Tint)
    ensures
        t == (if state == PairingState::Connected && powered {
            Tint::LightGreen
        } else if !powered {
            Tint::Red
        } else {
            Tint::White
        }),
{
    if state == PairingState::Connected && powered {
        Tint::LightGreen
    } else if !powered {
        Tint::Red
    } else {
        Tint::White
    }
}

/// The list's border is yellow while a scan runs, else white when the adapter
/// is on and red when it is off.
pub fn border_tint(scanning: bool, powered: bool) -> (t: Tint)
    ensures
        t == (if scanning {
            Tint::LightYellow
        } else if powered {
            Tint::White
        } else {
            Tint::Red
        }),
{
    if scanning {
        Tint::LightYellow
    } else if powered {
        Tint::White
    } else {
        Tint::Red
    }
}

} // verus!

//! Texts of Wi-Fi provisioning: the status shown, the device name advertised,
//! the payload of the provisioning QR code and the code drawn as text.

use vstd::prelude::*;
use crate::text::push_text;

verus! {

/// Upper-case hexadecimal digit of a value below 16.
pub open spec fn hex_digit(d: int) -> char {
    if d < 10 { (48 + d) as char } else { (55 + d) as char }
}

/// Two upper-case hexadecimal digits of a byte.
pub open spec fn hex_byte(b: u8) -> Seq<char> {
    seq![hex_digit((b / 16) as int), hex_digit((b % 16) as int)]
}

/// The MAC suffix: the last three bytes in hexadecimal, or `UNKNOWN` when
/// the address could not be read.
pub open spec fn mac_suffix_text(mac: Option<[u8; 6]>) -> Seq<char> {
    match mac {
        Some(m) => hex_byte(m@[3]) + hex_byte(m@[4]) + hex_byte(m@[5]),
        None => "UNKNOWN"@,
    }
}

/// The one-character string of a hexadecimal digit.
fn hex_str(d: u8) -> (r: &'static str)
    requires
        d < 16,
    ensures
        r@ == seq![hex_digit(d as int)],
{
    proof {
        reveal_strlit("0");
        reveal_strlit("1");
        reveal_strlit("2");
        reveal_strlit("3");
        reveal_strlit("4");
        reveal_strlit("5");
        reveal_strlit("6");
        reveal_strlit("7");
        reveal_strlit("8");
        reveal_strlit("9");
        reveal_strlit("A");
        reveal_strlit("B");
        reveal_strlit("C");
        reveal_strlit("D");
        reveal_strlit("E");
        reveal_strlit("F");
    }
    if d == 0 {
        "0"
    } else if d == 1 {
        "1"
    } else if d == 2 {
        "2"
    } else if d == 3 {
        "3"
    } else if d == 4 {
        "4"
    } else if d == 5 {
        "5"
    } else if d == 6 {
        "6"
    } else if d == 7 {
        "7"
    } else if d == 8 {
        "8"
    } else if d == 9 {
        "9"
    } else if d == 10 {
        "A"
    } else if d == 11 {
        "B"
    } else if d == 12 {
        "C"
    } else if d == 13 {
        "D"
    } else if d == 14 {
        "E"
    } else {
        "F"
    }
}

/// Appends two hexadecimal digits of `b` to `s`.
fn push_hex_byte(s: &mut String, b: u8)
    ensures
        final(s)@ == old(s)@ + hex_byte(b),
{
    let ghost start = s@;
    s.append(hex_str(b / 16));
    s.append(hex_str(b % 16));
    proof {
        assert(s@ =~= start + hex_byte(b));
    }
}

/// The MAC suffix of the device name.
pub fn mac_suffix(mac: Option<[u8; 6]>) -> (r: String)
    ensures
        r@ == mac_suffix_text(mac),
{
    match mac {
        Some(m) => {
            let mut s = String::new();
            push_hex_byte(&mut s, m[3]);
            push_hex_byte(&mut s, m[4]);
            push_hex_byte(&mut s, m[5]);
            proof {
                assert(s@ =~= mac_suffix_text(mac));
            }
            s
        },
        None => String::from_str("UNKNOWN"),
    }
}

/// The device name for provisioning: `<base>-<MAC suffix>`.
pub fn generate_device_name(base_name: &str, mac: Option<[u8; 6]>) -> (r: String)
    ensures
        r@ == base_name@ + "-"@ + mac_suffix_text(mac),
{
    let mut s = String::from_str(base_name);
    push_text(&mut s, "-");
    let suffix = mac_suffix(mac);
    push_text(&mut s, suffix.as_str());
    s
}

/// The provisioning QR payload the ESP BLE Provisioning app reads.
pub open spec fn qr_payload_text(device_name: Seq<char>, pop: Option<Seq<char>>) -> Seq<char> {
    match pop {
        Some(p) => "{\"ver\":\"v1\",\"name\":\""@ + device_name + "\",\"pop\":\""@ + p
            + "\",\"transport\":\"ble\"}"@,
        None => "{\"ver\":\"v1\",\"name\":\""@ + device_name + "\",\"transport\":\"ble\"}"@,
    }
}

/// The provisioning QR payload.
pub fn provisioning_qr_payload(device_name: &str, pop: Option<&str>) -> (r: String)
    ensures
        r@ == qr_payload_text(
            device_name@,
            match pop {
                Some(p) => Some(p@),
                None => None,
            },
        ),
{
    let mut s = String::from_str("{\"ver\":\"v1\",\"name\":\"");
    push_text(&mut s, device_name);
    match pop {
        Some(p) => {
            push_text(&mut s, "\",\"pop\":\"");
            push_text(&mut s, p);
            push_text(&mut s, "\",\"transport\":\"ble\"}");
        },
        None => {
            push_text(&mut s, "\",\"transport\":\"ble\"}");
        },
    }
    s
}

/// The QR code of `data` drawn as text: one line per module row, two
/// characters per module, `█` dark and a space light, without a quiet zone;
/// nothing where the data does not fit a QR code.
pub uninterp spec fn qr_ascii_text(data: Seq<char>) -> Option<Seq<char>>;

/// `qrcode::QrCode::new` on the data, then `render::<char>()` with no quiet
/// zone, modules two characters wide and one high, `█` for dark and a space
/// for light.
///
/// Claims that the result is the named drawing of the data (the encoder
/// picks version, error correction and mask from the data alone), `None`
/// exactly where `QrCode::new` fails.
#[verifier::external_body]
fn render_qr_ascii(data: &str) -> (r: Option<String>)
    ensures
        match r {
            Some(s) => qr_ascii_text(data@) == Some(s@),
            None => qr_ascii_text(data@) is None,
        },
{
    match qrcode::QrCode::new(data) {
        Ok(code) => Some(
            code.render::<char>().quiet_zone(false).module_dimensions(2, 1).dark_color('█').light_color(' ').build(),
        ),
        Err(_) => None,
    }
}

/// The provisioning QR code of `data` as text, or an error where the data
/// does not fit a QR code.
pub fn generate_ascii_qr(data: &str) -> (r: Result<String, ()>)
    ensures
        match r {
            Ok(s) => qr_ascii_text(data@) == Some(s@),
            Err(_) => qr_ascii_text(data@) is None,
        },
{
    match render_qr_ascii(data) {
        Some(s) => Ok(s),
        None => Err(()),
    }
}

/// The provisioning QR code of a device, as text: the code of its payload.
pub fn provisioning_qr_code(device_name: &str, pop: Option<&str>) -> (r: Result<String, ()>)
    ensures
        match r {
            Ok(s) => qr_ascii_text(
                qr_payload_text(
                    device_name@,
                    match pop {
                        Some(p) => Some(p@),
                        None => None,
                    },
                ),
            ) == Some(s@),
            Err(_) => qr_ascii_text(
                qr_payload_text(
                    device_name@,
                    match pop {
                        Some(p) => Some(p@),
                        None => None,
                    },
                ),
            ) is None,
        },
{
    let payload = provisioning_qr_payload(device_name, pop);
    generate_ascii_qr(payload.as_str())
}

} // verus!

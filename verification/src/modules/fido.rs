//! Authenticators as they are listed and named.

use vstd::prelude::*;
use vstd::string::StringExecFns;
use crate::utils::base_x::string_of;

verus! {

/// How a device is found again when it is opened.
pub enum DeviceParam {
    /// By vendor and product identifier: any device of that kind.
    VidPid { vid: u16, pid: u16 },
    /// By the path under which the system lists it.
    Path(String),
}

/// An authenticator that the system lists.
pub struct Device {
    /// Name under which the device is shown.
    pub name: String,
    /// How to open it.
    pub param: DeviceParam,
}

/// The service that lists authenticators and makes them wink. It holds no
/// state of its own.
#[derive(PartialEq, Eq, Structural)]
pub struct AsyncFido {}

impl AsyncFido {
    /// The service.
    pub fn new() -> (service: AsyncFido)
        ensures
            service == (AsyncFido {  }),
    {
        AsyncFido {  }
    }
}

/// The sixteen hexadecimal digits, lower case.
pub open spec fn hex_digits() -> Seq<char> {
    seq!['0', '1', '2', '3', '4', '5', '6', '7', '8', '9', 'a', 'b', 'c', 'd', 'e', 'f']
}

/// A 16-bit number in four hexadecimal digits, lower case, zeros in front.
pub open spec fn hex4(v: u16) -> Seq<char> {
    seq![
        hex_digits()[v as int / 4096],
        hex_digits()[(v as int / 256) % 16],
        hex_digits()[(v as int / 16) % 16],
        hex_digits()[v as int % 16],
    ]
}

/// The identifier part of a device's name: vendor and product in
/// hexadecimal, and the path in brackets where the device is found by it.
pub open spec fn spec_device_name(param: DeviceParam, vid: u16, pid: u16) -> Seq<char> {
    match param {
        DeviceParam::VidPid { vid: v, pid: p } => hex4(v) + ":"@ + hex4(p),
        DeviceParam::Path(path) => hex4(vid) + ":"@ + hex4(pid) + " ("@ + path@ + ")"@,
    }
}

/// The name under which a device is shown: what it calls itself, then its
/// identifier.
pub open spec fn spec_device_label(product: Seq<char>, name: Seq<char>) -> Seq<char> {
    product + " | "@ + name
}

/// One hexadecimal digit.
pub fn hex_char(d: u16) -> (c: char)
    requires
        d < 16,
    ensures
        c == hex_digits()[d as int],
{
    let table: [char; 16] = [
        '0', '1', '2', '3', '4', '5', '6', '7', '8', '9', 'a', 'b', 'c', 'd', 'e', 'f',
    ];
    assert(table@ =~= hex_digits());
    table[d as usize]
}

/// Writes a 16-bit number in four hexadecimal digits.
pub fn hex4_string(v: u16) -> (s: String)
    ensures
        s@ == hex4(v),
{
    let mut chars: Vec<char> = Vec::new();
    chars.push(hex_char(v / 4096));
    chars.push(hex_char((v / 256) % 16));
    chars.push(hex_char((v / 16) % 16));
    chars.push(hex_char(v % 16));
    assert(chars@ =~= hex4(v));
    string_of(&chars)
}

/// Names a device by its identifiers; `vid` and `pid` are those that the
/// system lists for it.
pub fn device_name(param: &DeviceParam, vid: u16, pid: u16) -> (name: String)
    ensures
        name@ == spec_device_name(*param, vid, pid),
{
    match param {
        DeviceParam::VidPid { vid: v, pid: p } => {
            let mut name = hex4_string(*v);
            name.append(":");
            name.append(hex4_string(*p).as_str());
            name
        },
        DeviceParam::Path(path) => {
            let mut name = hex4_string(vid);
            name.append(":");
            name.append(hex4_string(pid).as_str());
            name.append(" (");
            name.append(path.as_str());
            name.append(")");
            name
        },
    }
}

/// Labels a device for display.
pub fn device_label(product: &str, name: &str) -> (label: String)
    ensures
        label@ == spec_device_label(product@, name@),
{
    let mut label = product.to_owned();
    label.append(" | ");
    label.append(name);
    label
}

impl Device {
    /// The device that the system lists under these identifiers.
    pub fn describe(product: &str, vid: u16, pid: u16, param: DeviceParam) -> (device: Device)
        ensures
            device.name@ == spec_device_label(product@, spec_device_name(param, vid, pid)),
            device.param == param,
    {
        let name = device_name(&param, vid, pid);
        Device { name: device_label(product, name.as_str()), param }
    }
}

} // verus!

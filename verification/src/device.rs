//! Identification of the N1 on the USB bus, and its layout.

use vstd::prelude::*;
use vstd::string::StringExecFns;

verus! {

/// USB vendor id of the N1.
pub const N1_VID: u16 = 0x0300;

/// USB product id of the N1.
pub const N1_PID: u16 = 0x3007;

/// HID usage page on which the N1 reports.
pub const N1_USAGE_PAGE: u16 = 65440;

/// HID usage id on which the N1 reports.
pub const N1_USAGE_ID: u16 = 1;

/// Prefix of every device id that the plugin hands to the host.
pub const DEVICE_NAMESPACE: &'static str = "N1";

/// Name under which the device is registered with the host.
pub const DEVICE_NAME: &'static str = "Ajazz N1";

/// Version of the wire protocol that the N1 speaks.
pub const N1_PROTOCOL_VERSION: usize = 3;

/// Rows of the key grid.
pub const N1_ROWS: usize = 6;

/// Columns of the key grid.
pub const N1_COLS: usize = 3;

/// Fifteen buttons and the three displays above them.
pub const N1_KEY_COUNT: usize = 18;

/// Two face buttons and the dial.
pub const N1_ENCODER_COUNT: usize = 3;

/// What the plugin reads of a HID device on the bus.
#[derive(Debug)]
pub struct HidInfo {
    pub vendor_id: u16,
    pub product_id: u16,
    pub serial_number: Option<String>,
}

/// Whether the two ids are those of an N1.
pub open spec fn is_n1(vendor_id: u16, product_id: u16) -> bool {
    vendor_id == N1_VID && product_id == N1_PID
}

/// The id of the N1 with this serial number: the namespace, a hyphen, the
/// serial number.
pub open spec fn device_id_of(serial: Seq<char>) -> Seq<char> {
    DEVICE_NAMESPACE@ + "-"@ + serial
}

/// The id under which `dev` is known to the host, if the plugin drives it.
pub open spec fn device_id(dev: HidInfo) -> Option<Seq<char>> {
    if is_n1(dev.vendor_id, dev.product_id) && dev.serial_number is Some {
        Some(device_id_of(dev.serial_number->0@))
    } else {
        None
    }
}

/// The id of a device on the bus. Only an N1 that reports a serial number has
/// one.
pub fn get_device_id(dev: &HidInfo) -> (id: Option<String>)
    ensures
        id is Some <==> device_id(*dev) is Some,
        id is Some ==> id->0@ == device_id(*dev)->0,
{
    if dev.vendor_id == N1_VID && dev.product_id == N1_PID {
        match &dev.serial_number {
            Some(serial) => {
                let mut id = String::from_str(DEVICE_NAMESPACE);
                id.append("-");
                id.append(serial.as_str());
                Some(id)
            },
            None => None,
        }
    } else {
        None
    }
}

/// Two serial numbers that give one id are the same serial number, so an id
/// names one device.
pub proof fn lemma_device_id_names_one_serial(a: Seq<char>, b: Seq<char>)
    requires
        device_id_of(a) == device_id_of(b),
    ensures
        a == b,
{
    let prefix = DEVICE_NAMESPACE@ + "-"@;
    assert(device_id_of(a).subrange(prefix.len() as int, device_id_of(a).len() as int) =~= a);
    assert(device_id_of(b).subrange(prefix.len() as int, device_id_of(b).len() as int) =~= b);
}

/// Every id starts with the namespace and a hyphen.
pub proof fn lemma_device_id_has_prefix(serial: Seq<char>)
    ensures
        device_id_of(serial).len() == serial.len() + 3,
        device_id_of(serial).subrange(0, 3) == "N1-"@,
{
    reveal_strlit("N1");
    reveal_strlit("-");
    reveal_strlit("N1-");
    assert(device_id_of(serial).subrange(0, 3) =~= "N1-"@);
}

} // verus!

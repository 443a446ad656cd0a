use vstd::prelude::*;

use crate::text_format::{decimal_chars, hex_chars, push_decimal, push_hex};
use crate::utf16::{utf16_cstr_chars, utf16_cstr_to_string};

verus! {

/// Where a USB device is attached.
#[derive(Clone, Copy)]
pub struct PortInfo {
    pub interface: u8,
    pub port: u8,
    pub function: u8,
    pub device: u8,
    pub bus: u32,
}

/// The standard USB device descriptor.
#[derive(Clone, Copy)]
pub struct UsbDeviceDescriptor {
    pub length: u8,
    pub descriptor_type: u8,
    pub bcd_usb: u16,
    pub device_class: u8,
    pub device_sub_class: u8,
    pub device_protocol: u8,
    pub max_packet_size0: u8,
    pub id_vendor: u16,
    pub id_product: u16,
    pub bcd_device: u16,
    pub str_manufacturer: u8,
    pub str_product: u8,
    pub str_serial_number: u8,
    pub num_configurations: u8,
}

/// The standard USB interface descriptor.
#[derive(Clone, Copy)]
pub struct UsbInterfaceDescriptor {
    pub length: u8,
    pub descriptor_type: u8,
    pub interface_number: u8,
    pub alternate_setting: u8,
    pub num_endpoints: u8,
    pub interface_class: u8,
    pub interface_sub_class: u8,
    pub interface_protocol: u8,
    pub interface: u8,
}

/// What the USB extension protocol reports about a device: its descriptors,
/// its string descriptors as NUL-terminated UTF-16, and its port.
#[derive(Clone, Copy)]
pub struct DellUsbDevInfo {
    pub signature: u32,
    pub device_descriptor: UsbDeviceDescriptor,
    pub interface_descriptor: UsbInterfaceDescriptor,
    pub manufacturer: [u16; 64],
    pub product: [u16; 64],
    pub serial_number: [u16; 64],
    pub port_info: PortInfo,
}

/// What the driver has learnt from USB update notifications: the strings and
/// identifiers of the device reported last, and every device reported so far
/// (`devices` is `None` until the first report).
pub struct UsbState {
    pub manufacturer: Option<String>,
    pub product: Option<String>,
    pub serial: Option<String>,
    pub updated: bool,
    pub devices: Option<Vec<DellUsbDevInfo>>,
    pub vendor_id: u16,
    pub product_id: u16,
    pub class: u8,
    pub subclass: u8,
    pub bus: u32,
    pub device: u8,
    pub function: u8,
    pub port: u8,
    pub interface: u8,
}

/// The devices reported so far, as a sequence.
pub open spec fn device_list(devices: Option<Vec<DellUsbDevInfo>>) -> Seq<DellUsbDevInfo> {
    match devices {
        Some(v) => v@,
        None => Seq::empty(),
    }
}

/// `s` holds the text `chars`.
pub open spec fn holds_text(s: Option<String>, chars: Seq<char>) -> bool {
    s matches Some(t) && t@ == chars
}

/// The lines that describe the `index`-th reported device (counting from 0).
pub open spec fn device_entry_chars(index: nat, d: DellUsbDevInfo) -> Seq<char> {
    "Device "@ + decimal_chars(index + 1) + ":\nManufacturer: "@ + utf16_cstr_chars(d.manufacturer@)
        + "\nProduct: "@ + utf16_cstr_chars(d.product@) + "\nSerial: "@ + utf16_cstr_chars(
        d.serial_number@,
    ) + "\nVendor ID: "@ + hex_chars(d.device_descriptor.id_vendor as nat, 4) + ", Product ID: "@
        + hex_chars(d.device_descriptor.id_product as nat, 4) + ", Class: "@ + hex_chars(
        d.device_descriptor.device_class as nat,
        2,
    ) + ", Subclass: "@ + hex_chars(d.device_descriptor.device_sub_class as nat, 2) + "\nBus: "@
        + decimal_chars(d.port_info.bus as nat) + ", Device: "@ + decimal_chars(
        d.port_info.device as nat,
    ) + ", Port: "@ + decimal_chars(d.port_info.port as nat) + ", Interface: "@ + decimal_chars(
        d.port_info.interface as nat,
    ) + "\n\n"@
}

/// `part` occurs in `text` at position `at`.
pub open spec fn occurs_at(text: Seq<char>, part: Seq<char>, at: int) -> bool {
    0 <= at && at + part.len() <= text.len() && text.subrange(at, at + part.len()) == part
}

/// An entry opens with the device's number counted from 1 and shows the
/// device's three strings in full, each decoded up to its first NUL and set
/// between its own label and the next one.
pub proof fn lemma_entry_shows_strings(index: nat, d: DellUsbDevInfo)
    ensures
        occurs_at(device_entry_chars(index, d), "Device "@ + decimal_chars(index + 1) + ":\nManufacturer: "@, 0),
        exists|at: int| occurs_at(device_entry_chars(index, d), ":\nManufacturer: "@ + utf16_cstr_chars(d.manufacturer@) + "\nProduct: "@, at),
        exists|at: int| occurs_at(device_entry_chars(index, d), "\nProduct: "@ + utf16_cstr_chars(d.product@) + "\nSerial: "@, at),
        exists|at: int| occurs_at(device_entry_chars(index, d), "\nSerial: "@ + utf16_cstr_chars(d.serial_number@) + "\nVendor ID: "@, at),
{
    let e = device_entry_chars(index, d);
    let head = "Device "@ + decimal_chars(index + 1);
    let m = utf16_cstr_chars(d.manufacturer@);
    let p = utf16_cstr_chars(d.product@);
    let sr = utf16_cstr_chars(d.serial_number@);
    let lm = ":\nManufacturer: "@;
    let lp = "\nProduct: "@;
    let ls = "\nSerial: "@;
    let lv = "\nVendor ID: "@;
    let tail = e.subrange((head + lm + m + lp + p + ls + sr + lv).len() as int, e.len() as int);
    assert(e =~= head + lm + m + lp + p + ls + sr + lv + tail);
    let part0 = head + lm;
    assert(e.subrange(0, part0.len() as int) =~= part0);
    let a1 = head.len() as int;
    let part1 = lm + m + lp;
    assert(e.subrange(a1, a1 + part1.len()) =~= part1);
    assert(occurs_at(e, part1, a1));
    let a2 = (head + lm + m).len() as int;
    let part2 = lp + p + ls;
    assert(e.subrange(a2, a2 + part2.len()) =~= part2);
    assert(occurs_at(e, part2, a2));
    let a3 = (head + lm + m + lp + p).len() as int;
    let part3 = ls + sr + lv;
    assert(e.subrange(a3, a3 + part3.len()) =~= part3);
    assert(occurs_at(e, part3, a3));
}

/// The entries of all devices of `devices`, in order.
pub open spec fn device_entries_chars(devices: Seq<DellUsbDevInfo>) -> Seq<char>
    decreases devices.len(),
{
    if devices.len() == 0 {
        Seq::empty()
    } else {
        device_entries_chars(devices.drop_last()) + device_entry_chars(
            (devices.len() - 1) as nat,
            devices.last(),
        )
    }
}

/// The text shown in the box: a header and one entry per reported device, or
/// a waiting message before any report.
pub open spec fn usb_info_chars(devices: Option<Vec<DellUsbDevInfo>>) -> Seq<char> {
    match devices {
        Some(v) => "USB Devices:\n"@ + device_entries_chars(v@),
        None => "Waiting for USB..."@,
    }
}

/// Appends the entry of the `index`-th device.
#[verifier::spinoff_prover]
#[verifier::rlimit(50)]
pub fn push_device_entry(s: &mut String, index: usize, d: &DellUsbDevInfo)
    requires
        index < usize::MAX,
    ensures
        final(s)@ == old(s)@ + device_entry_chars(index as nat, *d),
{
    let manufacturer = utf16_cstr_to_string(d.manufacturer.as_slice());
    let product = utf16_cstr_to_string(d.product.as_slice());
    let serial = utf16_cstr_to_string(d.serial_number.as_slice());
    let desc = &d.device_descriptor;
    let port = &d.port_info;
    s.append("Device ");
    push_decimal(s, (index + 1) as u64);
    s.append(":\nManufacturer: ");
    s.append(manufacturer.as_str());
    s.append("\nProduct: ");
    s.append(product.as_str());
    s.append("\nSerial: ");
    s.append(serial.as_str());
    s.append("\nVendor ID: ");
    push_hex(s, desc.id_vendor as u64, 4);
    s.append(", Product ID: ");
    push_hex(s, desc.id_product as u64, 4);
    s.append(", Class: ");
    push_hex(s, desc.device_class as u64, 2);
    s.append(", Subclass: ");
    push_hex(s, desc.device_sub_class as u64, 2);
    s.append("\nBus: ");
    push_decimal(s, port.bus as u64);
    s.append(", Device: ");
    push_decimal(s, port.device as u64);
    s.append(", Port: ");
    push_decimal(s, port.port as u64);
    s.append(", Interface: ");
    push_decimal(s, port.interface as u64);
    s.append("\n\n");
    assert(s@ =~= old(s)@ + device_entry_chars(index as nat, *d));
}

/// Reading back a report: after a device is recorded, the box text is the
/// text before it (the header alone if it was the first report) followed by
/// the new device's entry, numbered after the devices already listed.
pub proof fn lemma_report_appends_entry(
    before: Option<Vec<DellUsbDevInfo>>,
    after: Option<Vec<DellUsbDevInfo>>,
    info: DellUsbDevInfo,
)
    requires
        after is Some,
        device_list(after) == device_list(before).push(info),
    ensures
        usb_info_chars(after) == (if before is Some {
            usb_info_chars(before)
        } else {
            "USB Devices:\n"@
        }) + device_entry_chars(device_list(before).len(), info),
{
    let list = device_list(after);
    assert(list.drop_last() =~= device_list(before));
    assert(list.last() == info);
    if before is None {
        assert(device_list(before).len() == 0);
        assert(device_entries_chars(device_list(before)) =~= Seq::<char>::empty());
    }
    assert(usb_info_chars(after) =~= "USB Devices:\n"@ + (device_entries_chars(device_list(before))
        + device_entry_chars(device_list(before).len(), info)));
}

/// The state before any USB report: no strings, no devices, the flag down
/// and every identifier 0.
pub open spec fn is_initial_state(st: UsbState) -> bool {
    &&& st.manufacturer is None
    &&& st.product is None
    &&& st.serial is None
    &&& !st.updated
    &&& st.devices is None
    &&& st.vendor_id == 0
    &&& st.product_id == 0
    &&& st.class == 0
    &&& st.subclass == 0
    &&& st.bus == 0
    &&& st.device == 0
    &&& st.function == 0
    &&& st.port == 0
    &&& st.interface == 0
}

/// The strings and identifiers of `st` are those of the report `info`.
pub open spec fn shows_report(st: UsbState, info: DellUsbDevInfo) -> bool {
    &&& holds_text(st.manufacturer, utf16_cstr_chars(info.manufacturer@))
    &&& holds_text(st.product, utf16_cstr_chars(info.product@))
    &&& holds_text(st.serial, utf16_cstr_chars(info.serial_number@))
    &&& st.vendor_id == info.device_descriptor.id_vendor
    &&& st.product_id == info.device_descriptor.id_product
    &&& st.class == info.device_descriptor.device_class
    &&& st.subclass == info.device_descriptor.device_sub_class
    &&& st.bus == info.port_info.bus
    &&& st.device == info.port_info.device
    &&& st.port == info.port_info.port
    &&& st.interface == info.port_info.interface
}

/// `after` is `before` with the report `info` recorded: the report's strings
/// and identifiers become the current ones, the update flag is raised, the
/// report is appended to the device list, and the function number is kept.
pub open spec fn records_report(before: UsbState, after: UsbState, info: DellUsbDevInfo) -> bool {
    &&& shows_report(after, info)
    &&& after.updated
    &&& after.devices is Some
    &&& device_list(after.devices) == device_list(before.devices).push(info)
    &&& after.function == before.function
}

/// After the reports `reports`, recorded in order from the initial state, the
/// device list holds exactly those reports in that order (repeats kept), and
/// the strings and identifiers are those of the last report; with no report
/// the state is still the initial one.
pub proof fn lemma_report_sequence(states: Seq<UsbState>, reports: Seq<DellUsbDevInfo>)
    requires
        states.len() == reports.len() + 1,
        is_initial_state(states[0]),
        forall|k: int| 0 <= k < reports.len() ==> records_report(states[k], #[trigger] states[k + 1], reports[k]),
    ensures
        device_list(states.last().devices) == reports,
        states.last().function == 0,
        reports.len() == 0 ==> is_initial_state(states.last()),
        reports.len() > 0 ==> states.last().updated && states.last().devices is Some && shows_report(
            states.last(),
            reports.last(),
        ),
    decreases reports.len(),
{
    if reports.len() > 0 {
        let n = reports.len() as int;
        lemma_report_sequence(states.drop_last(), reports.drop_last());
        assert(states.drop_last().last() == states[n - 1]);
        assert(records_report(states[n - 1], states[n], reports[n - 1]));
        assert(reports.drop_last().push(reports.last()) =~= reports);
    } else {
        assert(device_list(states[0].devices) =~= reports);
    }
}

impl UsbState {
    /// The state before any USB report.
    pub fn new() -> (st: Self)
        ensures
            is_initial_state(st),
    {
        UsbState {
            manufacturer: None,
            product: None,
            serial: None,
            updated: false,
            devices: None,
            vendor_id: 0,
            product_id: 0,
            class: 0,
            subclass: 0,
            bus: 0,
            device: 0,
            function: 0,
            port: 0,
            interface: 0,
        }
    }

    /// Records a reported device: its decoded strings and identifiers become
    /// the current ones, the update flag is raised, and the device is
    /// appended to the list of devices. The function number is not taken
    /// over.
    pub fn on_usb_update(&mut self, info: &DellUsbDevInfo)
        ensures
            records_report(*old(self), *final(self), *info),
    {
        self.manufacturer = Some(utf16_cstr_to_string(info.manufacturer.as_slice()));
        self.product = Some(utf16_cstr_to_string(info.product.as_slice()));
        self.serial = Some(utf16_cstr_to_string(info.serial_number.as_slice()));
        self.updated = true;
        let mut devices = match self.devices.take() {
            Some(v) => v,
            None => Vec::new(),
        };
        devices.push(*info);
        self.devices = Some(devices);
        let desc = &info.device_descriptor;
        let port = &info.port_info;
        self.vendor_id = desc.id_vendor;
        self.product_id = desc.id_product;
        self.class = desc.device_class;
        self.subclass = desc.device_sub_class;
        self.bus = port.bus;
        self.device = port.device;
        self.port = port.port;
        self.interface = port.interface;
    }

    /// The text shown in the box (see `usb_info_chars`).
    pub fn info_text(&self) -> (s: String)
        ensures
            s@ == usb_info_chars(self.devices),
    {
        match &self.devices {
            Some(v) => {
                let mut s = String::from_str("USB Devices:\n");
                let mut i: usize = 0;
                while i < v.len()
                    invariant
                        i <= v@.len(),
                        s@ == "USB Devices:\n"@ + device_entries_chars(v@.take(i as int)),
                    decreases v@.len() - i,
                {
                    push_device_entry(&mut s, i, &v[i]);
                    proof {
                        let t = v@.take(i + 1);
                        assert(t.drop_last() =~= v@.take(i as int));
                        assert(t.last() == v@[i as int]);
                        assert(s@ =~= "USB Devices:\n"@ + device_entries_chars(t));
                    }
                    i = i + 1;
                }
                assert(v@.take(v@.len() as int) =~= v@);
                s
            },
            None => String::from_str("Waiting for USB..."),
        }
    }
}

} // verus!

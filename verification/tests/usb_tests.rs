use menu_driver::usb::{DellUsbDevInfo, PortInfo, UsbDeviceDescriptor, UsbInterfaceDescriptor, UsbState};

fn name(s: &str) -> [u16; 64] {
    let mut arr = [0u16; 64];
    for (i, u) in s.encode_utf16().enumerate() {
        arr[i] = u;
    }
    arr
}

fn device(vendor: u16, product: u16, class: u8, subclass: u8, bus: u32, dev: u8, port: u8, iface: u8) -> DellUsbDevInfo {
    DellUsbDevInfo {
        signature: 0x5553_4244,
        device_descriptor: UsbDeviceDescriptor {
            length: 18,
            descriptor_type: 1,
            bcd_usb: 0x0200,
            device_class: class,
            device_sub_class: subclass,
            device_protocol: 0,
            max_packet_size0: 64,
            id_vendor: vendor,
            id_product: product,
            bcd_device: 0x0100,
            str_manufacturer: 1,
            str_product: 2,
            str_serial_number: 3,
            num_configurations: 1,
        },
        interface_descriptor: UsbInterfaceDescriptor {
            length: 9,
            descriptor_type: 4,
            interface_number: 0,
            alternate_setting: 0,
            num_endpoints: 2,
            interface_class: 8,
            interface_sub_class: 6,
            interface_protocol: 0x50,
            interface: 0,
        },
        manufacturer: name("SanDisk"),
        product: name("Cruzer Blade"),
        serial_number: name("4C530001"),
        port_info: PortInfo { interface: iface, port, function: 7, device: dev, bus },
    }
}

#[test]
fn new_state_waits_for_usb() {
    let st = UsbState::new();
    assert!(st.devices.is_none());
    assert!(!st.updated);
    assert_eq!(st.info_text(), "Waiting for USB...");
}

#[test]
fn update_records_device() {
    let mut st = UsbState::new();
    let d = device(0x0781, 0x5567, 0, 0, 1, 3, 2, 0);
    st.on_usb_update(&d);
    assert!(st.updated);
    assert_eq!(st.manufacturer.as_deref(), Some("SanDisk"));
    assert_eq!(st.product.as_deref(), Some("Cruzer Blade"));
    assert_eq!(st.serial.as_deref(), Some("4C530001"));
    assert_eq!(st.vendor_id, 0x0781);
    assert_eq!(st.product_id, 0x5567);
    assert_eq!(st.bus, 1);
    assert_eq!(st.device, 3);
    assert_eq!(st.port, 2);
    assert_eq!(st.interface, 0);
    assert_eq!(st.function, 0, "the function number is not taken over");
    assert_eq!(st.devices.as_ref().map(|v| v.len()), Some(1));
}

#[test]
fn info_text_lists_devices_in_order() {
    let mut st = UsbState::new();
    st.on_usb_update(&device(0x0781, 0x5567, 0, 0, 1, 3, 2, 0));
    st.on_usb_update(&device(0x046D, 0xC52B, 0x09, 0x0A, 2, 14, 1, 3));
    let expected = "USB Devices:\n\
Device 1:\nManufacturer: SanDisk\nProduct: Cruzer Blade\nSerial: 4C530001\n\
Vendor ID: 0781, Product ID: 5567, Class: 00, Subclass: 00\nBus: 1, Device: 3, Port: 2, Interface: 0\n\n\
Device 2:\nManufacturer: SanDisk\nProduct: Cruzer Blade\nSerial: 4C530001\n\
Vendor ID: 046D, Product ID: C52B, Class: 09, Subclass: 0A\nBus: 2, Device: 14, Port: 1, Interface: 3\n\n";
    assert_eq!(st.info_text(), expected);
    assert_eq!(st.vendor_id, 0x046D);
    assert_eq!(st.class, 0x09);
    assert_eq!(st.subclass, 0x0A);
}

#[test]
fn info_text_grows_by_one_entry_per_report() {
    let mut st = UsbState::new();
    st.on_usb_update(&device(1, 2, 3, 4, 5, 6, 7, 8));
    let before = st.info_text();
    st.on_usb_update(&device(0xFFFF, 0xABCD, 0xFF, 0x10, 4000000000, 255, 9, 1));
    let after = st.info_text();
    assert!(after.starts_with(&before));
    assert_eq!(
        &after[before.len()..],
        "Device 2:\nManufacturer: SanDisk\nProduct: Cruzer Blade\nSerial: 4C530001\n\
Vendor ID: FFFF, Product ID: ABCD, Class: FF, Subclass: 10\nBus: 4000000000, Device: 255, Port: 9, Interface: 1\n\n"
    );
}

#[test]
fn report_sequence_keeps_order_and_last_fields() {
    let mut st = UsbState::new();
    let a = device(1, 1, 1, 1, 1, 1, 1, 1);
    let b = device(2, 2, 2, 2, 2, 2, 2, 2);
    for d in [a, b, a] {
        st.on_usb_update(&d);
    }
    let list = st.devices.as_ref().unwrap();
    let vendors: Vec<u16> = list.iter().map(|d| d.device_descriptor.id_vendor).collect();
    assert_eq!(vendors, vec![1, 2, 1]);
    assert_eq!(st.vendor_id, 1);
    assert_eq!(st.bus, 1);
    assert_eq!(st.function, 0);
}

use usb_bridge::AllowedUSBDevices;
use usb_bridge::DeviceDescriptor;
use usb_bridge::Event;
use usb_bridge::LibusbError;
use usb_bridge::MyState;
use usb_bridge::USBDeviceIdentifier;

fn descriptor(vendor_id: u16, product_id: u16) -> DeviceDescriptor {
    DeviceDescriptor {
        length: 18,
        descriptor_type: 1,
        usb_version_bcd: 0x0200,
        device_class: 0,
        device_subclass: 0,
        device_protocol: 0,
        max_packet_size0: 64,
        vendor_id,
        product_id,
        device_version_bcd: 0x0100,
        manufacturer_index: 0,
        product_index: 0,
        serial_number_index: 0,
        num_configurations: 1,
    }
}

#[test]
fn enable_hotplug_checks_capability_and_init() {
    let mut st = MyState::new(AllowedUSBDevices::Denied(vec![]));
    assert!(matches!(
        st.enable_hotplug(false, 0),
        Err(LibusbError::NotSupported)
    ));
    assert!(matches!(st.enable_hotplug(true, 0), Err(LibusbError::NotFound)));
    st.init(0).unwrap();
    assert!(matches!(st.enable_hotplug(true, -3), Err(LibusbError::Access)));
    assert!(!st.hotplug_enabled);
    assert_eq!(st.enable_hotplug(true, 0), Ok(()));
    assert!(st.hotplug_enabled);
    // Idempotent: the backend is not consulted again.
    assert_eq!(st.enable_hotplug(false, -1), Ok(()));
}

#[test]
fn teardown_directs_exactly_the_live_native_duties() {
    let mut st = MyState::new(AllowedUSBDevices::Denied(vec![]));
    // Nothing was started: nothing to undo.
    let actions = st.teardown();
    assert!(!actions.deregister_hotplug);
    assert!(!actions.stop_event_pump);

    let mut st = MyState::new(AllowedUSBDevices::Denied(vec![]));
    st.init(0).unwrap();
    st.enable_hotplug(true, 0).unwrap();
    let actions = st.teardown();
    assert!(actions.deregister_hotplug);
    assert!(actions.stop_event_pump);
    assert!(!st.initialized);
    assert!(!st.hotplug_enabled);
    // Idempotent: a second teardown directs nothing.
    let actions = st.teardown();
    assert!(!actions.deregister_hotplug);
    assert!(!actions.stop_event_pump);
}

#[test]
fn teardown_without_hotplug_stops_only_the_pump() {
    let mut st = MyState::new(AllowedUSBDevices::Denied(vec![]));
    st.init(0).unwrap();
    let actions = st.teardown();
    assert!(!actions.deregister_hotplug);
    assert!(actions.stop_event_pump);
}

#[test]
fn arrival_and_departure_are_polled_in_order() {
    let mut st = MyState::new(AllowedUSBDevices::Denied(vec![]));
    st.init(0).unwrap();
    st.enable_hotplug(true, 0).unwrap();
    // The backend fires ARRIVED then LEFT for (0x1234, 0x5678).
    assert!(st.hotplug_event(90, Some(descriptor(0x1234, 0x5678)), 2, 5, 1));
    let first = st.poll_events();
    assert_eq!(first.len(), 1);
    assert_eq!(first[0].0, Event::Arrived);
    assert_eq!(first[0].1.vendor, 0x1234);
    assert_eq!(first[0].1.product, 0x5678);
    assert_eq!(first[0].1.bus, 2);
    assert_eq!(first[0].1.address, 5);
    // The handle is usable: it resolves the queued device record.
    assert!(st.devices.has(first[0].2));
    assert_eq!(st.devices.get(first[0].2).native, 90);

    assert!(st.hotplug_event(91, Some(descriptor(0x1234, 0x5678)), 2, 5, 2));
    let second = st.poll_events();
    assert_eq!(second.len(), 1);
    assert_eq!(second[0].0, Event::Left);
    assert!(st.devices.has(second[0].2));

    // A third poll returns empty.
    let third = st.poll_events();
    assert!(third.is_empty());
}

#[test]
fn queued_events_keep_enqueue_order_in_one_poll() {
    let mut st = MyState::new(AllowedUSBDevices::Denied(vec![]));
    st.init(0).unwrap();
    st.enable_hotplug(true, 0).unwrap();
    assert!(st.hotplug_event(90, Some(descriptor(0x1111, 0x0001)), 1, 1, 1));
    assert!(st.hotplug_event(91, Some(descriptor(0x2222, 0x0002)), 1, 2, 1));
    assert!(st.hotplug_event(90, Some(descriptor(0x1111, 0x0001)), 1, 1, 2));
    let events = st.poll_events();
    assert_eq!(events.len(), 3);
    assert_eq!(events[0].0, Event::Arrived);
    assert_eq!(events[0].1.vendor, 0x1111);
    assert_eq!(events[1].0, Event::Arrived);
    assert_eq!(events[1].1.vendor, 0x2222);
    assert_eq!(events[2].0, Event::Left);
    assert_eq!(events[2].1.vendor, 0x1111);
    // No event is duplicated: the three handles are distinct.
    assert_ne!(events[0].2, events[1].2);
    assert_ne!(events[1].2, events[2].2);
    assert_ne!(events[0].2, events[2].2);
}

#[test]
fn policy_filters_hotplug_events() {
    let allowed = USBDeviceIdentifier {
        vendor_id: 0x1234,
        product_id: 0x5678,
    };
    let mut st = MyState::new(AllowedUSBDevices::Allowed(vec![allowed]));
    st.init(0).unwrap();
    st.enable_hotplug(true, 0).unwrap();
    assert!(!st.hotplug_event(90, Some(descriptor(0x9999, 0x0001)), 1, 1, 1));
    assert!(st.hotplug_event(91, Some(descriptor(0x1234, 0x5678)), 1, 2, 1));
    let events = st.poll_events();
    assert_eq!(events.len(), 1);
    assert_eq!(events[0].1.vendor, 0x1234);
}

#[test]
fn unreadable_descriptor_and_unknown_event_are_ignored() {
    let mut st = MyState::new(AllowedUSBDevices::Denied(vec![]));
    st.init(0).unwrap();
    st.enable_hotplug(true, 0).unwrap();
    assert!(!st.hotplug_event(90, None, 1, 1, 1));
    assert!(!st.hotplug_event(90, Some(descriptor(0x1234, 0x5678)), 1, 1, 3));
    assert!(!st.hotplug_event(90, Some(descriptor(0x1234, 0x5678)), 1, 1, 0));
    assert!(st.poll_events().is_empty());
}

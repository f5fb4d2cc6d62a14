use eucalyptus_twig::bluetooth::{Bluetooth, BluetoothIndicator};

#[test]
fn count_follows_flag_transitions_only() {
    let mut b = Bluetooth::new();
    assert_eq!(b.connected_count, 0);
    b.device_connected(1, true);
    assert_eq!(b.connected_count, 1);
    // A duplicate event with the same flag changes nothing.
    b.device_connected(1, true);
    assert_eq!(b.connected_count, 1);
    b.device_connected(2, false);
    assert_eq!(b.connected_count, 1);
    b.device_connected(2, false);
    assert_eq!(b.connected_count, 1);
    // Real transitions move the count.
    b.device_connected(2, true);
    assert_eq!(b.connected_count, 2);
    b.device_connected(1, false);
    assert_eq!(b.connected_count, 1);
    b.device_connected(1, false);
    assert_eq!(b.connected_count, 1);
}

#[test]
fn count_equals_number_of_devices_last_seen_connected() {
    let mut b = Bluetooth::new();
    // An arbitrary event sequence with duplicates; afterwards devices
    // 1 and 3 were last seen connected, device 2 not.
    let events: [(u64, bool); 8] = [
        (1, true),
        (2, true),
        (2, true),
        (3, false),
        (2, false),
        (3, true),
        (1, true),
        (2, false),
    ];
    for (addr, flag) in events {
        b.device_connected(addr, flag);
    }
    assert_eq!(b.connected_count, 2);
    assert_eq!(b.devices_connected.get(1), Some(&true));
    assert_eq!(b.devices_connected.get(2), Some(&false));
    assert_eq!(b.devices_connected.get(3), Some(&true));
}

#[test]
fn removal_forces_the_device_out() {
    let mut b = Bluetooth::new();
    b.device_connected(7, true);
    b.device_connected(8, false);
    assert_eq!(b.connected_count, 1);
    // Removing a connected device decrements; removing a disconnected one
    // does not; removing an unknown one is a no-op.
    b.device_removed(7);
    assert_eq!(b.connected_count, 0);
    assert!(b.devices_connected.get(7).is_none());
    b.device_removed(8);
    assert_eq!(b.connected_count, 0);
    b.device_removed(99);
    assert_eq!(b.connected_count, 0);
}

#[test]
fn indicator_follows_the_adapter_state() {
    let mut b = Bluetooth::new();
    assert_eq!(b.indicator(), BluetoothIndicator::Unknown);
    b.set_powered(false);
    assert_eq!(b.indicator(), BluetoothIndicator::Off);
    b.set_powered(true);
    assert_eq!(b.indicator(), BluetoothIndicator::Idle);
    b.set_discovering(true);
    assert_eq!(b.indicator(), BluetoothIndicator::Discovering);
    b.set_discovering(false);
    b.device_connected(1, true);
    assert_eq!(b.indicator(), BluetoothIndicator::Connected);
    b.set_error("no adapter".to_owned());
    assert_eq!(b.indicator(), BluetoothIndicator::Error);
    assert_eq!(b.error_message.as_deref(), Some("no adapter"));
}

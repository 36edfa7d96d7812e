use sacn_bridge::dirty_details::DirtyDetails;
use sacn_bridge::light::{ConnectionState, Light};

#[test]
fn test_set_color_identical_value_keeps_dirty_unset() {
    let mut light = Light::new(1, 1, 0, 0);
    light.on_device_seen(1);
    light.on_connect_result(true);
    light.on_discovery_result(true);
    light.on_write_result(true, 0);
    assert!(!light.needs_write(0));

    // The same color again: still clean.
    light.set_color_rgb(0, 0, 0);
    assert!(!light.needs_write(0));
}

#[test]
fn test_set_color_changed_value_sets_dirty() {
    let mut light = Light::new(1, 1, 0, 0);
    light.on_device_seen(1);
    light.on_connect_result(true);
    light.on_discovery_result(true);
    light.on_write_result(true, 0);
    assert!(!light.needs_write(0));

    light.set_color_rgb(10, 20, 30);
    assert!(light.needs_write(0));
}

#[test]
fn test_dirty_reasserts_after_ten_seconds() {
    let mut light = Light::new(1, 1, 0, 0);
    light.on_device_seen(1);
    light.on_connect_result(true);
    light.on_discovery_result(true);
    light.on_write_result(true, 0);

    // Exactly 10 elapsed seconds is not yet stale; anything past it is.
    assert!(!light.needs_write(10_000));
    assert!(light.needs_write(11_000));
}

#[test]
fn test_dirty_details_staleness() {
    let mut details = DirtyDetails::new(0);
    assert!(details.is_dirty(0));
    details.clean(5_000);
    assert!(!details.is_dirty(5_000));
    assert!(!details.is_dirty(15_000));
    assert!(details.is_dirty(16_001));
    details.dirty();
    assert!(details.is_dirty(5_000));
}

#[test]
fn test_connect_lifecycle() {
    let mut light = Light::new(42, 1, 0, 0);
    assert!(!light.is_connected());

    // A scan result for another device changes nothing.
    assert!(!light.on_device_seen(41));
    assert!(!light.is_connected());

    // Its own identifier begins a connect; discovery completes it.
    assert!(light.on_device_seen(42));
    light.on_connect_result(true);
    assert!(!light.is_connected());
    light.on_discovery_result(true);
    assert!(light.is_connected());

    // A failed write forces a reconnect.
    light.on_write_result(false, 0);
    assert!(!light.is_connected());
}

#[test]
fn test_three_failed_connects_return_to_disconnected() {
    let mut light = Light::new(7, 1, 0, 0);
    light.set_color_rgb(1, 2, 3);
    let before = light;

    for _ in 0..3 {
        assert!(light.on_device_seen(7));
        light.on_connect_result(false);
        assert!(!light.is_connected());
        // Nothing but the connection state was touched, and that is back
        // where it started.
        assert_eq!(light, before);
    }
}

#[test]
fn test_discovery_failure_disconnects() {
    let mut light = Light::new(7, 1, 0, 0);
    light.on_device_seen(7);
    light.on_connect_result(true);
    light.on_discovery_result(false);
    assert!(!light.is_connected());
}

#[test]
fn test_current_command_encodes_desired_color() {
    let mut light = Light::new(7, 1, 0, 0);
    light.set_color_rgb(0, 0, 255);
    let frame = light.current_command();
    // Hue 240 fits one byte; saturation and value are both 100.
    assert_eq!(frame[..7], [0x78, 0x86, 0x04, 240, 0, 100, 100]);
}

#[test]
fn test_connection_lost_and_disconnect() {
    let mut light = Light::new(7, 1, 0, 0);
    light.on_device_seen(7);
    light.on_connect_result(true);
    light.on_discovery_result(true);
    assert!(light.is_connected());
    light.on_connection_lost();
    assert_eq!(light.state, ConnectionState::Disconnected);

    light.on_device_seen(7);
    light.on_discovery_result(true);
    light.disconnect();
    assert_eq!(light.state, ConnectionState::Disconnected);
}

#[test]
fn test_write_gated_on_connection() {
    let mut light = Light::new(7, 1, 0, 0);
    // A fresh fixture is dirty, but nothing can be written while it is
    // not connected.
    assert!(!light.needs_write(0));
    light.on_device_seen(7);
    assert!(!light.needs_write(0));
    light.on_connect_result(true);
    light.on_discovery_result(true);
    assert!(light.needs_write(0));
}

use sacn_bridge::light_controller::{multicast_octets, Config, LightConfig, LightController};
use sacn_bridge::sacn_packet::SacnDmxPacket;

fn test_config() -> Config {
    Config {
        lights: vec![
            LightConfig { id: 1, universe: 1, address: 0 },
            LightConfig { id: 2, universe: 1, address: 3 },
            LightConfig { id: 3, universe: 2, address: 0 },
        ],
    }
}

fn frame(universe: u16, dmx_data: Vec<u8>) -> SacnDmxPacket {
    SacnDmxPacket::new(String::new(), universe, 100, 0, 0, dmx_data, [0; 16])
}

#[test]
fn test_get_universes_distinct() {
    let config = test_config();
    let universes = config.get_universes();
    assert_eq!(universes, vec![1, 2]);
}

#[test]
fn test_multicast_octets() {
    assert_eq!(multicast_octets(1), (239, 255, 0, 1));
    assert_eq!(multicast_octets(0x1234), (239, 255, 0x12, 0x34));
}

#[test]
fn test_route_maps_channel_windows() {
    let mut controller = LightController::new(&test_config(), 0);
    let packet = frame(1, vec![10, 20, 30, 40, 50, 60]);
    controller.handle_packet(&packet);

    let c0 = controller.lights[0].color;
    assert_eq!((c0.red, c0.green, c0.blue), (10, 20, 30));
    let c1 = controller.lights[1].color;
    assert_eq!((c1.red, c1.green, c1.blue), (40, 50, 60));
    // The universe-2 fixture is untouched.
    let c2 = controller.lights[2].color;
    assert_eq!((c2.red, c2.green, c2.blue), (0, 0, 0));
}

#[test]
fn test_route_unmatched_universe_is_no_op() {
    let mut controller = LightController::new(&test_config(), 0);
    let before: Vec<_> = controller.lights.clone();
    let packet = frame(9, vec![10, 20, 30, 40, 50, 60]);
    controller.handle_packet(&packet);
    assert_eq!(controller.lights, before);
}

#[test]
fn test_route_short_frame_skips_only_that_fixture() {
    let mut controller = LightController::new(&test_config(), 0);
    // Four channels: enough for the first fixture's window, one short for
    // the second fixture's window at address 3.
    let packet = frame(1, vec![10, 20, 30, 40]);
    controller.handle_packet(&packet);

    let c0 = controller.lights[0].color;
    assert_eq!((c0.red, c0.green, c0.blue), (10, 20, 30));
    let c1 = controller.lights[1].color;
    assert_eq!((c1.red, c1.green, c1.blue), (0, 0, 0));
}

#[test]
fn test_disconnect_all() {
    let mut controller = LightController::new(&test_config(), 0);
    controller.lights[0].on_device_seen(1);
    controller.lights[0].on_connect_result(true);
    controller.lights[0].on_discovery_result(true);
    assert!(controller.lights[0].is_connected());
    controller.disconnect_all();
    for light in &controller.lights {
        assert!(!light.is_connected());
    }
}

use kmobile::bridge::DeviceBridge;
use kmobile::endpoint::{ConnectionStatus, ConnectionType, DeviceCapabilities, DeviceType};
use kmobile::errors::BridgeError;
use kmobile::registry::DiscoveredEndpoint;
use kmobile::sensors::{default_suite, tick_interval_ms, SensorValue};
use kmobile::emulator::{
    AudioDestination, AudioProcessingConfig, AudioRouteKind, AudioRouting, AudioSource,
    HapticPattern, NetworkConditions, NetworkType,
};

fn emulator_record(id: &str) -> DiscoveredEndpoint {
    DiscoveredEndpoint {
        id: id.to_string(),
        device_type: DeviceType::AndroidEmulator,
        connection_type: ConnectionType::Usb,
    }
}

fn full_caps() -> DeviceCapabilities {
    DeviceCapabilities {
        screen_capture: true,
        audio_capture: false,
        hardware_injection: true,
        file_transfer: true,
        app_control: true,
    }
}

fn connected_bridge(id: &str, caps: DeviceCapabilities) -> DeviceBridge {
    let mut b = DeviceBridge::new();
    b.discover(vec![emulator_record(id)]);
    assert_eq!(b.begin_connect(id).unwrap(), true);
    b.finish_connect(id, Ok(caps)).unwrap();
    b
}

#[test]
fn lifecycle_follows_machine_edges() {
    let id = "emulator-5554";
    let mut b = DeviceBridge::new();
    b.discover(vec![emulator_record(id)]);
    let st = b.get_endpoint_state(id).unwrap();
    assert_eq!(st.status, ConnectionStatus::Discovered);

    // A disconnect before any connect is refused: Discovered has no edge
    // to Disconnecting.
    assert!(matches!(
        b.disconnect(id),
        Err(BridgeError::EndpointNotConnected { .. })
    ));

    assert_eq!(b.begin_connect(id).unwrap(), true);
    assert_eq!(b.get_endpoint_state(id).unwrap().status, ConnectionStatus::Connecting);

    // A second connect while one is in flight is refused rather than
    // racing.
    assert!(matches!(
        b.begin_connect(id),
        Err(BridgeError::InvalidTransition { .. })
    ));

    b.finish_connect(id, Ok(full_caps())).unwrap();
    assert_eq!(b.get_endpoint_state(id).unwrap().status, ConnectionStatus::Connected);

    // A connect on a live endpoint re-evaluates to nothing to do.
    assert_eq!(b.begin_connect(id).unwrap(), false);

    b.disconnect(id).unwrap();
    assert_eq!(b.get_endpoint_state(id).unwrap().status, ConnectionStatus::Disconnected);

    // Disconnected is terminal until rediscovered.
    assert!(matches!(
        b.begin_connect(id),
        Err(BridgeError::InvalidTransition { .. })
    ));
    b.discover(vec![emulator_record(id)]);
    assert_eq!(b.get_endpoint_state(id).unwrap().status, ConnectionStatus::Discovered);
}

#[test]
fn failed_probe_moves_to_error_and_allows_retry() {
    let id = "emulator-5554";
    let mut b = DeviceBridge::new();
    b.discover(vec![emulator_record(id)]);
    assert_eq!(b.begin_connect(id).unwrap(), true);
    b.finish_connect(id, Err("device unreachable".to_string())).unwrap();
    match b.get_endpoint_state(id).unwrap().status {
        ConnectionStatus::Error(reason) => assert_eq!(reason, "device unreachable"),
        other => panic!("unexpected status: {:?}", other),
    }
    // Error permits a retry.
    assert_eq!(b.begin_connect(id).unwrap(), true);
}

#[test]
fn inject_gps_updates_current_value() {
    let id = "emulator-5554";
    let mut b = connected_bridge(id, full_caps());
    b.attach(id).unwrap();
    let value = SensorValue::Gps {
        lat_e6: 37_774_900,
        lon_e6: -122_419_400,
        alt_cm: 5200,
        accuracy_cm: 500,
    };
    let cmd = b.inject_sensor(id, "gps", value).unwrap();
    let st = b.get_endpoint_state(id).unwrap();
    assert_eq!(st.sensors.unwrap().gps.current_value, value);
    // Android endpoints forward through the emulator console, longitude
    // first, in decimal degrees.
    let req = cmd.unwrap();
    assert_eq!(req.tool, "adb");
    assert_eq!(
        req.args,
        vec!["-s", id, "emu", "geo", "fix", "-122.419400", "37.774900"]
    );
}

#[test]
fn inject_without_capability_fails_and_changes_nothing() {
    let id = "emulator-5554";
    let mut caps = full_caps();
    caps.hardware_injection = false;
    let mut b = connected_bridge(id, caps);
    b.attach(id).unwrap();
    let before = b.get_endpoint_state(id).unwrap().sensors.unwrap();
    let value = SensorValue::Gps { lat_e6: 1, lon_e6: 2, alt_cm: 3, accuracy_cm: 4 };
    match b.inject_sensor(id, "gps", value) {
        Err(BridgeError::CapabilityUnsupported { id: eid, capability }) => {
            assert_eq!(eid, id);
            assert_eq!(capability, "hardwareInjection");
        }
        other => panic!("unexpected: {:?}", other),
    }
    let after = b.get_endpoint_state(id).unwrap().sensors.unwrap();
    assert_eq!(before, after);
}

#[test]
fn inject_unknown_sensor_fails() {
    let id = "emulator-5554";
    let mut b = connected_bridge(id, full_caps());
    b.attach(id).unwrap();
    match b.inject_sensor(id, "bogus_sensor", SensorValue::Light { millilux: 0 }) {
        Err(BridgeError::UnknownSensor { id: eid, sensor }) => {
            assert_eq!(eid, id);
            assert_eq!(sensor, "bogus_sensor");
        }
        other => panic!("unexpected: {:?}", other),
    }
}

#[test]
fn inject_wrong_shape_fails() {
    let id = "emulator-5554";
    let mut b = connected_bridge(id, full_caps());
    b.attach(id).unwrap();
    let axes = SensorValue::Axes { x_milli: 1, y_milli: 2, z_milli: 3 };
    assert!(matches!(
        b.inject_sensor(id, "gps", axes),
        Err(BridgeError::InvalidSensorValue { .. })
    ));
    let st = b.get_endpoint_state(id).unwrap();
    assert_eq!(st.sensors.unwrap(), default_suite());
}

#[test]
fn inject_on_unknown_endpoint_fails() {
    let mut b = DeviceBridge::new();
    assert!(matches!(
        b.inject_sensor("nope", "gps", SensorValue::Light { millilux: 0 }),
        Err(BridgeError::EndpointNotFound { .. })
    ));
}

#[test]
fn disconnect_stops_every_loop() {
    let id = "emulator-5554";
    let mut b = connected_bridge(id, full_caps());
    b.attach(id).unwrap();
    b.start_streaming(id).unwrap();
    assert_eq!(b.get_endpoint_state(id).unwrap().status, ConnectionStatus::Streaming);
    assert!(b.loops_running(id) >= 1);
    b.disconnect(id).unwrap();
    assert_eq!(b.get_endpoint_state(id).unwrap().status, ConnectionStatus::Disconnected);
    assert_eq!(b.loops_running(id), 0);
    assert!(b.get_endpoint_state(id).unwrap().sensors.is_none());
}

#[test]
fn start_streaming_twice_is_idempotent() {
    let id = "emulator-5554";
    let mut b = connected_bridge(id, full_caps());
    b.attach(id).unwrap();
    b.start_streaming(id).unwrap();
    let once = b.loops_running(id);
    b.start_streaming(id).unwrap();
    let twice = b.loops_running(id);
    // Exactly the loops of the first start exist afterwards, none
    // duplicated: the count is unchanged.
    assert_eq!(once, twice);
    assert_eq!(b.get_endpoint_state(id).unwrap().status, ConnectionStatus::Streaming);
}

#[test]
fn discovery_is_idempotent() {
    let recs = || vec![emulator_record("emulator-5554"), emulator_record("emulator-5556")];
    let mut b = DeviceBridge::new();
    b.discover(recs());
    let n1 = b.endpoint_count();
    let ids1: Vec<String> = b.endpoints().iter().map(|e| e.id.clone()).collect();
    b.discover(recs());
    let n2 = b.endpoint_count();
    let ids2: Vec<String> = b.endpoints().iter().map(|e| e.id.clone()).collect();
    assert_eq!(n1, 2);
    assert_eq!(n1, n2);
    assert_eq!(ids1, ids2);
}

#[test]
fn reattach_resets_sensor_state_to_defaults() {
    let id = "emulator-5554";
    let mut b = connected_bridge(id, full_caps());
    b.attach(id).unwrap();
    let value = SensorValue::Gps { lat_e6: 1, lon_e6: 2, alt_cm: 3, accuracy_cm: 4 };
    b.inject_sensor(id, "gps", value).unwrap();
    assert_ne!(b.get_endpoint_state(id).unwrap().sensors.unwrap(), default_suite());
    b.detach(id);
    assert!(b.get_endpoint_state(id).unwrap().sensors.is_none());
    b.attach(id).unwrap();
    assert_eq!(b.get_endpoint_state(id).unwrap().sensors.unwrap(), default_suite());
}

#[test]
fn detach_is_idempotent() {
    let id = "emulator-5554";
    let mut b = connected_bridge(id, full_caps());
    b.attach(id).unwrap();
    b.detach(id);
    b.detach(id);
    assert!(b.get_endpoint_state(id).unwrap().sensors.is_none());
}

#[test]
fn attach_requires_live_endpoint() {
    let id = "emulator-5554";
    let mut b = DeviceBridge::new();
    b.discover(vec![emulator_record(id)]);
    assert!(matches!(
        b.attach(id),
        Err(BridgeError::EndpointNotConnected { .. })
    ));
    assert!(matches!(
        b.attach("missing"),
        Err(BridgeError::EndpointNotFound { .. })
    ));
}

#[test]
fn battery_and_network_are_validated_and_recorded() {
    let id = "emulator-5554";
    let mut b = connected_bridge(id, full_caps());
    b.attach(id).unwrap();
    assert!(matches!(
        b.set_battery_level(id, 101),
        Err(BridgeError::InvalidSensorValue { .. })
    ));
    let cmd = b.set_battery_level(id, 42).unwrap();
    let req = cmd.unwrap();
    assert_eq!(req.tool, "adb");
    assert_eq!(
        req.args,
        vec!["-s", id, "shell", "dumpsys", "battery", "set", "level", "42"]
    );

    let mut cond = NetworkConditions {
        connection_type: NetworkType::Cellular4G,
        bandwidth_kbps: 5000,
        latency_ms: 80,
        packet_loss_bp: 20000,
        jitter_us: 500,
    };
    assert!(matches!(
        b.set_network_conditions(id, cond),
        Err(BridgeError::InvalidSensorValue { .. })
    ));
    cond.packet_loss_bp = 150;
    b.set_network_conditions(id, cond).unwrap();
}

#[test]
fn haptic_patterns_are_range_checked() {
    let id = "emulator-5554";
    let mut b = connected_bridge(id, full_caps());
    assert!(b.trigger_haptic(id, HapticPattern::Light).is_ok());
    assert!(b
        .trigger_haptic(id, HapticPattern::Custom { duration_ms: 100, intensity_milli: 700 })
        .is_ok());
    assert!(matches!(
        b.trigger_haptic(id, HapticPattern::Custom { duration_ms: 0, intensity_milli: 700 }),
        Err(BridgeError::InvalidSensorValue { .. })
    ));
    assert!(matches!(
        b.trigger_haptic(id, HapticPattern::Custom { duration_ms: 5, intensity_milli: 1001 }),
        Err(BridgeError::InvalidSensorValue { .. })
    ));
}

#[test]
fn frame_slot_keeps_newest_frame() {
    let id = "emulator-5554";
    let mut b = connected_bridge(id, full_caps());
    b.attach(id).unwrap();
    assert!(b.latest_frame(id).is_none());
    b.start_streaming(id).unwrap();
    assert!(b.publish_frame(id, vec![1, 2, 3]));
    assert!(b.publish_frame(id, vec![4, 5]));
    assert_eq!(b.latest_frame(id).unwrap().as_slice(), &[4, 5]);
}

#[test]
fn lost_endpoint_moves_to_error_and_stops_loops() {
    let id = "emulator-5554";
    let mut b = connected_bridge(id, full_caps());
    b.attach(id).unwrap();
    b.start_streaming(id).unwrap();
    b.report_endpoint_lost(id, "device vanished".to_string()).unwrap();
    match b.get_endpoint_state(id).unwrap().status {
        ConnectionStatus::Error(reason) => assert_eq!(reason, "device vanished"),
        other => panic!("unexpected status: {:?}", other),
    }
    assert_eq!(b.loops_running(id), 0);
    // The hardware state stays for inspection until the explicit
    // disconnect.
    assert!(b.get_endpoint_state(id).unwrap().sensors.is_some());
}

#[test]
fn simulation_tick_stays_within_noise() {
    let mut engine = kmobile::emulator::HardwareEmulator::new();
    engine.attach_to_device("tick-probe");
    for _ in 0..32 {
        let drifted =
            engine.simulate_sensor_tick("tick-probe", kmobile::sensors::SensorKind::Gyroscope);
        // The drifted value is handed back and recorded.
        let v = drifted.unwrap();
        let st = engine.get_device_state("tick-probe").unwrap();
        assert_eq!(st.sensors.gyroscope.current_value, v);
    }
    let st = engine.get_device_state("tick-probe").unwrap();
    let noise = st.sensors.gyroscope.noise_level_milli as i64;
    match st.sensors.gyroscope.current_value {
        SensorValue::Axes { x_milli, y_milli, z_milli } => {
            assert!(x_milli.abs() <= 32 * noise);
            assert!(y_milli.abs() <= 32 * noise);
            assert!(z_milli.abs() <= 32 * noise);
        }
        other => panic!("unexpected value: {:?}", other),
    }
    // An unattached endpoint never drifts.
    let drifted =
        engine.simulate_sensor_tick("absent", kmobile::sensors::SensorKind::Gyroscope);
    assert!(drifted.is_none());
}

#[test]
fn tick_forwards_only_with_hardware_injection() {
    let id = "emulator-5554";
    let mut b = connected_bridge(id, full_caps());
    b.attach(id).unwrap();
    // A position fix drifts and is forwarded through the geo pathway.
    let forward = b.tick_sensor(id, kmobile::sensors::SensorKind::Gps).unwrap();
    assert_eq!(forward.tool, "adb");
    assert_eq!(&forward.args[..5], &["-s", id, "emu", "geo", "fix"]);

    // Without the capability the drift stays local.
    let mut caps = full_caps();
    caps.hardware_injection = false;
    let mut b2 = connected_bridge(id, caps);
    b2.attach(id).unwrap();
    let before = b2.get_endpoint_state(id).unwrap().sensors.unwrap();
    assert!(b2.tick_sensor(id, kmobile::sensors::SensorKind::Light).is_none());
    let after = b2.get_endpoint_state(id).unwrap().sensors.unwrap();
    let (b_lux, a_lux) = match (before.light.current_value, after.light.current_value) {
        (SensorValue::Light { millilux: b }, SensorValue::Light { millilux: a }) => (b, a),
        other => panic!("unexpected values: {:?}", other),
    };
    assert!((a_lux - b_lux).abs() <= before.light.noise_level_milli as i64);
}

#[test]
fn tick_interval_follows_update_frequency() {
    // One hertz is a thousand millihertz: one tick per second.
    assert_eq!(tick_interval_ms(1000), 1000);
    // Fifty hertz: one tick every twenty milliseconds.
    assert_eq!(tick_interval_ms(50000), 20);
    // A zero cadence asks for no ticks.
    assert_eq!(tick_interval_ms(0), 0);
}

#[test]
fn audio_routing_replaces_previous_loop() {
    let id = "emulator-5554";
    let mut b = connected_bridge(id, full_caps());
    b.attach(id).unwrap();
    b.start_streaming(id).unwrap();
    let idle = b.loops_running(id);

    let tts = AudioRouting {
        input_source: AudioSource::TtsEngine,
        output_destination: AudioDestination::Speaker,
        tts_enabled: true,
        stt_enabled: false,
        audio_processing: AudioProcessingConfig::default(),
    };
    let kind = b.start_audio_routing(id, tts).unwrap();
    assert_eq!(kind, AudioRouteKind::TtsToSpeaker);
    assert_eq!(b.loops_running(id), idle + 1);

    let stt = AudioRouting {
        input_source: AudioSource::Microphone,
        output_destination: AudioDestination::SttEngine,
        tts_enabled: false,
        stt_enabled: true,
        audio_processing: AudioProcessingConfig::default(),
    };
    let kind = b.start_audio_routing(id, stt).unwrap();
    assert_eq!(kind, AudioRouteKind::MicToStt);
    // Replacing one active routing with another keeps exactly one audio
    // loop, never two.
    assert_eq!(b.loops_running(id), idle + 1);

    // The inert microphone-to-speaker pair stops the loop.
    let kind = b.start_audio_routing(id, AudioRouting::default()).unwrap();
    assert_eq!(kind, AudioRouteKind::Custom);
    assert_eq!(b.loops_running(id), idle);
}

#[test]
fn screenshots_come_from_the_latest_frame() {
    let id = "emulator-5554";
    let mut b = connected_bridge(id, full_caps());
    b.attach(id).unwrap();
    b.start_streaming(id).unwrap();
    assert!(b.take_screenshot(id).is_none());
    b.publish_frame(id, vec![9, 9, 9]);
    let shot = b.take_screenshot(id).unwrap();
    assert_eq!(shot.data, vec![9, 9, 9]);
    assert_eq!(shot.width, 1080);
    assert_eq!(shot.height, 1920);
}

#[test]
fn taps_dispatch_by_platform() {
    let id = "emulator-5554";
    let mut b = connected_bridge(id, full_caps());
    let req = b.tap_command(id, 100, -20).unwrap();
    assert_eq!(req.tool, "adb");
    assert_eq!(req.args, vec!["-s", id, "shell", "input", "tap", "100", "-20"]);

    let sim = "ABCDEF01-2345-6789-ABCD-EF0123456789";
    let mut b2 = DeviceBridge::new();
    b2.discover(vec![DiscoveredEndpoint {
        id: sim.to_string(),
        device_type: DeviceType::IosSimulator,
        connection_type: ConnectionType::Simulator,
    }]);
    b2.begin_connect(sim).unwrap();
    b2.finish_connect(sim, Ok(full_caps())).unwrap();
    let req = b2.tap_command(sim, 5, 6).unwrap();
    assert_eq!(req.tool, "xcrun");
    assert_eq!(req.args, vec!["simctl", "io", sim, "touch", "5", "6"]);

    assert!(matches!(
        b2.tap_command("missing", 0, 0),
        Err(BridgeError::EndpointNotFound { .. })
    ));
}

#[test]
fn failed_hardware_probe_disables_injection() {
    // The whole connect flow can now deny injection empirically: a
    // failing hardware probe yields a capability set without it, and
    // the injection path rejects with the typed error.
    let id = "emulator-5554";
    let caps = kmobile::adapter::capabilities_from_probes(true, true, false, true, true);
    assert!(!caps.hardware_injection);
    let mut b = connected_bridge(id, caps);
    b.attach(id).unwrap();
    let value = SensorValue::Light { millilux: 500 };
    assert!(matches!(
        b.inject_sensor(id, "light", value),
        Err(BridgeError::CapabilityUnsupported { .. })
    ));
}

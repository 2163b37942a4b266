use kmobile::adapter::{
    capabilities_from_probes, detect_device_type, android_inject_command, screen_capture_probe,
    app_control_probe, audio_capture_probe, file_transfer_probe, hardware_injection_probe,
    ExecOutcome,
};
use kmobile::discovery::{
    adb_status_of, parse_adb_devices, parse_avd_list, parse_ios_devices, runtime_version,
    simulator_status_of, android_device_from_props, DeviceStatus, SimulatorStatus,
};
use kmobile::endpoint::DeviceType;
use kmobile::project::{clean_command, detect_project_from_files, ProjectMarkers};
use kmobile::sensors::{SensorKind, SensorValue};
use kmobile::testing::{default_test_suite, step_command, TestAction, TestResult, TestRunner,
    TestStatus, TestStep};
use kmobile::config::Config;
use kmobile::errors::BridgeError;
use kmobile::mcp::{default_prompts, default_resources};
use kmobile::utils::{common_tool_paths, extract_tool_version, version_args_for};

#[test]
fn adb_device_listing_parses() {
    let output = "List of devices attached\n\
                  emulator-5554\tdevice product:sdk_gphone64\n\
                  0123456789ABCDEF\tunauthorized\n\
                  \n\
                  deadbeef\toffline\n\
                  strayline\n";
    let parsed = parse_adb_devices(output);
    assert_eq!(parsed.len(), 3);
    assert_eq!(parsed[0].0, "emulator-5554");
    assert_eq!(parsed[0].1, DeviceStatus::Connected);
    assert_eq!(parsed[1].0, "0123456789ABCDEF");
    assert_eq!(parsed[1].1, DeviceStatus::Unauthorized);
    assert_eq!(parsed[2].0, "deadbeef");
    assert_eq!(parsed[2].1, DeviceStatus::Offline);
    assert_eq!(adb_status_of("sideload"), DeviceStatus::Disconnected);
}

#[test]
fn ios_device_listing_parses() {
    let output = "Known Devices:\n\
                  My iPhone (17.2) [00008030-000A1B2C3D4E5F]\n\
                  iPhone 15 (17.0) Simulator [SIM-UDID]\n\
                  garbage ) ( line [x]\n";
    let parsed = parse_ios_devices(output);
    assert_eq!(parsed.len(), 1);
    assert_eq!(parsed[0].0, "My iPhone");
    assert_eq!(parsed[0].1, "17.2");
    assert_eq!(parsed[0].2, "00008030-000A1B2C3D4E5F");
}

#[test]
fn avd_listing_parses() {
    let output = "Pixel_6_API_33\n\n  Tablet_API_30  \n";
    let parsed = parse_avd_list(output);
    assert_eq!(parsed, vec!["Pixel_6_API_33", "Tablet_API_30"]);
}

#[test]
fn simulator_states_and_runtimes() {
    assert_eq!(simulator_status_of("Booted"), SimulatorStatus::Booted);
    assert_eq!(simulator_status_of("Booting"), SimulatorStatus::Booting);
    assert_eq!(simulator_status_of("Shutting Down"), SimulatorStatus::ShuttingDown);
    assert_eq!(simulator_status_of("Shutdown"), SimulatorStatus::Shutdown);
    assert_eq!(
        runtime_version("com.apple.CoreSimulator.SimRuntime.iOS-17-2"),
        "iOS.17.2"
    );
    assert_eq!(runtime_version("iOS-16-0"), "iOS.16.0");
}

#[test]
fn device_records_use_reported_properties() {
    let props = vec![
        ("ro.product.model".to_string(), "Pixel 6".to_string()),
        ("ro.build.version.release".to_string(), "14".to_string()),
    ];
    let d = android_device_from_props("abc".to_string(), DeviceStatus::Connected, &props);
    assert_eq!(d.name, "Pixel 6");
    assert_eq!(d.version, "14");
    assert_eq!(d.platform, "android");
    let bare = android_device_from_props("abc".to_string(), DeviceStatus::Connected, &vec![]);
    assert_eq!(bare.name, "abc");
    assert_eq!(bare.version, "unknown");
}

#[test]
fn device_type_detection() {
    assert_eq!(
        detect_device_type("emulator-5554", true, false),
        Some(DeviceType::AndroidEmulator)
    );
    assert_eq!(
        detect_device_type("0123456789ABCDEF", true, false),
        Some(DeviceType::AndroidPhysical)
    );
    assert_eq!(
        detect_device_type("ABCDEF01-2345-6789-ABCD-EF0123456789", false, true),
        Some(DeviceType::IosSimulator)
    );
    assert_eq!(
        detect_device_type("shortid", false, true),
        Some(DeviceType::IosPhysical)
    );
    assert_eq!(detect_device_type("whatever", false, false), None);
}

#[test]
fn capability_sets_follow_probes() {
    // Every flag equals its probe's outcome; nothing is assumed from
    // the platform.
    let caps = capabilities_from_probes(true, false, true, false, true);
    assert!(caps.screen_capture);
    assert!(!caps.audio_capture);
    assert!(caps.hardware_injection);
    assert!(!caps.file_transfer);
    assert!(caps.app_control);
    let none = capabilities_from_probes(false, false, false, false, false);
    assert!(!none.hardware_injection);
    assert!(!none.screen_capture);
}

#[test]
fn probe_and_inject_commands_are_exact() {
    let probe = screen_capture_probe("dev1", true);
    assert_eq!(probe.tool, "adb");
    assert_eq!(probe.args, vec!["-s", "dev1", "exec-out", "screencap", "-p"]);
    let probe_ios = screen_capture_probe("sim1", false);
    assert_eq!(probe_ios.tool, "xcrun");
    assert_eq!(probe_ios.args, vec!["simctl", "io", "sim1", "screenshot", "-"]);
    let pm = app_control_probe("dev1", true);
    assert_eq!(pm.args, vec!["-s", "dev1", "shell", "pm", "list", "packages"]);
    let apps = app_control_probe("sim1", false);
    assert_eq!(apps.tool, "xcrun");
    assert_eq!(apps.args, vec!["simctl", "listapps", "sim1"]);

    let hw = hardware_injection_probe("dev1", true);
    assert_eq!(hw.tool, "adb");
    assert_eq!(hw.args, vec!["-s", "dev1", "emu", "avd", "status"]);
    let hw_ios = hardware_injection_probe("sim1", false);
    assert_eq!(hw_ios.args, vec!["simctl", "getenv", "sim1", "SIMULATOR_UDID"]);

    let audio = audio_capture_probe("dev1", true);
    assert_eq!(audio.args, vec!["-s", "dev1", "shell", "dumpsys", "audio"]);
    let audio_ios = audio_capture_probe("sim1", false);
    assert_eq!(audio_ios.args, vec!["simctl", "io", "sim1", "enumerate"]);

    let file = file_transfer_probe("dev1", true).unwrap();
    assert_eq!(file.args, vec!["-s", "dev1", "shell", "ls", "/sdcard"]);
    assert!(file_transfer_probe("sim1", false).is_none());

    let axes = SensorValue::Axes { x_milli: 1500, y_milli: -250, z_milli: 0 };
    let req = android_inject_command("dev1", SensorKind::Accelerometer, &axes);
    assert_eq!(req.tool, "adb");
    assert_eq!(
        req.args,
        vec!["-s", "dev1", "emu", "sensor", "set", "acceleration", "1.500:-0.250:0.000"]
    );

    let outcome = ExecOutcome { exit_code: 0, stdout: Vec::new(), stderr: Vec::new() };
    assert!(outcome.succeeded());
    let failed = ExecOutcome { exit_code: 1, stdout: b"png".to_vec(), stderr: Vec::new() };
    assert!(!failed.succeeded());
}

#[test]
fn project_classification() {
    let android = detect_project_from_files(
        "demo".to_string(),
        "/src/demo".to_string(),
        ProjectMarkers {
            has_gradle: true,
            has_ios_dir: false,
            has_xcode_project: false,
            has_package_json: false,
            has_android_dir: false,
            has_pubspec: false,
        },
    );
    assert_eq!(android.platform, "android");
    assert_eq!(android.build_command.as_deref(), Some("./gradlew assembleDebug"));
    assert_eq!(android.test_command.as_deref(), Some("./gradlew test"));

    let rn = detect_project_from_files(
        "demo".to_string(),
        "/src/demo".to_string(),
        ProjectMarkers {
            has_gradle: false,
            has_ios_dir: true,
            has_xcode_project: false,
            has_package_json: true,
            has_android_dir: true,
            has_pubspec: false,
        },
    );
    // The iOS directory rule precedes the React Native rule.
    assert_eq!(rn.platform, "ios");

    let flutter = detect_project_from_files(
        "demo".to_string(),
        "/src/demo".to_string(),
        ProjectMarkers {
            has_gradle: false,
            has_ios_dir: false,
            has_xcode_project: false,
            has_package_json: false,
            has_android_dir: false,
            has_pubspec: true,
        },
    );
    assert_eq!(flutter.platform, "flutter");
    assert_eq!(flutter.build_command.as_deref(), Some("flutter build apk"));

    let clean = clean_command("android").unwrap();
    assert_eq!(clean.tool, "./gradlew");
    assert_eq!(clean.args, vec!["clean"]);
    assert!(clean_command("react-native").is_none());
    assert!(clean_command("unknown").is_none());
}

#[test]
fn step_commands_are_exact() {
    let tap = TestStep {
        action: TestAction::Tap,
        target: Some("100 200".to_string()),
        value: None,
        wait_time_secs: None,
    };
    let req = step_command(&tap, "dev1").unwrap();
    assert_eq!(req.args, vec!["-s", "dev1", "shell", "input", "tap", "100 200"]);

    let wait = TestStep {
        action: TestAction::Wait,
        target: None,
        value: None,
        wait_time_secs: Some(1),
    };
    assert!(step_command(&wait, "dev1").is_none());

    let typing = TestStep {
        action: TestAction::Type,
        target: Some("field".to_string()),
        value: Some("hello".to_string()),
        wait_time_secs: None,
    };
    let req = step_command(&typing, "dev1").unwrap();
    assert_eq!(req.args, vec!["-s", "dev1", "shell", "input", "text", "hello"]);

    let background = TestStep {
        action: TestAction::Background,
        target: None,
        value: None,
        wait_time_secs: None,
    };
    let req = step_command(&background, "dev1").unwrap();
    assert_eq!(
        req.args,
        vec!["-s", "dev1", "shell", "input", "keyevent", "KEYCODE_HOME"]
    );
}

#[test]
fn summary_counts_every_status() {
    let runner = TestRunner::new(Config::default(), "./out".to_string());
    let mk = |name: &str, status: TestStatus| TestResult {
        test_name: name.to_string(),
        status,
        duration_ms: 5,
        error_message: None,
        screenshots: vec![],
        video_path: None,
    };
    let results = vec![
        mk("a", TestStatus::Passed),
        mk("b", TestStatus::Failed),
        mk("c", TestStatus::Passed),
        mk("d", TestStatus::Skipped),
        mk("e", TestStatus::Timeout),
    ];
    let summary = runner.generate_summary(&results);
    assert_eq!(summary.total, 5);
    assert_eq!(summary.passed, 2);
    assert_eq!(summary.failed, 1);
    assert_eq!(summary.skipped, 1);
    assert_eq!(summary.timeout, 1);
}

#[test]
fn default_suite_and_registrations() {
    let suite = default_test_suite("default".to_string());
    assert_eq!(suite.name, "default");
    assert_eq!(suite.tests.len(), 1);
    assert_eq!(suite.tests[0].name, "app_launch");
    assert_eq!(suite.tests[0].steps.len(), 2);
    assert_eq!(suite.config.timeout_secs, 30);

    let resources = default_resources();
    assert_eq!(resources.len(), 3);
    assert_eq!(resources[0].uri, "kmobile://devices");
    assert_eq!(resources[2].name, "Current Project");

    let prompts = default_prompts();
    assert_eq!(prompts.len(), 2);
    assert_eq!(prompts[0].name, "mobile_deploy");
    assert_eq!(prompts[0].arguments.len(), 3);
    assert!(prompts[0].arguments[0].required);
    assert!(!prompts[1].arguments[1].required);

    let config = Config::default();
    assert_eq!(config.name(), "KMobile");
    assert_eq!(config.mcp.port, 3001);
    assert_eq!(config.api.port, 3000);
    assert_eq!(config.testing.framework, "kmobile");
    assert_eq!(config.mcp.tools.len(), 4);
}

#[test]
fn getprop_parsing() {
    let output = "[ro.product.model]: [Pixel 6]\n\
                  [ro.build.version.release]: [14]\n\
                  not a property line\n\
                  [weird\n";
    let props = kmobile::discovery::parse_getprop(output);
    assert_eq!(props.len(), 2);
    assert_eq!(props[0], ("ro.product.model".to_string(), "Pixel 6".to_string()));
    assert_eq!(props[1], ("ro.build.version.release".to_string(), "14".to_string()));
}

#[test]
fn emulator_status_reads_device_listing() {
    let output = "List of devices attached\nemulator-5554\tdevice\n";
    assert_eq!(
        kmobile::discovery::get_android_emulator_status(output, "emulator-5554"),
        SimulatorStatus::Booted
    );
    assert_eq!(
        kmobile::discovery::get_android_emulator_status(output, "emulator-5556"),
        SimulatorStatus::Shutdown
    );
}

#[test]
fn simulator_records_are_built_exactly() {
    let sim = kmobile::discovery::make_ios_simulator(
        "UDID-1".to_string(),
        "iPhone 15".to_string(),
        "Booted",
        "com.apple.CoreSimulator.SimRuntime.iOS-17-0",
    );
    assert_eq!(sim.id, "UDID-1");
    assert_eq!(sim.name, "iPhone 15");
    assert_eq!(sim.platform, "ios");
    assert_eq!(sim.version, "iOS.17.0");
    assert_eq!(sim.status, SimulatorStatus::Booted);
    assert_eq!(sim.device_type, "simulator");

    let emu = kmobile::discovery::make_android_emulator(
        "Pixel_6_API_33".to_string(),
        SimulatorStatus::Shutdown,
    );
    assert_eq!(emu.id, "Pixel_6_API_33");
    assert_eq!(emu.name, "Pixel_6_API_33");
    assert_eq!(emu.platform, "android");
    assert_eq!(emu.version, "unknown");
    assert_eq!(emu.device_type, "emulator");
}

#[test]
fn tool_versions_are_extracted() {
    assert_eq!(
        extract_tool_version("adb", "Android Debug Bridge version 1.0.41\nmore text"),
        "1.0.41"
    );
    assert_eq!(extract_tool_version("xcodebuild", "Xcode 15.0\nBuild version 15A240d"), "15.0");
    assert_eq!(extract_tool_version("flutter", "Flutter 3.13.9"), "3.13.9");
    assert_eq!(extract_tool_version("adb", ""), "unknown");
    assert_eq!(extract_tool_version("adb", "\n"), "unknown");

    assert_eq!(version_args_for("adb"), vec!["version"]);
    assert_eq!(version_args_for("simctl"), vec!["help"]);
    assert_eq!(version_args_for("xcodebuild"), vec!["-version"]);
    assert_eq!(version_args_for("ios-deploy"), vec!["--version"]);

    assert_eq!(common_tool_paths("adb").len(), 3);
    assert_eq!(common_tool_paths("simctl").len(), 2);
    assert_eq!(common_tool_paths("flutter").len(), 0);
}

#[test]
fn discovery_records_are_normalized() {
    let pairs = vec![
        ("emulator-5554".to_string(), DeviceStatus::Connected),
        ("0123456789ABCDEF".to_string(), DeviceStatus::Offline),
    ];
    let recs = kmobile::discovery::android_discovery_records(&pairs);
    assert_eq!(recs.len(), 2);
    assert_eq!(recs[0].id, "emulator-5554");
    assert_eq!(recs[0].device_type, DeviceType::AndroidEmulator);
    assert_eq!(recs[1].device_type, DeviceType::AndroidPhysical);

    let triples = vec![(
        "My iPhone".to_string(),
        "17.2".to_string(),
        "ABCDEF01-2345-6789-ABCD-EF0123456789".to_string(),
    )];
    let recs = kmobile::discovery::ios_discovery_records(&triples);
    assert_eq!(recs.len(), 1);
    assert_eq!(recs[0].id, "ABCDEF01-2345-6789-ABCD-EF0123456789");
    assert_eq!(recs[0].device_type, DeviceType::IosSimulator);

    let entries = vec![(
        "UDID-2".to_string(),
        "iPad".to_string(),
        "Shutdown".to_string(),
        "com.apple.CoreSimulator.SimRuntime.iOS-16-4".to_string(),
    )];
    let sims = kmobile::discovery::ios_simulators_from_listing(&entries);
    assert_eq!(sims.len(), 1);
    assert_eq!(sims[0].name, "iPad");
    assert_eq!(sims[0].version, "iOS.16.4");
    assert_eq!(sims[0].status, SimulatorStatus::Shutdown);
}

#[test]
fn command_results_embed_the_cause() {
    assert!(kmobile::adapter::command_result(0, "adb".to_string(), String::new()).is_ok());
    match kmobile::adapter::command_result(1, "adb".to_string(), "device offline".to_string()) {
        Err(BridgeError::ExternalTool { tool, detail }) => {
            assert_eq!(tool, "adb");
            assert_eq!(detail, "device offline");
        }
        other => panic!("unexpected: {:?}", other),
    }
}

//! Command execution adapter model: the exact platform-tool invocations
//! the bridge decides on, and what callers conclude from their outcomes.
//! Spawning the processes happens outside the library; everything that
//! chooses a tool, builds an argument list or interprets an exit code is
//! here, with exact contracts.

use vstd::prelude::*;
use vstd::string::StringExecFns;
use crate::endpoint::{DeviceCapabilities, DeviceType};
use crate::sensors::{SensorKind, SensorValue};
use crate::strutil::{fixed_e3_string, fixed_e6_string, i64_to_string, spec_contains, str_contains,
    spec_fixed_point, dec_digits_signed, u64_to_string, dec_digits};

verus! {

/// One platform-tool invocation: the tool, its arguments, and the
/// deadline after which the runner must kill the process.
#[derive(Debug)]
pub struct ExecRequest {
    pub tool: String,
    pub args: Vec<String>,
    pub timeout_ms: u64,
}

/// What a finished invocation produced: the raw output bytes, since a
/// capture command returns image data, and the exit code. A nonzero
/// exit is a value, not an error: each caller decides what it means for
/// its operation.
#[derive(Debug)]
pub struct ExecOutcome {
    pub exit_code: i32,
    pub stdout: Vec<u8>,
    pub stderr: Vec<u8>,
}

impl ExecOutcome {
    /// The exit convention nearly every probe uses.
    pub open spec fn spec_succeeded(&self) -> bool {
        self.exit_code == 0
    }

    pub fn succeeded(&self) -> (r: bool)
        ensures
            r == self.spec_succeeded(),
    {
        self.exit_code == 0
    }
}

/// What a forwarding invocation's outcome means for its caller: a zero
/// exit is success, and any other exit is the external-tool error
/// naming the tool and embedding the cause text the runner read from
/// the tool's error stream — returned to the caller, never discarded.
pub fn command_result(exit_code: i32, tool: String, detail: String) -> (r: Result<
    (),
    crate::errors::BridgeError,
>)
    ensures
        exit_code == 0 ==> r == Ok::<(), crate::errors::BridgeError>(()),
        exit_code != 0 ==> (r matches Err(crate::errors::BridgeError::ExternalTool {
            tool: t,
            detail: d,
        }) && t@ == tool@ && d@ == detail@),
{
    if exit_code == 0 {
        Ok(())
    } else {
        Err(crate::errors::BridgeError::ExternalTool { tool, detail })
    }
}

/// The deadline given to every bridge-issued command.
pub open spec fn spec_command_timeout_ms() -> u64 {
    10000
}

/// The argument lists, as character sequences, that the builders below
/// promise.
pub open spec fn args_model(args: Seq<String>) -> Seq<Seq<char>> {
    Seq::new(args.len(), |i: int| args[i]@)
}

/// The Android sensor-console name of each sensor the emulator can set.
pub open spec fn spec_android_sensor_name(kind: SensorKind) -> Seq<char> {
    match kind {
        SensorKind::Gps => "gps"@,
        SensorKind::Accelerometer => "acceleration"@,
        SensorKind::Gyroscope => "gyroscope"@,
        SensorKind::Magnetometer => "magnetic-field"@,
        SensorKind::Proximity => "proximity"@,
        SensorKind::Light => "light"@,
    }
}

fn android_sensor_name(kind: SensorKind) -> (r: &'static str)
    ensures
        r@ == spec_android_sensor_name(kind),
{
    match kind {
        SensorKind::Gps => "gps",
        SensorKind::Accelerometer => "acceleration",
        SensorKind::Gyroscope => "gyroscope",
        SensorKind::Magnetometer => "magnetic-field",
        SensorKind::Proximity => "proximity",
        SensorKind::Light => "light",
    }
}

/// The payload text an Android sensor write carries: degrees for a
/// position fix come separately, a three-axis value is colon-joined in
/// base units, proximity is its millimeter distance, light its
/// illuminance in lux.
pub open spec fn spec_android_sensor_payload(value: SensorValue) -> Seq<char> {
    match value {
        SensorValue::Gps { .. } => Seq::empty(),
        SensorValue::Axes { x_milli, y_milli, z_milli } => spec_fixed_point(x_milli as int, 3)
            + ":"@ + spec_fixed_point(y_milli as int, 3) + ":"@ + spec_fixed_point(
            z_milli as int,
            3,
        ),
        SensorValue::Proximity { distance_mm, .. } => dec_digits_signed(distance_mm as int),
        SensorValue::Light { millilux } => spec_fixed_point(millilux as int, 3),
    }
}

fn android_sensor_payload(value: &SensorValue) -> (r: String)
    ensures
        r@ == spec_android_sensor_payload(*value),
{
    match value {
        SensorValue::Gps { .. } => String::new(),
        SensorValue::Axes { x_milli, y_milli, z_milli } => {
            let mut s = fixed_e3_string(*x_milli);
            s.append(":");
            let y = fixed_e3_string(*y_milli);
            s.append(y.as_str());
            s.append(":");
            let z = fixed_e3_string(*z_milli);
            s.append(z.as_str());
            assert(s@ =~= spec_android_sensor_payload(*value));
            s
        },
        SensorValue::Proximity { distance_mm, .. } => i64_to_string(*distance_mm),
        SensorValue::Light { millilux } => fixed_e3_string(*millilux),
    }
}

/// The exact arguments of the Android injection command for one sensor
/// value: a position fix goes through the emulator console's geo fix,
/// longitude first; every other sensor through its sensor console
/// entry.
pub open spec fn spec_android_inject_args(
    id: Seq<char>,
    kind: SensorKind,
    value: SensorValue,
) -> Seq<Seq<char>> {
    match value {
        SensorValue::Gps { lat_e6, lon_e6, .. } => seq![
            "-s"@,
            id,
            "emu"@,
            "geo"@,
            "fix"@,
            spec_fixed_point(lon_e6 as int, 6),
            spec_fixed_point(lat_e6 as int, 6),
        ],
        _ => seq![
            "-s"@,
            id,
            "emu"@,
            "sensor"@,
            "set"@,
            spec_android_sensor_name(kind),
            spec_android_sensor_payload(value),
        ],
    }
}

/// The Android injection command for one sensor value; its arguments
/// are exactly `spec_android_inject_args`.
pub fn android_inject_command(device_id: &str, kind: SensorKind, value: &SensorValue) -> (r:
    ExecRequest)
    ensures
        r.tool@ == "adb"@,
        r.timeout_ms == spec_command_timeout_ms(),
        args_model(r.args@) =~= spec_android_inject_args(device_id@, kind, *value),
{
    let mut args: Vec<String> = Vec::new();
    args.push(String::from_str("-s"));
    args.push(String::from_str(device_id));
    args.push(String::from_str("emu"));
    match value {
        SensorValue::Gps { lat_e6, lon_e6, .. } => {
            args.push(String::from_str("geo"));
            args.push(String::from_str("fix"));
            args.push(fixed_e6_string(*lon_e6));
            args.push(fixed_e6_string(*lat_e6));
        },
        _ => {
            args.push(String::from_str("sensor"));
            args.push(String::from_str("set"));
            args.push(String::from_str(android_sensor_name(kind)));
            args.push(android_sensor_payload(value));
        },
    }
    ExecRequest { tool: String::from_str("adb"), args, timeout_ms: 10000 }
}

/// The exact arguments of the iOS injection command for a position
/// fix, through simctl's location set, latitude first; no other sensor
/// has a forwarding pathway, so no other value has arguments.
pub open spec fn spec_ios_inject_args(id: Seq<char>, value: SensorValue) -> Seq<Seq<char>> {
    match value {
        SensorValue::Gps { lat_e6, lon_e6, .. } => seq![
            "simctl"@,
            "location"@,
            id,
            "set"@,
            spec_fixed_point(lat_e6 as int, 6),
            spec_fixed_point(lon_e6 as int, 6),
        ],
        _ => Seq::empty(),
    }
}

/// The iOS injection command for one sensor value, where the simulator
/// tools offer one: only a position fix can be forwarded, with exactly
/// `spec_ios_inject_args` as its arguments. Every other sensor is
/// simulated locally without forwarding.
pub fn ios_inject_command(device_id: &str, value: &SensorValue) -> (r: Option<ExecRequest>)
    ensures
        match r {
            Some(req) => {
                &&& value matches SensorValue::Gps { .. }
                &&& req.tool@ == "xcrun"@
                &&& req.timeout_ms == spec_command_timeout_ms()
                &&& args_model(req.args@) =~= spec_ios_inject_args(device_id@, *value)
            },
            None => !(value matches SensorValue::Gps { .. }),
        },
{
    match value {
        SensorValue::Gps { lat_e6, lon_e6, .. } => {
            let mut args: Vec<String> = Vec::new();
            args.push(String::from_str("simctl"));
            args.push(String::from_str("location"));
            args.push(String::from_str(device_id));
            args.push(String::from_str("set"));
            args.push(fixed_e6_string(*lat_e6));
            args.push(fixed_e6_string(*lon_e6));
            Some(ExecRequest { tool: String::from_str("xcrun"), args, timeout_ms: 10000 })
        },
        _ => None,
    }
}

/// The exact arguments of the Android command that sets the simulated
/// battery level.
pub open spec fn spec_battery_args(id: Seq<char>, percent: u8) -> Seq<Seq<char>> {
    seq![
        "-s"@,
        id,
        "shell"@,
        "dumpsys"@,
        "battery"@,
        "set"@,
        "level"@,
        dec_digits(percent as nat),
    ]
}

/// The Android command that sets the simulated battery level; its
/// arguments are exactly `spec_battery_args`.
pub fn android_battery_command(device_id: &str, percent: u8) -> (r: ExecRequest)
    requires
        percent <= 100,
    ensures
        r.tool@ == "adb"@,
        r.timeout_ms == spec_command_timeout_ms(),
        args_model(r.args@) =~= spec_battery_args(device_id@, percent),
{
    let mut args: Vec<String> = Vec::new();
    args.push(String::from_str("-s"));
    args.push(String::from_str(device_id));
    args.push(String::from_str("shell"));
    args.push(String::from_str("dumpsys"));
    args.push(String::from_str("battery"));
    args.push(String::from_str("set"));
    args.push(String::from_str("level"));
    args.push(u64_to_string(percent as u64));
    ExecRequest { tool: String::from_str("adb"), args, timeout_ms: 10000 }
}

/// The Android command that sends one tap at a screen coordinate.
pub fn android_tap_command(device_id: &str, x: i32, y: i32) -> (r: ExecRequest)
    ensures
        r.tool@ == "adb"@,
        r.timeout_ms == spec_command_timeout_ms(),
        args_model(r.args@) =~= seq![
            "-s"@,
            device_id@,
            "shell"@,
            "input"@,
            "tap"@,
            dec_digits_signed(x as int),
            dec_digits_signed(y as int),
        ],
{
    let mut args: Vec<String> = Vec::new();
    args.push(String::from_str("-s"));
    args.push(String::from_str(device_id));
    args.push(String::from_str("shell"));
    args.push(String::from_str("input"));
    args.push(String::from_str("tap"));
    args.push(i64_to_string(x as i64));
    args.push(i64_to_string(y as i64));
    ExecRequest { tool: String::from_str("adb"), args, timeout_ms: 10000 }
}

/// The iOS command that sends one touch at a screen coordinate.
pub fn ios_tap_command(device_id: &str, x: i32, y: i32) -> (r: ExecRequest)
    ensures
        r.tool@ == "xcrun"@,
        r.timeout_ms == spec_command_timeout_ms(),
        args_model(r.args@) =~= seq![
            "simctl"@,
            "io"@,
            device_id@,
            "touch"@,
            dec_digits_signed(x as int),
            dec_digits_signed(y as int),
        ],
{
    let mut args: Vec<String> = Vec::new();
    args.push(String::from_str("simctl"));
    args.push(String::from_str("io"));
    args.push(String::from_str(device_id));
    args.push(String::from_str("touch"));
    args.push(i64_to_string(x as i64));
    args.push(i64_to_string(y as i64));
    ExecRequest { tool: String::from_str("xcrun"), args, timeout_ms: 10000 }
}

/// The probe command that tests screen capture on one endpoint: a
/// single capture attempt whose exit code decides the capability.
pub fn screen_capture_probe(device_id: &str, android: bool) -> (r: ExecRequest)
    ensures
        android ==> r.tool@ == "adb"@ && args_model(r.args@) =~= seq![
            "-s"@,
            device_id@,
            "exec-out"@,
            "screencap"@,
            "-p"@,
        ],
        !android ==> r.tool@ == "xcrun"@ && args_model(r.args@) =~= seq![
            "simctl"@,
            "io"@,
            device_id@,
            "screenshot"@,
            "-"@,
        ],
        r.timeout_ms == spec_command_timeout_ms(),
{
    let mut args: Vec<String> = Vec::new();
    if android {
        args.push(String::from_str("-s"));
        args.push(String::from_str(device_id));
        args.push(String::from_str("exec-out"));
        args.push(String::from_str("screencap"));
        args.push(String::from_str("-p"));
        ExecRequest { tool: String::from_str("adb"), args, timeout_ms: 10000 }
    } else {
        args.push(String::from_str("simctl"));
        args.push(String::from_str("io"));
        args.push(String::from_str(device_id));
        args.push(String::from_str("screenshot"));
        args.push(String::from_str("-"));
        ExecRequest { tool: String::from_str("xcrun"), args, timeout_ms: 10000 }
    }
}

/// The probe command that tests app control: a package listing on
/// Android, the installed-app listing on an iOS simulator; the exit
/// code decides the capability.
pub fn app_control_probe(device_id: &str, android: bool) -> (r: ExecRequest)
    ensures
        android ==> r.tool@ == "adb"@ && args_model(r.args@) =~= seq![
            "-s"@,
            device_id@,
            "shell"@,
            "pm"@,
            "list"@,
            "packages"@,
        ],
        !android ==> r.tool@ == "xcrun"@ && args_model(r.args@) =~= seq![
            "simctl"@,
            "listapps"@,
            device_id@,
        ],
        r.timeout_ms == spec_command_timeout_ms(),
{
    let mut args: Vec<String> = Vec::new();
    if android {
        args.push(String::from_str("-s"));
        args.push(String::from_str(device_id));
        args.push(String::from_str("shell"));
        args.push(String::from_str("pm"));
        args.push(String::from_str("list"));
        args.push(String::from_str("packages"));
        ExecRequest { tool: String::from_str("adb"), args, timeout_ms: 10000 }
    } else {
        args.push(String::from_str("simctl"));
        args.push(String::from_str("listapps"));
        args.push(String::from_str(device_id));
        ExecRequest { tool: String::from_str("xcrun"), args, timeout_ms: 10000 }
    }
}

/// The probe command that tests hardware injection: a side-effect-free
/// query of the injection pathway itself — the emulator console's
/// status on Android (which a physical device refuses, correctly
/// reporting the pathway absent), the simulator environment query on
/// iOS; the exit code decides the capability.
pub fn hardware_injection_probe(device_id: &str, android: bool) -> (r: ExecRequest)
    ensures
        android ==> r.tool@ == "adb"@ && args_model(r.args@) =~= seq![
            "-s"@,
            device_id@,
            "emu"@,
            "avd"@,
            "status"@,
        ],
        !android ==> r.tool@ == "xcrun"@ && args_model(r.args@) =~= seq![
            "simctl"@,
            "getenv"@,
            device_id@,
            "SIMULATOR_UDID"@,
        ],
        r.timeout_ms == spec_command_timeout_ms(),
{
    let mut args: Vec<String> = Vec::new();
    if android {
        args.push(String::from_str("-s"));
        args.push(String::from_str(device_id));
        args.push(String::from_str("emu"));
        args.push(String::from_str("avd"));
        args.push(String::from_str("status"));
        ExecRequest { tool: String::from_str("adb"), args, timeout_ms: 10000 }
    } else {
        args.push(String::from_str("simctl"));
        args.push(String::from_str("getenv"));
        args.push(String::from_str(device_id));
        args.push(String::from_str("SIMULATOR_UDID"));
        ExecRequest { tool: String::from_str("xcrun"), args, timeout_ms: 10000 }
    }
}

/// The probe command that tests audio capture: a side-effect-free
/// query of the audio service on Android, the input-output enumeration
/// on an iOS simulator; the exit code decides the capability.
pub fn audio_capture_probe(device_id: &str, android: bool) -> (r: ExecRequest)
    ensures
        android ==> r.tool@ == "adb"@ && args_model(r.args@) =~= seq![
            "-s"@,
            device_id@,
            "shell"@,
            "dumpsys"@,
            "audio"@,
        ],
        !android ==> r.tool@ == "xcrun"@ && args_model(r.args@) =~= seq![
            "simctl"@,
            "io"@,
            device_id@,
            "enumerate"@,
        ],
        r.timeout_ms == spec_command_timeout_ms(),
{
    let mut args: Vec<String> = Vec::new();
    if android {
        args.push(String::from_str("-s"));
        args.push(String::from_str(device_id));
        args.push(String::from_str("shell"));
        args.push(String::from_str("dumpsys"));
        args.push(String::from_str("audio"));
        ExecRequest { tool: String::from_str("adb"), args, timeout_ms: 10000 }
    } else {
        args.push(String::from_str("simctl"));
        args.push(String::from_str("io"));
        args.push(String::from_str(device_id));
        args.push(String::from_str("enumerate"));
        ExecRequest { tool: String::from_str("xcrun"), args, timeout_ms: 10000 }
    }
}

/// The probe command that tests file transfer: a listing of shared
/// storage on Android. The iOS tools offer no general file-transfer
/// pathway, so there is nothing to probe and the capability is
/// unavailable by the pathway's absence, not by assumption about the
/// device.
pub fn file_transfer_probe(device_id: &str, android: bool) -> (r: Option<ExecRequest>)
    ensures
        android ==> (r matches Some(req) && req.tool@ == "adb"@ && req.timeout_ms
            == spec_command_timeout_ms() && args_model(req.args@) =~= seq![
            "-s"@,
            device_id@,
            "shell"@,
            "ls"@,
            "/sdcard"@,
        ]),
        !android ==> r is None,
{
    if android {
        let mut args: Vec<String> = Vec::new();
        args.push(String::from_str("-s"));
        args.push(String::from_str(device_id));
        args.push(String::from_str("shell"));
        args.push(String::from_str("ls"));
        args.push(String::from_str("/sdcard"));
        Some(ExecRequest { tool: String::from_str("adb"), args, timeout_ms: 10000 })
    } else {
        None
    }
}

/// The capability set an endpoint earns: every flag equals its probe's
/// outcome, one probe per capability axis, decided empirically and
/// never assumed from the platform type. An axis whose platform offers
/// no pathway to probe is reported false by the runner.
pub open spec fn spec_capabilities_from_probes(
    screen_ok: bool,
    audio_ok: bool,
    hardware_ok: bool,
    file_ok: bool,
    app_ok: bool,
) -> DeviceCapabilities {
    DeviceCapabilities {
        screen_capture: screen_ok,
        audio_capture: audio_ok,
        hardware_injection: hardware_ok,
        file_transfer: file_ok,
        app_control: app_ok,
    }
}

pub fn capabilities_from_probes(
    screen_ok: bool,
    audio_ok: bool,
    hardware_ok: bool,
    file_ok: bool,
    app_ok: bool,
) -> (r: DeviceCapabilities)
    ensures
        r == spec_capabilities_from_probes(screen_ok, audio_ok, hardware_ok, file_ok, app_ok),
        r.screen_capture == screen_ok,
        r.audio_capture == audio_ok,
        r.hardware_injection == hardware_ok,
        r.file_transfer == file_ok,
        r.app_control == app_ok,
{
    DeviceCapabilities {
        screen_capture: screen_ok,
        audio_capture: audio_ok,
        hardware_injection: hardware_ok,
        file_transfer: file_ok,
        app_control: app_ok,
    }
}

/// What kind of endpoint an id denotes, given which backends report it:
/// an Android id containing "emulator" is an emulator, any other Android
/// id a physical device; an iOS id of exactly thirty-six characters is a
/// simulator's UUID, any other a physical device. An id neither backend
/// reports is unknown.
pub open spec fn spec_detect_device_type(
    id: Seq<char>,
    android_reports: bool,
    ios_reports: bool,
) -> Option<DeviceType> {
    if android_reports {
        if spec_contains(id, "emulator"@) {
            Some(DeviceType::AndroidEmulator)
        } else {
            Some(DeviceType::AndroidPhysical)
        }
    } else if ios_reports {
        if id.len() == 36 {
            Some(DeviceType::IosSimulator)
        } else {
            Some(DeviceType::IosPhysical)
        }
    } else {
        None
    }
}

pub fn detect_device_type(id: &str, android_reports: bool, ios_reports: bool) -> (r: Option<
    DeviceType,
>)
    ensures
        r == spec_detect_device_type(id@, android_reports, ios_reports),
{
    if android_reports {
        if str_contains(id, "emulator") {
            Some(DeviceType::AndroidEmulator)
        } else {
            Some(DeviceType::AndroidPhysical)
        }
    } else if ios_reports {
        if id.unicode_len() == 36 {
            Some(DeviceType::IosSimulator)
        } else {
            Some(DeviceType::IosPhysical)
        }
    } else {
        None
    }
}

} // verus!

//! The device bridge: the one façade over the connection registry, the
//! hardware emulation engine and the streaming supervisor. Every
//! operation validates its input, checks the endpoint's status and
//! capabilities, mutates the model, and where a platform tool must act,
//! returns the exact invocation for the runner to execute.

use vstd::prelude::*;
use vstd::string::StringExecFns;
use crate::adapter::{
    ExecRequest, android_inject_command, ios_inject_command, android_battery_command, args_model,
    spec_android_inject_args, spec_ios_inject_args, spec_battery_args,
};
use crate::emulator::{
    DeviceHardwareState, HardwareEmulator, NetworkConditions, AudioRouting, hw_at, hw_has_id,
    hw_idx_of, hw_is_default, network_valid, spec_network_valid, HapticPattern, haptic_valid,
    spec_haptic_valid, routing_active, spec_routing_active,
};
use crate::endpoint::{ConnectionStatus, DeviceCapabilities, Endpoint};
use crate::errors::BridgeError;
use crate::registry::{
    ConnectionRegistry, DiscoveredEndpoint, ep_at, has_id, idx_of, lifecycle_frame, spec_merge_all,
};
use crate::sensors::{SensorKind, SensorState, SensorValue, sensor_kind_of_name, spec_sensor_kind,
    value_matches_kind, spec_value_matches_kind};
use crate::streaming::{
    LoopPlan, StreamingSupervisor, sess_at, sess_has_id, sess_idx_of, session_flags,
    spec_started_flags, StreamingSession,
};

verus! {

/// One captured frame with its screen geometry.
#[derive(Debug)]
pub struct ScreenshotData {
    pub width: u32,
    pub height: u32,
    pub data: Vec<u8>,
}

/// What `getEndpointState` reports: the status, the probed capabilities,
/// and the sensor suite when hardware state is attached.
#[derive(Debug)]
pub struct EndpointState {
    pub status: ConnectionStatus,
    pub capabilities: DeviceCapabilities,
    pub sensors: Option<crate::sensors::SensorSuite>,
}

/// The device bridge.
#[derive(Debug)]
pub struct DeviceBridge {
    registry: ConnectionRegistry,
    emulator: HardwareEmulator,
    supervisor: StreamingSupervisor,
}

impl DeviceBridge {
    /// The endpoint records.
    pub closed spec fn eps(&self) -> Seq<Endpoint> {
        self.registry@
    }

    /// The attached hardware states.
    pub closed spec fn hw(&self) -> Seq<DeviceHardwareState> {
        self.emulator@
    }

    /// The streaming sessions.
    pub closed spec fn sess(&self) -> Seq<StreamingSession> {
        self.supervisor@
    }

    /// Ids are unique in each of the three collections.
    pub closed spec fn wf(&self) -> bool {
        &&& self.registry.wf()
        &&& self.emulator.wf()
        &&& self.supervisor.wf()
    }

    /// A well-formed bridge holds unique ids in each collection; this
    /// makes that visible to callers reasoning about lookups.
    pub proof fn wf_unique(&self)
        requires
            self.wf(),
        ensures
            crate::registry::ids_unique(self.eps()),
            crate::emulator::hw_ids_unique(self.hw()),
            crate::streaming::sess_ids_unique(self.sess()),
    {
    }

    pub fn new() -> (r: DeviceBridge)
        ensures
            r.wf(),
            r.eps() == Seq::<Endpoint>::empty(),
            r.hw() == Seq::<DeviceHardwareState>::empty(),
            r.sess() == Seq::<StreamingSession>::empty(),
    {
        DeviceBridge {
            registry: ConnectionRegistry::new(),
            emulator: HardwareEmulator::new(),
            supervisor: StreamingSupervisor::new(),
        }
    }

    /// Merges one discovery run into the registry; hardware state and
    /// sessions are untouched. Re-running with the same records changes
    /// nothing (`crate::registry::lemma_discovery_idempotent`).
    pub fn discover(&mut self, recs: Vec<DiscoveredEndpoint>)
        requires
            old(self).wf(),
        ensures
            final(self).wf(),
            final(self).eps() == spec_merge_all(old(self).eps(), recs@),
            final(self).hw() == old(self).hw(),
            final(self).sess() == old(self).sess(),
    {
        self.registry.merge_discovered(recs);
    }

    /// Begins a connect attempt; see
    /// `crate::registry::ConnectionRegistry::begin_connect`. The runner
    /// then executes the capability probes and reports their outcome
    /// through `finish_connect`.
    pub fn begin_connect(&mut self, id: &str) -> (r: Result<bool, BridgeError>)
        requires
            old(self).wf(),
        ensures
            final(self).wf(),
            lifecycle_frame(old(self).eps(), final(self).eps(), id@),
            final(self).hw() == old(self).hw(),
            final(self).sess() == old(self).sess(),
            !has_id(old(self).eps(), id@) ==> final(self).eps() == old(self).eps() && (r matches
                Err(BridgeError::EndpointNotFound { id: e }) && e@ == id@),
            has_id(old(self).eps(), id@) ==> {
                let pre = ep_at(old(self).eps(), id@);
                &&& pre.status.spec_connectable() ==> r == Ok::<bool, BridgeError>(true) && has_id(
                    final(self).eps(),
                    id@,
                ) && ep_at(final(self).eps(), id@) == (Endpoint {
                    status: ConnectionStatus::Connecting,
                    ..pre
                })
                &&& pre.status.spec_is_live() ==> r == Ok::<bool, BridgeError>(false)
                    && final(self).eps() == old(self).eps()
                &&& (!pre.status.spec_connectable() && !pre.status.spec_is_live()) ==> final(self).eps() == old(self).eps() && (r matches Err(
                    BridgeError::InvalidTransition { id: e, from },
                ) && e@ == id@ && from == pre.status)
            },
    {
        self.registry.begin_connect(id)
    }

    /// Completes a connect attempt with the probes' outcome; see
    /// `crate::registry::ConnectionRegistry::finish_connect`.
    pub fn finish_connect(&mut self, id: &str, probe: Result<DeviceCapabilities, String>) -> (r:
        Result<(), BridgeError>)
        requires
            old(self).wf(),
        ensures
            final(self).wf(),
            lifecycle_frame(old(self).eps(), final(self).eps(), id@),
            final(self).hw() == old(self).hw(),
            final(self).sess() == old(self).sess(),
            !has_id(old(self).eps(), id@) ==> final(self).eps() == old(self).eps() && (r matches
                Err(BridgeError::EndpointNotFound { id: e }) && e@ == id@),
            has_id(old(self).eps(), id@) ==> {
                let pre = ep_at(old(self).eps(), id@);
                &&& (pre.status == ConnectionStatus::Connecting && probe is Ok) ==> r == Ok::<
                    (),
                    BridgeError,
                >(()) && has_id(final(self).eps(), id@) && ep_at(final(self).eps(), id@)
                    == (Endpoint {
                    status: ConnectionStatus::Connected,
                    capabilities: probe->Ok_0,
                    ..pre
                })
                &&& (pre.status == ConnectionStatus::Connecting && probe is Err) ==> r == Ok::<
                    (),
                    BridgeError,
                >(()) && has_id(final(self).eps(), id@) && ep_at(final(self).eps(), id@)
                    == (Endpoint { status: ConnectionStatus::Error(probe->Err_0), ..pre })
                &&& pre.status != ConnectionStatus::Connecting ==> final(self).eps() == old(self).eps() && (r matches Err(BridgeError::InvalidTransition { id: e, from }) && e@
                    == id@ && from == pre.status)
            },
    {
        self.registry.finish_connect(id, probe)
    }

    /// Attaches hardware emulation to a live endpoint: its sensor suite,
    /// audio routing, network overlay and battery become exactly the
    /// documented defaults — never values left over from an earlier
    /// attachment. Live deliberately covers both Connected and
    /// Streaming: a streaming endpoint is a connected endpoint whose
    /// loops run, so an attach while its loops run resets the state
    /// just as from Connected. From every other status the not-found or
    /// not-connected error comes back and nothing changes.
    pub fn attach(&mut self, id: &str) -> (r: Result<(), BridgeError>)
        requires
            old(self).wf(),
        ensures
            final(self).wf(),
            final(self).eps() == old(self).eps(),
            final(self).sess() == old(self).sess(),
            !has_id(old(self).eps(), id@) ==> final(self).hw() == old(self).hw() && (r matches Err(
                BridgeError::EndpointNotFound { id: e },
            ) && e@ == id@),
            has_id(old(self).eps(), id@) && !ep_at(old(self).eps(), id@).status.spec_is_live()
                ==> final(self).hw() == old(self).hw() && (r matches Err(
                BridgeError::EndpointNotConnected { id: e, status },
            ) && e@ == id@ && status == ep_at(old(self).eps(), id@).status),
            has_id(old(self).eps(), id@) && ep_at(old(self).eps(), id@).status.spec_is_live() ==> {
                &&& r == Ok::<(), BridgeError>(())
                &&& hw_has_id(final(self).hw(), id@)
                &&& hw_is_default(hw_at(final(self).hw(), id@), id@)
                &&& (!hw_has_id(old(self).hw(), id@) ==> final(self).hw() == old(self).hw().push(
                    hw_at(final(self).hw(), id@),
                ))
                &&& (hw_has_id(old(self).hw(), id@) ==> final(self).hw() == old(self).hw().update(
                    hw_idx_of(old(self).hw(), id@),
                    hw_at(final(self).hw(), id@),
                ))
            },
    {
        match self.registry.get(id) {
            None => Err(BridgeError::EndpointNotFound { id: String::from_str(id) }),
            Some(ep) => {
                if !ep.status.is_live() {
                    return Err(
                        BridgeError::EndpointNotConnected {
                            id: String::from_str(id),
                            status: ep.status.clone(),
                        },
                    );
                }
                self.emulator.attach_to_device(id);
                Ok(())
            },
        }
    }

    /// Detaches hardware emulation, discarding the endpoint's sensor
    /// state and audio routing; detaching an id that is not attached is
    /// a no-op, not an error.
    pub fn detach(&mut self, id: &str)
        requires
            old(self).wf(),
        ensures
            final(self).wf(),
            final(self).eps() == old(self).eps(),
            final(self).sess() == old(self).sess(),
            !hw_has_id(final(self).hw(), id@),
            !hw_has_id(old(self).hw(), id@) ==> final(self).hw() == old(self).hw(),
            hw_has_id(old(self).hw(), id@) ==> final(self).hw() == old(self).hw().remove(
                hw_idx_of(old(self).hw(), id@),
            ),
    {
        self.emulator.detach_from_device(id);
    }

    /// Injects one synthetic sensor value: the sensor name must be
    /// known, the value must match that sensor's shape, the endpoint
    /// must be live with attached hardware state, and its probed
    /// capabilities must include hardware injection — otherwise the
    /// typed error comes back and no state changes. On success the
    /// sensor's current value becomes exactly the injected value and the
    /// backend invocation to forward it is returned — for a platform
    /// pathway that cannot carry this sensor, the value is recorded
    /// locally and no invocation is owed.
    pub fn inject_sensor(&mut self, id: &str, sensor_name: &str, value: SensorValue) -> (r: Result<
        Option<ExecRequest>,
        BridgeError,
    >)
        requires
            old(self).wf(),
        ensures
            final(self).wf(),
            final(self).eps() == old(self).eps(),
            final(self).sess() == old(self).sess(),
            r is Err ==> final(self).hw() == old(self).hw(),
            !has_id(old(self).eps(), id@) ==> (r matches Err(
                BridgeError::EndpointNotFound { id: e },
            ) && e@ == id@),
            has_id(old(self).eps(), id@) && !ep_at(old(self).eps(), id@).status.spec_is_live()
                ==> (r matches Err(BridgeError::EndpointNotConnected { id: e, status }) && e@
                == id@ && status == ep_at(old(self).eps(), id@).status),
            has_id(old(self).eps(), id@) && ep_at(old(self).eps(), id@).status.spec_is_live()
                ==> {
                let pre = ep_at(old(self).eps(), id@);
                &&& spec_sensor_kind(sensor_name@) is None ==> (r matches Err(
                    BridgeError::UnknownSensor { id: e, sensor },
                ) && e@ == id@ && sensor@ == sensor_name@)
                &&& (spec_sensor_kind(sensor_name@) matches Some(kind)
                    && !spec_value_matches_kind(value, kind)) ==> (r matches Err(
                    BridgeError::InvalidSensorValue { id: e, sensor },
                ) && e@ == id@ && sensor@ == sensor_name@)
                &&& (spec_sensor_kind(sensor_name@) matches Some(kind) && spec_value_matches_kind(
                    value,
                    kind,
                ) && !pre.capabilities.hardware_injection) ==> (r matches Err(
                    BridgeError::CapabilityUnsupported { id: e, capability },
                ) && e@ == id@ && capability@ == "hardwareInjection"@)
                &&& (spec_sensor_kind(sensor_name@) matches Some(kind) && spec_value_matches_kind(
                    value,
                    kind,
                ) && pre.capabilities.hardware_injection && !hw_has_id(old(self).hw(), id@)) ==> (
                r matches Err(BridgeError::EndpointNotConnected { id: e, status }) && e@ == id@
                    && status == pre.status)
                &&& (spec_sensor_kind(sensor_name@) is Some && spec_value_matches_kind(
                    value,
                    spec_sensor_kind(sensor_name@)->Some_0,
                ) && pre.capabilities.hardware_injection && hw_has_id(old(self).hw(), id@)) ==> {
                    let kind = spec_sensor_kind(sensor_name@)->Some_0;
                    &&& r is Ok
                    &&& final(self).hw() == old(self).hw().update(
                        hw_idx_of(old(self).hw(), id@),
                        DeviceHardwareState {
                            sensors: hw_at(old(self).hw(), id@).sensors.spec_set(
                                kind,
                                SensorState {
                                    current_value: value,
                                    ..hw_at(old(self).hw(), id@).sensors.spec_get(kind)
                                },
                            ),
                            ..hw_at(old(self).hw(), id@)
                        },
                    )
                    &&& hw_at(final(self).hw(), id@).sensors.spec_get(kind).current_value == value
                    &&& (pre.device_type.spec_is_android() ==> (r matches Ok(Some(req))
                        && req.tool@ == "adb"@ && args_model(req.args@)
                        == spec_android_inject_args(id@, kind, value)))
                    &&& ((!pre.device_type.spec_is_android() && (value matches SensorValue::Gps {
                        ..
                    })) ==> (r matches Ok(Some(req)) && req.tool@ == "xcrun"@ && args_model(
                        req.args@,
                    ) == spec_ios_inject_args(id@, value)))
                    &&& ((!pre.device_type.spec_is_android() && !(value matches SensorValue::Gps {
                        ..
                    })) ==> r matches Ok(None))
                }
            },
    {
        let (status, caps, device_type) = match self.registry.get(id) {
            None => {
                return Err(BridgeError::EndpointNotFound { id: String::from_str(id) });
            },
            Some(ep) => (ep.status.clone(), ep.capabilities, ep.device_type),
        };
        if !status.is_live() {
            return Err(
                BridgeError::EndpointNotConnected { id: String::from_str(id), status },
            );
        }
        let kind = match sensor_kind_of_name(sensor_name) {
            None => {
                return Err(
                    BridgeError::UnknownSensor {
                        id: String::from_str(id),
                        sensor: String::from_str(sensor_name),
                    },
                );
            },
            Some(k) => k,
        };
        if !value_matches_kind(&value, kind) {
            return Err(
                BridgeError::InvalidSensorValue {
                    id: String::from_str(id),
                    sensor: String::from_str(sensor_name),
                },
            );
        }
        if !caps.hardware_injection {
            return Err(
                BridgeError::CapabilityUnsupported {
                    id: String::from_str(id),
                    capability: String::from_str("hardwareInjection"),
                },
            );
        }
        let attached = self.emulator.update_sensor_value(id, kind, value);
        if !attached {
            return Err(
                BridgeError::EndpointNotConnected { id: String::from_str(id), status },
            );
        }
        proof {
            crate::emulator::lemma_hw_at(
                final(self).hw(),
                id@,
                hw_idx_of(old(self).hw(), id@),
            );
        }
        if device_type.is_android() {
            Ok(Some(android_inject_command(id, kind, &value)))
        } else {
            Ok(ios_inject_command(id, &value))
        }
    }

    /// Applies a simulated network overlay to a live, attached endpoint:
    /// validated (the loss fraction cannot exceed the whole), gated on
    /// the hardware injection capability, then recorded.
    pub fn set_network_conditions(&mut self, id: &str, conditions: NetworkConditions) -> (r: Result<
        (),
        BridgeError,
    >)
        requires
            old(self).wf(),
        ensures
            final(self).wf(),
            final(self).eps() == old(self).eps(),
            final(self).sess() == old(self).sess(),
            r is Err ==> final(self).hw() == old(self).hw(),
            !spec_network_valid(conditions) ==> (r matches Err(
                BridgeError::InvalidSensorValue { id: e, sensor },
            ) && e@ == id@ && sensor@ == "network"@),
            spec_network_valid(conditions) && !has_id(old(self).eps(), id@) ==> (r matches Err(
                BridgeError::EndpointNotFound { id: e },
            ) && e@ == id@),
            spec_network_valid(conditions) && has_id(old(self).eps(), id@) && !ep_at(
                old(self).eps(),
                id@,
            ).status.spec_is_live() ==> (r matches Err(
                BridgeError::EndpointNotConnected { id: e, status },
            ) && e@ == id@ && status == ep_at(old(self).eps(), id@).status),
            spec_network_valid(conditions) && has_id(old(self).eps(), id@) && ep_at(
                old(self).eps(),
                id@,
            ).status.spec_is_live() ==> {
                let pre = ep_at(old(self).eps(), id@);
                &&& !pre.capabilities.hardware_injection ==> (r matches Err(
                    BridgeError::CapabilityUnsupported { id: e, capability },
                ) && e@ == id@ && capability@ == "hardwareInjection"@)
                &&& (pre.capabilities.hardware_injection && !hw_has_id(old(self).hw(), id@)) ==> (
                r matches Err(BridgeError::EndpointNotConnected { id: e, status }) && e@ == id@
                    && status == pre.status)
                &&& (pre.capabilities.hardware_injection && hw_has_id(old(self).hw(), id@)) ==> r
                    == Ok::<(), BridgeError>(()) && final(self).hw() == old(self).hw().update(
                    hw_idx_of(old(self).hw(), id@),
                    DeviceHardwareState {
                        network_conditions: conditions,
                        ..hw_at(old(self).hw(), id@)
                    },
                )
            },
    {
        if !network_valid(&conditions) {
            return Err(
                BridgeError::InvalidSensorValue {
                    id: String::from_str(id),
                    sensor: String::from_str("network"),
                },
            );
        }
        let status = match self.registry.get(id) {
            None => {
                return Err(BridgeError::EndpointNotFound { id: String::from_str(id) });
            },
            Some(ep) => {
                if !ep.capabilities.hardware_injection && ep.status.is_live() {
                    return Err(
                        BridgeError::CapabilityUnsupported {
                            id: String::from_str(id),
                            capability: String::from_str("hardwareInjection"),
                        },
                    );
                }
                ep.status.clone()
            },
        };
        if !status.is_live() {
            return Err(
                BridgeError::EndpointNotConnected { id: String::from_str(id), status },
            );
        }
        let attached = self.emulator.set_network_conditions(id, conditions);
        if !attached {
            return Err(
                BridgeError::EndpointNotConnected { id: String::from_str(id), status },
            );
        }
        Ok(())
    }

    /// Sets the simulated battery level of a live, attached endpoint:
    /// validated (whole percent, at most one hundred), gated on hardware
    /// injection, recorded, and on Android forwarded through the battery
    /// service command.
    pub fn set_battery_level(&mut self, id: &str, percent: u8) -> (r: Result<
        Option<ExecRequest>,
        BridgeError,
    >)
        requires
            old(self).wf(),
        ensures
            final(self).wf(),
            final(self).eps() == old(self).eps(),
            final(self).sess() == old(self).sess(),
            r is Err ==> final(self).hw() == old(self).hw(),
            percent > 100 ==> (r matches Err(BridgeError::InvalidSensorValue { id: e, sensor })
                && e@ == id@ && sensor@ == "battery"@),
            percent <= 100 && !has_id(old(self).eps(), id@) ==> (r matches Err(
                BridgeError::EndpointNotFound { id: e },
            ) && e@ == id@),
            percent <= 100 && has_id(old(self).eps(), id@) && !ep_at(
                old(self).eps(),
                id@,
            ).status.spec_is_live() ==> (r matches Err(
                BridgeError::EndpointNotConnected { id: e, status },
            ) && e@ == id@ && status == ep_at(old(self).eps(), id@).status),
            percent <= 100 && has_id(old(self).eps(), id@) && ep_at(
                old(self).eps(),
                id@,
            ).status.spec_is_live() ==> {
                let pre = ep_at(old(self).eps(), id@);
                &&& !pre.capabilities.hardware_injection ==> (r matches Err(
                    BridgeError::CapabilityUnsupported { id: e, capability },
                ) && e@ == id@ && capability@ == "hardwareInjection"@)
                &&& (pre.capabilities.hardware_injection && !hw_has_id(old(self).hw(), id@)) ==> (
                r matches Err(BridgeError::EndpointNotConnected { id: e, status }) && e@ == id@
                    && status == pre.status)
                &&& (pre.capabilities.hardware_injection && hw_has_id(old(self).hw(), id@)) ==> {
                    &&& r is Ok
                    &&& final(self).hw() == old(self).hw().update(
                        hw_idx_of(old(self).hw(), id@),
                        DeviceHardwareState {
                            battery_level: percent,
                            ..hw_at(old(self).hw(), id@)
                        },
                    )
                    &&& (pre.device_type.spec_is_android() ==> (r matches Ok(Some(req))
                        && req.tool@ == "adb"@ && args_model(req.args@) == spec_battery_args(
                        id@,
                        percent,
                    )))
                    &&& (!pre.device_type.spec_is_android() ==> r matches Ok(None))
                }
            },
    {
        if percent > 100 {
            return Err(
                BridgeError::InvalidSensorValue {
                    id: String::from_str(id),
                    sensor: String::from_str("battery"),
                },
            );
        }
        let (status, caps, device_type) = match self.registry.get(id) {
            None => {
                return Err(BridgeError::EndpointNotFound { id: String::from_str(id) });
            },
            Some(ep) => (ep.status.clone(), ep.capabilities, ep.device_type),
        };
        if !status.is_live() {
            return Err(
                BridgeError::EndpointNotConnected { id: String::from_str(id), status },
            );
        }
        if !caps.hardware_injection {
            return Err(
                BridgeError::CapabilityUnsupported {
                    id: String::from_str(id),
                    capability: String::from_str("hardwareInjection"),
                },
            );
        }
        let attached = self.emulator.set_battery_level(id, percent);
        if !attached {
            return Err(
                BridgeError::EndpointNotConnected { id: String::from_str(id), status },
            );
        }
        if device_type.is_android() {
            Ok(Some(android_battery_command(id, percent)))
        } else {
            Ok(None)
        }
    }

    /// Triggers a haptic pattern on a live endpoint: the pattern is
    /// range-checked (a custom pulse must last some time, intensity at
    /// most full scale) and gated on hardware injection. Haptics leave
    /// no state behind.
    pub fn trigger_haptic(&mut self, id: &str, pattern: HapticPattern) -> (r: Result<
        (),
        BridgeError,
    >)
        requires
            old(self).wf(),
        ensures
            final(self).wf(),
            final(self).eps() == old(self).eps(),
            final(self).hw() == old(self).hw(),
            final(self).sess() == old(self).sess(),
            !spec_haptic_valid(pattern) ==> (r matches Err(
                BridgeError::InvalidSensorValue { id: e, sensor },
            ) && e@ == id@ && sensor@ == "haptic"@),
            spec_haptic_valid(pattern) && !has_id(old(self).eps(), id@) ==> (r matches Err(
                BridgeError::EndpointNotFound { id: e },
            ) && e@ == id@),
            spec_haptic_valid(pattern) && has_id(old(self).eps(), id@) && !ep_at(
                old(self).eps(),
                id@,
            ).status.spec_is_live() ==> (r matches Err(
                BridgeError::EndpointNotConnected { id: e, status },
            ) && e@ == id@ && status == ep_at(old(self).eps(), id@).status),
            spec_haptic_valid(pattern) && has_id(old(self).eps(), id@) && ep_at(
                old(self).eps(),
                id@,
            ).status.spec_is_live() ==> {
                let pre = ep_at(old(self).eps(), id@);
                &&& !pre.capabilities.hardware_injection ==> (r matches Err(
                    BridgeError::CapabilityUnsupported { id: e, capability },
                ) && e@ == id@ && capability@ == "hardwareInjection"@)
                &&& pre.capabilities.hardware_injection ==> r == Ok::<(), BridgeError>(())
            },
    {
        if !haptic_valid(&pattern) {
            return Err(
                BridgeError::InvalidSensorValue {
                    id: String::from_str(id),
                    sensor: String::from_str("haptic"),
                },
            );
        }
        match self.registry.get(id) {
            None => Err(BridgeError::EndpointNotFound { id: String::from_str(id) }),
            Some(ep) => {
                if !ep.status.is_live() {
                    return Err(
                        BridgeError::EndpointNotConnected {
                            id: String::from_str(id),
                            status: ep.status.clone(),
                        },
                    );
                }
                if !ep.capabilities.hardware_injection {
                    return Err(
                        BridgeError::CapabilityUnsupported {
                            id: String::from_str(id),
                            capability: String::from_str("hardwareInjection"),
                        },
                    );
                }
                Ok(())
            },
        }
    }

    /// Starts streaming on a live endpoint: the status becomes
    /// Streaming, and the applicable loops run — screen capture when
    /// the capability was probed, sensor simulation when some attached
    /// sensor asks for a cadence, audio when the attached routing is not
    /// inert. Starting again changes nothing more: each loop kind runs
    /// once, never twice (`crate::streaming::lemma_start_idempotent`).
    pub fn start_streaming(&mut self, id: &str) -> (r: Result<(), BridgeError>)
        requires
            old(self).wf(),
        ensures
            final(self).wf(),
            final(self).hw() == old(self).hw(),
            lifecycle_frame(old(self).eps(), final(self).eps(), id@),
            !has_id(old(self).eps(), id@) ==> final(self).eps() == old(self).eps()
                && final(self).sess() == old(self).sess() && (r matches Err(
                BridgeError::EndpointNotFound { id: e },
            ) && e@ == id@),
            has_id(old(self).eps(), id@) && !ep_at(old(self).eps(), id@).status.spec_is_live()
                ==> final(self).eps() == old(self).eps() && final(self).sess() == old(self).sess()
                && (r matches Err(BridgeError::EndpointNotConnected { id: e, status }) && e@ == id@
                && status == ep_at(old(self).eps(), id@).status),
            has_id(old(self).eps(), id@) && ep_at(old(self).eps(), id@).status.spec_is_live()
                ==> {
                let pre = ep_at(old(self).eps(), id@);
                let plan = final(self).spec_loop_plan(pre.capabilities, id@);
                &&& r == Ok::<(), BridgeError>(())
                &&& has_id(final(self).eps(), id@)
                &&& ep_at(final(self).eps(), id@) == (Endpoint {
                    status: ConnectionStatus::Streaming,
                    ..pre
                })
                &&& sess_has_id(final(self).sess(), id@)
                &&& session_flags(&sess_at(final(self).sess(), id@)) == spec_started_flags(
                    if sess_has_id(old(self).sess(), id@) {
                        session_flags(&sess_at(old(self).sess(), id@))
                    } else {
                        (false, false, false)
                    },
                    plan,
                )
            },
    {
        let (status, caps) = match self.registry.get(id) {
            None => {
                return Err(BridgeError::EndpointNotFound { id: String::from_str(id) });
            },
            Some(ep) => (ep.status.clone(), ep.capabilities),
        };
        if !status.is_live() {
            return Err(
                BridgeError::EndpointNotConnected { id: String::from_str(id), status },
            );
        }
        let plan = self.loop_plan(caps, id);
        let set_res = self.registry.set_streaming(id);
        proof {
            assert(set_res is Ok);
        }
        self.supervisor.start(id, plan);
        Ok(())
    }

    /// Which loops apply: screen capture by capability, sensor
    /// simulation and audio routing by the attached hardware state.
    pub closed spec fn spec_loop_plan(&self, caps: DeviceCapabilities, id: Seq<char>) -> LoopPlan {
        LoopPlan {
            screen: caps.screen_capture,
            sensor: hw_has_id(self.hw(), id) && hw_at(self.hw(), id).sensors.spec_any_simulated(),
            audio: hw_has_id(self.hw(), id) && spec_routing_active(
                hw_at(self.hw(), id).audio_routing,
            ),
        }
    }

    fn loop_plan(&self, caps: DeviceCapabilities, id: &str) -> (r: LoopPlan)
        requires
            self.wf(),
        ensures
            r == self.spec_loop_plan(caps, id@),
    {
        match self.emulator.get_device_state(id) {
            Some(st) => LoopPlan {
                screen: caps.screen_capture,
                sensor: st.sensors.any_simulated(),
                audio: routing_active(&st.audio_routing),
            },
            None => LoopPlan { screen: caps.screen_capture, sensor: false, audio: false },
        }
    }

    /// Stops streaming: every loop of the endpoint is cancelled and its
    /// session discarded, and a Streaming endpoint returns to Connected.
    pub fn stop_streaming(&mut self, id: &str) -> (r: Result<(), BridgeError>)
        requires
            old(self).wf(),
        ensures
            final(self).wf(),
            final(self).hw() == old(self).hw(),
            lifecycle_frame(old(self).eps(), final(self).eps(), id@),
            !has_id(old(self).eps(), id@) ==> final(self).eps() == old(self).eps()
                && final(self).sess() == old(self).sess() && (r matches Err(
                BridgeError::EndpointNotFound { id: e },
            ) && e@ == id@),
            has_id(old(self).eps(), id@) && !ep_at(old(self).eps(), id@).status.spec_is_live()
                ==> final(self).eps() == old(self).eps() && final(self).sess() == old(self).sess()
                && (r matches Err(BridgeError::EndpointNotConnected { id: e, status }) && e@ == id@
                && status == ep_at(old(self).eps(), id@).status),
            has_id(old(self).eps(), id@) && ep_at(old(self).eps(), id@).status.spec_is_live()
                ==> {
                let pre = ep_at(old(self).eps(), id@);
                &&& r == Ok::<(), BridgeError>(())
                &&& has_id(final(self).eps(), id@)
                &&& ep_at(final(self).eps(), id@) == (Endpoint {
                    status: ConnectionStatus::Connected,
                    ..pre
                })
                &&& !sess_has_id(final(self).sess(), id@)
            },
    {
        let res = self.registry.clear_streaming(id);
        match res {
            Err(e) => Err(e),
            Ok(()) => {
                self.supervisor.stop_all(id);
                Ok(())
            },
        }
    }

    /// Disconnects a live endpoint: teardown begins, every background
    /// loop is cancelled and the session discarded, the hardware state
    /// is cleared, and the endpoint is marked Disconnected. Afterwards
    /// its status reads Disconnected and no loop of the endpoint runs.
    /// From any other status the typed error comes back and nothing
    /// changes.
    pub fn disconnect(&mut self, id: &str) -> (r: Result<(), BridgeError>)
        requires
            old(self).wf(),
        ensures
            final(self).wf(),
            !has_id(old(self).eps(), id@) ==> final(self).eps() == old(self).eps() && final(self).sess() == old(self).sess() && final(self).hw() == old(self).hw() && (r matches Err(
                BridgeError::EndpointNotFound { id: e },
            ) && e@ == id@),
            has_id(old(self).eps(), id@) && !ep_at(old(self).eps(), id@).status.spec_is_live()
                ==> final(self).eps() == old(self).eps() && final(self).sess() == old(self).sess()
                && final(self).hw() == old(self).hw() && (r matches Err(
                BridgeError::EndpointNotConnected { id: e, status },
            ) && e@ == id@ && status == ep_at(old(self).eps(), id@).status),
            has_id(old(self).eps(), id@) && ep_at(old(self).eps(), id@).status.spec_is_live()
                ==> {
                let pre = ep_at(old(self).eps(), id@);
                &&& r == Ok::<(), BridgeError>(())
                &&& has_id(final(self).eps(), id@)
                &&& ep_at(final(self).eps(), id@) == (Endpoint {
                    status: ConnectionStatus::Disconnected,
                    ..pre
                })
                &&& !sess_has_id(final(self).sess(), id@)
                &&& !hw_has_id(final(self).hw(), id@)
                &&& final(self).eps().len() == old(self).eps().len()
            },
    {
        let began = self.registry.begin_disconnect(id);
        match began {
            Err(e) => Err(e),
            Ok(()) => {
                self.supervisor.stop_all(id);
                self.emulator.detach_from_device(id);
                let done = self.registry.finish_disconnect(id);
                proof {
                    let ghost mid = self.registry@;
                    crate::registry::lemma_ep_at(
                        mid,
                        id@,
                        idx_of(old(self).eps(), id@),
                    );
                    assert(done is Ok);
                }
                Ok(())
            },
        }
    }

    /// Records that the backend reported the endpoint gone: the status
    /// becomes Error with the reason, every loop is cancelled and the
    /// session discarded; the hardware state stays for inspection until
    /// an explicit disconnect.
    pub fn report_endpoint_lost(&mut self, id: &str, reason: String) -> (r: Result<
        (),
        BridgeError,
    >)
        requires
            old(self).wf(),
        ensures
            final(self).wf(),
            final(self).hw() == old(self).hw(),
            lifecycle_frame(old(self).eps(), final(self).eps(), id@),
            !has_id(old(self).eps(), id@) ==> final(self).eps() == old(self).eps() && final(self).sess() == old(self).sess() && (r matches Err(
                BridgeError::EndpointNotFound { id: e },
            ) && e@ == id@),
            has_id(old(self).eps(), id@) ==> {
                let pre = ep_at(old(self).eps(), id@);
                &&& (pre.status.spec_is_live() || pre.status == ConnectionStatus::Connecting)
                    ==> r == Ok::<(), BridgeError>(()) && has_id(final(self).eps(), id@) && ep_at(
                    final(self).eps(),
                    id@,
                ) == (Endpoint { status: ConnectionStatus::Error(reason), ..pre }) && !sess_has_id(
                    final(self).sess(),
                    id@,
                )
                &&& !(pre.status.spec_is_live() || pre.status == ConnectionStatus::Connecting)
                    ==> final(self).eps() == old(self).eps() && final(self).sess() == old(self).sess() && (r matches Err(BridgeError::InvalidTransition { id: e, from }) && e@
                    == id@ && from == pre.status)
            },
    {
        let res = self.registry.mark_error(id, reason);
        match res {
            Err(e) => Err(e),
            Ok(()) => {
                self.supervisor.stop_all(id);
                Ok(())
            },
        }
    }

    /// Replaces the audio routing of a live, attached endpoint: the new
    /// routing is recorded, the previous audio loop stops, a new loop
    /// runs exactly when the routing is not inert, and the selected
    /// pipeline kind is returned for the runner to configure.
    pub fn start_audio_routing(&mut self, id: &str, routing: AudioRouting) -> (r: Result<
        crate::emulator::AudioRouteKind,
        BridgeError,
    >)
        requires
            old(self).wf(),
        ensures
            final(self).wf(),
            final(self).eps() == old(self).eps(),
            r is Err ==> final(self).hw() == old(self).hw() && final(self).sess() == old(self).sess(),
            !has_id(old(self).eps(), id@) ==> (r matches Err(
                BridgeError::EndpointNotFound { id: e },
            ) && e@ == id@),
            has_id(old(self).eps(), id@) && !ep_at(old(self).eps(), id@).status.spec_is_live()
                ==> (r matches Err(BridgeError::EndpointNotConnected { id: e, status }) && e@
                == id@ && status == ep_at(old(self).eps(), id@).status),
            has_id(old(self).eps(), id@) && ep_at(old(self).eps(), id@).status.spec_is_live()
                && !hw_has_id(old(self).hw(), id@) ==> (r matches Err(
                BridgeError::EndpointNotConnected { id: e, status },
            ) && e@ == id@ && status == ep_at(old(self).eps(), id@).status),
            has_id(old(self).eps(), id@) && ep_at(old(self).eps(), id@).status.spec_is_live()
                && hw_has_id(old(self).hw(), id@) ==> {
                &&& r == Ok::<crate::emulator::AudioRouteKind, BridgeError>(
                    crate::emulator::spec_audio_route_kind(routing),
                )
                &&& final(self).hw() == old(self).hw().update(
                    hw_idx_of(old(self).hw(), id@),
                    DeviceHardwareState { audio_routing: routing, ..hw_at(old(self).hw(), id@) },
                )
                &&& !sess_has_id(old(self).sess(), id@) ==> final(self).sess() == old(self).sess()
                &&& sess_has_id(old(self).sess(), id@) ==> sess_has_id(final(self).sess(), id@)
                    && sess_at(final(self).sess(), id@).audio_running == spec_routing_active(
                    routing,
                ) && sess_at(final(self).sess(), id@).screen_running == sess_at(
                    old(self).sess(),
                    id@,
                ).screen_running
            },
    {
        let status = match self.registry.get(id) {
            None => {
                return Err(BridgeError::EndpointNotFound { id: String::from_str(id) });
            },
            Some(ep) => ep.status.clone(),
        };
        if !status.is_live() {
            return Err(
                BridgeError::EndpointNotConnected { id: String::from_str(id), status },
            );
        }
        let kind = crate::emulator::audio_route_kind(&routing);
        let active = routing_active(&routing);
        let attached = self.emulator.set_audio_routing(id, routing);
        if !attached {
            return Err(
                BridgeError::EndpointNotConnected { id: String::from_str(id), status },
            );
        }
        self.supervisor.set_audio_loop(id, active);
        proof {
            if sess_has_id(old(self).sess(), id@) {
                crate::streaming::lemma_sess_at(
                    self.supervisor@,
                    id@,
                    sess_idx_of(old(self).sess(), id@),
                );
            }
        }
        Ok(kind)
    }

    /// One cadence tick of the sensor simulation loop for one sensor:
    /// when the endpoint is attached and the sensor is enabled with a
    /// nonzero cadence, its value drifts by a perturbation bounded by
    /// the sensor's noise level, and — only when the endpoint's probed
    /// capabilities include hardware injection — the invocation that
    /// forwards the drifted value through the platform's pathway is
    /// returned for the runner to execute; without the capability, or
    /// without a pathway for this sensor, the drift stays local. The
    /// registry and sessions never move.
    pub fn tick_sensor(&mut self, id: &str, kind: SensorKind) -> (r: Option<ExecRequest>)
        requires
            old(self).wf(),
        ensures
            final(self).wf(),
            final(self).eps() == old(self).eps(),
            final(self).sess() == old(self).sess(),
            !hw_has_id(old(self).hw(), id@) ==> final(self).hw() == old(self).hw() && r is None,
            hw_has_id(old(self).hw(), id@) ==> {
                let pre = hw_at(old(self).hw(), id@);
                let st = pre.sensors.spec_get(kind);
                &&& !(st.enabled && st.update_frequency_mhz > 0) ==> final(self).hw() == old(self).hw() && r is None
                &&& (st.enabled && st.update_frequency_mhz > 0) ==> exists|d: int|
                    -(st.noise_level_milli as int) <= d <= st.noise_level_milli as int && final(self).hw() == old(self).hw().update(
                        hw_idx_of(old(self).hw(), id@),
                        DeviceHardwareState {
                            sensors: pre.sensors.spec_set(
                                kind,
                                SensorState {
                                    current_value: #[trigger] crate::sensors::spec_apply_drift(
                                        st.current_value,
                                        d,
                                    ),
                                    ..st
                                },
                            ),
                            ..pre
                        },
                    ) && {
                        let v = crate::sensors::spec_apply_drift(st.current_value, d);
                        let forwarding = has_id(old(self).eps(), id@) && ep_at(
                            old(self).eps(),
                            id@,
                        ).capabilities.hardware_injection;
                        let android = has_id(old(self).eps(), id@) && ep_at(
                            old(self).eps(),
                            id@,
                        ).device_type.spec_is_android();
                        &&& !forwarding ==> r is None
                        &&& (forwarding && android) ==> (r matches Some(req) && req.tool@
                            == "adb"@ && args_model(req.args@)
                            == spec_android_inject_args(id@, kind, v))
                        &&& (forwarding && !android && (v matches SensorValue::Gps { .. })) ==> (
                        r matches Some(req) && req.tool@ == "xcrun"@ && args_model(req.args@)
                            == spec_ios_inject_args(id@, v))
                        &&& (forwarding && !android && !(v matches SensorValue::Gps { .. }))
                            ==> r is None
                    }
            },
    {
        let (forwarding, android) = match self.registry.get(id) {
            None => (false, false),
            Some(ep) => (ep.capabilities.hardware_injection, ep.device_type.is_android()),
        };
        match self.emulator.simulate_sensor_tick(id, kind) {
            None => None,
            Some(drifted) => {
                if !forwarding {
                    None
                } else if android {
                    Some(android_inject_command(id, kind, &drifted))
                } else {
                    ios_inject_command(id, &drifted)
                }
            },
        }
    }

    /// Publishes a captured frame into the endpoint's single slot; the
    /// previous frame, if any, is dropped. True when the endpoint has a
    /// session.
    pub fn publish_frame(&mut self, id: &str, frame: Vec<u8>) -> (r: bool)
        requires
            old(self).wf(),
        ensures
            final(self).wf(),
            final(self).eps() == old(self).eps(),
            final(self).hw() == old(self).hw(),
            r == sess_has_id(old(self).sess(), id@),
            !sess_has_id(old(self).sess(), id@) ==> final(self).sess() == old(self).sess(),
            sess_has_id(old(self).sess(), id@) ==> {
                let pre = sess_at(old(self).sess(), id@);
                let post = sess_at(final(self).sess(), id@);
                &&& final(self).sess() == old(self).sess().update(
                    sess_idx_of(old(self).sess(), id@),
                    post,
                )
                &&& post.endpoint_id@ == pre.endpoint_id@
                &&& session_flags(&post) == session_flags(&pre)
                &&& post.capture.capture_active
                &&& (post.capture.current_frame matches Some(f) && f@ == frame@)
            },
    {
        self.supervisor.publish_frame(id, frame)
    }

    /// The newest published frame of this endpoint, if any.
    pub fn latest_frame(&self, id: &str) -> (r: Option<&Vec<u8>>)
        requires
            self.wf(),
        ensures
            match r {
                Some(f) => sess_has_id(self.sess(), id@) && (sess_at(
                    self.sess(),
                    id@,
                ).capture.current_frame matches Some(g) && g == *f),
                None => !sess_has_id(self.sess(), id@) || sess_at(
                    self.sess(),
                    id@,
                ).capture.current_frame is None,
            },
    {
        self.supervisor.latest_frame(id)
    }

    /// How many background loops of this endpoint run; zero without a
    /// session, and zero after a disconnect.
    pub fn loops_running(&self, id: &str) -> (r: usize)
        requires
            self.wf(),
        ensures
            !sess_has_id(self.sess(), id@) ==> r == 0,
            sess_has_id(self.sess(), id@) ==> r as int == sess_at(
                self.sess(),
                id@,
            ).spec_loops_running(),
    {
        self.supervisor.loops_running(id)
    }

    /// The invocation that forwards one tap to a live endpoint,
    /// dispatched by its platform: the input service on Android, the
    /// simulator's touch pathway on iOS.
    pub fn tap_command(&self, id: &str, x: i32, y: i32) -> (r: Result<ExecRequest, BridgeError>)
        requires
            self.wf(),
        ensures
            !has_id(self.eps(), id@) ==> (r matches Err(BridgeError::EndpointNotFound { id: e })
                && e@ == id@),
            has_id(self.eps(), id@) && !ep_at(self.eps(), id@).status.spec_is_live() ==> (
            r matches Err(BridgeError::EndpointNotConnected { id: e, status }) && e@ == id@
                && status == ep_at(self.eps(), id@).status),
            has_id(self.eps(), id@) && ep_at(self.eps(), id@).status.spec_is_live() ==> (r matches
                Ok(req) && (ep_at(self.eps(), id@).device_type.spec_is_android() ==> req.tool@
                == "adb"@) && (!ep_at(self.eps(), id@).device_type.spec_is_android() ==> req.tool@
                == "xcrun"@)),
    {
        match self.registry.get(id) {
            None => Err(BridgeError::EndpointNotFound { id: String::from_str(id) }),
            Some(ep) => {
                if !ep.status.is_live() {
                    return Err(
                        BridgeError::EndpointNotConnected {
                            id: String::from_str(id),
                            status: ep.status.clone(),
                        },
                    );
                }
                if ep.device_type.is_android() {
                    Ok(crate::adapter::android_tap_command(id, x, y))
                } else {
                    Ok(crate::adapter::ios_tap_command(id, x, y))
                }
            },
        }
    }

    /// A snapshot assembled from the endpoint's newest published frame:
    /// the frame bytes under a fixed default geometry — the dimensions
    /// are constants, not read from the frame. Nothing is owed before
    /// any frame was published.
    pub fn take_screenshot(&self, id: &str) -> (r: Option<ScreenshotData>)
        requires
            self.wf(),
        ensures
            match r {
                Some(shot) => sess_has_id(self.sess(), id@) && (sess_at(
                    self.sess(),
                    id@,
                ).capture.current_frame matches Some(f) && shot.data@ == f@) && shot.width == 1080
                    && shot.height == 1920,
                None => !sess_has_id(self.sess(), id@) || sess_at(
                    self.sess(),
                    id@,
                ).capture.current_frame is None,
            },
    {
        match self.supervisor.latest_frame(id) {
            None => None,
            Some(frame) => Some(
                ScreenshotData { width: 1080, height: 1920, data: frame.clone() },
            ),
        }
    }

    /// The status, capabilities and attached sensors of one endpoint.
    pub fn get_endpoint_state(&self, id: &str) -> (r: Result<EndpointState, BridgeError>)
        requires
            self.wf(),
        ensures
            !has_id(self.eps(), id@) ==> (r matches Err(BridgeError::EndpointNotFound { id: e })
                && e@ == id@),
            has_id(self.eps(), id@) ==> (r matches Ok(st) && {
                let ep = ep_at(self.eps(), id@);
                &&& st.status == ep.status
                &&& st.capabilities == ep.capabilities
                &&& st.sensors == if hw_has_id(self.hw(), id@) {
                    Some(hw_at(self.hw(), id@).sensors)
                } else {
                    None::<crate::sensors::SensorSuite>
                }
            }),
    {
        match self.registry.get(id) {
            None => Err(BridgeError::EndpointNotFound { id: String::from_str(id) }),
            Some(ep) => {
                let sensors = match self.emulator.get_device_state(id) {
                    Some(st) => Some(st.sensors),
                    None => None,
                };
                Ok(
                    EndpointState {
                        status: ep.status.clone(),
                        capabilities: ep.capabilities,
                        sensors,
                    },
                )
            },
        }
    }

    /// All endpoint records, in discovery order.
    pub fn endpoints(&self) -> (r: &Vec<Endpoint>)
        ensures
            r@ == self.eps(),
    {
        self.registry.endpoints()
    }

    /// The number of known endpoints.
    pub fn endpoint_count(&self) -> (r: usize)
        ensures
            r == self.eps().len(),
    {
        self.registry.len()
    }
}

} // verus!

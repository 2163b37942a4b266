//! Endpoint identity, capability and connection-status model.

use vstd::prelude::*;

verus! {

/// Platform and kind of one addressable endpoint.
#[derive(Debug, Clone, Copy, PartialEq, Eq, Structural)]
pub enum DeviceType {
    AndroidPhysical,
    AndroidEmulator,
    IosPhysical,
    IosSimulator,
}

impl DeviceType {
    /// True for the two Android variants.
    pub open spec fn spec_is_android(self) -> bool {
        self == DeviceType::AndroidPhysical || self == DeviceType::AndroidEmulator
    }

    #[verifier::when_used_as_spec(spec_is_android)]
    pub fn is_android(self) -> (r: bool)
        ensures
            r == self.spec_is_android(),
    {
        match self {
            DeviceType::AndroidPhysical | DeviceType::AndroidEmulator => true,
            DeviceType::IosPhysical | DeviceType::IosSimulator => false,
        }
    }
}

/// Medium over which an endpoint is reached.
#[derive(Debug, Clone, Copy, PartialEq, Eq, Structural)]
pub enum ConnectionType {
    Usb,
    Wifi,
    Network,
    Simulator,
}

/// Empirically probed feature flags of one endpoint.
#[derive(Debug, Clone, Copy, PartialEq, Eq, Structural)]
pub struct DeviceCapabilities {
    pub screen_capture: bool,
    pub audio_capture: bool,
    pub hardware_injection: bool,
    pub file_transfer: bool,
    pub app_control: bool,
}

impl DeviceCapabilities {
    /// The all-false capability set used before any probe succeeds.
    pub fn none() -> (r: DeviceCapabilities)
        ensures
            r == (DeviceCapabilities {
                screen_capture: false,
                audio_capture: false,
                hardware_injection: false,
                file_transfer: false,
                app_control: false,
            }),
    {
        DeviceCapabilities {
            screen_capture: false,
            audio_capture: false,
            hardware_injection: false,
            file_transfer: false,
            app_control: false,
        }
    }
}

/// Lifecycle status of one endpoint. Exactly one per endpoint at any time.
#[derive(Debug, PartialEq, Eq)]
pub enum ConnectionStatus {
    Discovered,
    Connecting,
    Connected,
    Streaming,
    Disconnecting,
    Disconnected,
    Error(String),
}

impl Clone for ConnectionStatus {
    fn clone(&self) -> (r: ConnectionStatus)
        ensures
            r == *self,
    {
        match self {
            ConnectionStatus::Discovered => ConnectionStatus::Discovered,
            ConnectionStatus::Connecting => ConnectionStatus::Connecting,
            ConnectionStatus::Connected => ConnectionStatus::Connected,
            ConnectionStatus::Streaming => ConnectionStatus::Streaming,
            ConnectionStatus::Disconnecting => ConnectionStatus::Disconnecting,
            ConnectionStatus::Disconnected => ConnectionStatus::Disconnected,
            ConnectionStatus::Error(reason) => ConnectionStatus::Error(reason.clone()),
        }
    }
}

impl ConnectionStatus {
    /// Statuses from which a connect attempt may begin.
    pub open spec fn spec_connectable(self) -> bool {
        self == ConnectionStatus::Discovered || self is Error
    }

    pub fn connectable(&self) -> (r: bool)
        ensures
            r == self.spec_connectable(),
    {
        match self {
            ConnectionStatus::Discovered => true,
            ConnectionStatus::Error(_) => true,
            _ => false,
        }
    }

    /// Statuses in which the endpoint has a live connection.
    pub open spec fn spec_is_live(self) -> bool {
        self == ConnectionStatus::Connected || self == ConnectionStatus::Streaming
    }

    pub fn is_live(&self) -> (r: bool)
        ensures
            r == self.spec_is_live(),
    {
        match self {
            ConnectionStatus::Connected | ConnectionStatus::Streaming => true,
            _ => false,
        }
    }
}

/// One edge of the lifecycle state machine, or standing still.
///
/// The strict edges are: Discovered or Error to Connecting (a connect
/// attempt begins); Connecting to Connected (probe succeeded) or to Error
/// (probe failed or timed out); Connected to Streaming and back (loops
/// started or stopped); Connected or Streaming to Disconnecting (teardown
/// begins) or to Error (the backend reports the device gone); Disconnecting
/// to Disconnected (teardown done); Disconnected to Discovered
/// (rediscovery). No other move is ever taken.
pub open spec fn status_edge_ok(pre: ConnectionStatus, post: ConnectionStatus) -> bool {
    ||| pre == post
    ||| (pre.spec_connectable() && post == ConnectionStatus::Connecting)
    ||| (pre == ConnectionStatus::Connecting && post == ConnectionStatus::Connected)
    ||| (pre == ConnectionStatus::Connecting && post is Error)
    ||| (pre == ConnectionStatus::Connected && post == ConnectionStatus::Streaming)
    ||| (pre == ConnectionStatus::Streaming && post == ConnectionStatus::Connected)
    ||| (pre.spec_is_live() && post == ConnectionStatus::Disconnecting)
    ||| (pre.spec_is_live() && post is Error)
    ||| (pre == ConnectionStatus::Disconnecting && post == ConnectionStatus::Disconnected)
    ||| (pre == ConnectionStatus::Disconnected && post == ConnectionStatus::Discovered)
}

/// The machine forbids every shortcut: a status never jumps backwards
/// to Discovered from a live connection, never leaves Disconnected
/// except through rediscovery, and never reaches Streaming or
/// Disconnected without passing through the states between.
pub proof fn lemma_no_status_skips()
    ensures
        !status_edge_ok(ConnectionStatus::Connected, ConnectionStatus::Discovered),
        !status_edge_ok(ConnectionStatus::Streaming, ConnectionStatus::Discovered),
        !status_edge_ok(ConnectionStatus::Discovered, ConnectionStatus::Connected),
        !status_edge_ok(ConnectionStatus::Discovered, ConnectionStatus::Streaming),
        !status_edge_ok(ConnectionStatus::Discovered, ConnectionStatus::Disconnected),
        !status_edge_ok(ConnectionStatus::Connecting, ConnectionStatus::Streaming),
        !status_edge_ok(ConnectionStatus::Connecting, ConnectionStatus::Disconnected),
        !status_edge_ok(ConnectionStatus::Disconnected, ConnectionStatus::Connected),
        !status_edge_ok(ConnectionStatus::Disconnected, ConnectionStatus::Connecting),
        !status_edge_ok(ConnectionStatus::Disconnecting, ConnectionStatus::Connected),
{
}

/// One endpoint record as the registry holds it.
#[derive(Debug)]
pub struct Endpoint {
    pub id: String,
    pub device_type: DeviceType,
    pub connection_type: ConnectionType,
    pub capabilities: DeviceCapabilities,
    pub status: ConnectionStatus,
}

impl Clone for Endpoint {
    fn clone(&self) -> (r: Endpoint)
        ensures
            r == *self,
    {
        Endpoint {
            id: self.id.clone(),
            device_type: self.device_type,
            connection_type: self.connection_type,
            capabilities: self.capabilities,
            status: self.status.clone(),
        }
    }
}

} // verus!

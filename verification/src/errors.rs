//! Error taxonomy: the bridge's typed errors and the general tool-level
//! error catalogue with its recoverability classification.

use vstd::prelude::*;
use crate::endpoint::ConnectionStatus;

verus! {

/// Typed failures of the device bridge and hardware emulation layer.
///
/// Every failed operation names the endpoint and the operation it belongs
/// to, so a caller can report which endpoint, which operation, and the
/// underlying cause.
#[derive(Debug, PartialEq, Eq)]
pub enum BridgeError {
    /// An external platform tool could not be spawned or failed.
    ExternalTool { tool: String, detail: String },
    /// A probe, boot, or command deadline was exceeded.
    Timeout { operation: String },
    /// The operation needs a capability the endpoint lacks.
    CapabilityUnsupported { id: String, capability: String },
    /// The sensor name is not one the engine knows.
    UnknownSensor { id: String, sensor: String },
    /// The injected value does not match the sensor's expected shape.
    InvalidSensorValue { id: String, sensor: String },
    /// The operation requires a live (Connected or Streaming) endpoint.
    EndpointNotConnected { id: String, status: ConnectionStatus },
    /// No endpoint with this id is in the registry.
    EndpointNotFound { id: String },
    /// The lifecycle step is not legal from the endpoint's current status:
    /// a connect attempt while a transition is in flight, or on an
    /// endpoint already torn down.
    InvalidTransition { id: String, from: ConnectionStatus },
}

/// General error catalogue of the tool layer.
#[derive(Debug, PartialEq, Eq)]
pub enum KMobileError {
    ConfigError(String),
    DeviceNotFound(String),
    DeviceConnectionError(String),
    SimulatorNotFound(String),
    SimulatorStartError(String),
    SimulatorStopError(String),
    SimulatorResetError(String),
    ProjectNotFound(String),
    ProjectInitError(String),
    ProjectDeployError(String),
    BuildError(String),
    TestExecutionError(String),
    TestFileNotFound(String),
    AppInstallError(String),
    CommandError(String),
    McpServerError(String),
    ApiServerError(String),
    NetworkError(String),
    FileSystemError(String),
    SerializationError(String),
    AuthenticationError(String),
    PermissionError(String),
    TimeoutError(String),
    InvalidInput(String),
    Unknown(String),
}

impl KMobileError {
    /// Whether retrying the failed operation can reasonably succeed:
    /// transient device, tool and network failures are recoverable;
    /// configuration, input and serialization faults are not.
    pub open spec fn spec_is_recoverable(self) -> bool {
        match self {
            KMobileError::ConfigError(_) => false,
            KMobileError::DeviceNotFound(_) => true,
            KMobileError::DeviceConnectionError(_) => true,
            KMobileError::SimulatorNotFound(_) => true,
            KMobileError::SimulatorStartError(_) => true,
            KMobileError::SimulatorStopError(_) => true,
            KMobileError::SimulatorResetError(_) => true,
            KMobileError::ProjectNotFound(_) => false,
            KMobileError::ProjectInitError(_) => false,
            KMobileError::ProjectDeployError(_) => true,
            KMobileError::BuildError(_) => true,
            KMobileError::TestExecutionError(_) => true,
            KMobileError::TestFileNotFound(_) => false,
            KMobileError::AppInstallError(_) => true,
            KMobileError::CommandError(_) => true,
            KMobileError::McpServerError(_) => true,
            KMobileError::ApiServerError(_) => true,
            KMobileError::NetworkError(_) => true,
            KMobileError::FileSystemError(_) => false,
            KMobileError::SerializationError(_) => false,
            KMobileError::AuthenticationError(_) => false,
            KMobileError::PermissionError(_) => false,
            KMobileError::TimeoutError(_) => true,
            KMobileError::InvalidInput(_) => false,
            KMobileError::Unknown(_) => false,
        }
    }

    pub fn is_recoverable(&self) -> (r: bool)
        ensures
            r == self.spec_is_recoverable(),
    {
        match self {
            KMobileError::DeviceNotFound(_)
            | KMobileError::DeviceConnectionError(_)
            | KMobileError::SimulatorNotFound(_)
            | KMobileError::SimulatorStartError(_)
            | KMobileError::SimulatorStopError(_)
            | KMobileError::SimulatorResetError(_)
            | KMobileError::ProjectDeployError(_)
            | KMobileError::BuildError(_)
            | KMobileError::TestExecutionError(_)
            | KMobileError::AppInstallError(_)
            | KMobileError::CommandError(_)
            | KMobileError::McpServerError(_)
            | KMobileError::ApiServerError(_)
            | KMobileError::NetworkError(_)
            | KMobileError::TimeoutError(_) => true,
            _ => false,
        }
    }

    /// The stable machine-readable code of each variant.
    pub open spec fn spec_error_code(self) -> Seq<char> {
        match self {
            KMobileError::ConfigError(_) => "CONFIG_ERROR"@,
            KMobileError::DeviceNotFound(_) => "DEVICE_NOT_FOUND"@,
            KMobileError::DeviceConnectionError(_) => "DEVICE_CONNECTION_ERROR"@,
            KMobileError::SimulatorNotFound(_) => "SIMULATOR_NOT_FOUND"@,
            KMobileError::SimulatorStartError(_) => "SIMULATOR_START_ERROR"@,
            KMobileError::SimulatorStopError(_) => "SIMULATOR_STOP_ERROR"@,
            KMobileError::SimulatorResetError(_) => "SIMULATOR_RESET_ERROR"@,
            KMobileError::ProjectNotFound(_) => "PROJECT_NOT_FOUND"@,
            KMobileError::ProjectInitError(_) => "PROJECT_INIT_ERROR"@,
            KMobileError::ProjectDeployError(_) => "PROJECT_DEPLOY_ERROR"@,
            KMobileError::BuildError(_) => "BUILD_ERROR"@,
            KMobileError::TestExecutionError(_) => "TEST_EXECUTION_ERROR"@,
            KMobileError::TestFileNotFound(_) => "TEST_FILE_NOT_FOUND"@,
            KMobileError::AppInstallError(_) => "APP_INSTALL_ERROR"@,
            KMobileError::CommandError(_) => "COMMAND_ERROR"@,
            KMobileError::McpServerError(_) => "MCP_SERVER_ERROR"@,
            KMobileError::ApiServerError(_) => "API_SERVER_ERROR"@,
            KMobileError::NetworkError(_) => "NETWORK_ERROR"@,
            KMobileError::FileSystemError(_) => "FILE_SYSTEM_ERROR"@,
            KMobileError::SerializationError(_) => "SERIALIZATION_ERROR"@,
            KMobileError::AuthenticationError(_) => "AUTHENTICATION_ERROR"@,
            KMobileError::PermissionError(_) => "PERMISSION_ERROR"@,
            KMobileError::TimeoutError(_) => "TIMEOUT_ERROR"@,
            KMobileError::InvalidInput(_) => "INVALID_INPUT"@,
            KMobileError::Unknown(_) => "UNKNOWN_ERROR"@,
        }
    }

    pub fn error_code(&self) -> (r: &'static str)
        ensures
            r@ == self.spec_error_code(),
    {
        match self {
            KMobileError::ConfigError(_) => "CONFIG_ERROR",
            KMobileError::DeviceNotFound(_) => "DEVICE_NOT_FOUND",
            KMobileError::DeviceConnectionError(_) => "DEVICE_CONNECTION_ERROR",
            KMobileError::SimulatorNotFound(_) => "SIMULATOR_NOT_FOUND",
            KMobileError::SimulatorStartError(_) => "SIMULATOR_START_ERROR",
            KMobileError::SimulatorStopError(_) => "SIMULATOR_STOP_ERROR",
            KMobileError::SimulatorResetError(_) => "SIMULATOR_RESET_ERROR",
            KMobileError::ProjectNotFound(_) => "PROJECT_NOT_FOUND",
            KMobileError::ProjectInitError(_) => "PROJECT_INIT_ERROR",
            KMobileError::ProjectDeployError(_) => "PROJECT_DEPLOY_ERROR",
            KMobileError::BuildError(_) => "BUILD_ERROR",
            KMobileError::TestExecutionError(_) => "TEST_EXECUTION_ERROR",
            KMobileError::TestFileNotFound(_) => "TEST_FILE_NOT_FOUND",
            KMobileError::AppInstallError(_) => "APP_INSTALL_ERROR",
            KMobileError::CommandError(_) => "COMMAND_ERROR",
            KMobileError::McpServerError(_) => "MCP_SERVER_ERROR",
            KMobileError::ApiServerError(_) => "API_SERVER_ERROR",
            KMobileError::NetworkError(_) => "NETWORK_ERROR",
            KMobileError::FileSystemError(_) => "FILE_SYSTEM_ERROR",
            KMobileError::SerializationError(_) => "SERIALIZATION_ERROR",
            KMobileError::AuthenticationError(_) => "AUTHENTICATION_ERROR",
            KMobileError::PermissionError(_) => "PERMISSION_ERROR",
            KMobileError::TimeoutError(_) => "TIMEOUT_ERROR",
            KMobileError::InvalidInput(_) => "INVALID_INPUT",
            KMobileError::Unknown(_) => "UNKNOWN_ERROR",
        }
    }
}

} // verus!

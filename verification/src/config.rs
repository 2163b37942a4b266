//! Configuration model: the tool's settings tree with its documented
//! defaults. Loading and saving the file live with the runner; the
//! values and defaults are specified here.

use vstd::prelude::*;
use vstd::string::StringExecFns;

verus! {

/// Android tool locations and build settings.
#[derive(Debug)]
pub struct AndroidConfig {
    pub sdk_path: Option<String>,
    pub adb_path: Option<String>,
    pub emulator_path: Option<String>,
    pub default_emulator: Option<String>,
    pub build_tools_version: Option<String>,
}

impl Default for AndroidConfig {
    fn default() -> (r: AndroidConfig)
        ensures
            r.sdk_path is None,
            r.adb_path is None,
            r.emulator_path is None,
            r.default_emulator is None,
            r.build_tools_version is None,
    {
        AndroidConfig {
            sdk_path: None,
            adb_path: None,
            emulator_path: None,
            default_emulator: None,
            build_tools_version: None,
        }
    }
}

/// Apple tool locations and signing settings.
#[derive(Debug)]
pub struct IosConfig {
    pub xcode_path: Option<String>,
    pub simctl_path: Option<String>,
    pub default_simulator: Option<String>,
    pub developer_team: Option<String>,
    pub provisioning_profile: Option<String>,
}

impl Default for IosConfig {
    fn default() -> (r: IosConfig)
        ensures
            r.xcode_path is None,
            r.simctl_path is None,
            r.default_simulator is None,
            r.developer_team is None,
            r.provisioning_profile is None,
    {
        IosConfig {
            xcode_path: None,
            simctl_path: None,
            default_simulator: None,
            developer_team: None,
            provisioning_profile: None,
        }
    }
}

/// Test execution settings.
#[derive(Debug)]
pub struct TestingConfig {
    pub framework: String,
    pub timeout: u64,
    pub parallel: bool,
    pub screenshot_on_failure: bool,
    pub video_recording: bool,
    pub output_dir: String,
}

impl Default for TestingConfig {
    fn default() -> (r: TestingConfig)
        ensures
            r.framework@ == "kmobile"@,
            r.timeout == 30,
            r.parallel,
            r.screenshot_on_failure,
            !r.video_recording,
            r.output_dir@ == "./test-results"@,
    {
        TestingConfig {
            framework: String::from_str("kmobile"),
            timeout: 30,
            parallel: true,
            screenshot_on_failure: true,
            video_recording: false,
            output_dir: String::from_str("./test-results"),
        }
    }
}

/// Agent-protocol server settings.
#[derive(Debug)]
pub struct McpConfig {
    pub enabled: bool,
    pub port: u16,
    pub host: String,
    pub tools: Vec<String>,
}

impl Default for McpConfig {
    fn default() -> (r: McpConfig)
        ensures
            r.enabled,
            r.port == 3001,
            r.host@ == "localhost"@,
            r.tools@.len() == 4,
            r.tools@[0]@ == "device_list"@,
            r.tools@[1]@ == "simulator_control"@,
            r.tools@[2]@ == "app_deploy"@,
            r.tools@[3]@ == "test_run"@,
    {
        let mut tools: Vec<String> = Vec::new();
        tools.push(String::from_str("device_list"));
        tools.push(String::from_str("simulator_control"));
        tools.push(String::from_str("app_deploy"));
        tools.push(String::from_str("test_run"));
        McpConfig { enabled: true, port: 3001, host: String::from_str("localhost"), tools }
    }
}

/// HTTP API server settings.
#[derive(Debug)]
pub struct ApiConfig {
    pub enabled: bool,
    pub port: u16,
    pub host: String,
    pub auth: Option<AuthConfig>,
}

impl Default for ApiConfig {
    fn default() -> (r: ApiConfig)
        ensures
            r.enabled,
            r.port == 3000,
            r.host@ == "localhost"@,
            r.auth is None,
    {
        ApiConfig { enabled: true, port: 3000, host: String::from_str("localhost"), auth: None }
    }
}

/// API authentication settings.
#[derive(Debug)]
pub struct AuthConfig {
    pub method: String,
    pub secret: String,
}

/// One registered project.
#[derive(Debug)]
pub struct ProjectConfig {
    pub name: String,
    pub path: String,
    pub platform: String,
    pub build_command: Option<String>,
    pub test_command: Option<String>,
    pub metadata: Vec<(String, String)>,
}

/// The whole settings tree.
#[derive(Debug)]
pub struct Config {
    pub name: String,
    pub version: String,
    pub android: AndroidConfig,
    pub ios: IosConfig,
    pub testing: TestingConfig,
    pub mcp: McpConfig,
    pub api: ApiConfig,
    pub projects: Vec<ProjectConfig>,
}

impl Default for Config {
    fn default() -> (r: Config)
        ensures
            r.name@ == "KMobile"@,
            r.version@ == "0.1.0"@,
            r.android.sdk_path is None,
            r.ios.xcode_path is None,
            r.testing.framework@ == "kmobile"@,
            r.mcp.port == 3001,
            r.api.port == 3000,
            r.projects@.len() == 0,
    {
        Config {
            name: String::from_str("KMobile"),
            version: String::from_str("0.1.0"),
            android: AndroidConfig::default(),
            ios: IosConfig::default(),
            testing: TestingConfig::default(),
            mcp: McpConfig::default(),
            api: ApiConfig::default(),
            projects: Vec::new(),
        }
    }
}

impl Config {
    /// The configured instance name.
    pub fn name(&self) -> (r: &str)
        ensures
            r@ == self.name@,
    {
        self.name.as_str()
    }
}

} // verus!

//! Agent-protocol model: the resources and prompts the server
//! registers, as plain records with their documented contents.

use vstd::prelude::*;
use vstd::string::StringExecFns;

verus! {

/// One resource the server exposes.
#[derive(Debug)]
pub struct McpResource {
    pub uri: String,
    pub name: String,
    pub description: String,
    pub mime_type: String,
}

/// One prompt template the server offers.
#[derive(Debug)]
pub struct McpPrompt {
    pub name: String,
    pub description: String,
    pub arguments: Vec<McpPromptArgument>,
}

/// One argument of a prompt template.
#[derive(Debug)]
pub struct McpPromptArgument {
    pub name: String,
    pub description: String,
    pub required: bool,
}

/// The resources the server registers: the device list, the simulator
/// list, and the current project, all as structured data.
pub fn default_resources() -> (r: Vec<McpResource>)
    ensures
        r@.len() == 3,
        r@[0].uri@ == "kmobile://devices"@ && r@[0].name@ == "Connected Devices"@
            && r@[0].description@ == "List of currently connected devices"@ && r@[0].mime_type@
            == "application/json"@,
        r@[1].uri@ == "kmobile://simulators"@ && r@[1].name@ == "Available Simulators"@
            && r@[1].description@ == "List of available simulators"@ && r@[1].mime_type@
            == "application/json"@,
        r@[2].uri@ == "kmobile://project"@ && r@[2].name@ == "Current Project"@
            && r@[2].description@ == "Current project information"@ && r@[2].mime_type@
            == "application/json"@,
{
    let mut out: Vec<McpResource> = Vec::new();
    out.push(
        McpResource {
            uri: String::from_str("kmobile://devices"),
            name: String::from_str("Connected Devices"),
            description: String::from_str("List of currently connected devices"),
            mime_type: String::from_str("application/json"),
        },
    );
    out.push(
        McpResource {
            uri: String::from_str("kmobile://simulators"),
            name: String::from_str("Available Simulators"),
            description: String::from_str("List of available simulators"),
            mime_type: String::from_str("application/json"),
        },
    );
    out.push(
        McpResource {
            uri: String::from_str("kmobile://project"),
            name: String::from_str("Current Project"),
            description: String::from_str("Current project information"),
            mime_type: String::from_str("application/json"),
        },
    );
    out
}

/// The prompts the server registers: deployment and test-run templates
/// with their arguments.
pub fn default_prompts() -> (r: Vec<McpPrompt>)
    ensures
        r@.len() == 2,
        r@[0].name@ == "mobile_deploy"@,
        r@[0].description@ == "Deploy mobile application to device or simulator"@,
        r@[0].arguments@.len() == 3,
        r@[0].arguments@[0].name@ == "platform"@ && r@[0].arguments@[0].required,
        r@[0].arguments@[1].name@ == "target"@ && r@[0].arguments@[1].required,
        r@[0].arguments@[2].name@ == "app_path"@ && !r@[0].arguments@[2].required,
        r@[1].name@ == "mobile_test"@,
        r@[1].description@ == "Run mobile application tests"@,
        r@[1].arguments@.len() == 2,
        r@[1].arguments@[0].name@ == "test_type"@ && r@[1].arguments@[0].required,
        r@[1].arguments@[1].name@ == "device_id"@ && !r@[1].arguments@[1].required,
{
    let mut deploy_args: Vec<McpPromptArgument> = Vec::new();
    deploy_args.push(
        McpPromptArgument {
            name: String::from_str("platform"),
            description: String::from_str("Target platform (android/ios)"),
            required: true,
        },
    );
    deploy_args.push(
        McpPromptArgument {
            name: String::from_str("target"),
            description: String::from_str("Deployment target (device/simulator)"),
            required: true,
        },
    );
    deploy_args.push(
        McpPromptArgument {
            name: String::from_str("app_path"),
            description: String::from_str("Path to application file"),
            required: false,
        },
    );
    let mut test_args: Vec<McpPromptArgument> = Vec::new();
    test_args.push(
        McpPromptArgument {
            name: String::from_str("test_type"),
            description: String::from_str("Type of test (unit/integration/e2e)"),
            required: true,
        },
    );
    test_args.push(
        McpPromptArgument {
            name: String::from_str("device_id"),
            description: String::from_str("Device ID to run tests on"),
            required: false,
        },
    );
    let mut out: Vec<McpPrompt> = Vec::new();
    out.push(
        McpPrompt {
            name: String::from_str("mobile_deploy"),
            description: String::from_str("Deploy mobile application to device or simulator"),
            arguments: deploy_args,
        },
    );
    out.push(
        McpPrompt {
            name: String::from_str("mobile_test"),
            description: String::from_str("Run mobile application tests"),
            arguments: test_args,
        },
    );
    out
}

} // verus!

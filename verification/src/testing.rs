//! Test-runner model: suites, cases and steps, the exact platform
//! invocation each step decides on, the documented default suite, and
//! the run summary.

use vstd::prelude::*;
use vstd::string::StringExecFns;
use crate::adapter::{ExecRequest, args_model};
use crate::config::Config;

verus! {

/// Sub-commands of the test command group.
#[derive(Debug)]
pub enum TestCommands {
    Run { suite: Option<String>, device: Option<String> },
    Record { output: String },
    Replay { file: String },
}

/// One step's action kind.
#[derive(Debug, Clone, Copy, PartialEq, Eq, Structural)]
pub enum TestAction {
    Tap,
    Swipe,
    Type,
    Wait,
    Assert,
    Screenshot,
    Launch,
    Background,
    Foreground,
}

/// One step of a test case.
#[derive(Debug)]
pub struct TestStep {
    pub action: TestAction,
    pub target: Option<String>,
    pub value: Option<String>,
    pub wait_time_secs: Option<u64>,
}

/// One test case.
#[derive(Debug)]
pub struct TestCase {
    pub name: String,
    pub description: Option<String>,
    pub steps: Vec<TestStep>,
    pub expected_result: Option<String>,
    pub timeout_secs: Option<u64>,
}

/// How a whole suite runs.
#[derive(Debug)]
pub struct TestConfig {
    pub timeout_secs: u64,
    pub screenshot_on_failure: bool,
    pub video_recording: bool,
    pub parallel_execution: bool,
    pub retry_count: u32,
}

/// A named collection of test cases.
#[derive(Debug)]
pub struct TestSuite {
    pub name: String,
    pub tests: Vec<TestCase>,
    pub config: TestConfig,
}

/// How one test ended.
#[derive(Debug, Clone, Copy, PartialEq, Eq, Structural)]
pub enum TestStatus {
    Passed,
    Failed,
    Skipped,
    Timeout,
}

/// One test's outcome.
#[derive(Debug)]
pub struct TestResult {
    pub test_name: String,
    pub status: TestStatus,
    pub duration_ms: u64,
    pub error_message: Option<String>,
    pub screenshots: Vec<String>,
    pub video_path: Option<String>,
}

/// The tallies of one run.
#[derive(Debug, Clone, Copy, PartialEq, Eq, Structural)]
pub struct TestSummary {
    pub total: u32,
    pub passed: u32,
    pub failed: u32,
    pub skipped: u32,
    pub timeout: u32,
}

/// How many results ended with this status.
pub open spec fn count_status(s: Seq<TestResult>, st: TestStatus) -> nat
    decreases s.len(),
{
    if s.len() == 0 {
        0
    } else {
        count_status(s.drop_last(), st) + if s.last().status == st {
            1nat
        } else {
            0nat
        }
    }
}

/// The exact invocation one test step decides on, against one device:
/// input gestures, the element check, a frame capture, launching, and
/// the home and app-switch key events; a wait step, and a gesture step
/// without its target or text, decide on nothing.
pub fn step_command(step: &TestStep, device_id: &str) -> (r: Option<ExecRequest>)
    ensures
        match r {
            Some(req) => req.tool@ == "adb"@ && req.timeout_ms == 10000,
            None => true,
        },
        step.action == TestAction::Wait ==> r is None,
        step.action == TestAction::Tap ==> (match step.target {
            Some(t) => (r matches Some(req) && args_model(req.args@) =~= seq![
                "-s"@,
                device_id@,
                "shell"@,
                "input"@,
                "tap"@,
                t@,
            ]),
            None => r is None,
        }),
        step.action == TestAction::Swipe ==> (match step.target {
            Some(t) => (r matches Some(req) && args_model(req.args@) =~= seq![
                "-s"@,
                device_id@,
                "shell"@,
                "input"@,
                "swipe"@,
                t@,
            ]),
            None => r is None,
        }),
        step.action == TestAction::Type ==> (match (&step.target, &step.value) {
            (Some(_), Some(v)) => (r matches Some(req) && args_model(req.args@) =~= seq![
                "-s"@,
                device_id@,
                "shell"@,
                "input"@,
                "text"@,
                v@,
            ]),
            _ => r is None,
        }),
        step.action == TestAction::Assert ==> (match step.target {
            Some(_) => (r matches Some(req) && args_model(req.args@) =~= seq![
                "-s"@,
                device_id@,
                "shell"@,
                "dumpsys"@,
                "window"@,
                "windows"@,
            ]),
            None => r is None,
        }),
        step.action == TestAction::Screenshot ==> (r matches Some(req) && args_model(req.args@)
            =~= seq!["-s"@, device_id@, "exec-out"@, "screencap"@, "-p"@]),
        step.action == TestAction::Launch ==> (match step.target {
            Some(t) => (r matches Some(req) && args_model(req.args@) =~= seq![
                "-s"@,
                device_id@,
                "shell"@,
                "am"@,
                "start"@,
                "-n"@,
                t@,
            ]),
            None => r is None,
        }),
        step.action == TestAction::Background ==> (r matches Some(req) && args_model(req.args@)
            =~= seq![
            "-s"@,
            device_id@,
            "shell"@,
            "input"@,
            "keyevent"@,
            "KEYCODE_HOME"@,
        ]),
        step.action == TestAction::Foreground ==> (r matches Some(req) && args_model(req.args@)
            =~= seq![
            "-s"@,
            device_id@,
            "shell"@,
            "input"@,
            "keyevent"@,
            "KEYCODE_APP_SWITCH"@,
        ]),
{
    let mut args: Vec<String> = Vec::new();
    args.push(String::from_str("-s"));
    args.push(String::from_str(device_id));
    match step.action {
        TestAction::Wait => None,
        TestAction::Tap => {
            match &step.target {
                None => None,
                Some(t) => {
                    args.push(String::from_str("shell"));
                    args.push(String::from_str("input"));
                    args.push(String::from_str("tap"));
                    args.push(t.clone());
                    Some(ExecRequest { tool: String::from_str("adb"), args, timeout_ms: 10000 })
                },
            }
        },
        TestAction::Swipe => {
            match &step.target {
                None => None,
                Some(t) => {
                    args.push(String::from_str("shell"));
                    args.push(String::from_str("input"));
                    args.push(String::from_str("swipe"));
                    args.push(t.clone());
                    Some(ExecRequest { tool: String::from_str("adb"), args, timeout_ms: 10000 })
                },
            }
        },
        TestAction::Type => {
            match (&step.target, &step.value) {
                (Some(_), Some(v)) => {
                    args.push(String::from_str("shell"));
                    args.push(String::from_str("input"));
                    args.push(String::from_str("text"));
                    args.push(v.clone());
                    Some(ExecRequest { tool: String::from_str("adb"), args, timeout_ms: 10000 })
                },
                _ => None,
            }
        },
        TestAction::Assert => {
            match &step.target {
                None => None,
                Some(_) => {
                    args.push(String::from_str("shell"));
                    args.push(String::from_str("dumpsys"));
                    args.push(String::from_str("window"));
                    args.push(String::from_str("windows"));
                    Some(ExecRequest { tool: String::from_str("adb"), args, timeout_ms: 10000 })
                },
            }
        },
        TestAction::Screenshot => {
            args.push(String::from_str("exec-out"));
            args.push(String::from_str("screencap"));
            args.push(String::from_str("-p"));
            Some(ExecRequest { tool: String::from_str("adb"), args, timeout_ms: 10000 })
        },
        TestAction::Launch => {
            match &step.target {
                None => None,
                Some(t) => {
                    args.push(String::from_str("shell"));
                    args.push(String::from_str("am"));
                    args.push(String::from_str("start"));
                    args.push(String::from_str("-n"));
                    args.push(t.clone());
                    Some(ExecRequest { tool: String::from_str("adb"), args, timeout_ms: 10000 })
                },
            }
        },
        TestAction::Background => {
            args.push(String::from_str("shell"));
            args.push(String::from_str("input"));
            args.push(String::from_str("keyevent"));
            args.push(String::from_str("KEYCODE_HOME"));
            Some(ExecRequest { tool: String::from_str("adb"), args, timeout_ms: 10000 })
        },
        TestAction::Foreground => {
            args.push(String::from_str("shell"));
            args.push(String::from_str("input"));
            args.push(String::from_str("keyevent"));
            args.push(String::from_str("KEYCODE_APP_SWITCH"));
            Some(ExecRequest { tool: String::from_str("adb"), args, timeout_ms: 10000 })
        },
    }
}

/// The documented default suite: one launch-and-capture case with the
/// suite-level timeout and screenshots on failure.
pub fn default_test_suite(name: String) -> (r: TestSuite)
    ensures
        r.name@ == name@,
        r.tests@.len() == 1,
        r.tests@[0].name@ == "app_launch"@,
        r.tests@[0].description matches Some(d) && d@ == "Test app launch"@,
        r.tests@[0].steps@.len() == 2,
        r.tests@[0].steps@[0].action == TestAction::Launch,
        r.tests@[0].steps@[0].target matches Some(t) && t@ == "com.example.app"@,
        r.tests@[0].steps@[0].wait_time_secs == Some(5u64),
        r.tests@[0].steps@[1].action == TestAction::Screenshot,
        r.tests@[0].steps@[1].value matches Some(v) && v@ == "launch_screen.png"@,
        r.tests@[0].expected_result matches Some(e) && e@ == "App launches successfully"@,
        r.tests@[0].timeout_secs == Some(30u64),
        r.config.timeout_secs == 30,
        r.config.screenshot_on_failure,
        !r.config.video_recording,
        !r.config.parallel_execution,
        r.config.retry_count == 0,
{
    let mut steps: Vec<TestStep> = Vec::new();
    steps.push(
        TestStep {
            action: TestAction::Launch,
            target: Some(String::from_str("com.example.app")),
            value: None,
            wait_time_secs: Some(5),
        },
    );
    steps.push(
        TestStep {
            action: TestAction::Screenshot,
            target: None,
            value: Some(String::from_str("launch_screen.png")),
            wait_time_secs: None,
        },
    );
    let mut tests: Vec<TestCase> = Vec::new();
    tests.push(
        TestCase {
            name: String::from_str("app_launch"),
            description: Some(String::from_str("Test app launch")),
            steps,
            expected_result: Some(String::from_str("App launches successfully")),
            timeout_secs: Some(30),
        },
    );
    TestSuite {
        name,
        tests,
        config: TestConfig {
            timeout_secs: 30,
            screenshot_on_failure: true,
            video_recording: false,
            parallel_execution: false,
            retry_count: 0,
        },
    }
}

/// The test runner: the configuration, the suite being run, and where
/// artifacts go. The runner's process work — executing steps, sleeping,
/// saving captures — happens outside; the decisions are here.
#[derive(Debug)]
pub struct TestRunner {
    pub config: Config,
    pub current_suite: Option<TestSuite>,
    pub test_output_dir: String,
}

impl TestRunner {
    /// A runner over an output directory the caller has created.
    pub fn new(config: Config, test_output_dir: String) -> (r: TestRunner)
        ensures
            r.current_suite is None,
            r.test_output_dir@ == test_output_dir@,
    {
        TestRunner { config, current_suite: None, test_output_dir }
    }

    /// Tallies a run's results: the total and one count per status,
    /// each exactly the number of results that ended that way.
    pub fn generate_summary(&self, results: &Vec<TestResult>) -> (r: TestSummary)
        requires
            results@.len() <= u32::MAX,
        ensures
            r.total == results@.len(),
            r.passed == count_status(results@, TestStatus::Passed),
            r.failed == count_status(results@, TestStatus::Failed),
            r.skipped == count_status(results@, TestStatus::Skipped),
            r.timeout == count_status(results@, TestStatus::Timeout),
    {
        let n = results.len();
        let mut passed: u32 = 0;
        let mut failed: u32 = 0;
        let mut skipped: u32 = 0;
        let mut timeout: u32 = 0;
        let mut i: usize = 0;
        while i < n
            invariant
                0 <= i <= n,
                n == results@.len(),
                n <= u32::MAX,
                passed == count_status(results@.take(i as int), TestStatus::Passed),
                failed == count_status(results@.take(i as int), TestStatus::Failed),
                skipped == count_status(results@.take(i as int), TestStatus::Skipped),
                timeout == count_status(results@.take(i as int), TestStatus::Timeout),
                passed <= i && failed <= i && skipped <= i && timeout <= i,
            decreases n - i,
        {
            proof {
                assert(results@.take(i + 1).drop_last() =~= results@.take(i as int));
                assert(results@.take(i + 1).last() == results@[i as int]);
            }
            match results[i].status {
                TestStatus::Passed => {
                    passed += 1;
                },
                TestStatus::Failed => {
                    failed += 1;
                },
                TestStatus::Skipped => {
                    skipped += 1;
                },
                TestStatus::Timeout => {
                    timeout += 1;
                },
            }
            i += 1;
        }
        proof {
            assert(results@.take(n as int) =~= results@);
        }
        TestSummary { total: n as u32, passed, failed, skipped, timeout }
    }
}

} // verus!

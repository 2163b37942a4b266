//! Project model: classification of a project directory from its marker
//! files, the clean invocations per platform, and the status record.

use vstd::prelude::*;
use vstd::string::StringExecFns;
use crate::adapter::{ExecRequest, args_model};
use crate::config::{Config, ProjectConfig};
use crate::strutil::str_eq;

verus! {

/// Sub-commands of the project command group.
#[derive(Debug)]
pub enum ProjectCommands {
    Build { target: Option<String> },
    Clean,
    Status,
}

/// How the last build ended.
#[derive(Debug, Clone, Copy, PartialEq, Eq, Structural)]
pub enum BuildStatus {
    Success,
    Failed,
    InProgress,
    NotBuilt,
}

/// How the last test run ended.
#[derive(Debug, Clone, Copy, PartialEq, Eq, Structural)]
pub enum TestStatus {
    Passed,
    Failed,
    Running,
    NotRun,
}

/// One declared dependency and whether it is present.
#[derive(Debug)]
pub struct Dependency {
    pub name: String,
    pub version: String,
    pub status: DependencyStatus,
}

/// Whether a dependency is installed, absent, or stale.
#[derive(Debug, Clone, Copy, PartialEq, Eq, Structural)]
pub enum DependencyStatus {
    Installed,
    Missing,
    Outdated,
}

/// A snapshot of one project's state.
#[derive(Debug)]
pub struct ProjectStatus {
    pub name: String,
    pub path: String,
    pub platform: String,
    pub build_status: BuildStatus,
    pub tests_status: TestStatus,
    pub dependencies: Vec<Dependency>,
}

/// Which marker files a project directory holds; the runner reads the
/// directory and reports what it found.
#[derive(Debug, Clone, Copy, PartialEq, Eq, Structural)]
pub struct ProjectMarkers {
    pub has_gradle: bool,
    pub has_ios_dir: bool,
    pub has_xcode_project: bool,
    pub has_package_json: bool,
    pub has_android_dir: bool,
    pub has_pubspec: bool,
}

/// The platform a directory's marker files denote: a Gradle build means
/// Android; an iOS directory or an Xcode project means iOS; a package
/// manifest beside both platform directories means React Native; a
/// pubspec means Flutter; anything else stays unknown. Earlier rules
/// win.
pub open spec fn spec_platform_of(m: ProjectMarkers) -> Seq<char> {
    if m.has_gradle {
        "android"@
    } else if m.has_ios_dir || m.has_xcode_project {
        "ios"@
    } else if m.has_package_json && m.has_android_dir && m.has_ios_dir {
        "react-native"@
    } else if m.has_pubspec {
        "flutter"@
    } else {
        "unknown"@
    }
}

/// The default build command of each detected platform, if any.
pub open spec fn spec_build_command_of(m: ProjectMarkers) -> Option<Seq<char>> {
    if m.has_gradle {
        Some("./gradlew assembleDebug"@)
    } else if m.has_ios_dir || m.has_xcode_project {
        Some("xcodebuild -scheme Debug"@)
    } else if m.has_package_json && m.has_android_dir && m.has_ios_dir {
        Some("npx react-native run-android"@)
    } else if m.has_pubspec {
        Some("flutter build apk"@)
    } else {
        None
    }
}

/// The default test command of each detected platform, if any.
pub open spec fn spec_test_command_of(m: ProjectMarkers) -> Option<Seq<char>> {
    if m.has_gradle {
        Some("./gradlew test"@)
    } else if m.has_ios_dir || m.has_xcode_project {
        Some("xcodebuild test -scheme Debug"@)
    } else if m.has_package_json && m.has_android_dir && m.has_ios_dir {
        Some("npm test"@)
    } else if m.has_pubspec {
        Some("flutter test"@)
    } else {
        None
    }
}

/// Classifies a project directory from its marker files into a project
/// record with the platform's documented default commands.
pub fn detect_project_from_files(name: String, path: String, markers: ProjectMarkers) -> (r:
    ProjectConfig)
    ensures
        r.name@ == name@,
        r.path@ == path@,
        r.platform@ == spec_platform_of(markers),
        match r.build_command {
            Some(c) => spec_build_command_of(markers) matches Some(e) && c@ == e,
            None => spec_build_command_of(markers) is None,
        },
        match r.test_command {
            Some(c) => spec_test_command_of(markers) matches Some(e) && c@ == e,
            None => spec_test_command_of(markers) is None,
        },
        r.metadata@.len() == 0,
{
    let (platform, build_command, test_command) = if markers.has_gradle {
        (
            String::from_str("android"),
            Some(String::from_str("./gradlew assembleDebug")),
            Some(String::from_str("./gradlew test")),
        )
    } else if markers.has_ios_dir || markers.has_xcode_project {
        (
            String::from_str("ios"),
            Some(String::from_str("xcodebuild -scheme Debug")),
            Some(String::from_str("xcodebuild test -scheme Debug")),
        )
    } else if markers.has_package_json && markers.has_android_dir && markers.has_ios_dir {
        (
            String::from_str("react-native"),
            Some(String::from_str("npx react-native run-android")),
            Some(String::from_str("npm test")),
        )
    } else if markers.has_pubspec {
        (
            String::from_str("flutter"),
            Some(String::from_str("flutter build apk")),
            Some(String::from_str("flutter test")),
        )
    } else {
        (String::from_str("unknown"), None, None)
    };
    ProjectConfig { name, path, platform, build_command, test_command, metadata: Vec::new() }
}

/// The clean invocation of one platform: the Gradle, Xcode or Flutter
/// clean task; React Native and unknown platforms clean by deleting
/// build directories, which is the runner's work, so no invocation is
/// owed for them.
pub fn clean_command(platform: &str) -> (r: Option<ExecRequest>)
    ensures
        platform@ == "android"@ ==> (r matches Some(req) && req.tool@ == "./gradlew"@
            && args_model(req.args@) =~= seq!["clean"@]),
        platform@ == "ios"@ ==> (r matches Some(req) && req.tool@ == "xcodebuild"@ && args_model(
            req.args@,
        ) =~= seq!["clean"@]),
        platform@ == "flutter"@ ==> (r matches Some(req) && req.tool@ == "flutter"@ && args_model(
            req.args@,
        ) =~= seq!["clean"@]),
        (platform@ != "android"@ && platform@ != "ios"@ && platform@ != "flutter"@) ==> r is None,
{
    proof {
        reveal_strlit("android");
        reveal_strlit("ios");
        reveal_strlit("flutter");
        assert("android"@.len() == 7);
        assert("ios"@.len() == 3);
        assert("flutter"@.len() == 7);
        assert("android"@[0] == 'a');
        assert("flutter"@[0] == 'f');
        assert("android"@ != "ios"@);
        assert("android"@ != "flutter"@);
        assert("ios"@ != "flutter"@);
    }
    let mut args: Vec<String> = Vec::new();
    args.push(String::from_str("clean"));
    if str_eq(platform, "android") {
        Some(ExecRequest { tool: String::from_str("./gradlew"), args, timeout_ms: 10000 })
    } else if str_eq(platform, "ios") {
        Some(ExecRequest { tool: String::from_str("xcodebuild"), args, timeout_ms: 10000 })
    } else if str_eq(platform, "flutter") {
        Some(ExecRequest { tool: String::from_str("flutter"), args, timeout_ms: 10000 })
    } else {
        None
    }
}

/// The project manager: the configuration and the project detected in
/// the working directory, if any.
#[derive(Debug)]
pub struct ProjectManager {
    pub config: Config,
    pub current_project: Option<ProjectConfig>,
}

impl ProjectManager {
    pub fn new(config: Config, current_project: Option<ProjectConfig>) -> (r: ProjectManager)
        ensures
            r.current_project == current_project,
    {
        ProjectManager { config, current_project }
    }

    /// The fresh status snapshot of the current project: nothing built
    /// and nothing run yet. Nothing to report without a project.
    pub fn project_status(&self) -> (r: Option<ProjectStatus>)
        ensures
            self.current_project is None <==> r is None,
            r matches Some(st) ==> (self.current_project matches Some(p) && st.name@ == p.name@
                && st.path@ == p.path@ && st.platform@ == p.platform@ && st.build_status
                == BuildStatus::NotBuilt && st.tests_status == TestStatus::NotRun
                && st.dependencies@.len() == 0),
    {
        match &self.current_project {
            None => None,
            Some(p) => Some(
                ProjectStatus {
                    name: p.name.clone(),
                    path: p.path.clone(),
                    platform: p.platform.clone(),
                    build_status: BuildStatus::NotBuilt,
                    tests_status: TestStatus::NotRun,
                    dependencies: Vec::new(),
                },
            ),
        }
    }
}

} // verus!

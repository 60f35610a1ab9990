use klave::failure::{ConfigFault, Failure, Subprocess};

#[test]
fn every_failure_has_its_message() {
    assert_eq!(
        Failure::ConfigNotFound.message(),
        "Error: klave.json file not found. Make sure you are in a Klave project directory. Run 'klave create' to start a new project."
    );
    assert_eq!(Failure::ConfigInvalid(ConfigFault::NotJson).message(), "Invalid JSON in klave.json");
    assert_eq!(
        Failure::ConfigInvalid(ConfigFault::NoApplicationsArray).message(),
        "Error: Invalid klave.json file structure. 'applications' array not found."
    );
    assert_eq!(
        Failure::ConfigInvalid(ConfigFault::NoApplications).message(),
        "Error: No applications found in klave.json"
    );
    assert_eq!(
        Failure::ApplicationNotFound { name: "x".to_string(), available: vec![] }.message(),
        "Error: No application found with name \"x\". Available applications: "
    );
    assert_eq!(
        Failure::ApplicationNotFound {
            name: "x".to_string(),
            available: vec!["a".to_string(), "b".to_string()],
        }
        .message(),
        "Error: No application found with name \"x\". Available applications: a, b"
    );
    assert_eq!(Failure::ToolchainMissing.message(), "Build aborted due to missing tools");
    assert_eq!(Failure::DependenciesMissing.message(), "Build aborted: dependencies not installed");
    assert_eq!(Failure::AlreadyInProject.message(), "Already in a Klave project");
    assert_eq!(
        Failure::AppDirMissing("\"t/apps/hello_world\"".to_string()).message(),
        "App directory not found: \"t/apps/hello_world\""
    );
    assert_eq!(
        Failure::SubprocessFailed(Subprocess::InstallFailed).message(),
        "Build aborted: failed to install dependencies"
    );
    assert_eq!(
        Failure::SubprocessFailed(Subprocess::InstallNotStarted("yarn".to_string())).message(),
        "Failed to run yarn install"
    );
    assert_eq!(
        Failure::SubprocessFailed(Subprocess::GitInit("fatal: no\n".to_string())).message(),
        "Failed to initialize Git repository: fatal: no\n"
    );
    assert_eq!(Failure::Io("disk full".to_string()).message(), "disk full");
}

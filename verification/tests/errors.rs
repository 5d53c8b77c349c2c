use kernel_builder::{BuilderErr, Cause};

fn refused() -> std::io::Error {
    std::io::Error::new(std::io::ErrorKind::PermissionDenied, "refused")
}

#[test]
fn messages_without_a_cause() {
    assert_eq!(BuilderErr::NoPrivileges.message(), "Error retrieving root privileges");
    assert_eq!(BuilderErr::KernelConfigMissing.message(), "Missing kernel configuration file");
    assert_eq!(
        BuilderErr::KernelConfigUpdateError.message(),
        "Updating the kernel configuration failed"
    );
    assert_eq!(BuilderErr::MenuconfigError.message(), "Configuring the kernel failed");
}

#[test]
fn message_of_a_missing_option_names_it() {
    assert_eq!(
        BuilderErr::KernelConfigMissingOption("initramfs".to_string()).message(),
        "Missing option in kernel configuration file: initramfs"
    );
}

#[test]
fn messages_with_an_io_cause() {
    assert_eq!(
        BuilderErr::KernelBuildFail(Cause::Io(refused())).message(),
        "Error building kernel: refused"
    );
    assert_eq!(BuilderErr::LinkingFileError(refused()).message(), "Symlinking file failed: refused");
    assert_eq!(BuilderErr::PromptError(refused()).message(), "Could not create prompt: refused");
}

#[test]
fn messages_of_a_tool_that_failed() {
    assert_eq!(
        BuilderErr::KernelBuildFail(Cause::Status { code: Some(2) }).message(),
        "Error building kernel: exit code 2"
    );
    assert_eq!(
        BuilderErr::KernelBuildFail(Cause::Status { code: Some(-11) }).message(),
        "Error building kernel: exit code -11"
    );
    assert_eq!(
        BuilderErr::KernelBuildFail(Cause::Status { code: None }).message(),
        "Error building kernel: ended by a signal"
    );
    assert_eq!(Cause::Status { code: Some(0) }.describe(), "exit code 0");
}

#[test]
fn an_error_of_the_settings_becomes_a_builder_error() {
    let e: BuilderErr = config::ConfigError::Message("no such file".to_string()).into();
    assert!(matches!(e, BuilderErr::ConfigError(config::ConfigError::Message(ref m)) if m == "no such file"));
    assert_eq!(e.message(), "Could not parse config file: no such file");
    let e = BuilderErr::from(config::ConfigError::NotFound("kernel".to_string()));
    assert!(matches!(e, BuilderErr::ConfigError(config::ConfigError::NotFound(_))));
}

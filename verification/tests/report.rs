use dotman::error::{DotmanConfigError, DotmanError};
use dotman::report::{ActionStatus, Disposition, LinkStatus, Record};

#[test]
fn error_messages() {
    assert_eq!(
        DotmanError::SourceFileNotFound("/s".to_string()).message(),
        "Source file not found: /s"
    );
    assert_eq!(DotmanError::IoError("denied".to_string()).message(), "I/O error: denied");
    assert_eq!(
        DotmanError::CommandError { name: "build".to_string(), message: "boom".to_string() }
            .message(),
        "Command 'build' failed: boom"
    );
    assert_eq!(DotmanError::GeneralError("odd".to_string()).message(), "General error: odd");
    assert_eq!(DotmanError::NoHomeDirectory.message(), "Home directory not found");
    assert_eq!(
        DotmanError::UnsupportedHost("plan9".to_string()).message(),
        "Unsupported operating system 'plan9' for Dotman."
    );
}

#[test]
fn config_error_messages() {
    assert_eq!(
        DotmanConfigError::ConfigFileDoesNotExist("dotman.toml".to_string()).message(),
        "Configuration file does not exist: dotman.toml"
    );
    assert_eq!(
        DotmanConfigError::ConfigFileReadError("d.toml".to_string(), "denied".to_string())
            .message(),
        "Failed to read configuration file 'd.toml': denied"
    );
    assert_eq!(
        DotmanConfigError::ConfigFileParseError("d.toml".to_string(), "bad key".to_string())
            .message(),
        "Failed to parse configuration file 'd.toml': bad key"
    );
}

#[test]
fn status_labels() {
    assert_eq!(LinkStatus::ConditionNotMet.label(), "CONDITION NOT MET");
    assert_eq!(LinkStatus::SourceMissing.label(), "SOURCE MISSING");
    assert_eq!(LinkStatus::NotLinked.label(), "NOT LINKED");
    assert_eq!(LinkStatus::Linked.label(), "OK");
    assert_eq!(LinkStatus::WrongTarget.label(), "WRONG TARGET");
    assert_eq!(LinkStatus::SymlinkError.label(), "SYMLINK ERROR");
    assert_eq!(LinkStatus::ExistsButNotSymlink.label(), "EXISTS BUT NOT SYMLINK");
    assert_eq!(ActionStatus::ConditionNotMet.label(), "CONDITION NOT MET");
    assert_eq!(ActionStatus::ReadyToRun.label(), "READY TO RUN");
}

#[test]
fn record_dispositions_and_texts() {
    let s = "/s".to_string();
    let t = "/t".to_string();
    let cases = vec![
        (
            Record::ConditionFailed(s.clone()),
            Disposition::Ignored,
            "/s failed condition check, skipping.",
        ),
        (
            Record::SourceMissing(s.clone()),
            Disposition::Ignored,
            "/s was not found, and will not be linked. Skipping.",
        ),
        (
            Record::TargetExists(t.clone()),
            Disposition::Warning,
            "/t already exists, skipping. Use --overwrite to force linking.",
        ),
        (
            Record::Declined { source: s.clone(), target: t.clone() },
            Disposition::Skipped,
            "/s -> /t declined, skipping.",
        ),
        (Record::Linked { source: s.clone(), target: t.clone() }, Disposition::Linked, "/s -> /t"),
        (
            Record::ClearFailed { target: t.clone(), directory: true, cause: "busy".to_string() },
            Disposition::Error,
            "Failed to remove existing target directory /t: busy",
        ),
        (
            Record::ClearFailed { target: t.clone(), directory: false, cause: "busy".to_string() },
            Disposition::Error,
            "Failed to remove existing target /t: busy",
        ),
        (Record::TargetMissing(t.clone()), Disposition::Ignored, "/t does not exist, skipping."),
        (Record::Removed(t.clone()), Disposition::Removed, "/t removed."),
        (
            Record::RemoveFailed { target: t.clone(), directory: true, cause: "busy".to_string() },
            Disposition::Error,
            "Failed to remove directory /t: busy",
        ),
        (
            Record::RemoveFailed { target: t.clone(), directory: false, cause: "busy".to_string() },
            Disposition::Error,
            "Failed to remove file /t: busy",
        ),
        (Record::Running("build".to_string()), Disposition::Action, "Running action: build"),
        (Record::Succeeded("done\n".to_string()), Disposition::Success, "done\n"),
        (
            Record::LinkState { source: s.clone(), target: t.clone(), status: LinkStatus::Linked },
            Disposition::Status,
            "OK: /s -> /t",
        ),
        (
            Record::ActionState { name: "build".to_string(), status: ActionStatus::ReadyToRun },
            Disposition::Status,
            "READY TO RUN: build",
        ),
    ];
    for (record, disposition, text) in cases {
        assert_eq!(record.disposition(), disposition);
        assert_eq!(record.text(), text);
        assert_eq!(record.line(), format!("{} {}", disposition.prefix(), text));
    }
}

#[test]
fn prefixes() {
    assert_eq!(Disposition::Ignored.prefix(), "Ignored:");
    assert_eq!(Disposition::Warning.prefix(), "Warning:");
    assert_eq!(Disposition::Skipped.prefix(), "Skipped:");
    assert_eq!(Disposition::Linked.prefix(), "Linked:");
    assert_eq!(Disposition::Removed.prefix(), "Removed:");
    assert_eq!(Disposition::Action.prefix(), "Action:");
    assert_eq!(Disposition::Success.prefix(), "Success:");
    assert_eq!(Disposition::Error.prefix(), "Error:");
    assert_eq!(Disposition::Status.prefix(), "Status:");
}

#[test]
fn a_bare_message_is_an_io_error() {
    let error = DotmanError::from("disk full".to_string());
    assert_eq!(error, DotmanError::IoError("disk full".to_string()));
    assert_eq!(error.message(), "I/O error: disk full");
}

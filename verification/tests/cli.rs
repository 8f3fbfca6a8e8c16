use dotman::cli::{Cli, Command, Task};
use dotman::config::{DotmanConfig, Link};

fn loaded() -> DotmanConfig {
    let mut config = DotmanConfig::default();
    config.overwrite = true;
    config.links.push(Link {
        source: "s".to_string(),
        target: "t".to_string(),
        if_cond: None,
        if_not_cond: None,
        profiles: vec![],
    });
    config
}

#[test]
fn install_overlays_policies_and_profile() {
    let cli = Cli {
        command: Command::Install {
            config: "my.toml".to_string(),
            overwrite: false,
            ask: true,
            profile: Some("work".to_string()),
        },
    };
    assert_eq!(cli.command.config_path(), "my.toml");
    let task = cli.run(loaded());
    assert_eq!(task.completion(), Some("Installation completed successfully."));
    match task {
        Task::Install(dotman) => {
            // the command line's policy replaces the file's
            assert!(!dotman.config.overwrite);
            assert!(dotman.config.ask);
            assert_eq!(dotman.config.selected_profile, Some("work".to_string()));
            assert_eq!(dotman.config.links, loaded().links);
        },
        other => panic!("unexpected task {:?}", other),
    }
}

#[test]
fn remove_and_status_set_only_the_profile() {
    let remove = Cli {
        command: Command::Remove { config: "c".to_string(), profile: Some("p".to_string()) },
    };
    let task = remove.run(loaded());
    assert_eq!(task.completion(), Some("Removal completed successfully."));
    match task {
        Task::Remove(dotman) => {
            assert!(dotman.config.overwrite);
            assert!(!dotman.config.ask);
            assert_eq!(dotman.config.selected_profile, Some("p".to_string()));
        },
        other => panic!("unexpected task {:?}", other),
    }
    let status = Cli { command: Command::Status { config: "c".to_string(), profile: None } };
    let task = status.run(loaded());
    assert_eq!(task.completion(), None);
    match task {
        Task::Status(dotman) => assert_eq!(dotman.config, loaded()),
        other => panic!("unexpected task {:?}", other),
    }
}

#[test]
fn validate_and_show() {
    let validate = Cli { command: Command::Validate { config: "c".to_string() } };
    let task = validate.run(loaded());
    assert_eq!(task, Task::Validate);
    assert_eq!(task.completion(), Some("Configuration file is valid."));
    let show = Cli { command: Command::Show { config: "c".to_string() } };
    assert_eq!(show.command.config_path(), "c");
    let task = show.run(loaded());
    assert_eq!(task.completion(), None);
    assert_eq!(task, Task::Show(loaded()));
}

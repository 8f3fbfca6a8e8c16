use dotman::config::{
    condition_is_met, is_active, Action, Condition, DotmanConfig, Execution, Findings, Hostname,
    Link, PairFindings, RunCommand, Shell,
};
use dotman::OperatingSystem;

/// What running one of the commands these tests use yields.
fn ran(command: &RunCommand) -> Execution {
    let text = command.command();
    if text == "true" {
        Execution::Exited { success: true, stdout: String::new(), stderr: String::new() }
    } else if text == "false" {
        Execution::Exited { success: false, stdout: String::new(), stderr: String::new() }
    } else if let Some(rest) = text.strip_prefix("echo ") {
        Execution::Exited { success: true, stdout: format!("{}\n", rest), stderr: String::new() }
    } else {
        Execution::Failed(format!("{}: not found", text))
    }
}

/// The findings of a host on which every listed path exists.
fn observe(condition: &Condition) -> Findings {
    Findings {
        run: condition.run.as_ref().map(ran),
        files: condition.file_exists.iter().map(|_| true).collect(),
    }
}

fn observe_pair(if_cond: &Option<Condition>, if_not_cond: &Option<Condition>) -> PairFindings {
    PairFindings {
        if_cond: if_cond.as_ref().map(observe).unwrap_or_default(),
        if_not_cond: if_not_cond.as_ref().map(observe).unwrap_or_default(),
    }
}

fn observe_action(action: &Action) -> PairFindings {
    match action {
        Action::ShellCommand { if_cond, if_not_cond, .. } => observe_pair(if_cond, if_not_cond),
    }
}

fn met(condition: &Condition, os: &OperatingSystem, hostname: &str) -> bool {
    condition.is_met(os, Some(hostname), None, &observe(condition))
}

fn action_met(action: &Action, os: &OperatingSystem, hostname: &str) -> bool {
    action.is_met(os, Some(hostname), None, &observe_action(action))
}

#[test]
fn test_run_command_is_successful_true() {
    let cmd = RunCommand::Simple("true".to_string());
    assert!(cmd.is_successful(&ran(&cmd)));
}

#[test]
fn test_run_command_is_successful_false() {
    let cmd = RunCommand::Simple("false".to_string());
    assert!(!cmd.is_successful(&ran(&cmd)));
}

#[test]
fn test_condition_os_match() {
    let condition = Condition {
        os: vec![OperatingSystem::Linux],
        hostname: None,
        run: None,
        file_exists: vec![],
    };
    assert!(met(&condition, &OperatingSystem::Linux, "test"));
    assert!(!met(&condition, &OperatingSystem::MacOS, "test"));
}

#[test]
fn test_condition_hostname_match() {
    let condition = Condition {
        os: vec![],
        hostname: Some(Hostname::Single("test-host".to_string())),
        run: None,
        file_exists: vec![],
    };
    assert!(met(&condition, &OperatingSystem::Linux, "test-host"));
    assert!(!met(&condition, &OperatingSystem::Linux, "other-host"));
}

#[test]
fn test_condition_empty_matches_all() {
    let condition = Condition::default();
    assert!(met(&condition, &OperatingSystem::Linux, "any"));
    assert!(met(&condition, &OperatingSystem::MacOS, "any"));
}

#[test]
fn test_condition_with_successful_command() {
    let condition = Condition {
        os: vec![],
        hostname: None,
        run: Some(RunCommand::Simple("true".to_string())),
        file_exists: vec![],
    };
    assert!(met(&condition, &OperatingSystem::Linux, "test"));
}

#[test]
fn test_condition_with_failed_command() {
    let condition = Condition {
        os: vec![],
        hostname: None,
        run: Some(RunCommand::Simple("false".to_string())),
        file_exists: vec![],
    };
    assert!(!met(&condition, &OperatingSystem::Linux, "test"));
}

#[test]
fn test_condition_all_requirements_met() {
    let condition = Condition {
        os: vec![OperatingSystem::Linux],
        hostname: Some(Hostname::Single("test-host".to_string())),
        run: Some(RunCommand::Simple("true".to_string())),
        file_exists: vec![],
    };
    assert!(met(&condition, &OperatingSystem::Linux, "test-host"));
    assert!(!met(&condition, &OperatingSystem::MacOS, "test-host"));
    assert!(!met(&condition, &OperatingSystem::Linux, "other-host"));
}

#[test]
fn test_action_is_met_with_conditions() {
    let action = Action::ShellCommand {
        name: "test".to_string(),
        run: RunCommand::Simple("echo test".to_string()),
        if_cond: Some(Condition {
            os: vec![OperatingSystem::Linux],
            hostname: None,
            run: None,
            file_exists: vec![],
        }),
        if_not_cond: None,
        profiles: vec![],
    };
    assert!(action_met(&action, &OperatingSystem::Linux, "test"));
    assert!(!action_met(&action, &OperatingSystem::MacOS, "test"));
}

#[test]
fn test_action_is_met_with_if_not_condition() {
    let action = Action::ShellCommand {
        name: "test".to_string(),
        run: RunCommand::Simple("echo test".to_string()),
        if_cond: None,
        if_not_cond: Some(Condition {
            os: vec![OperatingSystem::MacOS],
            hostname: None,
            run: None,
            file_exists: vec![],
        }),
        profiles: vec![],
    };
    assert!(action_met(&action, &OperatingSystem::Linux, "test"));
    assert!(!action_met(&action, &OperatingSystem::MacOS, "test"));
}

#[test]
fn test_action_is_met_conditions() {
    let action_met_ = Action::ShellCommand {
        name: "Test action".to_string(),
        run: RunCommand::Simple("echo test".to_string()),
        if_cond: Some(Condition {
            os: vec![],
            hostname: None,
            run: Some(RunCommand::Simple("true".to_string())),
            file_exists: vec![],
        }),
        if_not_cond: None,
        profiles: vec![],
    };

    assert!(action_met(&action_met_, &OperatingSystem::Linux, "test"));

    let action_not_met = Action::ShellCommand {
        name: "Test action".to_string(),
        run: RunCommand::Simple("echo test".to_string()),
        if_cond: Some(Condition {
            os: vec![],
            hostname: None,
            run: Some(RunCommand::Simple("false".to_string())),
            file_exists: vec![],
        }),
        if_not_cond: None,
        profiles: vec![],
    };

    assert!(!action_met(&action_not_met, &OperatingSystem::Linux, "test"));
}

#[test]
fn shell_names() {
    assert_eq!(Shell::Sh.as_str(), "sh");
    assert_eq!(Shell::Bash.as_str(), "bash");
    assert_eq!(Shell::Zsh.as_str(), "zsh");
    assert_eq!(Shell::Fish.as_str(), "fish");
    assert_eq!(Shell::default(), Shell::Sh);
}

#[test]
fn run_command_argv_names_the_shell() {
    let simple = RunCommand::Simple("echo hi".to_string());
    assert_eq!(simple.shell(), Shell::Sh);
    assert_eq!(simple.command(), "echo hi");
    assert_eq!(simple.argv(), vec!["sh".to_string(), "-c".to_string(), "echo hi".to_string()]);

    let fish = RunCommand::Complex { command: "echo hi".to_string(), shell: Some(Shell::Fish) };
    assert_eq!(fish.argv(), vec!["fish".to_string(), "-c".to_string(), "echo hi".to_string()]);

    let plain = RunCommand::Complex { command: "ls".to_string(), shell: None };
    assert_eq!(plain.argv(), vec!["sh".to_string(), "-c".to_string(), "ls".to_string()]);
}

#[test]
fn a_command_that_could_not_be_run_is_a_failed_probe() {
    let cmd = RunCommand::Complex { command: "true".to_string(), shell: Some(Shell::Zsh) };
    assert!(!cmd.is_successful(&Execution::Failed("zsh: not found".to_string())));
    let condition =
        Condition { os: vec![], hostname: None, run: Some(cmd), file_exists: vec![] };
    let findings =
        Findings { run: Some(Execution::Failed("zsh: not found".to_string())), files: vec![] };
    assert!(!condition.is_met(&OperatingSystem::Linux, Some("h"), None, &findings));
}

#[test]
fn a_probe_that_was_not_run_does_not_pass() {
    let condition = Condition {
        os: vec![],
        hostname: None,
        run: Some(RunCommand::Simple("true".to_string())),
        file_exists: vec![],
    };
    assert!(!condition.is_met(&OperatingSystem::Linux, Some("h"), None, &Findings::default()));
}

#[test]
fn hostname_list_matches_any_member() {
    let condition = Condition {
        os: vec![],
        hostname: Some(Hostname::Many(vec!["alpha".to_string(), "beta".to_string()])),
        run: None,
        file_exists: vec![],
    };
    assert!(met(&condition, &OperatingSystem::Linux, "alpha"));
    assert!(met(&condition, &OperatingSystem::Linux, "beta"));
    assert!(!met(&condition, &OperatingSystem::Linux, "gamma"));
    assert!(!met(&condition, &OperatingSystem::Linux, "Alpha"));
}

#[test]
fn host_without_a_name_fails_every_matcher() {
    let with_matcher = Condition {
        os: vec![],
        hostname: Some(Hostname::Single("alpha".to_string())),
        run: None,
        file_exists: vec![],
    };
    let findings = Findings::default();
    assert!(!with_matcher.is_met(&OperatingSystem::Linux, None, None, &findings));
    let without = Condition::default();
    assert!(without.is_met(&OperatingSystem::Linux, None, None, &findings));
    let empty_list = Condition {
        os: vec![],
        hostname: Some(Hostname::Many(vec![])),
        run: None,
        file_exists: vec![],
    };
    assert!(!empty_list.is_met(&OperatingSystem::Linux, Some("alpha"), None, &findings));
}

#[test]
fn file_exists_gate_needs_every_path() {
    let condition = Condition {
        os: vec![],
        hostname: None,
        run: None,
        file_exists: vec!["/etc/hosts".to_string(), "~/.profile".to_string()],
    };
    let all = Findings { run: None, files: vec![true, true] };
    let one = Findings { run: None, files: vec![true, false] };
    let short = Findings { run: None, files: vec![true] };
    let os = OperatingSystem::Linux;
    assert!(condition.is_met(&os, Some("h"), Some("/home/u"), &all));
    assert!(!condition.is_met(&os, Some("h"), Some("/home/u"), &one));
    assert!(!condition.is_met(&os, Some("h"), Some("/home/u"), &short));
    // `~/.profile` cannot be expanded without a home directory
    assert!(!condition.is_met(&os, Some("h"), None, &all));
}

#[test]
fn pair_with_one_condition_follows_it() {
    let os = OperatingSystem::Linux;
    let linux = Condition {
        os: vec![OperatingSystem::Linux],
        hostname: None,
        run: None,
        file_exists: vec![],
    };
    let mac = Condition {
        os: vec![OperatingSystem::MacOS],
        hostname: None,
        run: None,
        file_exists: vec![],
    };
    for condition in [linux, mac] {
        let alone = met(&condition, &os, "h");
        let some = Some(condition);
        let findings = observe_pair(&some, &some);
        assert_eq!(condition_is_met(&some, &None, &os, Some("h"), None, &findings), alone);
        assert_eq!(condition_is_met(&None, &some, &os, Some("h"), None, &findings), !alone);
    }
    assert!(condition_is_met(&None, &None, &os, None, None, &observe_pair(&None, &None)));
}

#[test]
fn link_is_met_uses_both_conditions() {
    let link = Link {
        source: "~/dots/vimrc".to_string(),
        target: "~/.vimrc".to_string(),
        if_cond: Some(Condition {
            os: vec![OperatingSystem::Linux],
            hostname: None,
            run: None,
            file_exists: vec![],
        }),
        if_not_cond: Some(Condition {
            os: vec![],
            hostname: Some(Hostname::Single("work".to_string())),
            run: None,
            file_exists: vec![],
        }),
        profiles: vec![],
    };
    let findings = observe_pair(&link.if_cond, &link.if_not_cond);
    assert!(link.is_met(&OperatingSystem::Linux, Some("home"), None, &findings));
    assert!(!link.is_met(&OperatingSystem::Linux, Some("work"), None, &findings));
    assert!(!link.is_met(&OperatingSystem::Windows, Some("home"), None, &findings));
}

#[test]
fn profile_filter() {
    let none: Vec<String> = vec![];
    let work = vec!["work".to_string(), "laptop".to_string()];
    assert!(is_active(&none, None));
    assert!(is_active(&none, Some("work")));
    assert!(is_active(&work, Some("work")));
    assert!(is_active(&work, Some("laptop")));
    assert!(!is_active(&work, Some("home")));
    assert!(!is_active(&work, None));

    let link = Link {
        source: "a".to_string(),
        target: "b".to_string(),
        if_cond: None,
        if_not_cond: None,
        profiles: work.clone(),
    };
    assert!(link.is_active(Some("work")));
    assert!(!link.is_active(Some("home")));
    let action = Action::ShellCommand {
        name: "n".to_string(),
        run: RunCommand::Simple("true".to_string()),
        if_cond: None,
        if_not_cond: None,
        profiles: work,
    };
    assert!(action.is_active(Some("laptop")));
    assert!(!action.is_active(None));
    assert_eq!(action.name(), "n");
    assert_eq!(action.run(), &RunCommand::Simple("true".to_string()));
}

#[test]
fn config_defaults_and_overlays() {
    let config = DotmanConfig::default();
    assert_eq!(config.config_path, "dotman.toml");
    assert!(config.links.is_empty());
    assert!(config.actions.is_empty());
    assert!(!config.overwrite);
    assert!(!config.ask);
    assert_eq!(config.selected_profile, None);

    let config = config.with_overwrite(true);
    assert!(config.overwrite);
    assert!(!config.ask);
    let config = config.with_ask(true).with_profile(Some("work".to_string()));
    assert!(config.overwrite);
    assert!(config.ask);
    assert_eq!(config.selected_profile, Some("work".to_string()));
    let config = config.with_overwrite(false).with_profile(None);
    assert!(!config.overwrite);
    assert!(config.ask);
    assert_eq!(config.selected_profile, None);
    assert_eq!(config.config_path, "dotman.toml");
}

fn output_of(execution: Execution) -> (bool, String) {
    match execution {
        Execution::Exited { success, stdout, .. } => (success, stdout),
        Execution::Failed(cause) => panic!("could not run: {}", cause),
    }
}

#[test]
fn test_run_command_simple() {
    let cmd = RunCommand::Simple("echo test".to_string());
    assert_eq!(cmd.argv(), vec!["sh".to_string(), "-c".to_string(), "echo test".to_string()]);
    let (success, stdout) = output_of(ran(&cmd));
    assert!(success);
    assert_eq!(stdout.trim(), "test");
}

#[test]
fn test_run_command_complex_with_shell() {
    let cmd = RunCommand::Complex { command: "echo test".to_string(), shell: Some(Shell::Bash) };
    assert_eq!(cmd.argv(), vec!["bash".to_string(), "-c".to_string(), "echo test".to_string()]);
    let (success, stdout) = output_of(ran(&cmd));
    assert!(success);
    assert_eq!(stdout.trim(), "test");
}

#[test]
fn test_run_command_complex_default_shell() {
    let cmd = RunCommand::Complex { command: "echo test".to_string(), shell: None };
    assert_eq!(cmd.argv(), vec!["sh".to_string(), "-c".to_string(), "echo test".to_string()]);
    let (success, stdout) = output_of(ran(&cmd));
    assert!(success);
    assert_eq!(stdout.trim(), "test");
}

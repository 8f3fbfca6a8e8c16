//! The commands of the front end, and what each asks of the reconciler once
//! the configuration it names has been loaded.

use vstd::prelude::*;
use crate::config::{DotmanConfig, DotmanConfigView};
use crate::reconcile::Dotman;

verus! {

/// A command of the front end. `config` is the path of the configuration
/// file.
#[derive(Debug, PartialEq, Eq)]
pub enum Command {
    /// Link dotfiles to their respective locations.
    Install { config: String, overwrite: bool, ask: bool, profile: Option<String> },
    /// Validate the configuration file.
    Validate { config: String },
    /// Show the configuration.
    Show { config: String },
    /// Remove all links of the configuration.
    Remove { config: String, profile: Option<String> },
    /// Show the status of all links and actions of the configuration.
    Status { config: String, profile: Option<String> },
}

/// The parsed command line.
#[derive(Debug, PartialEq, Eq)]
pub struct Cli {
    pub command: Command,
}

/// What is left to do once the configuration has been loaded.
#[derive(Debug, PartialEq, Eq)]
pub enum Task {
    /// Run an install.
    Install(Dotman),
    /// Run a removal.
    Remove(Dotman),
    /// Run a status report.
    Status(Dotman),
    /// Nothing but to say that the file is valid.
    Validate,
    /// Print the configuration.
    Show(DotmanConfig),
}

/// The view of an optional string.
pub open spec fn opt_string(s: Option<String>) -> Option<Seq<char>> {
    match s {
        Some(t) => Some(t@),
        None => None,
    }
}

impl Command {
    /// The path of the configuration file as a text.
    pub open spec fn config_text(self) -> Seq<char> {
        match self {
            Command::Install { config, .. } => config@,
            Command::Validate { config } => config@,
            Command::Show { config } => config@,
            Command::Remove { config, .. } => config@,
            Command::Status { config, .. } => config@,
        }
    }

    /// The configuration a command runs on, given the one that was loaded:
    /// install sets the overwrite and ask policies and the profile; remove
    /// and status set the profile; the others change nothing.
    pub open spec fn overlay(self, loaded: DotmanConfigView) -> DotmanConfigView {
        match self {
            Command::Install { overwrite, ask, profile, .. } => DotmanConfigView {
                overwrite,
                ask,
                selected_profile: opt_string(profile),
                ..loaded
            },
            Command::Remove { profile, .. } => DotmanConfigView {
                selected_profile: opt_string(profile),
                ..loaded
            },
            Command::Status { profile, .. } => DotmanConfigView {
                selected_profile: opt_string(profile),
                ..loaded
            },
            _ => loaded,
        }
    }

    /// The path of the configuration file the command names.
    pub fn config_path(&self) -> (path: &str)
        ensures
            path@ == self.config_text(),
    {
        match self {
            Command::Install { config, .. } => config.as_str(),
            Command::Validate { config } => config.as_str(),
            Command::Show { config } => config.as_str(),
            Command::Remove { config, .. } => config.as_str(),
            Command::Status { config, .. } => config.as_str(),
        }
    }
}

impl Task {
    /// What is printed when the task has succeeded, if anything.
    pub open spec fn completion_text(self) -> Option<Seq<char>> {
        match self {
            Task::Install(_) => Some("Installation completed successfully."@),
            Task::Remove(_) => Some("Removal completed successfully."@),
            Task::Validate => Some("Configuration file is valid."@),
            Task::Status(_) => None,
            Task::Show(_) => None,
        }
    }

    /// What is printed when the task has succeeded, if anything.
    pub fn completion(&self) -> (text: Option<&'static str>)
        ensures
            crate::utils::opt_text(text) == self.completion_text(),
    {
        match self {
            Task::Install(_) => Some("Installation completed successfully."),
            Task::Remove(_) => Some("Removal completed successfully."),
            Task::Validate => Some("Configuration file is valid."),
            Task::Status(_) => None,
            Task::Show(_) => None,
        }
    }
}

impl Cli {
    /// Turns the command into its task, given the configuration that was
    /// loaded from the file the command names. The policies and the profile
    /// of the command line replace those of the file.
    pub fn run(self, loaded: DotmanConfig) -> (task: Task)
        ensures
            match self.command {
                Command::Install { .. } => task matches Task::Install(d) && d.config@
                    == self.command.overlay(loaded@),
                Command::Remove { .. } => task matches Task::Remove(d) && d.config@
                    == self.command.overlay(loaded@),
                Command::Status { .. } => task matches Task::Status(d) && d.config@
                    == self.command.overlay(loaded@),
                Command::Validate { .. } => task is Validate,
                Command::Show { .. } => task matches Task::Show(c) && c == loaded,
            },
    {
        match self.command {
            Command::Install { overwrite, ask, profile, .. } => Task::Install(
                Dotman::new(loaded.with_overwrite(overwrite).with_ask(ask).with_profile(profile)),
            ),
            Command::Validate { .. } => Task::Validate,
            Command::Show { .. } => Task::Show(loaded),
            Command::Remove { profile, .. } => Task::Remove(
                Dotman::new(loaded.with_profile(profile)),
            ),
            Command::Status { profile, .. } => Task::Status(
                Dotman::new(loaded.with_profile(profile)),
            ),
        }
    }
}

} // verus!

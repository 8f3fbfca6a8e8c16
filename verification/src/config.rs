//! The configuration schema and its evaluator: shells and commands, conditions
//! with their four gates, links, actions and the profile filter.

use vstd::prelude::*;
use crate::text::{contains_text, owned, same_text, texts};

pub use crate::OperatingSystem;
pub use crate::error::DotmanConfigError;

verus! {

/// The interpreters a command can be handed to.
#[derive(Debug, Clone, Copy, PartialEq, Eq, Structural)]
pub enum Shell {
    Sh,
    Bash,
    Zsh,
    Fish,
}

impl Default for Shell {
    fn default() -> (shell: Shell)
        ensures
            shell == Shell::Sh,
    {
        Shell::Sh
    }
}

impl Shell {
    /// The program name of the interpreter.
    pub open spec fn name(self) -> Seq<char> {
        match self {
            Shell::Sh => "sh"@,
            Shell::Bash => "bash"@,
            Shell::Zsh => "zsh"@,
            Shell::Fish => "fish"@,
        }
    }

    /// The program name of the interpreter.
    pub fn as_str(&self) -> (name: &'static str)
        ensures
            name@ == self.name(),
    {
        match self {
            Shell::Sh => "sh",
            Shell::Bash => "bash",
            Shell::Zsh => "zsh",
            Shell::Fish => "fish",
        }
    }
}

/// A shell invocation as a value: the interpreter and the text handed to it.
pub struct RunCommandView {
    pub shell: Shell,
    pub command: Seq<char>,
}

/// A shell invocation, used as a condition probe and as the body of an action.
/// A bare string runs under `sh`; the record form may name another shell.
#[derive(Debug, Clone, PartialEq, Eq)]
pub enum RunCommand {
    Simple(String),
    Complex { command: String, shell: Option<Shell> },
}

impl View for RunCommand {
    type V = RunCommandView;

    open spec fn view(&self) -> RunCommandView {
        match *self {
            RunCommand::Simple(text) => RunCommandView { shell: Shell::Sh, command: text@ },
            RunCommand::Complex { command, shell } => RunCommandView {
                shell: match shell {
                    Some(s) => s,
                    None => Shell::Sh,
                },
                command: command@,
            },
        }
    }
}

/// What became of running a command, as the driver reports it.
#[derive(Debug, Clone, PartialEq, Eq)]
pub enum Execution {
    /// The command ran to its end.
    Exited { success: bool, stdout: String, stderr: String },
    /// The command could not be run at all; the text says why.
    Failed(String),
}

/// The mathematical value of an [`Execution`]: its texts as sequences of characters.
pub enum ExecutionView {
    Exited { success: bool, stdout: Seq<char>, stderr: Seq<char> },
    Failed(Seq<char>),
}

impl View for Execution {
    type V = ExecutionView;

    open spec fn view(&self) -> ExecutionView {
        match *self {
            Execution::Exited { success, stdout, stderr } => ExecutionView::Exited {
                success,
                stdout: stdout@,
                stderr: stderr@,
            },
            Execution::Failed(why) => ExecutionView::Failed(why@),
        }
    }
}

impl ExecutionView {
    /// A probe counts as passed only if the command ran and exited with success.
    pub open spec fn succeeded(self) -> bool {
        self matches ExecutionView::Exited { success, .. } && success
    }
}

impl RunCommand {
    /// The interpreter the command runs under.
    pub fn shell(&self) -> (shell: Shell)
        ensures
            shell == self@.shell,
    {
        match self {
            RunCommand::Simple(_) => Shell::Sh,
            RunCommand::Complex { shell, .. } => match shell {
                Some(s) => *s,
                None => Shell::Sh,
            },
        }
    }

    /// The text handed to the interpreter.
    pub fn command(&self) -> (text: &str)
        ensures
            text@ == self@.command,
    {
        match self {
            RunCommand::Simple(text) => text.as_str(),
            RunCommand::Complex { command, .. } => command.as_str(),
        }
    }

    /// The argument vector that runs the command: the interpreter, `-c`, the text.
    pub fn argv(&self) -> (argv: Vec<String>)
        ensures
            texts(argv@) == seq![self@.shell.name(), "-c"@, self@.command],
    {
        let mut argv: Vec<String> = Vec::new();
        argv.push(owned(self.shell().as_str()));
        argv.push(owned("-c"));
        argv.push(owned(self.command()));
        assert(texts(argv@) =~= seq![self@.shell.name(), "-c"@, self@.command]);
        argv
    }

    /// Whether an execution of this command counts as a passed probe: it ran
    /// and exited with success. A command that could not be run has failed.
    pub fn is_successful(&self, execution: &Execution) -> (passed: bool)
        ensures
            passed == execution@.succeeded(),
    {
        match execution {
            Execution::Exited { success, .. } => *success,
            Execution::Failed(_) => false,
        }
    }
}


/// A matcher for host names: one name, or a list of names any of which matches.
#[derive(Debug, Clone, PartialEq, Eq)]
pub enum Hostname {
    Single(String),
    Many(Vec<String>),
}

impl View for Hostname {
    type V = Seq<Seq<char>>;

    /// The names that match, in order.
    open spec fn view(&self) -> Seq<Seq<char>> {
        match *self {
            Hostname::Single(name) => seq![name@],
            Hostname::Many(names) => texts(names@),
        }
    }
}

impl Hostname {
    /// Whether the matcher accepts `name`. The comparison is exact.
    pub fn matches(&self, name: &str) -> (hit: bool)
        ensures
            hit == self@.contains(name@),
    {
        match self {
            Hostname::Single(only) => {
                let hit = same_text(only.as_str(), name);
                proof {
                    let names = seq![only@];
                    if hit {
                        assert(names[0] == name@);
                    }
                }
                hit
            },
            Hostname::Many(names) => contains_text(names, name),
        }
    }
}

/// What the driver found out for one condition: how the probe command fared,
/// if one was run, and for each path of `file_exists`, in order, whether the
/// tilde-expanded path exists.
#[derive(Debug, Clone, PartialEq, Eq)]
pub struct Findings {
    pub run: Option<Execution>,
    pub files: Vec<bool>,
}

/// The mathematical value of a [`Findings`]: its texts as sequences of characters.
pub struct FindingsView {
    pub run: Option<ExecutionView>,
    pub files: Seq<bool>,
}

impl View for Findings {
    type V = FindingsView;

    open spec fn view(&self) -> FindingsView {
        FindingsView {
            run: match self.run {
                Some(e) => Some(e@),
                None => None,
            },
            files: self.files@,
        }
    }
}

impl Default for Findings {
    /// Nothing was looked at: enough for a condition with no probe and no paths.
    fn default() -> (findings: Findings)
        ensures
            findings@ == (FindingsView { run: None, files: Seq::empty() }),
    {
        Findings { run: None, files: Vec::new() }
    }
}

/// A condition on the host. Each field is optional, and an absent or empty
/// one holds vacuously.
#[derive(Debug, Clone, PartialEq, Eq)]
pub struct Condition {
    pub os: Vec<OperatingSystem>,
    pub hostname: Option<Hostname>,
    pub run: Option<RunCommand>,
    pub file_exists: Vec<String>,
}

/// The mathematical value of a [`Condition`]: its texts as sequences of characters.
pub struct ConditionView {
    pub os: Seq<OperatingSystem>,
    pub hostname: Option<Seq<Seq<char>>>,
    pub run: Option<RunCommandView>,
    pub file_exists: Seq<Seq<char>>,
}

impl View for Condition {
    type V = ConditionView;

    open spec fn view(&self) -> ConditionView {
        ConditionView {
            os: self.os@,
            hostname: match self.hostname {
                Some(h) => Some(h@),
                None => None,
            },
            run: match self.run {
                Some(r) => Some(r@),
                None => None,
            },
            file_exists: texts(self.file_exists@),
        }
    }
}

impl Default for Condition {
    /// The condition that holds on every host.
    fn default() -> (condition: Condition)
        ensures
            condition@ == (ConditionView {
                os: Seq::empty(),
                hostname: None,
                run: None,
                file_exists: Seq::empty(),
            }),
    {
        let condition = Condition {
            os: Vec::new(),
            hostname: None,
            run: None,
            file_exists: Vec::new(),
        };
        assert(texts(condition.file_exists@) =~= Seq::<Seq<char>>::empty());
        condition
    }
}

impl ConditionView {
    /// The list of systems is empty or names the host's.
    pub open spec fn os_gate(self, os: OperatingSystem) -> bool {
        self.os.len() == 0 || self.os.contains(os)
    }

    /// There is no matcher, or the host has a name and the matcher accepts it.
    /// A host without a name fails every matcher.
    pub open spec fn hostname_gate(self, hostname: Option<Seq<char>>) -> bool {
        match self.hostname {
            None => true,
            Some(names) => hostname is Some && names.contains(hostname->0),
        }
    }

    /// There is no probe command, or it was run and passed.
    pub open spec fn command_gate(self, findings: FindingsView) -> bool {
        self.run is None || (findings.run is Some && findings.run->0.succeeded())
    }

    /// The `i`-th listed path can be tilde-expanded and was found to exist.
    pub open spec fn file_found(self, i: int, home: Option<Seq<char>>, findings: FindingsView) -> bool {
        &&& crate::utils::expanded(self.file_exists[i], home) is Some
        &&& i < findings.files.len()
        &&& findings.files[i]
    }

    /// Every listed path was found.
    pub open spec fn file_gate(self, home: Option<Seq<char>>, findings: FindingsView) -> bool {
        forall|i: int| 0 <= i < self.file_exists.len() ==> self.file_found(i, home, findings)
    }

    /// The condition holds when all four gates do.
    pub open spec fn holds(
        self,
        os: OperatingSystem,
        hostname: Option<Seq<char>>,
        home: Option<Seq<char>>,
        findings: FindingsView,
    ) -> bool {
        &&& self.os_gate(os)
        &&& self.hostname_gate(hostname)
        &&& self.command_gate(findings)
        &&& self.file_gate(home, findings)
    }
}

impl Condition {
    fn os_is_met(&self, os: &OperatingSystem) -> (met: bool)
        ensures
            met == self@.os_gate(*os),
    {
        if self.os.len() == 0 {
            return true;
        }
        let mut i: usize = 0;
        while i < self.os.len()
            invariant
                i <= self.os.len(),
                forall|j: int| 0 <= j < i ==> self.os@[j] != *os,
            decreases self.os.len() - i,
        {
            if self.os[i] == *os {
                return true;
            }
            i += 1;
        }
        false
    }

    fn hostname_is_met(&self, hostname: Option<&str>) -> (met: bool)
        ensures
            met == self@.hostname_gate(crate::utils::opt_text(hostname)),
    {
        match &self.hostname {
            None => true,
            Some(matcher) => match hostname {
                None => false,
                Some(name) => matcher.matches(name),
            },
        }
    }

    fn command_is_met(&self, findings: &Findings) -> (met: bool)
        ensures
            met == self@.command_gate(findings@),
    {
        match &self.run {
            None => true,
            Some(probe) => match &findings.run {
                None => false,
                Some(execution) => probe.is_successful(execution),
            },
        }
    }

    fn files_are_met(&self, home: Option<&str>, findings: &Findings) -> (met: bool)
        ensures
            met == self@.file_gate(crate::utils::opt_text(home), findings@),
    {
        let mut i: usize = 0;
        while i < self.file_exists.len()
            invariant
                i <= self.file_exists.len(),
                forall|j: int|
                    0 <= j < i ==> self@.file_found(j, crate::utils::opt_text(home), findings@),
            decreases self.file_exists.len() - i,
        {
            let expandable = home.is_some() || !crate::utils::starts_with_tilde(
                self.file_exists[i].as_str(),
            );
            let found = expandable && i < findings.files.len() && findings.files[i];
            if !found {
                assert(!self@.file_found(i as int, crate::utils::opt_text(home), findings@));
                return false;
            }
            i += 1;
        }
        true
    }

    /// Evaluates the condition on a host with the given system, name and home
    /// directory, using what the driver found out for it.
    pub fn is_met(
        &self,
        os: &OperatingSystem,
        hostname: Option<&str>,
        home: Option<&str>,
        findings: &Findings,
    ) -> (met: bool)
        ensures
            met == self@.holds(
                *os,
                crate::utils::opt_text(hostname),
                crate::utils::opt_text(home),
                findings@,
            ),
    {
        let os_is_met = self.os_is_met(os);
        let hostname_is_met = self.hostname_is_met(hostname);
        let command_is_met = self.command_is_met(findings);
        let files_are_met = self.files_are_met(home, findings);
        os_is_met && hostname_is_met && command_is_met && files_are_met
    }
}

/// What the driver found out for the two conditions of one entry.
#[derive(Debug, Clone, PartialEq, Eq)]
pub struct PairFindings {
    pub if_cond: Findings,
    pub if_not_cond: Findings,
}

/// The mathematical value of a [`PairFindings`]: its texts as sequences of characters.
pub struct PairFindingsView {
    pub if_cond: FindingsView,
    pub if_not_cond: FindingsView,
}

impl View for PairFindings {
    type V = PairFindingsView;

    open spec fn view(&self) -> PairFindingsView {
        PairFindingsView { if_cond: self.if_cond@, if_not_cond: self.if_not_cond@ }
    }
}

/// The view of an optional condition.
pub open spec fn opt_condition(condition: Option<Condition>) -> Option<ConditionView> {
    match condition {
        Some(c) => Some(c@),
        None => None,
    }
}

/// The pair of gates of an entry: `if` is absent or holds, and `if-not` is
/// absent or does not hold.
pub open spec fn pair_holds(
    if_cond: Option<ConditionView>,
    if_not_cond: Option<ConditionView>,
    os: OperatingSystem,
    hostname: Option<Seq<char>>,
    home: Option<Seq<char>>,
    findings: PairFindingsView,
) -> bool {
    &&& if_cond matches Some(c) ==> c.holds(os, hostname, home, findings.if_cond)
    &&& if_not_cond matches Some(c) ==> !c.holds(os, hostname, home, findings.if_not_cond)
}

/// Evaluates the `if` and `if-not` conditions of an entry.
pub fn condition_is_met(
    if_cond: &Option<Condition>,
    if_not_cond: &Option<Condition>,
    os: &OperatingSystem,
    hostname: Option<&str>,
    home: Option<&str>,
    findings: &PairFindings,
) -> (met: bool)
    ensures
        met == pair_holds(
            opt_condition(*if_cond),
            opt_condition(*if_not_cond),
            *os,
            crate::utils::opt_text(hostname),
            crate::utils::opt_text(home),
            findings@,
        ),
{
    let if_is_met = match if_cond {
        None => true,
        Some(cond) => cond.is_met(os, hostname, home, &findings.if_cond),
    };
    let if_not_is_met = match if_not_cond {
        None => true,
        Some(cond) => !cond.is_met(os, hostname, home, &findings.if_not_cond),
    };
    if_is_met && if_not_is_met
}

/// A pair with only an `if` condition holds exactly when that condition does.
pub proof fn lemma_pair_with_if_only(
    condition: ConditionView,
    os: OperatingSystem,
    hostname: Option<Seq<char>>,
    home: Option<Seq<char>>,
    findings: PairFindingsView,
)
    ensures
        pair_holds(Some(condition), None, os, hostname, home, findings) == condition.holds(
            os,
            hostname,
            home,
            findings.if_cond,
        ),
{
}

/// A pair with only an `if-not` condition holds exactly when that condition
/// does not.
pub proof fn lemma_pair_with_if_not_only(
    condition: ConditionView,
    os: OperatingSystem,
    hostname: Option<Seq<char>>,
    home: Option<Seq<char>>,
    findings: PairFindingsView,
)
    ensures
        pair_holds(None, Some(condition), os, hostname, home, findings) == !condition.holds(
            os,
            hostname,
            home,
            findings.if_not_cond,
        ),
{
}

/// The profile filter: an entry without profiles is always active; one with
/// profiles is active when a profile is selected and is among them.
pub open spec fn active(profiles: Seq<Seq<char>>, selected: Option<Seq<char>>) -> bool {
    profiles.len() == 0 || (selected is Some && profiles.contains(selected->0))
}

/// Applies the profile filter to one entry's profiles.
pub fn is_active(profiles: &Vec<String>, selected: Option<&str>) -> (yes: bool)
    ensures
        yes == active(texts(profiles@), crate::utils::opt_text(selected)),
{
    if profiles.len() == 0 {
        return true;
    }
    match selected {
        None => false,
        Some(profile) => contains_text(profiles, profile),
    }
}

/// A symbolic link to create: `target` is the path of the link, `source` the
/// path it points to. Both may start with `~`.
#[derive(Debug, Clone, PartialEq, Eq)]
pub struct Link {
    pub target: String,
    pub source: String,
    pub if_cond: Option<Condition>,
    pub if_not_cond: Option<Condition>,
    pub profiles: Vec<String>,
}

/// The mathematical value of a [`Link`]: its texts as sequences of characters.
pub struct LinkView {
    pub target: Seq<char>,
    pub source: Seq<char>,
    pub if_cond: Option<ConditionView>,
    pub if_not_cond: Option<ConditionView>,
    pub profiles: Seq<Seq<char>>,
}

impl View for Link {
    type V = LinkView;

    open spec fn view(&self) -> LinkView {
        LinkView {
            target: self.target@,
            source: self.source@,
            if_cond: opt_condition(self.if_cond),
            if_not_cond: opt_condition(self.if_not_cond),
            profiles: texts(self.profiles@),
        }
    }
}

impl LinkView {
    /// The link's conditions hold.
    pub open spec fn holds(
        self,
        os: OperatingSystem,
        hostname: Option<Seq<char>>,
        home: Option<Seq<char>>,
        findings: PairFindingsView,
    ) -> bool {
        pair_holds(self.if_cond, self.if_not_cond, os, hostname, home, findings)
    }

    /// The link passes the profile filter.
    pub open spec fn active(self, selected: Option<Seq<char>>) -> bool {
        active(self.profiles, selected)
    }
}

impl Link {
    /// Evaluates the link's conditions.
    pub fn is_met(
        &self,
        os: &OperatingSystem,
        hostname: Option<&str>,
        home: Option<&str>,
        findings: &PairFindings,
    ) -> (met: bool)
        ensures
            met == self@.holds(
                *os,
                crate::utils::opt_text(hostname),
                crate::utils::opt_text(home),
                findings@,
            ),
    {
        condition_is_met(&self.if_cond, &self.if_not_cond, os, hostname, home, findings)
    }

    /// Whether the link passes the profile filter.
    pub fn is_active(&self, selected: Option<&str>) -> (yes: bool)
        ensures
            yes == self@.active(crate::utils::opt_text(selected)),
    {
        is_active(&self.profiles, selected)
    }
}

/// A side effect to perform during install. The one kind is a shell command.
#[derive(Debug, Clone, PartialEq, Eq)]
pub enum Action {
    ShellCommand {
        name: String,
        run: RunCommand,
        if_cond: Option<Condition>,
        if_not_cond: Option<Condition>,
        profiles: Vec<String>,
    },
}

/// The mathematical value of an [`Action`]: its texts as sequences of characters.
pub struct ActionView {
    pub name: Seq<char>,
    pub run: RunCommandView,
    pub if_cond: Option<ConditionView>,
    pub if_not_cond: Option<ConditionView>,
    pub profiles: Seq<Seq<char>>,
}

impl View for Action {
    type V = ActionView;

    open spec fn view(&self) -> ActionView {
        match *self {
            Action::ShellCommand { name, run, if_cond, if_not_cond, profiles } => ActionView {
                name: name@,
                run: run@,
                if_cond: opt_condition(if_cond),
                if_not_cond: opt_condition(if_not_cond),
                profiles: texts(profiles@),
            },
        }
    }
}

impl ActionView {
    /// The action's conditions hold.
    pub open spec fn holds(
        self,
        os: OperatingSystem,
        hostname: Option<Seq<char>>,
        home: Option<Seq<char>>,
        findings: PairFindingsView,
    ) -> bool {
        pair_holds(self.if_cond, self.if_not_cond, os, hostname, home, findings)
    }

    /// The action passes the profile filter.
    pub open spec fn active(self, selected: Option<Seq<char>>) -> bool {
        active(self.profiles, selected)
    }
}

impl Action {
    /// Evaluates the action's conditions.
    pub fn is_met(
        &self,
        os: &OperatingSystem,
        hostname: Option<&str>,
        home: Option<&str>,
        findings: &PairFindings,
    ) -> (met: bool)
        ensures
            met == self@.holds(
                *os,
                crate::utils::opt_text(hostname),
                crate::utils::opt_text(home),
                findings@,
            ),
    {
        match self {
            Action::ShellCommand { if_cond, if_not_cond, .. } => condition_is_met(
                if_cond,
                if_not_cond,
                os,
                hostname,
                home,
                findings,
            ),
        }
    }

    /// Whether the action passes the profile filter.
    pub fn is_active(&self, selected: Option<&str>) -> (yes: bool)
        ensures
            yes == self@.active(crate::utils::opt_text(selected)),
    {
        match self {
            Action::ShellCommand { profiles, .. } => is_active(profiles, selected),
        }
    }

    /// The action's name.
    pub fn name(&self) -> (name: &str)
        ensures
            name@ == self@.name,
    {
        match self {
            Action::ShellCommand { name, .. } => name.as_str(),
        }
    }

    /// The command the action runs.
    pub fn run(&self) -> (run: &RunCommand)
        ensures
            run@ == self@.run,
    {
        match self {
            Action::ShellCommand { run, .. } => run,
        }
    }
}

/// The views of a list of links, in order.
pub open spec fn link_views(links: Seq<Link>) -> Seq<LinkView> {
    Seq::new(links.len(), |i: int| links[i]@)
}

/// The views of a list of actions, in order.
pub open spec fn action_views(actions: Seq<Action>) -> Seq<ActionView> {
    Seq::new(actions.len(), |i: int| actions[i]@)
}

/// A configuration: the declared links and actions, and the policies of a run.
/// `ask` and `selected_profile` are never read from a file; the front end
/// sets them.
#[derive(Debug, Clone, PartialEq, Eq)]
pub struct DotmanConfig {
    pub config_path: String,
    pub links: Vec<Link>,
    pub actions: Vec<Action>,
    pub overwrite: bool,
    pub ask: bool,
    pub selected_profile: Option<String>,
}

/// The mathematical value of a [`DotmanConfig`]: its texts as sequences of characters.
pub struct DotmanConfigView {
    pub config_path: Seq<char>,
    pub links: Seq<LinkView>,
    pub actions: Seq<ActionView>,
    pub overwrite: bool,
    pub ask: bool,
    pub selected_profile: Option<Seq<char>>,
}

impl View for DotmanConfig {
    type V = DotmanConfigView;

    open spec fn view(&self) -> DotmanConfigView {
        DotmanConfigView {
            config_path: self.config_path@,
            links: link_views(self.links@),
            actions: action_views(self.actions@),
            overwrite: self.overwrite,
            ask: self.ask,
            selected_profile: match self.selected_profile {
                Some(p) => Some(p@),
                None => None,
            },
        }
    }
}

fn default_false() -> (flag: bool)
    ensures
        !flag,
{
    false
}

fn base_config_path() -> (path: String)
    ensures
        path@ == "dotman.toml"@,
{
    owned("dotman.toml")
}

impl Default for DotmanConfig {
    /// The configuration an empty file stands for.
    fn default() -> (config: DotmanConfig)
        ensures
            config@ == (DotmanConfigView {
                config_path: "dotman.toml"@,
                links: Seq::empty(),
                actions: Seq::empty(),
                overwrite: false,
                ask: false,
                selected_profile: None,
            }),
    {
        let config = DotmanConfig {
            config_path: base_config_path(),
            links: Vec::new(),
            actions: Vec::new(),
            overwrite: default_false(),
            ask: default_false(),
            selected_profile: None,
        };
        assert(link_views(config.links@) =~= Seq::<LinkView>::empty());
        assert(action_views(config.actions@) =~= Seq::<ActionView>::empty());
        config
    }
}

impl DotmanConfig {
    /// Sets the overwrite policy.
    pub fn with_overwrite(self, overwrite: bool) -> (config: DotmanConfig)
        ensures
            config@ == (DotmanConfigView { overwrite, ..self@ }),
    {
        DotmanConfig {
            config_path: self.config_path,
            links: self.links,
            actions: self.actions,
            overwrite,
            ask: self.ask,
            selected_profile: self.selected_profile,
        }
    }

    /// Sets whether each link is confirmed on the terminal before it is made.
    pub fn with_ask(self, ask: bool) -> (config: DotmanConfig)
        ensures
            config@ == (DotmanConfigView { ask, ..self@ }),
    {
        DotmanConfig {
            config_path: self.config_path,
            links: self.links,
            actions: self.actions,
            overwrite: self.overwrite,
            ask,
            selected_profile: self.selected_profile,
        }
    }

    /// Selects a profile, or none.
    pub fn with_profile(self, profile: Option<String>) -> (config: DotmanConfig)
        ensures
            config@ == (DotmanConfigView {
                selected_profile: match profile {
                    Some(p) => Some(p@),
                    None => None,
                },
                ..self@
            }),
    {
        DotmanConfig {
            config_path: self.config_path,
            links: self.links,
            actions: self.actions,
            overwrite: self.overwrite,
            ask: self.ask,
            selected_profile: profile,
        }
    }
}

} // verus!

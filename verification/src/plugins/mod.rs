//! The cache plugins and the engine that runs them. A plugin whose
//! application is running gets the gentle cleaning, any other the aggressive
//! one.
//!
//! A cleaning is a short dialogue with the system: the plugin asks for a
//! binary to be looked up or a command to be run, and is told the answer,
//! until it reports how the cleaning ended. A dry run holds the same
//! dialogue but prints each command in place of running it, and goes on as
//! if it had succeeded. Pacman's cache is left alone while pacman updates.

use vstd::prelude::*;
use vstd::pervasive::arbitrary;
use crate::config::KazeConfig;
use crate::detector::ProcInfo;
use crate::executor::{result_view, ExecCommand, ExecError};
use crate::text::{concat2, concat3, owned, views};

pub mod docker;
pub mod node;
pub mod pacman;

pub use docker::DockerPlugin;
pub use node::NodePlugin;

pub use pacman::PacmanPlugin;

verus! {

/// The two strengths of cleaning.
#[derive(Clone, Copy, PartialEq, Eq, Structural)]
pub enum CleanMode {
    /// For an application that is not running: frees as much as it can.
    Aggressive,
    /// For an application that is running: frees only what is safe.
    Gentle,
}

/// The cleaning mode for an application that is running or not.
pub open spec fn mode_for(active: bool) -> CleanMode {
    if active {
        CleanMode::Gentle
    } else {
        CleanMode::Aggressive
    }
}

/// The next move of a cleaning.
pub enum CleanStep {
    /// Look up whether `binary` is installed, and answer with `after_check`.
    CheckBinary { ticket: usize, binary: String },
    /// Run `command`, and answer with `after_run`.
    Run { ticket: usize, command: ExecCommand },
    /// On a dry run, in place of running a command: print `line`, and
    /// answer with `after_print`.
    Print { ticket: usize, line: String },
    /// The cleaning ended so.
    Done(Result<(), String>),
}

/// The view of a cleaning step.
pub enum StepView {
    CheckBinary(usize, Seq<char>),
    Run(usize, Seq<char>, u64),
    Print(usize, Seq<char>),
    Done(Result<(), Seq<char>>),
}

impl View for CleanStep {
    type V = StepView;

    open spec fn view(&self) -> StepView {
        match self {
            CleanStep::CheckBinary { ticket, binary } => StepView::CheckBinary(*ticket, binary@),
            CleanStep::Run { ticket, command } => StepView::Run(
                *ticket,
                command.command@,
                command.timeout_secs,
            ),
            CleanStep::Print { ticket, line } => StepView::Print(*ticket, line@),
            CleanStep::Done(r) => StepView::Done(result_view(*r)),
        }
    }
}

/// What every cache plugin offers.
pub trait CachePlugin {
    /// The plugin's name (for example `pacman`).
    fn name(&self) -> &'static str;

    /// Whether the application whose cache the plugin cleans is in use, by a
    /// snapshot of the running processes and pacman's database lock.
    fn is_active(&self, procs: &Vec<ProcInfo>, pacman_locked: bool) -> bool;

    /// The commands an aggressive cleaning runs when every binary it looks
    /// up is installed and every command succeeds.
    fn dry_run_commands(&self) -> Vec<String>;
}


/// One of Kaze's cache plugins.
pub enum Plugin {
    Pacman(PacmanPlugin),
    Node(NodePlugin),
    Docker(DockerPlugin),
}

/// What to do with a plugin on a run.
#[derive(PartialEq, Eq, Structural)]
pub enum Plan {
    /// Leave the cache alone: pacman is updating and holds its lock.
    Skip,
    /// Clean (or, on a dry run, preview the cleaning) in this mode.
    Clean(CleanMode),
}

/// A desktop notification to send.
pub struct Notice {
    pub title: String,
    pub message: String,
    /// The urgency's label, as `notifier::urgency_from_label` reads it.
    pub urgency: String,
}

/// The line a dry run prints for a command of the named plugin.
pub open spec fn preview_line(name: Seq<char>, command: Seq<char>) -> Seq<char> {
    "[DRY-RUN "@ + name + "] "@ + command
}

/// The title of the notification about a failed cleaning.
pub open spec fn failure_title(name: Seq<char>) -> Seq<char> {
    "Kaze - Erro no "@ + name
}

impl Plugin {
    pub open spec fn name_spec(&self) -> Seq<char> {
        match self {
            Plugin::Pacman(_) => "pacman"@,
            Plugin::Node(_) => "node"@,
            Plugin::Docker(_) => "container"@,
        }
    }

    pub open spec fn active_spec(&self, procs: Seq<ProcInfo>, pacman_locked: bool) -> bool {
        match self {
            Plugin::Pacman(_) => PacmanPlugin::active_spec(procs, pacman_locked),
            Plugin::Node(_) => NodePlugin::active_spec(procs),
            Plugin::Docker(_) => DockerPlugin::active_spec(procs),
        }
    }

    pub open spec fn dry_run_spec(&self) -> Seq<Seq<char>> {
        match self {
            Plugin::Pacman(p) => p.dry_run_spec(),
            Plugin::Node(p) => p.dry_run_spec(),
            Plugin::Docker(p) => p.dry_run_spec(),
        }
    }

    /// Pacman's cache is left alone while pacman holds its lock (an update
    /// is under way); otherwise the cleaning is gentle when the application
    /// is in use, aggressive when not.
    pub open spec fn plan_spec(&self, active: bool, pacman_locked: bool) -> Plan {
        if self is Pacman && pacman_locked {
            Plan::Skip
        } else {
            Plan::Clean(mode_for(active))
        }
    }

    /// On a dry run a step that would run a command prints its preview line
    /// instead; every other step is the same as on a real run.
    pub open spec fn as_dry(&self, v: StepView) -> StepView {
        match v {
            StepView::Run(t, c, _) => StepView::Print(t, preview_line(self.name_spec(), c)),
            _ => v,
        }
    }

    /// A step as the run (dry or real) sees it.
    pub open spec fn for_run(&self, dry_run: bool, v: StepView) -> StepView {
        if dry_run {
            self.as_dry(v)
        } else {
            v
        }
    }

    pub open spec fn start_spec(&self, mode: CleanMode) -> StepView {
        match self {
            Plugin::Pacman(p) => p.start_spec(mode),
            Plugin::Node(p) => p.start_spec(mode),
            Plugin::Docker(p) => p.start_spec(mode),
        }
    }

    pub open spec fn after_check_spec(&self, mode: CleanMode, ticket: usize, found: bool) -> StepView {
        match self {
            Plugin::Node(p) => p.after_check_spec(mode, ticket, found),
            _ => StepView::Done(Ok(())),
        }
    }

    pub open spec fn after_run_spec(
        &self,
        mode: CleanMode,
        ticket: usize,
        outcome: Result<String, ExecError>,
    ) -> StepView {
        match self {
            Plugin::Pacman(p) => p.after_run_spec(outcome),
            Plugin::Node(p) => p.after_run_spec(mode, ticket, outcome),
            Plugin::Docker(p) => p.after_run_spec(outcome),
        }
    }

    /// The step after the command of `ticket` succeeded: what a dry run
    /// assumes of every command it previews.
    pub open spec fn after_success_spec(&self, mode: CleanMode, ticket: usize) -> StepView {
        self.after_run_spec(mode, ticket, Ok(arbitrary()))
    }

    /// What to do with the plugin on a run.
    pub fn plan(&self, active: bool, pacman_locked: bool) -> (r: Plan)
        ensures
            r == self.plan_spec(active, pacman_locked),
    {
        let locked_pacman = match self {
            Plugin::Pacman(_) => pacman_locked,
            _ => false,
        };
        if locked_pacman {
            Plan::Skip
        } else if active {
            Plan::Clean(CleanMode::Gentle)
        } else {
            Plan::Clean(CleanMode::Aggressive)
        }
    }

    /// The step as a dry or real run sees it.
    fn for_run_step(&self, dry_run: bool, step: CleanStep) -> (r: CleanStep)
        ensures
            r@ == self.for_run(dry_run, step@),
    {
        if !dry_run {
            return step;
        }
        match step {
            CleanStep::Run { ticket, command } => {
                let head = concat3("[DRY-RUN ", self.name(), "] ");
                let line = concat2(head.as_str(), command.command.as_str());
                CleanStep::Print { ticket, line }
            },
            other => other,
        }
    }

    /// The first step of a cleaning in this mode; on a dry run, commands are
    /// printed instead of run.
    pub fn clean_start(&self, mode: CleanMode, dry_run: bool) -> (r: CleanStep)
        ensures
            r@ == self.for_run(dry_run, self.start_spec(mode)),
    {
        let step = match self {
            Plugin::Pacman(p) => p.clean_start(mode),
            Plugin::Node(p) => p.clean_start(mode),
            Plugin::Docker(p) => p.clean_start(mode),
        };
        self.for_run_step(dry_run, step)
    }

    /// The step after the lookup for `ticket` found the binary or not. Only
    /// the Node plugin looks binaries up.
    pub fn after_check(&self, mode: CleanMode, dry_run: bool, ticket: usize, found: bool) -> (r:
        CleanStep)
        requires
            self is Node,
        ensures
            r@ == self.for_run(dry_run, self.after_check_spec(mode, ticket, found)),
    {
        let step = match self {
            Plugin::Node(p) => p.after_check(mode, ticket, found),
            Plugin::Pacman(_) => CleanStep::Done(Ok(())),
            Plugin::Docker(_) => CleanStep::Done(Ok(())),
        };
        self.for_run_step(dry_run, step)
    }

    /// The step after the command for `ticket` ran (a real run).
    pub fn after_run(&self, mode: CleanMode, ticket: usize, outcome: Result<String, ExecError>) -> (r:
        CleanStep)
        ensures
            r@ == self.after_run_spec(mode, ticket, outcome),
    {
        match self {
            Plugin::Pacman(p) => p.after_run(outcome),
            Plugin::Node(p) => p.after_run(mode, ticket, outcome),
            Plugin::Docker(p) => p.after_run(outcome),
        }
    }

    /// The step after the preview line of `ticket` was printed (a dry run):
    /// the dry run goes on as the real one would after the command
    /// succeeded.
    pub fn after_print(&self, mode: CleanMode, ticket: usize) -> (r: CleanStep)
        ensures
            r@ == self.as_dry(self.after_success_spec(mode, ticket)),
    {
        let empty = String::new();
        let ghost out = empty;
        let step = self.after_run(mode, ticket, Ok(empty));
        proof {
            let e: String = arbitrary();
            assert(self.after_run_spec(mode, ticket, Ok(out)) == self.after_run_spec(
                mode,
                ticket,
                Ok(e),
            ));
        }
        self.for_run_step(true, step)
    }

    /// The command that measures the cache: pacman's, and Node's when the
    /// home directory is known and holds no whitespace; none for containers,
    /// whose cache is counted as empty.
    pub fn space_probe(&self, home: &str) -> (r: Option<ExecCommand>)
        ensures
            match self {
                Plugin::Pacman(_) => r matches Some(c) && c.command@ == "paccache -dvk1"@
                    && c.timeout_secs == 10,
                Plugin::Node(_) => match node::npm_cache_probe(home@) {
                    Some(cmd) => r matches Some(c) && c.command@ == cmd && c.timeout_secs == 5,
                    None => r is None,
                },
                Plugin::Docker(_) => r is None,
            },
    {
        match self {
            Plugin::Pacman(p) => Some(p.space_probe()),
            Plugin::Node(p) => p.space_probe(home),
            Plugin::Docker(_) => None,
        }
    }

    /// The notification about how a real cleaning ended: none on success or
    /// on a dry run; on a failed real run a critical one titled with the
    /// plugin's name, whose message is the error.
    pub fn failure_notice(&self, dry_run: bool, result: &Result<(), String>) -> (r: Option<Notice>)
        ensures
            (dry_run || result is Ok) ==> r is None,
            !dry_run ==> (result matches Err(e) ==> (r matches Some(n) && n.title@ == failure_title(
                self.name_spec(),
            ) && n.message@ == e@ && n.urgency@ == "critical"@)),
    {
        if dry_run {
            return None;
        }
        match result {
            Ok(_) => None,
            Err(e) => Some(
                Notice {
                    title: concat2("Kaze - Erro no ", self.name()),
                    message: owned(e.as_str()),
                    urgency: owned("critical"),
                },
            ),
        }
    }
}

impl CachePlugin for Plugin {
    fn name(&self) -> (r: &'static str)
        ensures
            r@ == self.name_spec(),
    {
        match self {
            Plugin::Pacman(p) => p.name(),
            Plugin::Node(p) => p.name(),
            Plugin::Docker(p) => p.name(),
        }
    }

    fn is_active(&self, procs: &Vec<ProcInfo>, pacman_locked: bool) -> (r: bool)
        ensures
            r == self.active_spec(procs@, pacman_locked),
    {
        match self {
            Plugin::Pacman(p) => p.is_active(procs, pacman_locked),
            Plugin::Node(p) => p.is_active(procs, pacman_locked),
            Plugin::Docker(p) => p.is_active(procs, pacman_locked),
        }
    }

    fn dry_run_commands(&self) -> (r: Vec<String>)
        ensures
            views(r@) == self.dry_run_spec(),
    {
        match self {
            Plugin::Pacman(p) => p.dry_run_commands(),
            Plugin::Node(p) => p.dry_run_commands(),
            Plugin::Docker(p) => p.dry_run_commands(),
        }
    }
}

/// Runs the plugins, in the order they were registered.
pub struct PluginEngine {
    plugins: Vec<Plugin>,
}

impl View for PluginEngine {
    type V = Seq<Plugin>;

    closed spec fn view(&self) -> Seq<Plugin> {
        self.plugins@
    }
}

impl PluginEngine {
    /// An engine over these plugins, in this order.
    pub fn new(plugins: Vec<Plugin>) -> (r: Self)
        ensures
            r@ == plugins@,
    {
        PluginEngine { plugins }
    }

    /// Kaze's plugins in their order: pacman, Node, containers. The container
    /// plugin uses the runtime that the lookups of `podman` and `docker` found.
    pub fn with_default_plugins(config: &KazeConfig, podman_found: bool, docker_found: bool) -> (r:
        Self)
        ensures
            r@.len() == 3,
            r@[0] matches Plugin::Pacman(p) && p.settings().same_settings(config),
            r@[1] matches Plugin::Node(p) && p.settings().same_settings(config),
            r@[2] matches Plugin::Docker(p) && p.settings().same_settings(config) && p.runtime()
                == docker::runtime_spec(podman_found, docker_found),
    {
        let mut plugins: Vec<Plugin> = Vec::new();
        plugins.push(Plugin::Pacman(PacmanPlugin::new(config)));
        plugins.push(Plugin::Node(NodePlugin::new(config)));
        plugins.push(Plugin::Docker(DockerPlugin::new(config, podman_found, docker_found)));
        PluginEngine { plugins }
    }

    /// The plugins, in order.
    pub fn plugins(&self) -> (r: &Vec<Plugin>)
        ensures
            r@ == self@,
    {
        &self.plugins
    }
}

} // verus!

//! Cleans pacman's package cache with `paccache`, keeping a configured
//! number of versions of each package.

use vstd::prelude::*;
use crate::config::KazeConfig;
use crate::detector::{is_binary_running, running, ProcInfo};
use crate::executor::{clean_result, to_clean_result, ExecCommand, ExecError};
use crate::plugins::{CachePlugin, CleanMode, CleanStep, StepView};
use crate::text::{concat2, decimal, decimal_text, owned, views};

verus! {

/// The pacman cache plugin.
pub struct PacmanPlugin {
    config: KazeConfig,
}

/// The command that keeps `keep` versions of each cached package.
pub open spec fn paccache_command(keep: u32) -> Seq<char> {
    "paccache -rk"@ + decimal(keep as nat)
}

fn paccache_command_text(keep: u32) -> (r: String)
    ensures
        r@ == paccache_command(keep),
{
    let digits = decimal_text(keep as u64);
    concat2("paccache -rk", digits.as_str())
}

impl PacmanPlugin {
    /// The settings the plugin was made with.
    pub closed spec fn settings(&self) -> KazeConfig {
        self.config
    }

    /// A plugin with a copy of the settings.
    pub fn new(config: &KazeConfig) -> (r: Self)
        ensures
            r.settings().same_settings(config),
    {
        PacmanPlugin { config: config.clone() }
    }

    /// How many versions a cleaning of this mode keeps.
    pub open spec fn keep_for(&self, mode: CleanMode) -> u32 {
        match mode {
            CleanMode::Aggressive => self.settings().plugins.pacman.keep_versions,
            CleanMode::Gentle => self.settings().plugins.pacman.keep_versions_gentle,
        }
    }

    /// The binaries whose running makes pacman active.
    pub open spec fn watched() -> Seq<Seq<char>> {
        seq!["pacman"@, "yay"@, "paru"@]
    }

    /// Pacman, yay or paru runs, or pacman's database is locked.
    pub open spec fn active_spec(procs: Seq<ProcInfo>, pacman_locked: bool) -> bool {
        ||| running(procs, "pacman"@)
        ||| running(procs, "yay"@)
        ||| running(procs, "paru"@)
        ||| pacman_locked
    }

    /// The commands an aggressive cleaning runs when they succeed.
    pub open spec fn dry_run_spec(&self) -> Seq<Seq<char>> {
        seq![paccache_command(self.settings().plugins.pacman.keep_versions)]
    }

    /// A cleaning runs `paccache` once, for two minutes at most.
    pub open spec fn start_spec(&self, mode: CleanMode) -> StepView {
        StepView::Run(0, paccache_command(self.keep_for(mode)), 120)
    }

    /// The cleaning ends with the outcome of `paccache`.
    pub open spec fn after_run_spec(&self, outcome: Result<String, ExecError>) -> StepView {
        StepView::Done(clean_result(outcome))
    }

    /// The first step of a cleaning.
    pub fn clean_start(&self, mode: CleanMode) -> (r: CleanStep)
        ensures
            r@ == self.start_spec(mode),
    {
        let keep = match mode {
            CleanMode::Aggressive => self.config.plugins.pacman.keep_versions,
            CleanMode::Gentle => self.config.plugins.pacman.keep_versions_gentle,
        };
        CleanStep::Run {
            ticket: 0,
            command: ExecCommand { command: paccache_command_text(keep), timeout_secs: 120 },
        }
    }

    /// The step after `paccache` ran.
    pub fn after_run(&self, outcome: Result<String, ExecError>) -> (r: CleanStep)
        ensures
            r@ == self.after_run_spec(outcome),
    {
        CleanStep::Done(to_clean_result(outcome))
    }

    /// The command whose last line tells how much the cache could free.
    pub fn space_probe(&self) -> (r: ExecCommand)
        ensures
            r.command@ == "paccache -dvk1"@,
            r.timeout_secs == 10,
    {
        ExecCommand { command: owned("paccache -dvk1"), timeout_secs: 10 }
    }
}

impl CachePlugin for PacmanPlugin {
    fn name(&self) -> (r: &'static str)
        ensures
            r@ == "pacman"@,
    {
        "pacman"
    }

    fn is_active(&self, procs: &Vec<ProcInfo>, pacman_locked: bool) -> (r: bool)
        ensures
            r == Self::active_spec(procs@, pacman_locked),
    {
        is_binary_running(procs, "pacman") || is_binary_running(procs, "yay")
            || is_binary_running(procs, "paru") || pacman_locked
    }

    fn dry_run_commands(&self) -> (r: Vec<String>)
        ensures
            views(r@) == self.dry_run_spec(),
    {
        let mut v: Vec<String> = Vec::new();
        v.push(paccache_command_text(self.config.plugins.pacman.keep_versions));
        proof {
            assert(views(v@) =~= self.dry_run_spec());
        }
        v
    }
}

} // verus!

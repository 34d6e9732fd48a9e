//! Cleans the caches of the Node package managers named in the settings.
//! The aggressive cleaning goes through them in order; a failure of npm's
//! cleaning ends it, those of pnpm and yarn do not.

use vstd::prelude::*;
use crate::config::KazeConfig;
use crate::detector::{is_binary_running, running, ProcInfo};
use crate::executor::{clean_result, to_clean_result, ExecCommand, ExecError};
use crate::plugins::{CachePlugin, CleanMode, CleanStep, StepView};
use crate::text::{
    concat3, contains_whitespace, first_field, has_ws, owned, parse_first_field_u64, parse_u64_spec,
    same_text, trim, views,
};

verus! {

/// The Node cache plugin.
pub struct NodePlugin {
    config: KazeConfig,
}

/// The command that cleans the cache of a known manager.
pub open spec fn manager_command(manager: Seq<char>) -> Option<Seq<char>> {
    if manager == "npm"@ {
        Some("npm cache clean --force"@)
    } else if manager == "pnpm"@ {
        Some("pnpm store prune"@)
    } else if manager == "yarn"@ {
        Some("yarn cache clean --all"@)
    } else {
        None
    }
}

/// The command that measures npm's cache under the home directory `home`:
/// none when the home directory is unknown (empty) or holds whitespace,
/// which would split it into several arguments.
pub open spec fn npm_cache_probe(home: Seq<char>) -> Option<Seq<char>> {
    if home.len() == 0 || has_ws(home) {
        None
    } else {
        Some("du -sb "@ + home + "/.npm/_cacache"@)
    }
}

/// What a gentle cleaning without npm reports.
pub open spec fn npm_missing_error() -> Seq<char> {
    "npm não está instalado"@
}

fn manager_command_text(manager: &str) -> (r: Option<String>)
    ensures
        match r {
            Some(c) => manager_command(manager@) == Some(c@),
            None => manager_command(manager@) is None,
        },
{
    if same_text(manager, "npm") {
        Some(owned("npm cache clean --force"))
    } else if same_text(manager, "pnpm") {
        Some(owned("pnpm store prune"))
    } else if same_text(manager, "yarn") {
        Some(owned("yarn cache clean --all"))
    } else {
        None
    }
}

impl NodePlugin {
    /// The settings the plugin was made with.
    pub closed spec fn settings(&self) -> KazeConfig {
        self.config
    }

    /// A plugin with a copy of the settings.
    pub fn new(config: &KazeConfig) -> (r: Self)
        ensures
            r.settings().same_settings(config),
    {
        NodePlugin { config: config.clone() }
    }

    /// The configured managers, in order.
    pub open spec fn managers(&self) -> Seq<Seq<char>> {
        views(self.settings().plugins.node.managers@)
    }

    /// Node, npm, pnpm or yarn runs.
    pub open spec fn active_spec(procs: Seq<ProcInfo>) -> bool {
        ||| running(procs, "node"@)
        ||| running(procs, "npm"@)
        ||| running(procs, "pnpm"@)
        ||| running(procs, "yarn"@)
    }

    /// The cleaning commands of the known managers from position `i` on, in
    /// order.
    pub open spec fn known_commands_from(&self, i: int) -> Seq<Seq<char>>
        decreases self.managers().len() - i,
    {
        if i < 0 || i >= self.managers().len() {
            seq![]
        } else {
            match manager_command(self.managers()[i]) {
                Some(c) => seq![c] + self.known_commands_from(i + 1),
                None => self.known_commands_from(i + 1),
            }
        }
    }

    /// The commands an aggressive cleaning runs when every manager is
    /// installed and every command succeeds: those of the known managers.
    pub open spec fn dry_run_spec(&self) -> Seq<Seq<char>> {
        self.known_commands_from(0)
    }

    /// In the aggressive cleaning, the step that looks at the manager at
    /// position `i`, or the end when all have been looked at.
    pub open spec fn next_manager_spec(&self, i: int) -> StepView {
        if 0 <= i < self.managers().len() {
            StepView::CheckBinary(i as usize, self.managers()[i])
        } else {
            StepView::Done(Ok(()))
        }
    }

    /// The aggressive cleaning starts with the first manager; the gentle one
    /// by looking up npm.
    pub open spec fn start_spec(&self, mode: CleanMode) -> StepView {
        match mode {
            CleanMode::Aggressive => self.next_manager_spec(0),
            CleanMode::Gentle => StepView::CheckBinary(0, "npm"@),
        }
    }

    /// After a lookup. Gentle: without npm the cleaning fails, with it npm
    /// verifies its cache. Aggressive: an installed known manager has its
    /// cache cleaned; an unknown or missing one is passed over.
    pub open spec fn after_check_spec(&self, mode: CleanMode, ticket: usize, found: bool) -> StepView {
        match mode {
            CleanMode::Gentle => if found {
                StepView::Run(0, "npm cache verify"@, 60)
            } else {
                StepView::Done(Err(npm_missing_error()))
            },
            CleanMode::Aggressive => if ticket >= self.managers().len() {
                StepView::Done(Ok(()))
            } else if !found {
                self.next_manager_spec(ticket + 1)
            } else {
                match manager_command(self.managers()[ticket as int]) {
                    Some(c) => StepView::Run(ticket, c, 60),
                    None => self.next_manager_spec(ticket + 1),
                }
            },
        }
    }

    /// After a command ran. Gentle: the cleaning ends with its outcome.
    /// Aggressive: a failure of npm ends the cleaning with its message; any
    /// other outcome moves on to the next manager.
    pub open spec fn after_run_spec(
        &self,
        mode: CleanMode,
        ticket: usize,
        outcome: Result<String, ExecError>,
    ) -> StepView {
        match mode {
            CleanMode::Gentle => StepView::Done(clean_result(outcome)),
            CleanMode::Aggressive => if ticket >= self.managers().len() {
                StepView::Done(Ok(()))
            } else if self.managers()[ticket as int] == "npm"@ && outcome is Err {
                StepView::Done(clean_result(outcome))
            } else {
                self.next_manager_spec(ticket + 1)
            },
        }
    }

    fn next_manager(&self, i: usize) -> (r: CleanStep)
        ensures
            r@ == self.next_manager_spec(i as int),
    {
        if i < self.config.plugins.node.managers.len() {
            let m = owned(self.config.plugins.node.managers[i].as_str());
            CleanStep::CheckBinary { ticket: i, binary: m }
        } else {
            CleanStep::Done(Ok(()))
        }
    }

    /// The first step of a cleaning.
    pub fn clean_start(&self, mode: CleanMode) -> (r: CleanStep)
        ensures
            r@ == self.start_spec(mode),
    {
        match mode {
            CleanMode::Aggressive => self.next_manager(0),
            CleanMode::Gentle => CleanStep::CheckBinary { ticket: 0, binary: owned("npm") },
        }
    }

    /// The step after the lookup for `ticket` found the binary or not.
    pub fn after_check(&self, mode: CleanMode, ticket: usize, found: bool) -> (r: CleanStep)
        ensures
            r@ == self.after_check_spec(mode, ticket, found),
    {
        match mode {
            CleanMode::Gentle => {
                if found {
                    CleanStep::Run {
                        ticket: 0,
                        command: ExecCommand {
                            command: owned("npm cache verify"),
                            timeout_secs: 60,
                        },
                    }
                } else {
                    CleanStep::Done(Err(owned("npm não está instalado")))
                }
            },
            CleanMode::Aggressive => {
                let n = self.config.plugins.node.managers.len();
                if ticket >= n {
                    return CleanStep::Done(Ok(()));
                }
                if !found {
                    return self.next_manager(ticket + 1);
                }
                match manager_command_text(self.config.plugins.node.managers[ticket].as_str()) {
                    Some(command) => CleanStep::Run {
                        ticket,
                        command: ExecCommand { command, timeout_secs: 60 },
                    },
                    None => self.next_manager(ticket + 1),
                }
            },
        }
    }

    /// The step after the command for `ticket` ran.
    pub fn after_run(&self, mode: CleanMode, ticket: usize, outcome: Result<String, ExecError>) -> (r:
        CleanStep)
        ensures
            r@ == self.after_run_spec(mode, ticket, outcome),
    {
        match mode {
            CleanMode::Gentle => CleanStep::Done(to_clean_result(outcome)),
            CleanMode::Aggressive => {
                let n = self.config.plugins.node.managers.len();
                if ticket >= n {
                    return CleanStep::Done(Ok(()));
                }
                let is_npm = same_text(self.config.plugins.node.managers[ticket].as_str(), "npm");
                if is_npm && outcome.is_err() {
                    CleanStep::Done(to_clean_result(outcome))
                } else {
                    self.next_manager(ticket + 1)
                }
            },
        }
    }

    /// The command that measures npm's cache under the home directory.
    pub fn space_probe(&self, home: &str) -> (r: Option<ExecCommand>)
        ensures
            match npm_cache_probe(home@) {
                Some(cmd) => r matches Some(c) && c.command@ == cmd && c.timeout_secs == 5,
                None => r is None,
            },
    {
        if home.unicode_len() == 0 || contains_whitespace(home) {
            return None;
        }
        Some(ExecCommand { command: concat3("du -sb ", home, "/.npm/_cacache"), timeout_secs: 5 })
    }

    /// The size the measuring command reported: the number in the first
    /// field of its output (`du` writes the size, a tab, the path), 0 when
    /// there is none or the command failed.
    pub fn space_from_output(&self, outcome: Result<String, ExecError>) -> (r: u64)
        ensures
            r == match outcome {
                Ok(out) => match parse_u64_spec(trim(first_field(out@))) {
                    Some(v) => v,
                    None => 0,
                },
                Err(_) => 0,
            },
    {
        match outcome {
            Ok(out) => match parse_first_field_u64(out.as_str()) {
                Some(v) => v,
                None => 0,
            },
            Err(_) => 0,
        }
    }
}

impl CachePlugin for NodePlugin {
    fn name(&self) -> (r: &'static str)
        ensures
            r@ == "node"@,
    {
        "node"
    }

    fn is_active(&self, procs: &Vec<ProcInfo>, pacman_locked: bool) -> (r: bool)
        ensures
            r == Self::active_spec(procs@),
    {
        is_binary_running(procs, "node") || is_binary_running(procs, "npm")
            || is_binary_running(procs, "pnpm") || is_binary_running(procs, "yarn")
    }

    fn dry_run_commands(&self) -> (r: Vec<String>)
        ensures
            views(r@) == self.dry_run_spec(),
    {
        let managers = &self.config.plugins.node.managers;
        let n = managers.len();
        let mut out: Vec<String> = Vec::new();
        let mut i: usize = n;
        while i > 0
            invariant
                n == managers@.len(),
                managers == &self.config.plugins.node.managers,
                i <= n,
                views(out@) == self.known_commands_from(i as int),
            decreases i,
        {
            i = i - 1;
            match manager_command_text(managers[i].as_str()) {
                Some(c) => {
                    let ghost before = out@;
                    out.insert(0, c);
                    proof {
                        assert(views(out@) =~= seq![c@] + views(before));
                    }
                },
                None => {},
            }
        }
        out
    }
}

} // verus!

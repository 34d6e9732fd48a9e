//! Prunes the images and build cache of the installed container runtime,
//! podman in preference to docker.

use vstd::prelude::*;
use crate::config::KazeConfig;
use crate::detector::{is_binary_running, running, ProcInfo};
use crate::executor::{clean_result, to_clean_result, ExecCommand, ExecError};
use crate::plugins::{CachePlugin, CleanMode, CleanStep, StepView};
use crate::text::{concat2, concat3, owned, views};

verus! {

/// The container cache plugin.
pub struct DockerPlugin {
    config: KazeConfig,
    runtime: String,
}

/// The runtime in use: podman when it is installed, else docker when it is,
/// else none (the empty name).
pub open spec fn runtime_spec(podman_found: bool, docker_found: bool) -> Seq<char> {
    if podman_found {
        "podman"@
    } else if docker_found {
        "docker"@
    } else {
        ""@
    }
}

/// What a cleaning without a runtime reports.
pub open spec fn no_runtime_error() -> Seq<char> {
    "Nenhum runtime de container instalado (docker/podman)"@
}

/// The aggressive cleaning: everything unused, volumes too when configured.
pub open spec fn system_prune_command(runtime: Seq<char>, prune_volumes: bool) -> Seq<char> {
    runtime + " system prune -af "@ + (if prune_volumes {
        "--volumes"@
    } else {
        ""@
    })
}

/// The gentle cleaning: dangling images only.
pub open spec fn image_prune_command(runtime: Seq<char>) -> Seq<char> {
    runtime + " image prune -f"@
}

impl DockerPlugin {
    /// The settings the plugin was made with.
    pub closed spec fn settings(&self) -> KazeConfig {
        self.config
    }

    /// The name of the runtime in use, empty when there is none.
    pub closed spec fn runtime(&self) -> Seq<char> {
        self.runtime@
    }

    /// A plugin with a copy of the settings, for the runtime that the
    /// lookups of `podman` and `docker` found.
    pub fn new(config: &KazeConfig, podman_found: bool, docker_found: bool) -> (r: Self)
        ensures
            r.settings().same_settings(config),
            r.runtime() == runtime_spec(podman_found, docker_found),
    {
        let runtime = if podman_found {
            owned("podman")
        } else if docker_found {
            owned("docker")
        } else {
            proof {
                reveal_strlit("");
            }
            String::new()
        };
        DockerPlugin { config: config.clone(), runtime }
    }

    /// A container runtime is installed.
    pub open spec fn installed_spec(&self) -> bool {
        self.runtime().len() > 0
    }

    /// Whether a container runtime is installed.
    pub fn installed(&self) -> (r: bool)
        ensures
            r == self.installed_spec(),
    {
        self.runtime.as_str().unicode_len() > 0
    }

    /// Docker, containerd or podman runs.
    pub open spec fn active_spec(procs: Seq<ProcInfo>) -> bool {
        ||| running(procs, "docker"@)
        ||| running(procs, "containerd"@)
        ||| running(procs, "podman"@)
    }

    /// The command an aggressive cleaning runs: none without a runtime.
    pub open spec fn dry_run_spec(&self) -> Seq<Seq<char>> {
        if self.installed_spec() {
            seq![system_prune_command(self.runtime(), self.settings().plugins.docker.prune_volumes)]
        } else {
            seq![]
        }
    }

    /// A cleaning fails at once without a runtime; otherwise it runs one
    /// prune command: two minutes for the aggressive one, one for the gentle.
    pub open spec fn start_spec(&self, mode: CleanMode) -> StepView {
        if !self.installed_spec() {
            StepView::Done(Err(no_runtime_error()))
        } else {
            match mode {
                CleanMode::Aggressive => StepView::Run(
                    0,
                    system_prune_command(
                        self.runtime(),
                        self.settings().plugins.docker.prune_volumes,
                    ),
                    120,
                ),
                CleanMode::Gentle => StepView::Run(0, image_prune_command(self.runtime()), 60),
            }
        }
    }

    /// The cleaning ends with the outcome of the prune command.
    pub open spec fn after_run_spec(&self, outcome: Result<String, ExecError>) -> StepView {
        StepView::Done(clean_result(outcome))
    }

    fn system_prune_text(&self) -> (r: String)
        ensures
            r@ == system_prune_command(
                self.runtime(),
                self.settings().plugins.docker.prune_volumes,
            ),
    {
        let args = if self.config.plugins.docker.prune_volumes {
            "--volumes"
        } else {
            ""
        };
        proof {
            reveal_strlit("");
        }
        concat3(self.runtime.as_str(), " system prune -af ", args)
    }

    /// The first step of a cleaning.
    pub fn clean_start(&self, mode: CleanMode) -> (r: CleanStep)
        ensures
            r@ == self.start_spec(mode),
    {
        if !self.installed() {
            return CleanStep::Done(Err(owned("Nenhum runtime de container instalado (docker/podman)")));
        }
        match mode {
            CleanMode::Aggressive => {
                let command = self.system_prune_text();
                CleanStep::Run { ticket: 0, command: ExecCommand { command, timeout_secs: 120 } }
            },
            CleanMode::Gentle => {
                let command = concat2(self.runtime.as_str(), " image prune -f");
                CleanStep::Run { ticket: 0, command: ExecCommand { command, timeout_secs: 60 } }
            },
        }
    }

    /// The step after the prune command ran.
    pub fn after_run(&self, outcome: Result<String, ExecError>) -> (r: CleanStep)
        ensures
            r@ == self.after_run_spec(outcome),
    {
        CleanStep::Done(to_clean_result(outcome))
    }
}

impl CachePlugin for DockerPlugin {
    fn name(&self) -> (r: &'static str)
        ensures
            r@ == "container"@,
    {
        "container"
    }

    fn is_active(&self, procs: &Vec<ProcInfo>, pacman_locked: bool) -> (r: bool)
        ensures
            r == Self::active_spec(procs@),
    {
        is_binary_running(procs, "docker") || is_binary_running(procs, "containerd")
            || is_binary_running(procs, "podman")
    }

    fn dry_run_commands(&self) -> (r: Vec<String>)
        ensures
            views(r@) == self.dry_run_spec(),
    {
        let mut v: Vec<String> = Vec::new();
        if self.installed() {
            v.push(self.system_prune_text());
        }
        proof {
            assert(views(v@) =~= self.dry_run_spec());
        }
        v
    }
}

} // verus!

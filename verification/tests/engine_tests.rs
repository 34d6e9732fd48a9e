use kaze::config::KazeConfig;
use kaze::detector::ProcInfo;
use kaze::executor::ExecError;
use kaze::plugins::{
    CachePlugin, CleanMode, CleanStep, DockerPlugin, NodePlugin, PacmanPlugin, Plan, Plugin,
    PluginEngine,
};

fn expect_run(step: &CleanStep, ticket: usize, command: &str, timeout: u64) {
    match step {
        CleanStep::Run { ticket: t, command: c } => {
            assert_eq!(*t, ticket);
            assert_eq!(c.command, command);
            assert_eq!(c.timeout_secs, timeout);
        }
        _ => panic!("expected a command to run"),
    }
}

fn expect_check(step: &CleanStep, ticket: usize, binary: &str) {
    match step {
        CleanStep::CheckBinary { ticket: t, binary: b } => {
            assert_eq!(*t, ticket);
            assert_eq!(b, binary);
        }
        _ => panic!("expected a binary lookup"),
    }
}

fn expect_done(step: &CleanStep, result: Result<(), &str>) {
    match step {
        CleanStep::Done(r) => {
            let got: Result<(), &str> = match r {
                Ok(()) => Ok(()),
                Err(e) => Err(e.as_str()),
            };
            assert_eq!(got, result);
        }
        _ => panic!("expected the end of the cleaning"),
    }
}

fn proc(cmdline: &str) -> ProcInfo {
    ProcInfo { pid: 10, exe: None, cmdline: cmdline.to_string(), state: 'S' }
}

#[test]
fn pacman_cleans_with_paccache() {
    let p = PacmanPlugin::new(&KazeConfig::default());
    expect_run(&p.clean_start(CleanMode::Aggressive), 0, "paccache -rk2", 120);
    expect_run(&p.clean_start(CleanMode::Gentle), 0, "paccache -rk3", 120);
    expect_done(&p.after_run(Ok("done".to_string())), Ok(()));
    expect_done(&p.after_run(Err(ExecError::Status(1))), Err("Comando falhou com status: 1"));
    assert_eq!(p.dry_run_commands(), vec!["paccache -rk2"]);
    let probe = p.space_probe();
    assert_eq!(probe.command, "paccache -dvk1");
    assert_eq!(probe.timeout_secs, 10);
}

#[test]
fn pacman_activity() {
    let p = PacmanPlugin::new(&KazeConfig::default());
    assert!(!p.is_active(&vec![proc("bash")], false));
    assert!(p.is_active(&vec![proc("bash")], true));
    assert!(p.is_active(&vec![proc("paru -Syu")], false));
    assert!(p.is_active(&vec![proc("sudo pacman -S vim")], false));
}

#[test]
fn container_runtime_prefers_podman() {
    let config = KazeConfig::default();
    let both = DockerPlugin::new(&config, true, true);
    assert!(both.installed());
    assert_eq!(both.name(), "container");
    expect_run(&both.clean_start(CleanMode::Aggressive), 0, "podman system prune -af ", 120);
    expect_run(&both.clean_start(CleanMode::Gentle), 0, "podman image prune -f", 60);
    assert_eq!(both.dry_run_commands(), vec!["podman system prune -af "]);
    let docker = DockerPlugin::new(&config, false, true);
    expect_run(&docker.clean_start(CleanMode::Gentle), 0, "docker image prune -f", 60);
    expect_done(&docker.after_run(Err(ExecError::Timeout)), Err("Comando excedeu timeout"));
}

#[test]
fn container_volumes_are_pruned_when_configured() {
    let mut config = KazeConfig::default();
    config.plugins.docker.prune_volumes = true;
    let p = DockerPlugin::new(&config, false, true);
    expect_run(&p.clean_start(CleanMode::Aggressive), 0, "docker system prune -af --volumes", 120);
    assert_eq!(p.dry_run_commands(), vec!["docker system prune -af --volumes"]);
}

#[test]
fn container_without_runtime_fails() {
    let p = DockerPlugin::new(&KazeConfig::default(), false, false);
    assert!(!p.installed());
    expect_done(
        &p.clean_start(CleanMode::Aggressive),
        Err("Nenhum runtime de container instalado (docker/podman)"),
    );
    expect_done(
        &p.clean_start(CleanMode::Gentle),
        Err("Nenhum runtime de container instalado (docker/podman)"),
    );
    assert!(p.dry_run_commands().is_empty());
    assert!(p.is_active(&vec![proc("/usr/bin/containerd")], false));
}

#[test]
fn node_gentle_cleaning_needs_npm() {
    let p = NodePlugin::new(&KazeConfig::default());
    expect_check(&p.clean_start(CleanMode::Gentle), 0, "npm");
    expect_done(&p.after_check(CleanMode::Gentle, 0, false), Err("npm não está instalado"));
    expect_run(&p.after_check(CleanMode::Gentle, 0, true), 0, "npm cache verify", 60);
    expect_done(&p.after_run(CleanMode::Gentle, 0, Ok(String::new())), Ok(()));
}

#[test]
fn node_aggressive_cleaning_walks_the_managers() {
    let p = NodePlugin::new(&KazeConfig::default());
    let m = CleanMode::Aggressive;
    expect_check(&p.clean_start(m), 0, "npm");
    expect_run(&p.after_check(m, 0, true), 0, "npm cache clean --force", 60);
    expect_check(&p.after_run(m, 0, Ok(String::new())), 1, "pnpm");
    expect_check(&p.after_check(m, 1, false), 2, "yarn");
    expect_run(&p.after_check(m, 2, true), 2, "yarn cache clean --all", 60);
    expect_done(&p.after_run(m, 2, Err(ExecError::Status(1))), Ok(()));
}

#[test]
fn node_aggressive_cleaning_stops_on_npm_failure() {
    let p = NodePlugin::new(&KazeConfig::default());
    let m = CleanMode::Aggressive;
    expect_done(&p.after_run(m, 0, Err(ExecError::Status(2))), Err("Comando falhou com status: 2"));
    expect_check(&p.after_run(m, 1, Err(ExecError::Status(2))), 2, "yarn");
}

#[test]
fn node_unknown_managers_are_neither_listed_nor_run() {
    let mut config = KazeConfig::default();
    config.plugins.node.managers = vec!["bun".to_string(), "pnpm".to_string()];
    let p = NodePlugin::new(&config);
    assert_eq!(p.dry_run_commands(), vec!["pnpm store prune"]);
    let m = CleanMode::Aggressive;
    expect_check(&p.after_check(m, 0, true), 1, "pnpm");
    expect_run(&p.after_check(m, 1, true), 1, "pnpm store prune", 60);
    expect_done(&p.after_run(m, 1, Ok(String::new())), Ok(()));
}

#[test]
fn node_without_managers_has_nothing_to_do() {
    let mut config = KazeConfig::default();
    config.plugins.node.managers = Vec::new();
    let p = NodePlugin::new(&config);
    expect_done(&p.clean_start(CleanMode::Aggressive), Ok(()));
    assert!(p.dry_run_commands().is_empty());
}

#[test]
fn node_space_from_du_output() {
    let p = NodePlugin::new(&KazeConfig::default());
    assert_eq!(p.space_from_output(Ok("5242880\n".to_string())), 5242880);
    assert_eq!(p.space_from_output(Ok("5242880\t/home/u/.npm/_cacache\n".to_string())), 5242880);
    assert_eq!(p.space_from_output(Ok("5\t/x".to_string())), 5);
    assert_eq!(p.space_from_output(Ok("du: cannot access".to_string())), 0);
    assert_eq!(p.space_from_output(Err(ExecError::Timeout)), 0);
    let probe = p.space_probe("/home/u").unwrap();
    assert_eq!(probe.command, "du -sb /home/u/.npm/_cacache");
    assert_eq!(probe.timeout_secs, 5);
    assert!(p.space_probe("").is_none());
    assert!(p.space_probe("/home/my user").is_none());
}

#[test]
fn node_activity() {
    let p = NodePlugin::new(&KazeConfig::default());
    assert!(p.is_active(&vec![proc("node server.js")], false));
    assert!(!p.is_active(&vec![proc("python3 app.py")], true));
}

#[test]
fn pacman_is_left_alone_while_its_lock_is_held() {
    let pacman = Plugin::Pacman(PacmanPlugin::new(&KazeConfig::default()));
    assert!(pacman.plan(true, true) == Plan::Skip);
    assert!(pacman.plan(false, true) == Plan::Skip);
    assert!(pacman.plan(false, false) == Plan::Clean(CleanMode::Aggressive));
    let node = Plugin::Node(NodePlugin::new(&KazeConfig::default()));
    assert!(node.plan(false, true) == Plan::Clean(CleanMode::Aggressive));
}

/// Drives a dry run to its end, every lookup answered by `found`; returns
/// the printed lines and the result.
fn dry_run(p: &Plugin, mode: CleanMode, found: bool) -> (Vec<String>, Result<(), String>) {
    let mut lines = Vec::new();
    let mut step = p.clean_start(mode, true);
    loop {
        step = match step {
            CleanStep::Done(r) => return (lines, r),
            CleanStep::CheckBinary { ticket, .. } => p.after_check(mode, true, ticket, found),
            CleanStep::Print { ticket, line } => {
                lines.push(line);
                p.after_print(mode, ticket)
            }
            CleanStep::Run { .. } => panic!("a dry run must not run a command"),
        };
    }
}

#[test]
fn dry_run_prints_what_the_real_run_would_run() {
    let config = KazeConfig::default();
    let pacman = Plugin::Pacman(PacmanPlugin::new(&config));
    let (lines, r) = dry_run(&pacman, CleanMode::Gentle, true);
    assert_eq!(lines, vec!["[DRY-RUN pacman] paccache -rk3"]);
    assert_eq!(r, Ok(()));
    let (lines, _) = dry_run(&pacman, CleanMode::Aggressive, true);
    assert_eq!(lines, vec!["[DRY-RUN pacman] paccache -rk2"]);

    let node = Plugin::Node(NodePlugin::new(&config));
    let (lines, r) = dry_run(&node, CleanMode::Aggressive, true);
    assert_eq!(
        lines,
        vec![
            "[DRY-RUN node] npm cache clean --force",
            "[DRY-RUN node] pnpm store prune",
            "[DRY-RUN node] yarn cache clean --all",
        ]
    );
    assert_eq!(r, Ok(()));
    let (lines, r) = dry_run(&node, CleanMode::Gentle, false);
    assert!(lines.is_empty());
    assert_eq!(r, Err("npm não está instalado".to_string()));

    let mut with_volumes = KazeConfig::default();
    with_volumes.plugins.docker.prune_volumes = true;
    let docker = Plugin::Docker(DockerPlugin::new(&with_volumes, false, true));
    let (lines, _) = dry_run(&docker, CleanMode::Aggressive, true);
    assert_eq!(lines, vec!["[DRY-RUN container] docker system prune -af --volumes"]);
    let (lines, _) = dry_run(&docker, CleanMode::Gentle, true);
    assert_eq!(lines, vec!["[DRY-RUN container] docker image prune -f"]);
}

#[test]
fn dry_run_is_not_notified() {
    let plugin = Plugin::Pacman(PacmanPlugin::new(&KazeConfig::default()));
    assert!(plugin.failure_notice(true, &Err("x".to_string())).is_none());
}

#[test]
fn active_plugins_get_the_gentle_cleaning() {
    let plugin = Plugin::Node(NodePlugin::new(&KazeConfig::default()));
    assert!(matches!(plugin.plan(true, false), Plan::Clean(CleanMode::Gentle)));
    assert!(matches!(plugin.plan(false, false), Plan::Clean(CleanMode::Aggressive)));
}

#[test]
fn failed_cleaning_is_notified() {
    let plugin = Plugin::Node(NodePlugin::new(&KazeConfig::default()));
    assert!(plugin.failure_notice(false, &Ok(())).is_none());
    let n = plugin.failure_notice(false, &Err("npm não está instalado".to_string())).unwrap();
    assert_eq!(n.title, "Kaze - Erro no node");
    assert_eq!(n.message, "npm não está instalado");
    assert_eq!(n.urgency, "critical");
}

#[test]
fn engine_registers_plugins_in_order() {
    let engine = PluginEngine::with_default_plugins(&KazeConfig::default(), false, true);
    let names: Vec<&str> = engine.plugins().iter().map(|p| p.name()).collect();
    assert_eq!(names, vec!["pacman", "node", "container"]);
    let custom = PluginEngine::new(vec![Plugin::Docker(DockerPlugin::new(
        &KazeConfig::default(),
        false,
        false,
    ))]);
    assert_eq!(custom.plugins().len(), 1);
}

#[test]
fn scripted_node_cleaning_ends_within_its_bound() {
    let p = Plugin::Node(NodePlugin::new(&KazeConfig::default()));
    let mode = CleanMode::Aggressive;
    let mut step = p.clean_start(mode, false);
    let mut answers = 0;
    let result = loop {
        step = match step {
            CleanStep::Done(r) => break r,
            CleanStep::CheckBinary { ticket, .. } => p.after_check(mode, false, ticket, true),
            CleanStep::Run { ticket, .. } => p.after_run(mode, ticket, Ok(String::new())),
            CleanStep::Print { .. } => panic!("a real run prints no preview"),
        };
        answers += 1;
    };
    assert_eq!(result, Ok(()));
    assert_eq!(answers, 6);
    assert!(answers <= 2 * 3 + 2);
}

#[test]
fn container_preview_runs_as_the_aggressive_command() {
    let p = DockerPlugin::new(&KazeConfig::default(), true, false);
    let preview = p.dry_run_commands();
    match p.clean_start(CleanMode::Aggressive) {
        CleanStep::Run { command, .. } => {
            assert_eq!(
                kaze::executor::exec_argv(&preview[0]),
                kaze::executor::exec_argv(&command.command)
            );
        }
        _ => panic!("expected a command to run"),
    }
}

#[test]
fn pacman_preview_is_the_aggressive_command() {
    let p = PacmanPlugin::new(&KazeConfig::default());
    match p.clean_start(CleanMode::Aggressive) {
        CleanStep::Run { command, .. } => assert_eq!(p.dry_run_commands(), vec![command.command]),
        _ => panic!("expected a command to run"),
    }
}

#[test]
fn space_probes() {
    let config = KazeConfig::default();
    let pacman = Plugin::Pacman(PacmanPlugin::new(&config));
    let node = Plugin::Node(NodePlugin::new(&config));
    let docker = Plugin::Docker(DockerPlugin::new(&config, true, false));
    assert_eq!(pacman.space_probe("/root").unwrap().command, "paccache -dvk1");
    assert_eq!(node.space_probe("/root").unwrap().command, "du -sb /root/.npm/_cacache");
    assert!(node.space_probe("").is_none());
    assert!(docker.space_probe("/root").is_none());
}

/// Drives a real run to its end, every lookup answered by `found` and every
/// command succeeding; returns the commands run.
fn real_run_commands(p: &Plugin, mode: CleanMode, found: &dyn Fn(usize) -> bool) -> Vec<String> {
    let mut commands = Vec::new();
    let mut step = p.clean_start(mode, false);
    loop {
        step = match step {
            CleanStep::Done(_) => return commands,
            CleanStep::CheckBinary { ticket, .. } => p.after_check(mode, false, ticket, found(ticket)),
            CleanStep::Run { ticket, command } => {
                commands.push(command.command);
                p.after_run(mode, ticket, Ok(String::new()))
            }
            CleanStep::Print { .. } => panic!("a real run prints no preview"),
        };
    }
}

#[test]
fn dry_run_lines_match_the_real_run_commands() {
    let mut config = KazeConfig::default();
    config.plugins.node.managers =
        vec!["npm".to_string(), "bun".to_string(), "yarn".to_string(), "pnpm".to_string()];
    let node = Plugin::Node(NodePlugin::new(&config));
    let only_yarn_missing = |t: usize| t != 2;
    for mode in [CleanMode::Aggressive, CleanMode::Gentle] {
        let commands = real_run_commands(&node, mode, &only_yarn_missing);
        let mut lines = Vec::new();
        let mut step = node.clean_start(mode, true);
        loop {
            step = match step {
                CleanStep::Done(_) => break,
                CleanStep::CheckBinary { ticket, .. } => {
                    node.after_check(mode, true, ticket, only_yarn_missing(ticket))
                }
                CleanStep::Print { ticket, line } => {
                    lines.push(line);
                    node.after_print(mode, ticket)
                }
                CleanStep::Run { .. } => panic!("a dry run must not run a command"),
            };
        }
        let expected: Vec<String> =
            commands.iter().map(|c| format!("[DRY-RUN node] {}", c)).collect();
        assert_eq!(lines, expected);
    }
    assert_eq!(
        real_run_commands(&node, CleanMode::Aggressive, &only_yarn_missing),
        vec!["npm cache clean --force", "pnpm store prune"]
    );
}

//! What each plugin does, stated from the settings, the lookups and the
//! process snapshot themselves.

use vstd::prelude::*;
use crate::detector::{mentions, running, ProcInfo};
use crate::executor::ExecError;
use crate::plugins::docker::{no_runtime_error, runtime_spec};
use crate::plugins::{CleanMode, DockerPlugin, NodePlugin, PacmanPlugin, StepView};
use crate::text::{decimal, digit_char, digits_value, has_substring, is_digit};

verus! {

/// Some process of the snapshot shows `name` in its executable path or in
/// its command line.
pub open spec fn shown(procs: Seq<ProcInfo>, name: Seq<char>) -> bool {
    exists|i: int|
        0 <= i < procs.len() && (has_substring(#[trigger] procs[i].cmdline@, name) || (
        procs[i].exe matches Some(e) && has_substring(e@, name)))
}

/// A binary counts as running exactly when some process's executable path
/// or command line contains its name, whichever of the two it is in.
pub proof fn law_running_means_shown(procs: Seq<ProcInfo>, name: Seq<char>)
    ensures
        running(procs, name) <==> shown(procs, name),
        forall|i: int|
            0 <= i < procs.len() && has_substring(#[trigger] procs[i].cmdline@, name) ==> running(
                procs,
                name,
            ),
        forall|i: int|
            0 <= i < procs.len() && (#[trigger] procs[i].exe matches Some(e) && has_substring(
                e@,
                name,
            )) ==> running(procs, name),
{
    assert forall|i: int|
        0 <= i < procs.len() && has_substring(#[trigger] procs[i].cmdline@, name) implies running(
        procs,
        name,
    ) by {
        assert(mentions(procs[i], name));
    }
    assert forall|i: int|
        0 <= i < procs.len() && (#[trigger] procs[i].exe matches Some(e) && has_substring(
            e@,
            name,
        )) implies running(procs, name) by {
        assert(mentions(procs[i], name));
    }
    if running(procs, name) {
        let i = choose|i: int| 0 <= i < procs.len() && mentions(#[trigger] procs[i], name);
        assert(has_substring(procs[i].cmdline@, name) || (procs[i].exe matches Some(e)
            && has_substring(e@, name)));
    }
    if shown(procs, name) {
        let i = choose|i: int|
            0 <= i < procs.len() && (has_substring(#[trigger] procs[i].cmdline@, name) || (
            procs[i].exe matches Some(e) && has_substring(e@, name)));
        assert(mentions(procs[i], name));
    }
}

/// Pacman counts as in use exactly when its database lock is held or pacman,
/// yay or paru shows in some process.
pub proof fn law_pacman_active_when_its_tools_run(procs: Seq<ProcInfo>, locked: bool)
    ensures
        PacmanPlugin::active_spec(procs, locked) <==> (locked || shown(procs, "pacman"@) || shown(
            procs,
            "yay"@,
        ) || shown(procs, "paru"@)),
{
    law_running_means_shown(procs, "pacman"@);
    law_running_means_shown(procs, "yay"@);
    law_running_means_shown(procs, "paru"@);
}

/// Node counts as in use exactly when node, npm, pnpm or yarn shows in some
/// process.
pub proof fn law_node_active_when_its_tools_run(procs: Seq<ProcInfo>)
    ensures
        NodePlugin::active_spec(procs) <==> (shown(procs, "node"@) || shown(procs, "npm"@) || shown(
            procs,
            "pnpm"@,
        ) || shown(procs, "yarn"@)),
{
    law_running_means_shown(procs, "node"@);
    law_running_means_shown(procs, "npm"@);
    law_running_means_shown(procs, "pnpm"@);
    law_running_means_shown(procs, "yarn"@);
}

/// The containers count as in use exactly when docker, containerd or podman
/// shows in some process.
pub proof fn law_containers_active_when_their_tools_run(procs: Seq<ProcInfo>)
    ensures
        DockerPlugin::active_spec(procs) <==> (shown(procs, "docker"@) || shown(procs, "containerd"@)
            || shown(procs, "podman"@)),
{
    law_running_means_shown(procs, "docker"@);
    law_running_means_shown(procs, "containerd"@);
    law_running_means_shown(procs, "podman"@);
}

/// The decimal numeral of `n` is a nonempty run of digits, without a
/// leading zero, whose value is `n`.
pub proof fn law_decimal_reads_back(n: nat)
    ensures
        decimal(n).len() > 0,
        forall|i: int| 0 <= i < decimal(n).len() ==> is_digit(#[trigger] decimal(n)[i]),
        decimal(n).len() == 1 <==> n < 10,
        decimal(n)[0] == '0' ==> n == 0,
        digits_value(decimal(n)) == n,
    decreases n,
{
    if n >= 10 {
        law_decimal_reads_back(n / 10);
        let s = decimal(n / 10);
        let d = n % 10;
        let c = digit_char(d);
        assert(decimal(n) == s.push(c));
        assert(s.push(c).drop_last() =~= s);
        assert(s.push(c).last() == c);
        assert(c as u32 == d + 48);
        assert(forall|i: int| 0 <= i < s.len() ==> s.push(c)[i] == s[i]);
        assert(digits_value(s.push(c)) == digits_value(s) * 10 + d);
        assert((n / 10) * 10 + d == n);
    } else {
        assert(digit_char(n) as u32 == n + 48);
        assert(seq![digit_char(n)].drop_last() =~= Seq::<char>::empty());
        assert(digits_value(Seq::<char>::empty()) == 0);
        assert(decimal(n) == seq![digit_char(n)]);
        assert(digits_value(seq![digit_char(n)]) == n);
    }
}

/// A pacman cleaning runs `paccache -rk` followed by the number of versions
/// the settings keep for its mode (`keep_versions_gentle` when gentle,
/// `keep_versions` when aggressive), for two minutes at most, and ends with
/// paccache's outcome: success, or the error's message.
pub proof fn law_pacman_keeps_the_configured_versions(
    q: PacmanPlugin,
    outcome: Result<String, ExecError>,
)
    ensures
        q.start_spec(CleanMode::Gentle) == StepView::Run(
            0,
            "paccache -rk"@ + decimal(q.settings().plugins.pacman.keep_versions_gentle as nat),
            120,
        ),
        q.start_spec(CleanMode::Aggressive) == StepView::Run(
            0,
            "paccache -rk"@ + decimal(q.settings().plugins.pacman.keep_versions as nat),
            120,
        ),
        outcome is Ok ==> q.after_run_spec(outcome) == StepView::Done(Ok(())),
        outcome matches Err(e) ==> q.after_run_spec(outcome) == StepView::Done(
            Err(e.message_view()),
        ),
{
}

/// The container runtime is one whose lookup succeeded, podman in
/// preference: podman whenever podman was found, docker only when docker
/// was found and podman was not, and none when neither was.
pub proof fn law_runtime_is_an_installed_one(podman_found: bool, docker_found: bool)
    ensures
        podman_found ==> runtime_spec(podman_found, docker_found) == "podman"@,
        runtime_spec(podman_found, docker_found) == "podman"@ ==> podman_found,
        runtime_spec(podman_found, docker_found) == "docker"@ <==> (!podman_found && docker_found),
        runtime_spec(podman_found, docker_found).len() == 0 <==> (!podman_found && !docker_found),
{
    reveal_strlit("podman");
    reveal_strlit("docker");
    reveal_strlit("");
    assert("podman"@ != "docker"@) by {
        assert("podman"@[0] != "docker"@[0]);
    }
    assert("podman"@.len() == 6 && "docker"@.len() == 6 && ""@.len() == 0);
}

/// A container cleaning fails at once when no runtime was found; otherwise
/// it runs the runtime's `system prune -af` (with `--volumes` when volumes
/// are pruned) for two minutes when aggressive, its `image prune -f` for one
/// minute when gentle, and ends with the command's outcome.
pub proof fn law_containers_prune_with_their_runtime(
    d: DockerPlugin,
    mode: CleanMode,
    outcome: Result<String, ExecError>,
)
    ensures
        d.runtime().len() == 0 ==> d.start_spec(mode) == StepView::Done(Err(no_runtime_error())),
        d.runtime().len() > 0 && mode == CleanMode::Aggressive ==> d.start_spec(mode)
            == StepView::Run(
            0,
            d.runtime() + " system prune -af "@ + (if d.settings().plugins.docker.prune_volumes {
                "--volumes"@
            } else {
                ""@
            }),
            120,
        ),
        d.runtime().len() > 0 && mode == CleanMode::Gentle ==> d.start_spec(mode) == StepView::Run(
            0,
            d.runtime() + " image prune -f"@,
            60,
        ),
        outcome is Ok ==> d.after_run_spec(outcome) == StepView::Done(Ok(())),
        outcome matches Err(e) ==> d.after_run_spec(outcome) == StepView::Done(
            Err(e.message_view()),
        ),
{
}

/// A gentle Node cleaning looks npm up; without npm it fails, with it it
/// runs `npm cache verify` for one minute and ends with that command's
/// outcome: success exactly when it succeeded, else the error's message.
pub proof fn law_gentle_node_cleaning_is_npm_verify(
    q: NodePlugin,
    ticket: usize,
    outcome: Result<String, ExecError>,
)
    ensures
        q.start_spec(CleanMode::Gentle) == StepView::CheckBinary(0, "npm"@),
        q.after_check_spec(CleanMode::Gentle, ticket, false) == StepView::Done(
            Err("npm não está instalado"@),
        ),
        q.after_check_spec(CleanMode::Gentle, ticket, true) == StepView::Run(
            0,
            "npm cache verify"@,
            60,
        ),
        outcome is Ok <==> q.after_run_spec(CleanMode::Gentle, ticket, outcome) == StepView::Done(
            Ok(()),
        ),
        outcome matches Err(e) ==> q.after_run_spec(CleanMode::Gentle, ticket, outcome)
            == StepView::Done(Err(e.message_view())),
{
}

/// An aggressive Node cleaning takes the configured managers in order. At
/// position `t`: an installed npm, pnpm or yarn has its own cache cleaned
/// for one minute (`npm cache clean --force`, `pnpm store prune`,
/// `yarn cache clean --all`); a missing or unknown manager is passed over.
/// After a command, only a failure of npm ends the cleaning, with the
/// error's message; otherwise the next manager is looked up, and past the
/// last one the cleaning ends with success.
pub proof fn law_aggressive_node_cleaning_walks_the_managers(
    q: NodePlugin,
    t: usize,
    found: bool,
    outcome: Result<String, ExecError>,
)
    requires
        t < q.managers().len(),
    ensures
        ({
            let m = q.managers()[t as int];
            let next = if t + 1 < q.managers().len() {
                StepView::CheckBinary((t + 1) as usize, q.managers()[t + 1])
            } else {
                StepView::Done(Ok(()))
            };
            &&& q.start_spec(CleanMode::Aggressive) == StepView::CheckBinary(0, q.managers()[0])
            &&& !found ==> q.after_check_spec(CleanMode::Aggressive, t, found) == next
            &&& found && m == "npm"@ ==> q.after_check_spec(CleanMode::Aggressive, t, found)
                == StepView::Run(t, "npm cache clean --force"@, 60)
            &&& found && m == "pnpm"@ ==> q.after_check_spec(CleanMode::Aggressive, t, found)
                == StepView::Run(t, "pnpm store prune"@, 60)
            &&& found && m == "yarn"@ ==> q.after_check_spec(CleanMode::Aggressive, t, found)
                == StepView::Run(t, "yarn cache clean --all"@, 60)
            &&& m != "npm"@ && m != "pnpm"@ && m != "yarn"@ ==> q.after_check_spec(
                CleanMode::Aggressive,
                t,
                found,
            ) == next
            &&& m == "npm"@ ==> (outcome matches Err(e) ==> q.after_run_spec(
                CleanMode::Aggressive,
                t,
                outcome,
            ) == StepView::Done(Err(e.message_view())))
            &&& !(m == "npm"@ && outcome is Err) ==> q.after_run_spec(
                CleanMode::Aggressive,
                t,
                outcome,
            ) == next
        }),
{
    reveal_strlit("npm");
    reveal_strlit("pnpm");
    reveal_strlit("yarn");
    assert("npm"@.len() == 3 && "pnpm"@.len() == 4 && "yarn"@.len() == 4);
    assert("npm"@ != "pnpm"@ && "npm"@ != "yarn"@);
    assert("pnpm"@ != "yarn"@) by {
        assert("pnpm"@[0] != "yarn"@[0]);
    }
    assert(q.managers().len() == q.settings().plugins.node.managers@.len());
    assert(q.settings().plugins.node.managers@.len() == q.settings().plugins.node.managers.len());
}

} // verus!

//! What holds of the library as a whole, across its functions.

use vstd::prelude::*;
use crate::executor::{clean_result, ExecError};
use crate::plugins::docker::{image_prune_command, system_prune_command};
use crate::plugins::node::manager_command;
use crate::plugins::pacman::paccache_command;
use crate::plugins::{mode_for, preview_line, CleanMode, NodePlugin, Plan, Plugin, StepView};

verus! {

/// Pacman's cache is never cleaned while pacman holds its database lock
/// (an update is under way): the plan is to leave it alone.
pub proof fn law_no_pacman_cleaning_during_update(p: Plugin, active: bool)
    requires
        p is Pacman,
    ensures
        p.plan_spec(active, true) == Plan::Skip,
{
}

/// Otherwise a run cleans gently an application that is in use and
/// aggressively one that is not.
pub proof fn law_mode_follows_activity(p: Plugin, active: bool, pacman_locked: bool)
    requires
        !(p is Pacman && pacman_locked),
    ensures
        active ==> p.plan_spec(active, pacman_locked) == Plan::Clean(CleanMode::Gentle),
        !active ==> p.plan_spec(active, pacman_locked) == Plan::Clean(CleanMode::Aggressive),
{
}

/// A dry run runs nothing: no step of its dialogue runs a command.
pub proof fn law_dry_run_never_runs_a_command(
    p: Plugin,
    mode: CleanMode,
    ticket: usize,
    found: bool,
)
    ensures
        !(p.for_run(true, p.start_spec(mode)) is Run),
        !(p.for_run(true, p.after_check_spec(mode, ticket, found)) is Run),
        !(p.as_dry(p.after_success_spec(mode, ticket)) is Run),
{
}

/// A dry run previews exactly the real run: at each point where the real
/// run would run a command it prints that command's line instead, every
/// other step is the same, and after the line it goes on as the real run
/// goes on after the command succeeded.
pub proof fn law_dry_run_mirrors_the_real_run(
    p: Plugin,
    mode: CleanMode,
    ticket: usize,
    v: StepView,
    out: String,
)
    ensures
        v matches StepView::Run(t, c, _) ==> p.for_run(true, v) == StepView::Print(
            t,
            "[DRY-RUN "@ + p.name_spec() + "] "@ + c,
        ),
        !(v is Run) ==> p.for_run(true, v) == v,
        p.for_run(false, v) == v,
        p.after_success_spec(mode, ticket) == p.after_run_spec(mode, ticket, Ok(out)),
{
}

/// The lines a dry run prints from step `v` on, the lookup of ticket `t`
/// answered by `found(t)`, within `fuel` answers.
pub open spec fn printed_lines(
    p: Plugin,
    mode: CleanMode,
    v: StepView,
    found: spec_fn(usize) -> bool,
    fuel: nat,
) -> Seq<Seq<char>>
    decreases fuel,
{
    if fuel == 0 {
        seq![]
    } else {
        match v {
            StepView::CheckBinary(t, _) => printed_lines(
                p,
                mode,
                p.for_run(true, p.after_check_spec(mode, t, found(t))),
                found,
                (fuel - 1) as nat,
            ),
            StepView::Print(t, line) => seq![line] + printed_lines(
                p,
                mode,
                p.as_dry(p.after_success_spec(mode, t)),
                found,
                (fuel - 1) as nat,
            ),
            _ => seq![],
        }
    }
}

/// The commands a real run runs from step `v` on, with the same lookups,
/// when every command succeeds, within `fuel` answers.
pub open spec fn commands_run(
    p: Plugin,
    mode: CleanMode,
    v: StepView,
    found: spec_fn(usize) -> bool,
    fuel: nat,
) -> Seq<Seq<char>>
    decreases fuel,
{
    if fuel == 0 {
        seq![]
    } else {
        match v {
            StepView::CheckBinary(t, _) => commands_run(
                p,
                mode,
                p.after_check_spec(mode, t, found(t)),
                found,
                (fuel - 1) as nat,
            ),
            StepView::Run(t, c, _) => seq![c] + commands_run(
                p,
                mode,
                p.after_success_spec(mode, t),
                found,
                (fuel - 1) as nat,
            ),
            _ => seq![],
        }
    }
}

proof fn lemma_printed_lines_from(
    p: Plugin,
    mode: CleanMode,
    v: StepView,
    found: spec_fn(usize) -> bool,
    fuel: nat,
)
    requires
        !(v is Print),
    ensures
        printed_lines(p, mode, p.as_dry(v), found, fuel) == commands_run(
            p,
            mode,
            v,
            found,
            fuel,
        ).map_values(|c: Seq<char>| preview_line(p.name_spec(), c)),
    decreases fuel,
{
    let f = |c: Seq<char>| preview_line(p.name_spec(), c);
    if fuel == 0 {
        assert(commands_run(p, mode, v, found, fuel).map_values(f) =~= seq![]);
    } else {
        match v {
            StepView::CheckBinary(t, _) => {
                lemma_printed_lines_from(
                    p,
                    mode,
                    p.after_check_spec(mode, t, found(t)),
                    found,
                    (fuel - 1) as nat,
                );
            },
            StepView::Run(t, c, _) => {
                let rest = commands_run(p, mode, p.after_success_spec(mode, t), found, (fuel - 1) as nat);
                lemma_printed_lines_from(p, mode, p.after_success_spec(mode, t), found, (fuel - 1) as nat);
                assert((seq![c] + rest).map_values(f) =~= seq![f(c)] + rest.map_values(f));
            },
            _ => {
                assert(commands_run(p, mode, v, found, fuel).map_values(f) =~= seq![]);
            },
        }
    }
}

/// Over a whole cleaning, a dry run prints exactly the lines of the
/// commands that the real cleaning in the same mode runs, in order, when
/// the lookups find the same binaries and every command succeeds.
pub proof fn law_dry_run_prints_the_commands_of_the_real_run(
    p: Plugin,
    mode: CleanMode,
    found: spec_fn(usize) -> bool,
    fuel: nat,
)
    ensures
        printed_lines(p, mode, p.for_run(true, p.start_spec(mode)), found, fuel) == commands_run(
            p,
            mode,
            p.start_spec(mode),
            found,
            fuel,
        ).map_values(|c: Seq<char>| preview_line(p.name_spec(), c)),
{
    lemma_printed_lines_from(p, mode, p.start_spec(mode), found, fuel);
}

/// The commands a plugin ever runs to clean: its package manager's or
/// container runtime's own cleaning commands, nothing that removes files by
/// itself.
pub open spec fn is_native_command(p: Plugin, c: Seq<char>) -> bool {
    match p {
        Plugin::Pacman(q) => {
            ||| c == paccache_command(q.keep_for(CleanMode::Aggressive))
            ||| c == paccache_command(q.keep_for(CleanMode::Gentle))
        },
        Plugin::Node(_) => {
            ||| c == "npm cache clean --force"@
            ||| c == "pnpm store prune"@
            ||| c == "yarn cache clean --all"@
            ||| c == "npm cache verify"@
        },
        Plugin::Docker(q) => {
            ||| c == system_prune_command(q.runtime(), q.settings().plugins.docker.prune_volumes)
            ||| c == image_prune_command(q.runtime())
        },
    }
}

/// A step that runs a command runs a native one, with a time limit of one
/// or two minutes.
pub open spec fn step_is_native(p: Plugin, v: StepView) -> bool {
    v matches StepView::Run(_, c, s) ==> is_native_command(p, c) && (s == 60 || s == 120)
}

/// Every command a cleaning runs, at any step, is a native cleaning command
/// of the plugin's manager or runtime, and runs under a time limit.
pub proof fn law_cleaning_runs_only_native_commands(
    p: Plugin,
    mode: CleanMode,
    ticket: usize,
    found: bool,
    outcome: Result<String, ExecError>,
)
    ensures
        step_is_native(p, p.start_spec(mode)),
        step_is_native(p, p.after_run_spec(mode, ticket, outcome)),
        p is Node ==> step_is_native(p, p->Node_0.after_check_spec(mode, ticket, found)),
{
    if let Plugin::Node(q) = p {
        if ticket < q.managers().len() {
            let m = q.managers()[ticket as int];
            if manager_command(m) is Some {
                assert(is_native_command(p, manager_command(m)->0));
            }
        }
    }
}

/// The number of managers the Node plugin goes through, 0 for the others.
pub open spec fn manager_count(p: Plugin) -> int {
    match p {
        Plugin::Node(q) => q.managers().len() as int,
        _ => 0,
    }
}

/// The plugin goes through its managers one by one: an aggressive Node
/// cleaning.
pub open spec fn walks_managers(p: Plugin, mode: CleanMode) -> bool {
    p is Node && mode == CleanMode::Aggressive
}

/// The tickets a cleaning hands out: below the number of managers for a
/// walk through them, 0 otherwise.
pub open spec fn ticket_ok(p: Plugin, mode: CleanMode, v: StepView) -> bool {
    match v {
        StepView::CheckBinary(t, _) => if walks_managers(p, mode) {
            t < manager_count(p)
        } else {
            t == 0
        },
        StepView::Run(t, _, _) => if walks_managers(p, mode) {
            t < manager_count(p)
        } else {
            t == 0
        },
        StepView::Print(t, _) => if walks_managers(p, mode) {
            t < manager_count(p)
        } else {
            t == 0
        },
        StepView::Done(_) => true,
    }
}

/// An upper bound on the number of answers a cleaning still waits for.
pub open spec fn step_rank(p: Plugin, mode: CleanMode, v: StepView) -> int {
    match v {
        StepView::Done(_) => 0,
        StepView::Run(t, _, _) => if walks_managers(p, mode) {
            2 * (manager_count(p) - t) - 1
        } else {
            1
        },
        StepView::Print(t, _) => if walks_managers(p, mode) {
            2 * (manager_count(p) - t) - 1
        } else {
            1
        },
        StepView::CheckBinary(t, _) => if walks_managers(p, mode) {
            2 * (manager_count(p) - t)
        } else {
            2
        },
    }
}

/// Every cleaning ends: it starts with at most twice as many pending answers
/// as there are managers, plus two, and each answer to a step it handed out
/// leaves strictly fewer; every ticket it hands out is a valid one.
pub proof fn law_cleaning_ends(
    p: Plugin,
    mode: CleanMode,
    ticket: usize,
    found: bool,
    outcome: Result<String, ExecError>,
    binary: Seq<char>,
    command: Seq<char>,
    timeout_secs: u64,
)
    ensures
        ticket_ok(p, mode, p.start_spec(mode)),
        0 <= step_rank(p, mode, p.start_spec(mode)) <= 2 * manager_count(p) + 2,
        ticket_ok(p, mode, StepView::Run(ticket, command, timeout_secs)) ==> {
            let next = p.after_run_spec(mode, ticket, outcome);
            &&& ticket_ok(p, mode, next)
            &&& 0 <= step_rank(p, mode, next) < step_rank(
                p,
                mode,
                StepView::Run(ticket, command, timeout_secs),
            )
        },
        p is Node && ticket_ok(p, mode, StepView::CheckBinary(ticket, binary)) ==> {
            let next = p->Node_0.after_check_spec(mode, ticket, found);
            &&& ticket_ok(p, mode, next)
            &&& 0 <= step_rank(p, mode, next) < step_rank(
                p,
                mode,
                StepView::CheckBinary(ticket, binary),
            )
        },
{
    match p {
        Plugin::Node(q) => {
            let n = q.managers().len();
            assert(n == q.settings().plugins.node.managers@.len());
            assert(q.settings().plugins.node.managers.len() == q.settings().plugins.node.managers@.len());
            if mode == CleanMode::Aggressive && ticket < n {
                let next_t = ticket + 1;
                assert(next_t <= usize::MAX);
                if next_t < n {
                    assert((next_t as usize) as int == next_t);
                }
            }
        },
        _ => {},
    }
}

/// The commands an aggressive dialogue runs, in order, when every lookup
/// finds its binary and every command succeeds (within `fuel` answers).
pub open spec fn commands_when_all_succeed(p: Plugin, v: StepView, fuel: nat) -> Seq<Seq<char>>
    decreases fuel,
{
    if fuel == 0 {
        seq![]
    } else {
        match v {
            StepView::CheckBinary(t, _) => commands_when_all_succeed(
                p,
                p.after_check_spec(CleanMode::Aggressive, t, true),
                (fuel - 1) as nat,
            ),
            StepView::Run(t, c, _) => seq![c] + commands_when_all_succeed(
                p,
                p.after_success_spec(CleanMode::Aggressive, t),
                (fuel - 1) as nat,
            ),
            _ => seq![],
        }
    }
}

proof fn lemma_node_commands_from(q: NodePlugin, i: int, fuel: nat)
    requires
        0 <= i <= q.managers().len(),
        fuel >= 2 * (q.managers().len() - i),
    ensures
        commands_when_all_succeed(Plugin::Node(q), q.next_manager_spec(i), fuel)
            == q.known_commands_from(i),
    decreases q.managers().len() - i,
{
    let p = Plugin::Node(q);
    let n = q.managers().len();
    assert(n == q.settings().plugins.node.managers@.len());
    assert(q.settings().plugins.node.managers.len() == q.settings().plugins.node.managers@.len());
    if i < n {
        let t = i as usize;
        assert(t as int == i);
        let m = q.managers()[i];
        let a1 = q.after_check_spec(CleanMode::Aggressive, t, true);
        match manager_command(m) {
            Some(c) => {
                assert(a1 == StepView::Run(t, c, 60));
                let a2 = p.after_success_spec(CleanMode::Aggressive, t);
                if m == "npm"@ {
                    assert(manager_command(m) == Some("npm cache clean --force"@));
                }
                assert(a2 == q.next_manager_spec(i + 1));
                lemma_node_commands_from(q, i + 1, (fuel - 2) as nat);
                assert(commands_when_all_succeed(p, a1, (fuel - 1) as nat) == seq![c]
                    + commands_when_all_succeed(p, a2, (fuel - 2) as nat));
            },
            None => {
                assert(a1 == q.next_manager_spec(i + 1));
                lemma_node_commands_from(q, i + 1, (fuel - 1) as nat);
            },
        }
    } else {
        if fuel > 0 {
            assert(q.next_manager_spec(i) == StepView::Done(Ok(())));
        }
    }
}

/// A plugin lists as its commands exactly those its aggressive cleaning
/// runs when every binary is installed and every command succeeds, in
/// order; for containers that includes `--volumes` when volumes are pruned.
pub proof fn law_listed_commands_are_the_aggressive_run(p: Plugin)
    ensures
        commands_when_all_succeed(
            p,
            p.start_spec(CleanMode::Aggressive),
            (2 * manager_count(p) + 2) as nat,
        ) == p.dry_run_spec(),
{
    match p {
        Plugin::Node(q) => {
            lemma_node_commands_from(q, 0, (2 * manager_count(p) + 2) as nat);
        },
        Plugin::Pacman(q) => {
            let c = paccache_command(q.keep_for(CleanMode::Aggressive));
            assert(commands_when_all_succeed(p, p.start_spec(CleanMode::Aggressive), 2) == seq![c]
                + commands_when_all_succeed(p, p.after_success_spec(CleanMode::Aggressive, 0), 1));
            assert(seq![c] + Seq::<Seq<char>>::empty() =~= seq![c]);
        },
        Plugin::Docker(q) => {
            if q.installed_spec() {
                let c = system_prune_command(q.runtime(), q.settings().plugins.docker.prune_volumes);
                assert(commands_when_all_succeed(p, p.start_spec(CleanMode::Aggressive), 2)
                    == seq![c] + commands_when_all_succeed(
                    p,
                    p.after_success_spec(CleanMode::Aggressive, 0),
                    1,
                ));
                assert(seq![c] + Seq::<Seq<char>>::empty() =~= seq![c]);
            }
        },
    }
}

/// The step after answering `v`: the lookup of ticket `t` finds the binary
/// when `found(t)`, the command of ticket `t` ends with `outcome(t)`.
pub open spec fn answer(
    p: Plugin,
    mode: CleanMode,
    v: StepView,
    found: spec_fn(usize) -> bool,
    outcome: spec_fn(usize) -> Result<String, ExecError>,
) -> StepView {
    match v {
        StepView::CheckBinary(t, _) => match p {
            Plugin::Node(q) => q.after_check_spec(mode, t, found(t)),
            _ => v,
        },
        StepView::Run(t, _, _) => p.after_run_spec(mode, t, outcome(t)),
        _ => v,
    }
}

/// Where a cleaning stands after `fuel` answers from the given oracles.
pub open spec fn drive(
    p: Plugin,
    mode: CleanMode,
    v: StepView,
    found: spec_fn(usize) -> bool,
    outcome: spec_fn(usize) -> Result<String, ExecError>,
    fuel: nat,
) -> StepView
    decreases fuel,
{
    if fuel == 0 {
        v
    } else {
        drive(p, mode, answer(p, mode, v, found, outcome), found, outcome, (fuel - 1) as nat)
    }
}

/// How an aggressive Node cleaning ends from the manager at position `i` on:
/// at the first installed npm whose cleaning fails, with that failure's
/// message; otherwise with success.
pub open spec fn node_walk(
    q: NodePlugin,
    i: int,
    found: spec_fn(usize) -> bool,
    outcome: spec_fn(usize) -> Result<String, ExecError>,
) -> Result<(), Seq<char>>
    decreases q.managers().len() - i,
{
    if i < 0 || i >= q.managers().len() {
        Ok(())
    } else if found(i as usize) && q.managers()[i] == "npm"@ && outcome(i as usize) is Err {
        clean_result(outcome(i as usize))
    } else {
        node_walk(q, i + 1, found, outcome)
    }
}

proof fn lemma_drive_done(
    p: Plugin,
    mode: CleanMode,
    r: Result<(), Seq<char>>,
    found: spec_fn(usize) -> bool,
    outcome: spec_fn(usize) -> Result<String, ExecError>,
    fuel: nat,
)
    ensures
        drive(p, mode, StepView::Done(r), found, outcome, fuel) == StepView::Done(r),
    decreases fuel,
{
    if fuel > 0 {
        lemma_drive_done(p, mode, r, found, outcome, (fuel - 1) as nat);
    }
}

proof fn lemma_node_walk_from(
    q: NodePlugin,
    i: int,
    found: spec_fn(usize) -> bool,
    outcome: spec_fn(usize) -> Result<String, ExecError>,
    fuel: nat,
)
    requires
        0 <= i <= q.managers().len(),
        fuel >= 2 * (q.managers().len() - i),
    ensures
        drive(Plugin::Node(q), CleanMode::Aggressive, q.next_manager_spec(i), found, outcome, fuel)
            == StepView::Done(node_walk(q, i, found, outcome)),
    decreases q.managers().len() - i,
{
    let p = Plugin::Node(q);
    let mode = CleanMode::Aggressive;
    let n = q.managers().len();
    assert(n == q.settings().plugins.node.managers@.len());
    assert(q.settings().plugins.node.managers.len() == q.settings().plugins.node.managers@.len());
    if i >= n {
        lemma_drive_done(p, mode, Ok(()), found, outcome, fuel);
    } else {
        let t = i as usize;
        assert(t as int == i);
        let v = q.next_manager_spec(i);
        assert(v == StepView::CheckBinary(t, q.managers()[i]));
        let a1 = answer(p, mode, v, found, outcome);
        assert(a1 == q.after_check_spec(mode, t, found(t)));
        assert(drive(p, mode, v, found, outcome, fuel) == drive(
            p,
            mode,
            a1,
            found,
            outcome,
            (fuel - 1) as nat,
        ));
        let m = q.managers()[i];
        if !found(t) || manager_command(m) is None {
            assert(a1 == q.next_manager_spec(i + 1));
            lemma_node_walk_from(q, i + 1, found, outcome, (fuel - 1) as nat);
            if found(t) && m == "npm"@ {
                assert(manager_command(m) is Some);
            }
        } else {
            let c = manager_command(m)->0;
            assert(a1 == StepView::Run(t, c, 60));
            let a2 = answer(p, mode, a1, found, outcome);
            assert(a2 == q.after_run_spec(mode, t, outcome(t)));
            assert(drive(p, mode, a1, found, outcome, (fuel - 1) as nat) == drive(
                p,
                mode,
                a2,
                found,
                outcome,
                (fuel - 2) as nat,
            ));
            if m == "npm"@ && outcome(t) is Err {
                lemma_drive_done(
                    p,
                    mode,
                    clean_result(outcome(t)),
                    found,
                    outcome,
                    (fuel - 2) as nat,
                );
            } else {
                assert(a2 == q.next_manager_spec(i + 1));
                lemma_node_walk_from(q, i + 1, found, outcome, (fuel - 2) as nat);
            }
        }
    }
}

proof fn lemma_node_walk_fails_only_on_npm(
    q: NodePlugin,
    i: int,
    found: spec_fn(usize) -> bool,
    outcome: spec_fn(usize) -> Result<String, ExecError>,
)
    requires
        0 <= i <= q.managers().len(),
    ensures
        node_walk(q, i, found, outcome) is Err <==> exists|j: int|
            i <= j < q.managers().len() && #[trigger] found(j as usize) && q.managers()[j] == "npm"@
                && outcome(j as usize) is Err,
        node_walk(q, i, found, outcome) matches Err(e) ==> exists|j: int|
            i <= j < q.managers().len() && #[trigger] found(j as usize) && q.managers()[j] == "npm"@
                && outcome(j as usize) is Err && e == outcome(j as usize)->Err_0.message_view(),
    decreases q.managers().len() - i,
{
    let n = q.managers().len();
    if i < n {
        lemma_node_walk_fails_only_on_npm(q, i + 1, found, outcome);
        if found(i as usize) && q.managers()[i] == "npm"@ && outcome(i as usize) is Err {
            assert(i <= i < n && found(i as usize));
        } else {
            assert forall|j: int|
                i <= j < n && #[trigger] found(j as usize) && q.managers()[j] == "npm"@ && outcome(
                    j as usize,
                ) is Err implies i + 1 <= j by {
                if j == i {
                }
            }
        }
    }
}

/// An aggressive Node cleaning, whatever the lookups find and the commands
/// do, ends within two answers per manager; it fails exactly when an
/// installed npm's cache cleaning fails, with that failure's message, and
/// never because of pnpm, yarn or an unknown manager.
pub proof fn law_node_cleaning_fails_only_on_npm(
    q: NodePlugin,
    found: spec_fn(usize) -> bool,
    outcome: spec_fn(usize) -> Result<String, ExecError>,
)
    ensures
        ({
            let p = Plugin::Node(q);
            let end = drive(
                p,
                CleanMode::Aggressive,
                p.start_spec(CleanMode::Aggressive),
                found,
                outcome,
                (2 * q.managers().len()) as nat,
            );
            &&& end == StepView::Done(node_walk(q, 0, found, outcome))
            &&& (end matches StepView::Done(Err(_)) <==> exists|j: int|
                0 <= j < q.managers().len() && #[trigger] found(j as usize) && q.managers()[j]
                    == "npm"@ && outcome(j as usize) is Err)
            &&& (end matches StepView::Done(Err(e)) ==> exists|j: int|
                0 <= j < q.managers().len() && #[trigger] found(j as usize) && q.managers()[j]
                    == "npm"@ && outcome(j as usize) is Err && e == outcome(j as usize)->Err_0.message_view())
        }),
{
    lemma_node_walk_from(q, 0, found, outcome, (2 * q.managers().len()) as nat);
    lemma_node_walk_fails_only_on_npm(q, 0, found, outcome);
}

} // verus!

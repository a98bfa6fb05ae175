use vstd::prelude::*;

use crate::console::ConsoleId;
use crate::registry::ConsoleMode;
use crate::supervisor::{
    declares, expects, plan_env, plan_wiring, runtime_dir_key, step_spec, Action, Message,
    Outcome, Phase, Priority, Run, RunError, RunEvent, Stream, WaitOutcome, Wiring,
};

verus! {

pub open spec fn is_critical(a: Action) -> bool {
    a is Log && a->Log_0 == Priority::Critical
}

/// Graphical programs read empty input and have both outputs captured;
/// text programs have all three streams on their console, and no step of
/// their run ever captures a stream.
pub proof fn wiring_follows_mode(r: Run, e: RunEvent)
    requires
        expects(r.phase, e),
    ensures
        plan_wiring(ConsoleMode::Graphical) == (Wiring::Null, Wiring::Piped, Wiring::Piped),
        plan_wiring(ConsoleMode::Console) == (
            Wiring::Device(ConsoleId::Text),
            Wiring::Device(ConsoleId::Text),
            Wiring::Device(ConsoleId::Text),
        ),
        r.mode == ConsoleMode::Console ==> forall|i: int|
            0 <= i < step_spec(r, e).1.len() ==> !(#[trigger] step_spec(r, e).1[i] is Relay),
        r.mode == ConsoleMode::Graphical && r.phase == Phase::Spawning && e == (RunEvent::SpawnDone {
            started: true,
            stdout: true,
            stderr: true,
        }) ==> step_spec(r, e).1 == seq![
            Action::Relay(Stream::Stdout, Priority::Info),
            Action::Relay(Stream::Stderr, Priority::Error),
            Action::Wait,
        ],
{
}

/// A runtime directory that the entry sets is never overwritten; one it
/// does not set is added with the fixed default.
pub proof fn runtime_dir_kept_or_added(env: Seq<(Seq<char>, Seq<char>)>)
    ensures
        declares(env, runtime_dir_key()) ==> plan_env(ConsoleMode::Graphical, env) == env,
        !declares(env, runtime_dir_key()) ==> plan_env(ConsoleMode::Graphical, env) == env.push(
            (runtime_dir_key(), "/xdg"@),
        ),
{
}

/// A program that exits with code 0 gives no critical message; one that
/// exits with another code gives exactly one, naming that code.
pub proof fn exit_code_reported_once(r: Run, c: i32)
    requires
        r.phase == Phase::Running,
    ensures
        ({
            let acts = step_spec(r, RunEvent::WaitDone(WaitOutcome::Exited(c))).1;
            &&& c == 0 ==> forall|i: int| 0 <= i < acts.len() ==> !is_critical(#[trigger] acts[i])
            &&& c != 0 ==> acts[0] == Action::Log(Priority::Critical, Message::ExitCode(c))
                && forall|i: int| 1 <= i < acts.len() ==> !is_critical(#[trigger] acts[i])
        }),
{
    let acts = step_spec(r, RunEvent::WaitDone(WaitOutcome::Exited(c))).1;
    if c == 0 {
        assert forall|i: int| 0 <= i < acts.len() implies !is_critical(#[trigger] acts[i]) by {}
    } else {
        assert forall|i: int| 1 <= i < acts.len() implies !is_critical(#[trigger] acts[i]) by {}
    }
}

/// The program is never started before the switch to its console
/// succeeded; when that switch fails, the run is over.
pub proof fn failed_switch_never_spawns(r: Run, e: RunEvent)
    requires
        r.privileged,
        r.phase == Phase::Start,
    ensures
        forall|i: int|
            0 <= i < step_spec(r, e).1.len() ==> !(#[trigger] step_spec(r, e).1[i] is Spawn),
        step_spec(r, e).0 == Phase::SwitchingIn,
        ({
            let run_b = Run { phase: Phase::SwitchingIn, ..r };
            step_spec(run_b, RunEvent::SwitchDone(false)) == (
                Phase::Finished,
                seq![Action::Finish(Outcome::Failed(RunError::SwitchIn))],
            )
        }),
        forall|e2: RunEvent| !expects(Phase::Finished, e2),
{
}

/// Without the privilege to control consoles no switch is asked for, and
/// the program is still started and waited for, and the run succeeds.
pub proof fn unprivileged_run_completes(
    mode: ConsoleMode,
    declared: bool,
    stdout: bool,
    stderr: bool,
    c: i32,
)
    ensures
        ({
            let run_a = Run { mode, privileged: false, runtime_dir_declared: declared, phase: Phase::Start };
            let (phase_a, acts_a) = step_spec(run_a, RunEvent::Begin);
            let run_b = Run { phase: phase_a, ..run_a };
            let spawned = RunEvent::SpawnDone { started: true, stdout, stderr };
            let (phase_b, acts_b) = step_spec(run_b, spawned);
            let run_c = Run { phase: phase_b, ..run_a };
            let exited = RunEvent::WaitDone(WaitOutcome::Exited(c));
            let (phase_c, acts_c) = step_spec(run_c, exited);
            &&& phase_a == Phase::Spawning && acts_a.contains(Action::Spawn)
            &&& expects(phase_a, spawned)
            &&& phase_b == Phase::Running && acts_b.last() == Action::Wait
            &&& expects(phase_b, exited)
            &&& phase_c == Phase::Finished && acts_c.last() == Action::Finish(Outcome::Success)
            &&& forall|i: int| 0 <= i < acts_a.len() ==> !(#[trigger] acts_a[i] is SwitchConsole)
            &&& forall|i: int| 0 <= i < acts_c.len() ==> !(#[trigger] acts_c[i] is SwitchConsole)
        }),
{
    let run_a = Run { mode, privileged: false, runtime_dir_declared: declared, phase: Phase::Start };
    let acts_a = step_spec(run_a, RunEvent::Begin).1;
    assert(acts_a[acts_a.len() - 1] == Action::Spawn);
}

} // verus!

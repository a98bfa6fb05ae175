use smenu::console::{clear_sequence, control_devices, ConsoleId, Switch, SwitchAction};
use smenu::launcher::{loop_step, LoopAction, LoopEvent, LoopState};
use smenu::registry::{ConsoleMode, Entry, Registry};
use smenu::config::{Category, MenuEntry, MenuLayout};
use smenu::relay::{relay_decision, ReadOutcome, RelayAction};
use smenu::supervisor::{
    spawn_plan, Action, Message, Outcome, Phase, Priority, Run, RunError, RunEvent, Stream, WaitOutcome,
    Wiring,
};

fn s(x: &str) -> String {
    x.to_string()
}

fn entry(mode: ConsoleMode, env: Vec<(String, String)>) -> Entry {
    Entry { id: 0, name: s("app"), mode, executable: s("/usr/bin/app"), args: vec![s("-x")], env }
}

fn started(stdout: bool, stderr: bool) -> RunEvent {
    RunEvent::SpawnDone { started: true, stdout, stderr }
}

#[test]
fn graphical_plan_captures_output() {
    let plan = spawn_plan(&entry(ConsoleMode::Graphical, vec![(s("A"), s("1"))]));
    assert_eq!(plan.stdin, Wiring::Null);
    assert_eq!(plan.stdout, Wiring::Piped);
    assert_eq!(plan.stderr, Wiring::Piped);
    assert_eq!(plan.program, "/usr/bin/app");
    assert_eq!(plan.args, vec![s("-x")]);
    assert_eq!(plan.env, vec![(s("A"), s("1")), (s("XDG_RUNTIME_DIR"), s("/xdg"))]);
}

#[test]
fn graphical_plan_keeps_declared_runtime_dir() {
    let env = vec![(s("XDG_RUNTIME_DIR"), s("/run/user/0"))];
    let e = entry(ConsoleMode::Graphical, env.clone());
    assert_eq!(spawn_plan(&e).env, env);
    let mut run = Run::new(&e, true);
    assert!(run.runtime_dir_declared);
    run.step(RunEvent::Begin);
    let acts = run.step(RunEvent::SwitchDone(true));
    assert_eq!(acts, vec![Action::Log(Priority::Info, Message::RuntimeDirKept), Action::Spawn]);
}

#[test]
fn console_plan_uses_text_console() {
    let plan = spawn_plan(&entry(ConsoleMode::Console, vec![]));
    assert_eq!(plan.stdin, Wiring::Device(ConsoleId::Text));
    assert_eq!(plan.stdout, Wiring::Device(ConsoleId::Text));
    assert_eq!(plan.stderr, Wiring::Device(ConsoleId::Text));
    assert_eq!(plan.env, vec![(s("TERM"), s("linux"))]);
    assert_eq!(ConsoleId::Text.device_path(), "/dev/tty3");
}

#[test]
fn graphical_run_in_order() {
    let mut run = Run::new(&entry(ConsoleMode::Graphical, vec![]), true);
    assert_eq!(
        run.step(RunEvent::Begin),
        vec![Action::Log(Priority::Debug, Message::Starting), Action::SwitchConsole(ConsoleId::Display, false)]
    );
    assert_eq!(run.step(RunEvent::SwitchDone(true)), vec![Action::Spawn]);
    assert_eq!(
        run.step(started(true, false)),
        vec![
            Action::Relay(Stream::Stdout, Priority::Info),
            Action::Log(Priority::Error, Message::HandleMissing(Stream::Stderr)),
            Action::Wait,
        ]
    );
    assert_eq!(
        run.step(RunEvent::WaitDone(WaitOutcome::Exited(0))),
        vec![Action::SwitchConsole(ConsoleId::Menu, false)]
    );
    assert_eq!(run.step(RunEvent::SwitchDone(true)), vec![Action::Finish(Outcome::Success)]);
    assert_eq!(run.phase, Phase::Finished);
}

#[test]
fn console_run_clears_and_never_relays() {
    let mut run = Run::new(&entry(ConsoleMode::Console, vec![]), true);
    assert_eq!(
        run.step(RunEvent::Begin),
        vec![Action::Log(Priority::Debug, Message::Starting), Action::SwitchConsole(ConsoleId::Text, true)]
    );
    assert_eq!(run.step(RunEvent::SwitchDone(true)), vec![Action::Spawn]);
    assert_eq!(run.step(started(false, false)), vec![Action::Wait]);
}

#[test]
fn exit_code_zero_logs_nothing_critical() {
    let mut run = Run { mode: ConsoleMode::Graphical, privileged: true, runtime_dir_declared: false, phase: Phase::Running };
    let acts = run.step(RunEvent::WaitDone(WaitOutcome::Exited(0)));
    assert!(acts.iter().all(|a| !matches!(a, Action::Log(Priority::Critical, _))));
}

#[test]
fn exit_code_seven_logs_once() {
    let mut run = Run { mode: ConsoleMode::Graphical, privileged: true, runtime_dir_declared: false, phase: Phase::Running };
    let acts = run.step(RunEvent::WaitDone(WaitOutcome::Exited(7)));
    let critical: Vec<&Action> = acts.iter().filter(|a| matches!(a, Action::Log(Priority::Critical, _))).collect();
    assert_eq!(critical, vec![&Action::Log(Priority::Critical, Message::ExitCode(7))]);
    assert_eq!(run.phase, Phase::SwitchingOut(false));
}

#[test]
fn signal_is_logged_critically() {
    let mut run = Run { mode: ConsoleMode::Console, privileged: true, runtime_dir_declared: false, phase: Phase::Running };
    let acts = run.step(RunEvent::WaitDone(WaitOutcome::Signaled(9)));
    assert_eq!(
        acts,
        vec![Action::Log(Priority::Critical, Message::ExitSignal(9)), Action::SwitchConsole(ConsoleId::Menu, false)]
    );
}

#[test]
fn failed_switch_in_never_spawns() {
    let mut run = Run::new(&entry(ConsoleMode::Graphical, vec![]), true);
    run.step(RunEvent::Begin);
    let acts = run.step(RunEvent::SwitchDone(false));
    assert_eq!(acts, vec![Action::Finish(Outcome::Failed(RunError::SwitchIn))]);
    assert_eq!(run.phase, Phase::Finished);
}

#[test]
fn failed_spawn_ends_run() {
    let mut run = Run::new(&entry(ConsoleMode::Graphical, vec![]), true);
    run.step(RunEvent::Begin);
    run.step(RunEvent::SwitchDone(true));
    let acts = run.step(RunEvent::SpawnDone { started: false, stdout: false, stderr: false });
    assert_eq!(acts, vec![Action::Finish(Outcome::Failed(RunError::Spawn))]);
}

#[test]
fn failed_wait_still_switches_back() {
    let mut run = Run { mode: ConsoleMode::Graphical, privileged: true, runtime_dir_declared: false, phase: Phase::Running };
    assert_eq!(
        run.step(RunEvent::WaitDone(WaitOutcome::Failed)),
        vec![Action::SwitchConsole(ConsoleId::Menu, false)]
    );
    assert_eq!(run.step(RunEvent::SwitchDone(true)), vec![Action::Finish(Outcome::Failed(RunError::Wait))]);
}

#[test]
fn failed_switch_out_fails_run() {
    let mut run = Run { mode: ConsoleMode::Graphical, privileged: true, runtime_dir_declared: false, phase: Phase::SwitchingOut(false) };
    assert_eq!(run.step(RunEvent::SwitchDone(false)), vec![Action::Finish(Outcome::Failed(RunError::SwitchOut))]);
}

#[test]
fn unprivileged_run_spawns_and_waits() {
    let mut run = Run::new(&entry(ConsoleMode::Console, vec![]), false);
    assert_eq!(
        run.step(RunEvent::Begin),
        vec![
            Action::Log(Priority::Debug, Message::Starting),
            Action::Log(Priority::Info, Message::ConsoleSwitchSkipped),
            Action::Spawn,
        ]
    );
    assert_eq!(run.step(started(false, false)), vec![Action::Wait]);
    assert_eq!(
        run.step(RunEvent::WaitDone(WaitOutcome::Exited(0))),
        vec![Action::Log(Priority::Info, Message::ConsoleSwitchSkipped), Action::Finish(Outcome::Success)]
    );
}

#[test]
fn switch_falls_back_to_second_device() {
    let (mut sw, first) = Switch::new(ConsoleId::Text, true);
    assert_eq!(first, SwitchAction::OpenControl(0));
    assert_eq!(sw.step(false), SwitchAction::OpenControl(1));
    assert_eq!(sw.step(true), SwitchAction::Activate(3));
    assert_eq!(sw.step(true), SwitchAction::WaitActive(3));
    assert_eq!(sw.step(true), SwitchAction::Clear(ConsoleId::Text));
    assert_eq!(sw.step(true), SwitchAction::Done(true));
}

#[test]
fn switch_fails_when_no_device_opens() {
    let (mut sw, _) = Switch::new(ConsoleId::Display, false);
    assert_eq!(sw.step(false), SwitchAction::OpenControl(1));
    assert_eq!(sw.step(false), SwitchAction::Done(false));
}

#[test]
fn switch_without_clear_ends_after_wait() {
    let (mut sw, _) = Switch::new(ConsoleId::Menu, false);
    assert_eq!(sw.step(true), SwitchAction::Activate(1));
    assert_eq!(sw.step(true), SwitchAction::WaitActive(1));
    assert_eq!(sw.step(true), SwitchAction::Done(true));
    let (mut sw, _) = Switch::new(ConsoleId::Menu, false);
    sw.step(true);
    assert_eq!(sw.step(false), SwitchAction::Done(false));
}

#[test]
fn console_constants() {
    assert_eq!(control_devices(), vec![s("/dev/tty"), s("/dev/tty0")]);
    assert_eq!(clear_sequence(), b"\x1B[2J\x1B[1;1H".to_vec());
    assert_eq!(ConsoleId::Display.number(), 2);
}

#[test]
fn relay_forwards_retries_and_stops() {
    assert_eq!(relay_decision(ReadOutcome::Read(4), "abc\n"), RelayAction::Forward);
    assert_eq!(relay_decision(ReadOutcome::Read(3), ""), RelayAction::Retry);
    assert_eq!(relay_decision(ReadOutcome::Read(0), ""), RelayAction::Stop);
    assert_eq!(relay_decision(ReadOutcome::Failed, "abc"), RelayAction::Stop);
}

fn one_entry_registry() -> Registry {
    let layout = MenuLayout {
        items: vec![MenuEntry {
            name: s("shell"),
            category: Category::Tools,
            uses_wayland: false,
            executable: s("/bin/sh"),
            args: vec![],
            env: vec![],
        }],
        emulators: vec![],
        systems: vec![],
    };
    Registry::build(&layout, &vec![])
}

#[test]
fn loop_launches_known_entries_only() {
    let reg = one_entry_registry();
    let (st, acts) = loop_step(LoopState::Idle, LoopEvent::Pressed(5), &reg);
    assert_eq!(st, LoopState::Idle);
    assert!(acts.is_empty());
    let (st, acts) = loop_step(LoopState::Idle, LoopEvent::Pressed(0), &reg);
    assert_eq!(st, LoopState::Busy);
    assert_eq!(acts, vec![LoopAction::IgnoreInput(true), LoopAction::Launch(0)]);
}

#[test]
fn loop_discards_events_while_busy() {
    let reg = one_entry_registry();
    let (st, acts) = loop_step(LoopState::Busy, LoopEvent::Quit, &reg);
    assert_eq!(st, LoopState::Busy);
    assert!(acts.is_empty());
    let (st, acts) = loop_step(LoopState::Busy, LoopEvent::RunFinished(Outcome::Failed(RunError::Spawn)), &reg);
    assert_eq!(st, LoopState::Idle);
    assert_eq!(acts, vec![LoopAction::LogFailure(RunError::Spawn), LoopAction::IgnoreInput(false)]);
    let (st, acts) = loop_step(LoopState::Busy, LoopEvent::RunFinished(Outcome::Success), &reg);
    assert_eq!(st, LoopState::Idle);
    assert_eq!(acts, vec![LoopAction::IgnoreInput(false)]);
}

#[test]
fn loop_quits_when_idle() {
    let reg = one_entry_registry();
    let (st, acts) = loop_step(LoopState::Idle, LoopEvent::Quit, &reg);
    assert_eq!(st, LoopState::Stopped);
    assert_eq!(acts, vec![LoopAction::Exit]);
    let (st, acts) = loop_step(LoopState::Idle, LoopEvent::Other, &reg);
    assert_eq!(st, LoopState::Idle);
    assert!(acts.is_empty());
}

use vstd::prelude::*;

use crate::console::{clears_target, target_console, ConsoleId};
use crate::registry::{clone_env, clone_strings, ConsoleMode, Entry};

verus! {

/// Priorities of the logging sink.
#[derive(Clone, Copy, Debug, PartialEq, Eq, Structural)]
pub enum Priority {
    Debug,
    Info,
    Error,
    Critical,
}

/// A child's output stream.
#[derive(Clone, Copy, Debug, PartialEq, Eq, Structural)]
pub enum Stream {
    Stdout,
    Stderr,
}

/// What a run has to report. The program is the one the run was made for.
#[derive(Clone, Copy, Debug, PartialEq, Eq, Structural)]
pub enum Message {
    /// The run begins.
    Starting,
    /// The process may not control consoles; switches are skipped.
    ConsoleSwitchSkipped,
    /// The entry declares the runtime directory itself; it is left alone.
    RuntimeDirKept,
    /// No handle on the stream was obtained; its lines are lost.
    HandleMissing(Stream),
    /// The program exited with this nonzero code.
    ExitCode(i32),
    /// The program was ended by this signal.
    ExitSignal(i32),
}

/// Why a run failed.
#[derive(Clone, Copy, Debug, PartialEq, Eq, Structural)]
pub enum RunError {
    /// Switching to the program's console failed; nothing was started.
    SwitchIn,
    /// The program could not be started.
    Spawn,
    /// Waiting for the program failed.
    Wait,
    /// Switching back to the menu's console failed.
    SwitchOut,
}

/// How a run ended.
#[derive(Clone, Copy, Debug, PartialEq, Eq, Structural)]
pub enum Outcome {
    Success,
    Failed(RunError),
}

/// What the caller does next on behalf of a run.
#[derive(Clone, Copy, Debug, PartialEq, Eq, Structural)]
pub enum Action {
    /// Post a message to the logging sink.
    Log(Priority, Message),
    /// Make the console active, clearing it first if asked; report with
    /// `SwitchDone`.
    SwitchConsole(ConsoleId, bool),
    /// Start the program as its spawn plan says; report with `SpawnDone`.
    Spawn,
    /// Forward the stream's lines to the logging sink, concurrently.
    Relay(Stream, Priority),
    /// Wait for the program to end; report with `WaitDone`.
    Wait,
    /// The run is over.
    Finish(Outcome),
}

/// How waiting for the program ended.
#[derive(Clone, Copy, Debug, PartialEq, Eq, Structural)]
pub enum WaitOutcome {
    Exited(i32),
    Signaled(i32),
    Failed,
}

/// What the caller reports back.
#[derive(Clone, Copy, Debug, PartialEq, Eq, Structural)]
pub enum RunEvent {
    Begin,
    SwitchDone(bool),
    /// Whether the program started, and whether a handle on each of its
    /// captured streams was obtained.
    SpawnDone { started: bool, stdout: bool, stderr: bool },
    WaitDone(WaitOutcome),
}

/// Where a run stands.
#[derive(Clone, Copy, Debug, PartialEq, Eq, Structural)]
pub enum Phase {
    Start,
    SwitchingIn,
    Spawning,
    Running,
    SwitchingOut(bool),
    Finished,
}

/// A run of one entry: its wiring policy, whether consoles may be switched,
/// and where it stands.
#[derive(Clone, Copy, Debug, PartialEq, Eq, Structural)]
pub struct Run {
    pub mode: ConsoleMode,
    pub privileged: bool,
    pub runtime_dir_declared: bool,
    pub phase: Phase,
}

/// The event each phase waits for.
pub open spec fn expects(p: Phase, e: RunEvent) -> bool {
    match p {
        Phase::Start => e == RunEvent::Begin,
        Phase::SwitchingIn => e is SwitchDone,
        Phase::Spawning => e is SpawnDone,
        Phase::Running => e is WaitDone,
        Phase::SwitchingOut(_) => e is SwitchDone,
        Phase::Finished => false,
    }
}

/// What is done once the program is known to have started.
pub open spec fn capture_actions(mode: ConsoleMode, stdout: bool, stderr: bool) -> Seq<Action> {
    if mode == ConsoleMode::Graphical {
        seq![
            if stdout {
                Action::Relay(Stream::Stdout, Priority::Info)
            } else {
                Action::Log(Priority::Error, Message::HandleMissing(Stream::Stdout))
            },
            if stderr {
                Action::Relay(Stream::Stderr, Priority::Error)
            } else {
                Action::Log(Priority::Error, Message::HandleMissing(Stream::Stderr))
            },
            Action::Wait,
        ]
    } else {
        seq![Action::Wait]
    }
}

/// What an ended program is reported as.
pub open spec fn exit_report(w: WaitOutcome) -> Seq<Action> {
    match w {
        WaitOutcome::Exited(c) => if c == 0 {
            Seq::empty()
        } else {
            seq![Action::Log(Priority::Critical, Message::ExitCode(c))]
        },
        WaitOutcome::Signaled(s) => seq![Action::Log(Priority::Critical, Message::ExitSignal(s))],
        WaitOutcome::Failed => Seq::empty(),
    }
}

/// The outcome once switching back is done.
pub open spec fn final_outcome(wait_failed: bool, switched: bool) -> Outcome {
    if wait_failed {
        Outcome::Failed(RunError::Wait)
    } else if !switched {
        Outcome::Failed(RunError::SwitchOut)
    } else {
        Outcome::Success
    }
}

/// The next phase and the actions for an expected event. Without the
/// privilege to switch consoles a switch is skipped as if it succeeded.
pub open spec fn step_spec(r: Run, e: RunEvent) -> (Phase, Seq<Action>) {
    match r.phase {
        Phase::Start => if r.privileged {
            (
                Phase::SwitchingIn,
                seq![
                    Action::Log(Priority::Debug, Message::Starting),
                    Action::SwitchConsole(target_console(r.mode), clears_target(r.mode)),
                ],
            )
        } else {
            (
                Phase::Spawning,
                seq![
                    Action::Log(Priority::Debug, Message::Starting),
                    Action::Log(Priority::Info, Message::ConsoleSwitchSkipped),
                ] + spawn_actions(r),
            )
        },
        Phase::SwitchingIn => if e == RunEvent::SwitchDone(true) {
            (Phase::Spawning, spawn_actions(r))
        } else {
            (Phase::Finished, seq![Action::Finish(Outcome::Failed(RunError::SwitchIn))])
        },
        Phase::Spawning => if e->started {
            (Phase::Running, capture_actions(r.mode, e->stdout, e->stderr))
        } else {
            (Phase::Finished, seq![Action::Finish(Outcome::Failed(RunError::Spawn))])
        },
        Phase::Running => {
            let w = e->WaitDone_0;
            let failed = w == WaitOutcome::Failed;
            if r.privileged {
                (
                    Phase::SwitchingOut(failed),
                    exit_report(w) + seq![Action::SwitchConsole(ConsoleId::Menu, false)],
                )
            } else {
                (
                    Phase::Finished,
                    exit_report(w) + seq![
                        Action::Log(Priority::Info, Message::ConsoleSwitchSkipped),
                        Action::Finish(final_outcome(failed, true)),
                    ],
                )
            }
        },
        Phase::SwitchingOut(failed) => (
            Phase::Finished,
            seq![Action::Finish(final_outcome(failed, e == RunEvent::SwitchDone(true)))],
        ),
        Phase::Finished => (Phase::Finished, Seq::empty()),
    }
}

/// The actions that start the program.
pub open spec fn spawn_actions(r: Run) -> Seq<Action> {
    if r.mode == ConsoleMode::Graphical && r.runtime_dir_declared {
        seq![Action::Log(Priority::Info, Message::RuntimeDirKept), Action::Spawn]
    } else {
        seq![Action::Spawn]
    }
}

} // verus!

verus! {

/// The variable that tells graphical programs where their runtime directory is.
pub open spec fn runtime_dir_key() -> Seq<char> {
    "XDG_RUNTIME_DIR"@
}

/// Whether an environment list sets `key`.
pub open spec fn declares(env: Seq<(Seq<char>, Seq<char>)>, key: Seq<char>) -> bool {
    exists|i: int| 0 <= i < env.len() && (#[trigger] env[i]).0 == key
}

fn declares_key(env: &Vec<(String, String)>, key: &String) -> (r: bool)
    ensures
        r == declares(env.deep_view(), key@),
{
    let mut i: usize = 0;
    while i < env.len()
        invariant
            i <= env.len(),
            forall|j: int| 0 <= j < i ==> (#[trigger] env.deep_view()[j]).0 != key@,
        decreases env.len() - i,
    {
        if env[i].0 == *key {
            assert(env.deep_view()[i as int].0 == key@);
            return true;
        }
        i = i + 1;
    }
    false
}

impl Run {
    /// A run of `entry`, not yet begun. `privileged` says whether the process
    /// may control consoles.
    pub fn new(entry: &Entry, privileged: bool) -> (r: Run)
        ensures
            r.mode == entry.mode,
            r.privileged == privileged,
            r.runtime_dir_declared == declares(entry.env.deep_view(), runtime_dir_key()),
            r.phase == Phase::Start,
    {
        let key = "XDG_RUNTIME_DIR".to_string();
        Run {
            mode: entry.mode,
            privileged,
            runtime_dir_declared: declares_key(&entry.env, &key),
            phase: Phase::Start,
        }
    }

    /// Takes the event the run waits for; returns what to do next.
    pub fn step(&mut self, e: RunEvent) -> (r: Vec<Action>)
        requires
            expects(old(self).phase, e),
        ensures
            (final(self).phase, r@) == step_spec(*old(self), e),
            final(self).mode == old(self).mode,
            final(self).privileged == old(self).privileged,
            final(self).runtime_dir_declared == old(self).runtime_dir_declared,
    {
        let mut acts: Vec<Action> = Vec::new();
        let ghost s0 = *self;
        match self.phase {
            Phase::Start => {
                acts.push(Action::Log(Priority::Debug, Message::Starting));
                if self.privileged {
                    let target = match self.mode {
                        ConsoleMode::Graphical => ConsoleId::Display,
                        ConsoleMode::Console => ConsoleId::Text,
                    };
                    let clear = match self.mode {
                        ConsoleMode::Graphical => false,
                        ConsoleMode::Console => true,
                    };
                    acts.push(Action::SwitchConsole(target, clear));
                    self.phase = Phase::SwitchingIn;
                } else {
                    acts.push(Action::Log(Priority::Info, Message::ConsoleSwitchSkipped));
                    self.push_spawn(&mut acts);
                    self.phase = Phase::Spawning;
                }
            },
            Phase::SwitchingIn => {
                if e == RunEvent::SwitchDone(true) {
                    self.push_spawn(&mut acts);
                    self.phase = Phase::Spawning;
                } else {
                    acts.push(Action::Finish(Outcome::Failed(RunError::SwitchIn)));
                    self.phase = Phase::Finished;
                }
            },
            Phase::Spawning => {
                if let RunEvent::SpawnDone { started, stdout, stderr } = e {
                    if started {
                        if self.mode == ConsoleMode::Graphical {
                            acts.push(
                                if stdout {
                                    Action::Relay(Stream::Stdout, Priority::Info)
                                } else {
                                    Action::Log(Priority::Error, Message::HandleMissing(Stream::Stdout))
                                },
                            );
                            acts.push(
                                if stderr {
                                    Action::Relay(Stream::Stderr, Priority::Error)
                                } else {
                                    Action::Log(Priority::Error, Message::HandleMissing(Stream::Stderr))
                                },
                            );
                        }
                        acts.push(Action::Wait);
                        self.phase = Phase::Running;
                    } else {
                        acts.push(Action::Finish(Outcome::Failed(RunError::Spawn)));
                        self.phase = Phase::Finished;
                    }
                }
            },
            Phase::Running => {
                if let RunEvent::WaitDone(w) = e {
                    let failed = match w {
                        WaitOutcome::Exited(c) => {
                            if c != 0 {
                                acts.push(Action::Log(Priority::Critical, Message::ExitCode(c)));
                            }
                            false
                        },
                        WaitOutcome::Signaled(s) => {
                            acts.push(Action::Log(Priority::Critical, Message::ExitSignal(s)));
                            false
                        },
                        WaitOutcome::Failed => true,
                    };
                    if self.privileged {
                        acts.push(Action::SwitchConsole(ConsoleId::Menu, false));
                        self.phase = Phase::SwitchingOut(failed);
                    } else {
                        acts.push(Action::Log(Priority::Info, Message::ConsoleSwitchSkipped));
                        acts.push(
                            Action::Finish(
                                if failed {
                                    Outcome::Failed(RunError::Wait)
                                } else {
                                    Outcome::Success
                                },
                            ),
                        );
                        self.phase = Phase::Finished;
                    }
                }
            },
            Phase::SwitchingOut(failed) => {
                let outcome = if failed {
                    Outcome::Failed(RunError::Wait)
                } else if e == RunEvent::SwitchDone(true) {
                    Outcome::Success
                } else {
                    Outcome::Failed(RunError::SwitchOut)
                };
                acts.push(Action::Finish(outcome));
                self.phase = Phase::Finished;
            },
            Phase::Finished => {},
        }
        proof {
            assert(acts@ =~= step_spec(s0, e).1);
        }
        acts
    }

    fn push_spawn(&self, acts: &mut Vec<Action>)
        ensures
            final(acts)@ == old(acts)@ + spawn_actions(*self),
    {
        let ghost a0 = acts@;
        if self.mode == ConsoleMode::Graphical && self.runtime_dir_declared {
            acts.push(Action::Log(Priority::Info, Message::RuntimeDirKept));
        }
        acts.push(Action::Spawn);
        assert(acts@ =~= a0 + spawn_actions(*self));
    }
}

} // verus!

verus! {

/// Where one of a child's standard streams goes.
#[derive(Clone, Copy, Debug, PartialEq, Eq, Structural)]
pub enum Wiring {
    /// Empty input, or output thrown away.
    Null,
    /// A pipe the launcher reads.
    Piped,
    /// The console's device node, opened anew.
    Device(ConsoleId),
}

/// How to start an entry's program.
#[derive(Debug)]
pub struct SpawnPlan {
    pub program: String,
    pub args: Vec<String>,
    /// Set on top of the launcher's own environment, in order.
    pub env: Vec<(String, String)>,
    pub stdin: Wiring,
    pub stdout: Wiring,
    pub stderr: Wiring,
}

/// The environment a program of the given mode gets on top of the
/// launcher's: graphical programs get the runtime directory unless they set
/// it; text programs get a basic terminal type.
pub open spec fn plan_env(mode: ConsoleMode, env: Seq<(Seq<char>, Seq<char>)>) -> Seq<
    (Seq<char>, Seq<char>),
> {
    match mode {
        ConsoleMode::Graphical => if declares(env, runtime_dir_key()) {
            env
        } else {
            env.push((runtime_dir_key(), "/xdg"@))
        },
        ConsoleMode::Console => env.push(("TERM"@, "linux"@)),
    }
}

/// The standard streams of a program of the given mode: graphical programs
/// read nothing and have both outputs captured; text programs own their
/// console.
pub open spec fn plan_wiring(mode: ConsoleMode) -> (Wiring, Wiring, Wiring) {
    match mode {
        ConsoleMode::Graphical => (Wiring::Null, Wiring::Piped, Wiring::Piped),
        ConsoleMode::Console => (
            Wiring::Device(ConsoleId::Text),
            Wiring::Device(ConsoleId::Text),
            Wiring::Device(ConsoleId::Text),
        ),
    }
}

/// How to start `entry`'s program.
pub fn spawn_plan(entry: &Entry) -> (r: SpawnPlan)
    ensures
        r.program@ == entry.executable@,
        r.args.deep_view() == entry.args.deep_view(),
        r.env.deep_view() == plan_env(entry.mode, entry.env.deep_view()),
        (r.stdin, r.stdout, r.stderr) == plan_wiring(entry.mode),
{
    let mut env = clone_env(&entry.env);
    let ghost e0 = env.deep_view();
    match entry.mode {
        ConsoleMode::Graphical => {
            let key = "XDG_RUNTIME_DIR".to_string();
            if !declares_key(&entry.env, &key) {
                env.push((key, "/xdg".to_string()));
                assert(env.deep_view() =~= e0.push((runtime_dir_key(), "/xdg"@)));
            }
        },
        ConsoleMode::Console => {
            env.push(("TERM".to_string(), "linux".to_string()));
            assert(env.deep_view() =~= e0.push(("TERM"@, "linux"@)));
        },
    }
    let (stdin, stdout, stderr) = match entry.mode {
        ConsoleMode::Graphical => (Wiring::Null, Wiring::Piped, Wiring::Piped),
        ConsoleMode::Console => (
            Wiring::Device(ConsoleId::Text),
            Wiring::Device(ConsoleId::Text),
            Wiring::Device(ConsoleId::Text),
        ),
    };
    SpawnPlan {
        program: entry.executable.clone(),
        args: clone_strings(&entry.args),
        env,
        stdin,
        stdout,
        stderr,
    }
}

} // verus!

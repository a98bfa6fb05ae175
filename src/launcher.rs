use vstd::prelude::*;

use crate::registry::Registry;
use crate::supervisor::{Outcome, RunError};

verus! {

/// What the menu loop receives: an event of the menu, or the end of the
/// run it started.
#[derive(Clone, Copy, Debug, PartialEq, Eq, Structural)]
pub enum LoopEvent {
    Quit,
    /// A button carrying this entry id was pressed.
    Pressed(u128),
    /// Any other menu event.
    Other,
    /// The run started last is over.
    RunFinished(Outcome),
}

/// What the menu loop does next.
#[derive(Clone, Copy, Debug, PartialEq, Eq, Structural)]
pub enum LoopAction {
    /// Leave the loop.
    Exit,
    /// Make the menu ignore (true) or heed (false) its input devices.
    IgnoreInput(bool),
    /// Run the entry with this id on a background worker, and keep pulling
    /// and discarding menu events until it is over.
    Launch(u128),
    /// Post the run's failure at critical priority.
    LogFailure(RunError),
}

/// Where the menu loop stands.
#[derive(Clone, Copy, Debug, PartialEq, Eq, Structural)]
pub enum LoopState {
    /// Waiting for a selection.
    Idle,
    /// A run is under way; menu events are discarded.
    Busy,
    /// The loop is over.
    Stopped,
}

/// The events each state takes: a run's end only while busy, nothing once
/// stopped.
pub open spec fn loop_expects(s: LoopState, e: LoopEvent) -> bool {
    match s {
        LoopState::Idle => !(e is RunFinished),
        LoopState::Busy => true,
        LoopState::Stopped => false,
    }
}

/// The next state and actions, given how many entries the registry holds.
pub open spec fn loop_step_spec(s: LoopState, e: LoopEvent, n: int) -> (LoopState, Seq<LoopAction>) {
    match s {
        LoopState::Idle => match e {
            LoopEvent::Quit => (LoopState::Stopped, seq![LoopAction::Exit]),
            LoopEvent::Pressed(id) => if id < n {
                (LoopState::Busy, seq![LoopAction::IgnoreInput(true), LoopAction::Launch(id)])
            } else {
                (LoopState::Idle, Seq::empty())
            },
            _ => (LoopState::Idle, Seq::empty()),
        },
        LoopState::Busy => match e {
            LoopEvent::RunFinished(o) => match o {
                Outcome::Success => (LoopState::Idle, seq![LoopAction::IgnoreInput(false)]),
                Outcome::Failed(err) => (
                    LoopState::Idle,
                    seq![LoopAction::LogFailure(err), LoopAction::IgnoreInput(false)],
                ),
            },
            _ => (LoopState::Busy, Seq::empty()),
        },
        LoopState::Stopped => (LoopState::Stopped, Seq::empty()),
    }
}

/// One turn of the menu loop: a selection of a registered entry launches
/// it; while it runs every menu event is discarded; its failure is logged
/// and never ends the loop; only a quit while idle does.
pub fn loop_step(s: LoopState, e: LoopEvent, reg: &Registry) -> (r: (LoopState, Vec<LoopAction>))
    requires
        loop_expects(s, e),
    ensures
        (r.0, r.1@) == loop_step_spec(s, e, reg.entry_seq().len() as int),
{
    let mut acts: Vec<LoopAction> = Vec::new();
    let next = match s {
        LoopState::Idle => match e {
            LoopEvent::Quit => {
                acts.push(LoopAction::Exit);
                LoopState::Stopped
            },
            LoopEvent::Pressed(id) => {
                if reg.get(id).is_some() {
                    acts.push(LoopAction::IgnoreInput(true));
                    acts.push(LoopAction::Launch(id));
                    LoopState::Busy
                } else {
                    LoopState::Idle
                }
            },
            _ => LoopState::Idle,
        },
        LoopState::Busy => match e {
            LoopEvent::RunFinished(o) => {
                if let Outcome::Failed(err) = o {
                    acts.push(LoopAction::LogFailure(err));
                }
                acts.push(LoopAction::IgnoreInput(false));
                LoopState::Idle
            },
            _ => LoopState::Busy,
        },
        LoopState::Stopped => LoopState::Stopped,
    };
    proof {
        assert(acts@ =~= loop_step_spec(s, e, reg.entry_seq().len() as int).1);
    }
    (next, acts)
}

} // verus!

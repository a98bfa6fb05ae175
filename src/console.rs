use vstd::prelude::*;

use crate::registry::ConsoleMode;

verus! {

/// The virtual consoles the launcher uses.
#[derive(Clone, Copy, Debug, PartialEq, Eq, Structural)]
pub enum ConsoleId {
    /// Where the menu is drawn.
    Menu,
    /// Where graphical programs draw.
    Display,
    /// Where text programs run.
    Text,
}

pub open spec fn console_number(c: ConsoleId) -> int {
    match c {
        ConsoleId::Menu => 1,
        ConsoleId::Display => 2,
        ConsoleId::Text => 3,
    }
}

pub open spec fn device_path_spec(c: ConsoleId) -> Seq<char> {
    match c {
        ConsoleId::Menu => "/dev/tty1"@,
        ConsoleId::Display => "/dev/tty2"@,
        ConsoleId::Text => "/dev/tty3"@,
    }
}

impl ConsoleId {
    /// The console's number, as the kernel counts them.
    pub fn number(self) -> (r: i32)
        ensures
            r == console_number(self),
    {
        match self {
            ConsoleId::Menu => 1,
            ConsoleId::Display => 2,
            ConsoleId::Text => 3,
        }
    }

    /// The console's device node.
    pub fn device_path(self) -> (r: String)
        ensures
            r@ == device_path_spec(self),
    {
        match self {
            ConsoleId::Menu => "/dev/tty1".to_string(),
            ConsoleId::Display => "/dev/tty2".to_string(),
            ConsoleId::Text => "/dev/tty3".to_string(),
        }
    }
}

/// The console a program of the given mode runs on.
pub open spec fn target_console(mode: ConsoleMode) -> ConsoleId {
    match mode {
        ConsoleMode::Graphical => ConsoleId::Display,
        ConsoleMode::Console => ConsoleId::Text,
    }
}

/// Whether that console is cleared before the program starts.
pub open spec fn clears_target(mode: ConsoleMode) -> bool {
    mode == ConsoleMode::Console
}

/// The console control devices, the first tried first.
pub fn control_devices() -> (r: Vec<String>)
    ensures
        r@.len() == 2,
        r@[0]@ == "/dev/tty"@,
        r@[1]@ == "/dev/tty0"@,
{
    let mut r: Vec<String> = Vec::new();
    r.push("/dev/tty".to_string());
    r.push("/dev/tty0".to_string());
    r
}

/// The bytes that clear a terminal and move its cursor home: ESC [2J ESC [1;1H.
pub fn clear_sequence() -> (r: Vec<u8>)
    ensures
        r@ == seq![0x1bu8, 0x5bu8, 0x32u8, 0x4au8, 0x1bu8, 0x5bu8, 0x31u8, 0x3bu8, 0x31u8, 0x48u8],
{
    let r: Vec<u8> = vec![0x1bu8, 0x5bu8, 0x32u8, 0x4au8, 0x1bu8, 0x5bu8, 0x31u8, 0x3bu8, 0x31u8, 0x48u8];
    assert(r@ =~= seq![0x1bu8, 0x5bu8, 0x32u8, 0x4au8, 0x1bu8, 0x5bu8, 0x31u8, 0x3bu8, 0x31u8, 0x48u8]);
    r
}

} // verus!

verus! {

/// What a console switch asks its caller to do next.
#[derive(Clone, Copy, Debug, PartialEq, Eq, Structural)]
pub enum SwitchAction {
    /// Open the control device at this index of `control_devices()`.
    OpenControl(usize),
    /// Ask for the console to become active.
    Activate(i32),
    /// Block until the console is active.
    WaitActive(i32),
    /// Write `clear_sequence()` to the console's device node.
    Clear(ConsoleId),
    /// The switch is over, successfully or not.
    Done(bool),
}

#[derive(Clone, Copy, Debug, PartialEq, Eq, Structural)]
pub enum SwitchPhase {
    Opening(usize),
    Activating,
    Waiting,
    Clearing,
    Done,
}

/// One switch of the active console, made by a privileged process. The
/// control device is opened for this switch alone.
#[derive(Clone, Copy, Debug, PartialEq, Eq, Structural)]
pub struct Switch {
    pub target: ConsoleId,
    pub clear: bool,
    pub phase: SwitchPhase,
}

/// The next phase and action once the current step succeeded or failed.
pub open spec fn switch_step_spec(s: Switch, ok: bool) -> (SwitchPhase, SwitchAction) {
    let n = console_number(s.target) as i32;
    match s.phase {
        SwitchPhase::Opening(k) => if ok {
            (SwitchPhase::Activating, SwitchAction::Activate(n))
        } else if k == 0 {
            (SwitchPhase::Opening(1), SwitchAction::OpenControl(1))
        } else {
            (SwitchPhase::Done, SwitchAction::Done(false))
        },
        SwitchPhase::Activating => if ok {
            (SwitchPhase::Waiting, SwitchAction::WaitActive(n))
        } else {
            (SwitchPhase::Done, SwitchAction::Done(false))
        },
        SwitchPhase::Waiting => if !ok {
            (SwitchPhase::Done, SwitchAction::Done(false))
        } else if s.clear {
            (SwitchPhase::Clearing, SwitchAction::Clear(s.target))
        } else {
            (SwitchPhase::Done, SwitchAction::Done(true))
        },
        SwitchPhase::Clearing => (SwitchPhase::Done, SwitchAction::Done(ok)),
        SwitchPhase::Done => (SwitchPhase::Done, SwitchAction::Done(false)),
    }
}

impl Switch {
    /// A switch to `target`, clearing it when `clear` holds; its first
    /// action opens the first control device.
    pub fn new(target: ConsoleId, clear: bool) -> (r: (Switch, SwitchAction))
        ensures
            r.0 == (Switch { target, clear, phase: SwitchPhase::Opening(0) }),
            r.1 == SwitchAction::OpenControl(0),
    {
        (Switch { target, clear, phase: SwitchPhase::Opening(0) }, SwitchAction::OpenControl(0))
    }

    /// Takes whether the last action succeeded; returns the next one.
    pub fn step(&mut self, ok: bool) -> (r: SwitchAction)
        requires
            old(self).phase != SwitchPhase::Done,
            old(self).phase is Opening ==> old(self).phase->Opening_0 <= 1,
        ensures
            (final(self).phase, r) == switch_step_spec(*old(self), ok),
            final(self).target == old(self).target,
            final(self).clear == old(self).clear,
    {
        let n = self.target.number();
        let (p, a) = match self.phase {
            SwitchPhase::Opening(k) => if ok {
                (SwitchPhase::Activating, SwitchAction::Activate(n))
            } else if k == 0 {
                (SwitchPhase::Opening(1), SwitchAction::OpenControl(1))
            } else {
                (SwitchPhase::Done, SwitchAction::Done(false))
            },
            SwitchPhase::Activating => if ok {
                (SwitchPhase::Waiting, SwitchAction::WaitActive(n))
            } else {
                (SwitchPhase::Done, SwitchAction::Done(false))
            },
            SwitchPhase::Waiting => if !ok {
                (SwitchPhase::Done, SwitchAction::Done(false))
            } else if self.clear {
                (SwitchPhase::Clearing, SwitchAction::Clear(self.target))
            } else {
                (SwitchPhase::Done, SwitchAction::Done(true))
            },
            SwitchPhase::Clearing => (SwitchPhase::Done, SwitchAction::Done(ok)),
            SwitchPhase::Done => (SwitchPhase::Done, SwitchAction::Done(false)),
        };
        self.phase = p;
        a
    }
}

} // verus!

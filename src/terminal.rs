//! The lifecycle of a terminal taken under the program's control.
//!
//! Setup opens the device, enables raw mode, hides the cursor, enables mouse
//! reporting and switches to the alternate screen, in that order. A failed
//! step ends setup, and teardown undoes exactly the steps that were done:
//! it disables mouse reporting, leaves the alternate screen, shows the
//! cursor, restores the prior configuration and closes the device, skipping
//! what never happened. Teardown is handed out once.
use vstd::prelude::*;
use vstd::string::*;

verus! {

/// A step of taking control of the terminal.
#[derive(Debug, Clone, Copy, PartialEq, Eq, Structural)]
pub enum SetupStep {
    OpenDevice,
    EnableRaw,
    HideCursor,
    EnableMouse,
    EnterAltScreen,
}

/// A step of giving the terminal back.
#[derive(Debug, Clone, Copy, PartialEq, Eq, Structural)]
pub enum TeardownStep {
    DisableMouse,
    LeaveAltScreen,
    ShowCursor,
    RestoreRaw,
    CloseDevice,
}

/// The number of setup steps.
pub const SETUP_STEPS: u8 = 5;

/// The setup step at position `i` of the order.
pub open spec fn setup_step_at(i: nat) -> SetupStep {
    if i == 0 {
        SetupStep::OpenDevice
    } else if i == 1 {
        SetupStep::EnableRaw
    } else if i == 2 {
        SetupStep::HideCursor
    } else if i == 3 {
        SetupStep::EnableMouse
    } else {
        SetupStep::EnterAltScreen
    }
}

/// The position of a setup step in the order.
pub open spec fn setup_index(s: SetupStep) -> nat {
    match s {
        SetupStep::OpenDevice => 0,
        SetupStep::EnableRaw => 1,
        SetupStep::HideCursor => 2,
        SetupStep::EnableMouse => 3,
        SetupStep::EnterAltScreen => 4,
    }
}

/// The setup step that a teardown step undoes.
pub open spec fn undone_by(t: TeardownStep) -> SetupStep {
    match t {
        TeardownStep::DisableMouse => SetupStep::EnableMouse,
        TeardownStep::LeaveAltScreen => SetupStep::EnterAltScreen,
        TeardownStep::ShowCursor => SetupStep::HideCursor,
        TeardownStep::RestoreRaw => SetupStep::EnableRaw,
        TeardownStep::CloseDevice => SetupStep::OpenDevice,
    }
}

/// The teardown step that undoes a setup step.
pub open spec fn undo_step(s: SetupStep) -> TeardownStep {
    match s {
        SetupStep::OpenDevice => TeardownStep::CloseDevice,
        SetupStep::EnableRaw => TeardownStep::RestoreRaw,
        SetupStep::HideCursor => TeardownStep::ShowCursor,
        SetupStep::EnableMouse => TeardownStep::DisableMouse,
        SetupStep::EnterAltScreen => TeardownStep::LeaveAltScreen,
    }
}

/// `seq![t]` when the step that `t` undoes is among the first `done`.
pub open spec fn if_done(t: TeardownStep, done: nat) -> Seq<TeardownStep> {
    if setup_index(undone_by(t)) < done {
        seq![t]
    } else {
        seq![]
    }
}

/// The teardown after the first `done` setup steps: the fixed teardown
/// order, restricted to the steps that undo something done.
pub open spec fn teardown_plan(done: nat) -> Seq<TeardownStep> {
    if_done(TeardownStep::DisableMouse, done) + if_done(TeardownStep::LeaveAltScreen, done)
        + if_done(TeardownStep::ShowCursor, done) + if_done(TeardownStep::RestoreRaw, done)
        + if_done(TeardownStep::CloseDevice, done)
}

/// The progress of a terminal through setup and teardown.
pub struct Lifecycle {
    completed: u8,
    stopped: bool,
    released: bool,
}

impl Lifecycle {
    /// The number of setup steps done.
    pub closed spec fn done(&self) -> nat {
        self.completed as nat
    }

    /// Whether setup has ended by a failure or by teardown.
    pub closed spec fn is_stopped(&self) -> bool {
        self.stopped
    }

    /// Whether the teardown has been handed out.
    pub closed spec fn is_released(&self) -> bool {
        self.released
    }

    pub closed spec fn wf(&self) -> bool {
        &&& self.completed <= SETUP_STEPS
        &&& self.released ==> self.stopped
    }

    /// The setup step that comes next, if setup goes on.
    pub open spec fn pending(&self) -> Option<SetupStep> {
        if self.is_stopped() || self.done() >= SETUP_STEPS {
            None
        } else {
            Some(setup_step_at(self.done()))
        }
    }

    /// A lifecycle before any step.
    pub fn new() -> (r: Lifecycle)
        ensures
            r.wf(),
            r.done() == 0,
            !r.is_stopped(),
            !r.is_released(),
    {
        Lifecycle { completed: 0, stopped: false, released: false }
    }

    /// The setup step to perform next; none once setup is complete, has
    /// failed, or the terminal was released.
    pub fn next_setup(&self) -> (r: Option<SetupStep>)
        requires
            self.wf(),
        ensures
            r == self.pending(),
    {
        if self.stopped || self.completed >= SETUP_STEPS {
            return None;
        }
        let step = if self.completed == 0 {
            SetupStep::OpenDevice
        } else if self.completed == 1 {
            SetupStep::EnableRaw
        } else if self.completed == 2 {
            SetupStep::HideCursor
        } else if self.completed == 3 {
            SetupStep::EnableMouse
        } else {
            SetupStep::EnterAltScreen
        };
        Some(step)
    }

    /// Records that the pending setup step succeeded.
    pub fn setup_succeeded(&mut self)
        requires
            old(self).wf(),
            old(self).pending().is_some(),
        ensures
            final(self).wf(),
            final(self).done() == old(self).done() + 1,
            !final(self).is_stopped(),
            !final(self).is_released(),
    {
        self.completed = self.completed + 1;
    }

    /// Whether every setup step succeeded and the terminal is not released.
    pub fn is_ready(&self) -> (r: bool)
        requires
            self.wf(),
        ensures
            r == (self.done() == SETUP_STEPS && !self.is_stopped()),
    {
        self.completed == SETUP_STEPS && !self.stopped
    }

    /// Records that the pending setup step failed: setup ends, and the
    /// returned teardown undoes the steps done, in teardown order.
    pub fn setup_failed(&mut self) -> (r: Vec<TeardownStep>)
        requires
            old(self).wf(),
            old(self).pending().is_some(),
        ensures
            final(self).wf(),
            r@ == teardown_plan(old(self).done()),
            final(self).done() == old(self).done(),
            final(self).is_stopped(),
            final(self).is_released(),
            final(self).pending().is_none(),
    {
        let plan = plan_after(self.completed);
        self.stopped = true;
        self.released = true;
        plan
    }

    /// The teardown to perform: the first time, what undoes the steps done;
    /// afterwards nothing. Setup ends.
    pub fn release(&mut self) -> (r: Vec<TeardownStep>)
        requires
            old(self).wf(),
        ensures
            final(self).wf(),
            r@ == (if old(self).is_released() {
                Seq::<TeardownStep>::empty()
            } else {
                teardown_plan(old(self).done())
            }),
            final(self).done() == old(self).done(),
            final(self).is_stopped(),
            final(self).is_released(),
            final(self).pending().is_none(),
    {
        if self.released {
            return Vec::new();
        }
        let plan = plan_after(self.completed);
        self.stopped = true;
        self.released = true;
        plan
    }
}

fn push_if_done(plan: &mut Vec<TeardownStep>, t: TeardownStep, undoes: u8, done: u8)
    requires
        undoes == setup_index(undone_by(t)),
    ensures
        final(plan)@ == old(plan)@ + if_done(t, done as nat),
{
    if undoes < done {
        plan.push(t);
    }
    assert(final(plan)@ =~= old(plan)@ + if_done(t, done as nat));
}

fn plan_after(done: u8) -> (r: Vec<TeardownStep>)
    ensures
        r@ == teardown_plan(done as nat),
{
    let mut plan: Vec<TeardownStep> = Vec::new();
    push_if_done(&mut plan, TeardownStep::DisableMouse, 3, done);
    push_if_done(&mut plan, TeardownStep::LeaveAltScreen, 4, done);
    push_if_done(&mut plan, TeardownStep::ShowCursor, 2, done);
    push_if_done(&mut plan, TeardownStep::RestoreRaw, 1, done);
    push_if_done(&mut plan, TeardownStep::CloseDevice, 0, done);
    assert(plan@ =~= teardown_plan(done as nat));
    plan
}

/// A setup that fails at a step attempts no later step, and its teardown
/// undoes each step done before the failure and no other; when raw mode
/// fails, only the device is closed.
pub proof fn lemma_failed_setup_undoes_done_steps(done: nat)
    requires
        done < SETUP_STEPS,
    ensures
        forall|i: int|
            0 <= i < teardown_plan(done).len() ==> setup_index(
                undone_by(#[trigger] teardown_plan(done)[i]),
            ) < done,
        forall|j: nat| j < done ==> teardown_plan(done).contains(#[trigger] undo_step(setup_step_at(j))),
        done == 1 ==> teardown_plan(done) == seq![TeardownStep::CloseDevice],
{
    let p = teardown_plan(done);
    assert forall|j: nat| j < done implies p.contains(#[trigger] undo_step(setup_step_at(j))) by {
        let t = undo_step(setup_step_at(j));
        if j == 0 {
            assert(p[p.len() - 1] == t);
        } else if j == 1 {
            assert(p[p.len() - 2] == t);
        } else if j == 2 {
            assert(p[p.len() - 3] == t);
        } else {
            assert(p[0] == t);
        }
    }
    if done == 1 {
        assert(p =~= seq![TeardownStep::CloseDevice]);
    }
}

/// The escape sequence that a setup step writes, for those that write one.
pub open spec fn setup_text(s: SetupStep) -> Option<Seq<char>> {
    match s {
        SetupStep::HideCursor => Some(seq!['\u{1b}', '[', '?', '2', '5', 'l']),
        SetupStep::EnableMouse => Some(seq!['\u{1b}', '[', '?', '1', '0', '0', '0', 'h']),
        SetupStep::EnterAltScreen => Some(seq!['\u{1b}', '[', '?', '1', '0', '4', '9', 'h']),
        _ => None,
    }
}

/// The escape sequence that a teardown step writes, for those that write one.
pub open spec fn teardown_text(t: TeardownStep) -> Option<Seq<char>> {
    match t {
        TeardownStep::ShowCursor => Some(seq!['\u{1b}', '[', '?', '2', '5', 'h']),
        TeardownStep::DisableMouse => Some(seq!['\u{1b}', '[', '?', '1', '0', '0', '0', 'l']),
        TeardownStep::LeaveAltScreen => Some(seq!['\u{1b}', '[', '?', '1', '0', '4', '9', 'l']),
        _ => None,
    }
}

fn literal(s: &str) -> (r: String)
    ensures
        r@ == s@,
{
    String::from_str(s)
}

impl SetupStep {
    /// The escape sequence this step writes to the terminal, if it is a write.
    pub fn text(&self) -> (r: Option<String>)
        ensures
            r matches Some(s) ==> setup_text(*self) == Some(s@),
            r.is_none() == setup_text(*self).is_none(),
    {
        match self {
            SetupStep::HideCursor => {
                proof {
                    reveal_strlit("\x1b[?25l");
                }
                Some(literal("\x1b[?25l"))
            },
            SetupStep::EnableMouse => {
                proof {
                    reveal_strlit("\x1b[?1000h");
                }
                Some(literal("\x1b[?1000h"))
            },
            SetupStep::EnterAltScreen => {
                proof {
                    reveal_strlit("\x1b[?1049h");
                }
                Some(literal("\x1b[?1049h"))
            },
            _ => None,
        }
    }
}

impl TeardownStep {
    /// The escape sequence this step writes to the terminal, if it is a write.
    pub fn text(&self) -> (r: Option<String>)
        ensures
            r matches Some(s) ==> teardown_text(*self) == Some(s@),
            r.is_none() == teardown_text(*self).is_none(),
    {
        match self {
            TeardownStep::ShowCursor => {
                proof {
                    reveal_strlit("\x1b[?25h");
                }
                Some(literal("\x1b[?25h"))
            },
            TeardownStep::DisableMouse => {
                proof {
                    reveal_strlit("\x1b[?1000l");
                }
                Some(literal("\x1b[?1000l"))
            },
            TeardownStep::LeaveAltScreen => {
                proof {
                    reveal_strlit("\x1b[?1049l");
                }
                Some(literal("\x1b[?1049l"))
            },
            _ => None,
        }
    }
}

} // verus!

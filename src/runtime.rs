//! The decisions of the runtime loop: whether to start drawing after
//! `init`, and how one read cycle's events reach the application.
use vstd::prelude::*;
use crate::input::Event;
use crate::{Application, Command};

verus! {

/// What the loop does next.
#[derive(Debug, Clone, Copy, PartialEq, Eq, Structural)]
pub enum LoopStep {
    /// Draw, flush and read another frame.
    Frame,
    /// End the loop; the terminal is then given back.
    Stop,
}

/// After `init`: `Quit` stops before any frame is drawn.
pub fn after_init(cmd: Command) -> (r: LoopStep)
    ensures
        r == (if cmd == Command::Quit {
            LoopStep::Stop
        } else {
            LoopStep::Frame
        }),
{
    match cmd {
        Command::Quit => LoopStep::Stop,
        Command::Continue => LoopStep::Frame,
    }
}

/// Hands one read cycle's events to `app` in order: each event goes to
/// `on_event`, and an action it yields goes to `update`. The first `Quit`
/// stops the loop, and the events after it are not handed on. Returns the
/// next step and how many events were handed on.
pub fn dispatch<App: Application>(app: &mut App, events: &Vec<Event>) -> (r: (LoopStep, usize))
    ensures
        r.1 <= events@.len(),
        r.0 == LoopStep::Frame ==> r.1 == events@.len(),
        r.0 == LoopStep::Stop ==> r.1 >= 1,
{
    let n = events.len();
    let mut i: usize = 0;
    while i < n
        invariant
            n == events@.len(),
            i <= n,
        decreases n - i,
    {
        let event = events[i];
        i += 1;
        if let Some(action) = app.on_event(event) {
            if app.update(action) == Command::Quit {
                return (LoopStep::Stop, i);
            }
        }
    }
    (LoopStep::Frame, n)
}

} // verus!

//! A small terminal user-interface engine: input decoding, a cell grid with
//! diffing, a constraint layout splitter, a drawing surface and a renderer.
use vstd::prelude::*;

pub mod buffer;
pub mod frame;
pub mod input;
pub mod layout;
pub mod renderer;
pub mod runtime;
pub mod style;
pub mod terminal;
pub mod widgets;

pub use crate::buffer::{Buffer, Cell};
pub use crate::frame::Frame;
pub use crate::input::{Event, Input, KeyCode, KeyEvent};
pub use crate::layout::{Constraint, Direction, Layout, Rect};
pub use crate::style::{Color, Modifier, Style};
pub use crate::widgets::Widget;

verus! {

/// What the application tells the runtime after an update.
#[derive(Debug, Clone, Copy, PartialEq, Eq, Structural)]
pub enum Command {
    /// Keep running.
    Continue,
    /// Stop the loop and give the terminal back.
    Quit,
}

/// An application driven by the runtime: it turns events into actions,
/// updates its state by actions, and draws itself.
pub trait Application {
    /// What the application's events mean to it.
    type Action;

    /// Called once before the loop starts; `Quit` ends the program at once.
    fn init(&self) -> Command {
        Command::Continue
    }

    /// The action that an input event stands for, if any.
    fn on_event(&self, event: Event) -> Option<Self::Action> {
        None
    }

    /// Updates the state by an action; the only place where state changes.
    fn update(&mut self, msg: Self::Action) -> Command;

    /// Draws the current state into the frame.
    fn draw(&self, frame: &mut Frame)
        requires
            old(frame).buffer.wf(),
    ;
}

} // verus!

//! Reusable components that draw themselves into a frame.
use vstd::prelude::*;
use crate::frame::Frame;
use crate::layout::Rect;

pub mod block;
pub mod list;
pub mod text;

pub use block::{Block, BorderType, Borders};
pub use list::List;
pub use text::Text;

verus! {

/// Something that can draw itself into an area of a frame.
pub trait Widget {
    /// Draws the widget into `area` of `frame`.
    fn render(self, area: Rect, frame: &mut Frame)
        requires
            old(frame).buffer.wf(),
    ;
}

} // verus!

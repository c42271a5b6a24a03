//! A line of text.
use vstd::prelude::*;
use vstd::string::*;
use crate::frame::Frame;
use crate::layout::Rect;
use crate::style::Style;
use crate::widgets::Widget;

verus! {

/// A line of text drawn from the corner of its area in one style.
pub struct Text {
    pub content: String,
    pub style: Style,
}

impl Text {
    /// Text with the given content, in the plain style.
    pub fn new(content: &str) -> (r: Text)
        ensures
            r.content@ == content@,
            r.style == crate::style::plain_style(),
    {
        Text { content: String::from_str(content), style: Style::new() }
    }

    /// This text in the given style.
    pub fn style(self, style: Style) -> (r: Text)
        ensures
            r.content@ == self.content@,
            r.style == style,
    {
        Text { content: self.content, style }
    }
}

impl Widget for Text {
    fn render(self, area: Rect, frame: &mut Frame) {
        let saved_area = frame.area;
        let saved_style = frame.current_style;
        frame.area = area;
        frame.current_style = self.style;
        frame.write_str(0, 0, self.content.as_str());
        frame.area = saved_area;
        frame.current_style = saved_style;
    }
}

} // verus!

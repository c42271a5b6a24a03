//! A list of items.
use vstd::prelude::*;
use crate::frame::Frame;
use crate::layout::Rect;
use crate::style::{Style, plain_style};
use crate::widgets::Widget;

verus! {

/// A list of items, one of which may be selected.
pub struct List {
    pub items: Vec<String>,
    pub selected: Option<usize>,
    pub style: Style,
    pub highlight_style: Style,
    pub highlight_symbol: Option<String>,
}

impl List {
    /// A list of the given items, with no selection and plain styles.
    pub fn new(items: Vec<String>) -> (r: List)
        ensures
            r.items@ == items@,
            r.selected == None::<usize>,
            r.style == plain_style(),
            r.highlight_style == plain_style(),
            r.highlight_symbol.is_none(),
    {
        List {
            items,
            selected: None,
            style: Style::new(),
            highlight_style: Style::new(),
            highlight_symbol: None,
        }
    }

    /// Selects the item at `index`.
    pub fn selected(&mut self, index: usize)
        ensures
            final(self).selected == Some(index),
            final(self).items@ == old(self).items@,
            final(self).style == old(self).style,
            final(self).highlight_style == old(self).highlight_style,
    {
        self.selected = Some(index);
    }

    /// This list with the given style.
    pub fn style(self, style: Style) -> (r: List)
        ensures
            r.style == style,
            r.items@ == self.items@,
            r.selected == self.selected,
            r.highlight_style == self.highlight_style,
    {
        List { style, ..self }
    }

    /// This list with the given style for the selected item.
    pub fn highlight_style(self, style: Style) -> (r: List)
        ensures
            r.highlight_style == style,
            r.items@ == self.items@,
            r.selected == self.selected,
            r.style == self.style,
    {
        List { highlight_style: style, ..self }
    }

    /// This list with the given marker before the selected item.
    pub fn highlight_symbol(self, symbol: String) -> (r: List)
        ensures
            r.highlight_symbol matches Some(s) && s@ == symbol@,
            r.items@ == self.items@,
            r.selected == self.selected,
            r.style == self.style,
            r.highlight_style == self.highlight_style,
    {
        List { highlight_symbol: Some(symbol), ..self }
    }
}

impl Widget for List {
    /// A list draws nothing of its own: the application lays out its items.
    fn render(self, area: Rect, frame: &mut Frame) {
    }
}

} // verus!

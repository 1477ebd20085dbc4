//! The three faces of the viewer.

use vstd::prelude::*;

verus! {

/// What the viewer shows.
#[derive(Debug, Clone, Copy, PartialEq, Eq, Structural)]
pub enum GuiViewMode {
    Surface,
    Top,
    Table,
}

/// The view that draws on a canvas in a mode, if any does.
#[derive(Debug, Clone, Copy, PartialEq, Eq, Structural)]
pub enum Canvas {
    Surface,
    Top,
}

impl GuiViewMode {
    /// The canvas of the mode. The table has none.
    pub open spec fn canvas_of(self) -> Option<Canvas> {
        match self {
            GuiViewMode::Surface => Some(Canvas::Surface),
            GuiViewMode::Top => Some(Canvas::Top),
            GuiViewMode::Table => None,
        }
    }

    /// The canvas of the mode. The table has none.
    pub fn canvas(self) -> (canvas: Option<Canvas>)
        ensures
            canvas == self.canvas_of(),
    {
        match self {
            GuiViewMode::Surface => Some(Canvas::Surface),
            GuiViewMode::Top => Some(Canvas::Top),
            GuiViewMode::Table => None,
        }
    }
}

} // verus!

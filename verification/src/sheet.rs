//! The sheet overlay: the selected row shown section by section, with a
//! vertical scroll that the renderer clamps to the content.
use vstd::prelude::*;

verus! {

/// A vertical scroll position with saturating steps and clamping.
#[derive(Debug, Clone, Copy, PartialEq, Eq, Structural, Default)]
pub struct Scroll {
    pub position: usize,
}

impl Scroll {
    /// A scroll at the top.
    pub fn new() -> (r: Scroll)
        ensures
            r.position == 0,
    {
        Scroll { position: 0 }
    }

    /// One line up, stopping at the top.
    pub fn up(&mut self)
        ensures
            final(self).position == (if old(self).position > 0 {
                old(self).position - 1
            } else {
                0int
            }),
    {
        if self.position > 0 {
            self.position = self.position - 1;
        }
    }

    /// One line down, stopping at the greatest machine value.
    pub fn down(&mut self)
        ensures
            final(self).position == (if old(self).position < usize::MAX {
                old(self).position + 1
            } else {
                usize::MAX as int
            }),
    {
        if self.position < usize::MAX {
            self.position = self.position + 1;
        }
    }

    /// Clamps the position so the visible window stays inside the content.
    pub fn adjust(&mut self, total: usize, visible: usize)
        ensures
            final(self).position == (if old(self).position > total - visible && total >= visible {
                total - visible
            } else if old(self).position > 0 && total < visible {
                0int
            } else {
                old(self).position as int
            }),
    {
        let limit: usize = if total >= visible {
            total - visible
        } else {
            0
        };
        if self.position > limit {
            self.position = limit;
        }
    }

    /// The position itself.
    pub fn value(&self) -> (r: usize)
        ensures
            r == self.position,
    {
        self.position
    }
}

/// One section of the sheet: a header line and its content.
#[derive(Debug, Clone, PartialEq)]
pub struct SheetSection {
    pub header: String,
    pub content: String,
}

impl SheetSection {
    pub fn new(header: String, content: String) -> (r: SheetSection)
        ensures
            r.header@ == header@,
            r.content@ == content@,
    {
        SheetSection { header, content }
    }
}

/// The sheet's content: its sections in order.
#[derive(Debug, PartialEq)]
pub struct Sheet {
    pub sections: Vec<SheetSection>,
}

impl Sheet {
    /// A sheet with no sections.
    pub fn new() -> (r: Sheet)
        ensures
            r.sections@.len() == 0,
    {
        Sheet { sections: Vec::new() }
    }

    /// The same sheet with the given sections.
    pub fn with_sections(self, sections: Vec<SheetSection>) -> (r: Sheet)
        ensures
            r.sections == sections,
    {
        Sheet { sections }
    }
}

impl Default for Sheet {
    /// A sheet with no sections.
    fn default() -> (r: Self)
        ensures
            r.sections@.len() == 0,
    {
        Sheet::new()
    }
}

/// The sheet overlay's state: how far it is scrolled.
#[derive(Debug, Clone, Copy, PartialEq, Eq, Structural, Default)]
pub struct SheetState {
    pub scroll: Scroll,
}

impl SheetState {
    /// A sheet scrolled to the top.
    pub fn new() -> (r: SheetState)
        ensures
            r.scroll.position == 0,
    {
        SheetState { scroll: Scroll::new() }
    }

    /// Scrolls one line up, stopping at the top.
    pub fn scroll_up(&mut self)
        ensures
            final(self).scroll.position == (if old(self).scroll.position > 0 {
                old(self).scroll.position - 1
            } else {
                0int
            }),
    {
        self.scroll.up();
    }

    /// Scrolls one line down.
    pub fn scroll_down(&mut self)
        ensures
            final(self).scroll.position == (if old(self).scroll.position < usize::MAX {
                old(self).scroll.position + 1
            } else {
                usize::MAX as int
            }),
    {
        self.scroll.down();
    }
}

} // verus!

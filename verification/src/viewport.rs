//! The viewport: the window of lines that is on screen.

use std::ops::Range;
use vstd::prelude::*;

verus! {

/// The first visible line and the number of visible lines.
pub struct Viewport {
    scroll_offset: usize,
    height: usize,
}

/// The scroll offset that shows line `line` in a window of `height` lines
/// that stood at `offset`: the line itself where it lies above the window,
/// the offset that puts it on the last row where it lies below, and the old
/// offset where it is inside.
pub open spec fn adjusted_offset(offset: int, height: int, line: int) -> int {
    if line < offset {
        line
    } else if line >= offset + height {
        line - height + 1
    } else {
        offset
    }
}

impl Viewport {
    pub closed spec fn spec_scroll_offset(&self) -> usize {
        self.scroll_offset
    }

    pub closed spec fn spec_height(&self) -> usize {
        self.height
    }

    /// A window of `height` lines at the top of the text.
    pub fn new(height: usize) -> (viewport: Self)
        ensures
            viewport.scroll_offset() == 0,
            viewport.height() == height,
    {
        Self { scroll_offset: 0, height }
    }

    /// The index of the first visible line.
    #[verifier::when_used_as_spec(spec_scroll_offset)]
    pub fn scroll_offset(&self) -> (offset: usize)
        ensures
            offset == self.scroll_offset(),
    {
        self.scroll_offset
    }

    /// The number of visible lines.
    #[verifier::when_used_as_spec(spec_height)]
    pub fn height(&self) -> (height: usize)
        ensures
            height == self.height(),
    {
        self.height
    }

    /// Sets the number of visible lines; the window stays where it is.
    pub fn set_height(&mut self, height: usize)
        ensures
            final(self).height() == height,
            final(self).scroll_offset() == old(self).scroll_offset(),
    {
        self.height = height;
    }

    /// Scrolls by as little as shows line `cursor_line`. A window of no
    /// height holds no line: it is put right below the line, which must
    /// then not be the last that the machine can count.
    pub fn adjust_for_cursor(&mut self, cursor_line: usize)
        requires
            old(self).height() >= 1 || cursor_line < usize::MAX,
        ensures
            final(self).height() == old(self).height(),
            final(self).scroll_offset() == adjusted_offset(
                old(self).scroll_offset() as int,
                old(self).height() as int,
                cursor_line as int,
            ),
            old(self).height() >= 1 ==> final(self).scroll_offset() <= cursor_line
                < final(self).scroll_offset() + final(self).height(),
    {
        if cursor_line < self.scroll_offset {
            self.scroll_offset = cursor_line;
        } else if cursor_line - self.scroll_offset >= self.height {
            self.scroll_offset = cursor_line - self.height + 1;
        }
    }

    /// The visible lines: from the scroll offset, `height` lines on.
    pub fn visible_range(&self) -> (range: Range<usize>)
        requires
            self.scroll_offset() + self.height() <= usize::MAX,
        ensures
            range.start == self.scroll_offset(),
            range.end == self.scroll_offset() + self.height(),
    {
        self.scroll_offset..self.scroll_offset + self.height
    }
}

} // verus!

//! The scroll position of one pane.

use vstd::prelude::*;

verus! {

/// Where a pane looks: a horizontal offset and an optional vertical pin.
///
/// Without a pin the pane follows the newest line. With a pin it stays at the
/// pinned line.
#[derive(Clone, Copy, Debug, PartialEq, Eq, Structural)]
pub struct ScrollStatus {
    pub x: u16,
    pub y: Option<usize>,
}

impl ScrollStatus {
    /// The status of a fresh pane: no offset, no pin.
    pub open spec fn spec_default() -> ScrollStatus {
        ScrollStatus { x: 0, y: None }
    }

    /// One step up. A pane without a pin is pinned at `lines`, the number of
    /// lines it holds; a pinned pane moves one line up and stops at zero.
    pub open spec fn spec_scroll_up(self, lines: usize) -> ScrollStatus {
        match self.y {
            Some(y) => ScrollStatus { y: Some(if y == 0 { 0usize } else { (y - 1) as usize }), ..self },
            None => ScrollStatus { y: Some(lines), ..self },
        }
    }

    /// One step down. A pinned pane moves one line down and stops at the
    /// largest `usize`; a pane without a pin stays without.
    pub open spec fn spec_scroll_down(self) -> ScrollStatus {
        match self.y {
            Some(y) => ScrollStatus {
                y: Some(if y == usize::MAX { y } else { (y + 1) as usize }),
                ..self
            },
            None => self,
        }
    }

    /// One column to the left, stopping at zero.
    pub open spec fn spec_scroll_left(self) -> ScrollStatus {
        ScrollStatus { x: if self.x == 0 { 0u16 } else { (self.x - 1) as u16 }, ..self }
    }

    /// One column to the right, stopping at the largest `u16`.
    pub open spec fn spec_scroll_right(self) -> ScrollStatus {
        ScrollStatus { x: if self.x == u16::MAX { self.x } else { (self.x + 1) as u16 }, ..self }
    }

    /// The same offset without a pin.
    pub open spec fn spec_stop_scrolling(self) -> ScrollStatus {
        ScrollStatus { y: None, ..self }
    }

    /// One step up.
    #[verifier::when_used_as_spec(spec_scroll_up)]
    pub fn scroll_up(self, lines: usize) -> (s: ScrollStatus)
        ensures
            s == self.spec_scroll_up(lines),
    {
        match self.y {
            Some(y) => ScrollStatus { x: self.x, y: Some(if y == 0 { 0 } else { y - 1 }) },
            None => ScrollStatus { x: self.x, y: Some(lines) },
        }
    }

    /// One step down.
    #[verifier::when_used_as_spec(spec_scroll_down)]
    pub fn scroll_down(self) -> (s: ScrollStatus)
        ensures
            s == self.spec_scroll_down(),
    {
        match self.y {
            Some(y) => ScrollStatus { x: self.x, y: Some(if y == usize::MAX { y } else { y + 1 }) },
            None => self,
        }
    }

    /// One column to the left.
    #[verifier::when_used_as_spec(spec_scroll_left)]
    pub fn scroll_left(self) -> (s: ScrollStatus)
        ensures
            s == self.spec_scroll_left(),
    {
        ScrollStatus { x: if self.x == 0 { 0 } else { self.x - 1 }, y: self.y }
    }

    /// One column to the right.
    #[verifier::when_used_as_spec(spec_scroll_right)]
    pub fn scroll_right(self) -> (s: ScrollStatus)
        ensures
            s == self.spec_scroll_right(),
    {
        ScrollStatus { x: if self.x == u16::MAX { self.x } else { self.x + 1 }, y: self.y }
    }

    /// The same offset without a pin.
    #[verifier::when_used_as_spec(spec_stop_scrolling)]
    pub fn stop_scrolling(self) -> (s: ScrollStatus)
        ensures
            s == self.spec_stop_scrolling(),
    {
        ScrollStatus { x: self.x, y: None }
    }
}

impl Default for ScrollStatus {
    fn default() -> (s: Self)
        ensures
            s == ScrollStatus::spec_default(),
    {
        ScrollStatus { x: 0, y: None }
    }
}

} // verus!

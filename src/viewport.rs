use vstd::prelude::*;

verus! {

/// How the vertical offset follows the log.
#[derive(Clone, Copy, Debug, PartialEq, Eq, Structural)]
pub enum ScrollPosition {
    /// Stays where the user put it, clamped to the content.
    FinitePosition,
    /// Always shows the newest content.
    PinnedAtEnd,
}

/// The largest offset that still shows content: one past the last full
/// screen, `max(0, content - view + 1)`, saturated at `usize::MAX`.
pub open spec fn max_offset(content: usize, view: usize) -> usize {
    let m = content - view + 1;
    if m <= 0 {
        0
    } else if m > usize::MAX {
        usize::MAX
    } else {
        m as usize
    }
}

pub open spec fn min_usize(a: usize, b: usize) -> usize {
    if a <= b { a } else { b }
}

/// Scroll offsets over the rendered log.
#[derive(Clone, Copy, Debug, PartialEq, Eq, Structural)]
pub struct ViewportState {
    pub vert_offset: usize,
    pub horiz_offset: usize,
    pub vert_position: ScrollPosition,
}

impl ViewportState {
    /// The offsets after a render pass over content of `lines` lines, the
    /// widest `width` columns wide, in a viewport of `height` by `cols`.
    pub open spec fn rendered(self, lines: usize, width: usize, height: usize, cols: usize) -> ViewportState {
        let vmax = max_offset(lines, height);
        ViewportState {
            vert_offset: match self.vert_position {
                ScrollPosition::PinnedAtEnd => vmax,
                ScrollPosition::FinitePosition => min_usize(self.vert_offset, vmax),
            },
            horiz_offset: min_usize(self.horiz_offset, max_offset(width, cols)),
            vert_position: self.vert_position,
        }
    }

    /// At the top left, following the newest content.
    pub open spec fn new_spec() -> ViewportState {
        ViewportState { vert_offset: 0, horiz_offset: 0, vert_position: ScrollPosition::PinnedAtEnd }
    }

    pub fn new() -> (r: Self)
        ensures
            r == Self::new_spec(),
    {
        ViewportState { vert_offset: 0, horiz_offset: 0, vert_position: ScrollPosition::PinnedAtEnd }
    }

    pub open spec fn scrolled_down(self, n: usize) -> ViewportState {
        ViewportState {
            vert_offset: self.vert_offset.saturating_add(n),
            vert_position: ScrollPosition::FinitePosition,
            ..self
        }
    }

    pub open spec fn scrolled_up(self, n: usize) -> ViewportState {
        ViewportState {
            vert_offset: self.vert_offset.saturating_sub(n),
            vert_position: ScrollPosition::FinitePosition,
            ..self
        }
    }

    pub open spec fn scrolled_to_top(self) -> ViewportState {
        ViewportState { vert_offset: 0, vert_position: ScrollPosition::FinitePosition, ..self }
    }

    pub open spec fn pinned(self) -> ViewportState {
        ViewportState { vert_position: ScrollPosition::PinnedAtEnd, ..self }
    }

    pub open spec fn with_horiz_offset(self, offset: usize) -> ViewportState {
        ViewportState { horiz_offset: offset, ..self }
    }

    /// Scrolls down by `n` lines and stops following the newest content.
    pub fn scroll_down(&mut self, n: usize)
        ensures
            *final(self) == old(self).scrolled_down(n),
    {
        self.vert_offset = self.vert_offset.saturating_add(n);
        self.vert_position = ScrollPosition::FinitePosition;
    }

    /// Scrolls up by `n` lines and stops following the newest content.
    pub fn scroll_up(&mut self, n: usize)
        ensures
            *final(self) == old(self).scrolled_up(n),
    {
        self.vert_offset = self.vert_offset.saturating_sub(n);
        self.vert_position = ScrollPosition::FinitePosition;
    }

    /// Goes to the first line and stops following the newest content.
    pub fn scroll_to_top(&mut self)
        ensures
            *final(self) == old(self).scrolled_to_top(),
    {
        self.vert_offset = 0;
        self.vert_position = ScrollPosition::FinitePosition;
    }

    /// Follows the newest content again; only this command does.
    pub fn jump_to_end(&mut self)
        ensures
            *final(self) == old(self).pinned(),
    {
        self.vert_position = ScrollPosition::PinnedAtEnd;
    }

    /// Sets the horizontal offset; the next render pass clamps it.
    pub fn set_horiz_offset(&mut self, offset: usize)
        ensures
            *final(self) == old(self).with_horiz_offset(offset),
    {
        self.horiz_offset = offset;
    }

    /// Clamps the offsets to the content, and pins the vertical offset to
    /// the end while following the newest content.
    pub fn render_pass(&mut self, lines: usize, width: usize, height: usize, cols: usize)
        ensures
            *final(self) == old(self).rendered(lines, width, height, cols),
            final(self).vert_offset <= max_offset(lines, height),
            final(self).horiz_offset <= max_offset(width, cols),
    {
        let vmax = clamp_limit(lines, height);
        match self.vert_position {
            ScrollPosition::PinnedAtEnd => {
                self.vert_offset = vmax;
            },
            ScrollPosition::FinitePosition => {
                if self.vert_offset > vmax {
                    self.vert_offset = vmax;
                }
            },
        }
        let hmax = clamp_limit(width, cols);
        if self.horiz_offset > hmax {
            self.horiz_offset = hmax;
        }
    }
}

/// `max_offset`, computed.
fn clamp_limit(content: usize, view: usize) -> (r: usize)
    ensures
        r == max_offset(content, view),
{
    if content < view {
        0
    } else {
        (content - view).saturating_add(1)
    }
}

/// While following the newest content, a render pass puts the vertical
/// offset at `max(0, lines - height + 1)`, and a second pass with the same
/// content changes nothing.
pub proof fn lemma_pinned_render_idempotent(v: ViewportState, lines: usize, width: usize, height: usize, cols: usize)
    requires
        v.vert_position == ScrollPosition::PinnedAtEnd,
    ensures
        v.rendered(lines, width, height, cols).vert_offset == max_offset(lines, height),
        lines < usize::MAX ==> v.rendered(lines, width, height, cols).vert_offset == (if lines + 1
            > height {
            lines + 1 - height
        } else {
            0
        }),
        v.rendered(lines, width, height, cols).vert_position == ScrollPosition::PinnedAtEnd,
        v.rendered(lines, width, height, cols).rendered(lines, width, height, cols)
            == v.rendered(lines, width, height, cols),
{
}

/// A render pass over unchanged content leaves clamped offsets alone, in
/// either mode.
pub proof fn lemma_render_idempotent(v: ViewportState, lines: usize, width: usize, height: usize, cols: usize)
    ensures
        v.rendered(lines, width, height, cols).rendered(lines, width, height, cols)
            == v.rendered(lines, width, height, cols),
{
}

} // verus!

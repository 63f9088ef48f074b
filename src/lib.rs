//! Vertical layout of a frame pinned below scrolling terminal output.
//!
//! Each redraw samples the terminal into a [`Space`] and turns it into a
//! [`Frame`]: how many blank rows to insert and how far to move the frame so
//! that it stays attached to the printed text without covering it.
use vstd::prelude::*;

verus! {

/// The terminal and the pinned frame, as sampled before one redraw.
#[derive(PartialEq, Eq, Structural, Clone, Copy, Debug)]
pub struct Space {
    /// Rows in the terminal viewport.
    pub term_height: u16,
    /// Row of the cursor, counted from the top of the viewport, before printing.
    pub offset: u16,
    /// Lines written by the print being accounted for.
    pub lines_printed: u16,
    /// Rows that the pinned frame asks for.
    pub frame_height: u16,
}

/// How to place the pinned frame after a print.
#[derive(PartialEq, Eq, Structural, Clone, Copy, Debug)]
pub struct Frame {
    /// Blank rows to insert so that the frame does not cover printed text.
    pub pad: u16,
    /// Rows by which the frame moves down to follow the printed text.
    pub shift: u16,
}

pub open spec fn min_int(a: int, b: int) -> int {
    if a <= b {
        a
    } else {
        b
    }
}

pub open spec fn max_int(a: int, b: int) -> int {
    if a >= b {
        a
    } else {
        b
    }
}

/// `x` brought into `lo..=hi`; meaningful where `lo <= hi`.
pub open spec fn clamp_int(x: int, lo: int, hi: int) -> int {
    min_int(max_int(x, lo), hi)
}

impl Space {
    /// Rows the frame really takes: never more than the terminal has.
    pub open spec fn usable_frame(self) -> int {
        clamp_int(self.frame_height as int, 0, self.term_height as int)
    }

    /// Rows between the cursor and the top of a frame resting at the bottom,
    /// or zero where the cursor is already past that point.
    pub open spec fn remaining(self) -> int {
        max_int(self.term_height - (self.offset + self.usable_frame()), 0)
    }

    /// Row just below the printed text.
    pub open spec fn end_y(self) -> int {
        self.offset + self.lines_printed
    }

    /// Row of the top of a frame resting at the bottom of the terminal.
    pub open spec fn frame_cap(self) -> int {
        self.term_height - self.usable_frame()
    }

    /// Largest padding: one row less than the usable frame, and never below zero.
    pub open spec fn pad_bound(self) -> int {
        max_int(self.usable_frame(), 1) - 1
    }

    /// The shift owed: one row per printed line, up to the room that remains.
    pub open spec fn spec_shift(self) -> int {
        min_int(self.remaining(), self.lines_printed as int)
    }

    /// The padding owed: how far the printed text runs past the resting frame,
    /// capped at `pad_bound`.
    pub open spec fn spec_pad(self) -> int {
        clamp_int(max_int(self.end_y() - self.frame_cap(), 0), 0, self.pad_bound())
    }

    /// Computes the padding and shift for this snapshot. Total: every
    /// combination of fields gives an answer.
    pub fn frame(self) -> (r: Frame)
        ensures
            r.pad == self.spec_pad(),
            r.shift == self.spec_shift(),
            r.shift <= self.lines_printed,
            r.pad <= self.pad_bound(),
    {
        let term_height = self.term_height;
        let offset = self.offset;
        let lines_printed = self.lines_printed;
        let frame_height = self.frame_height;

        // A terminal shorter than the frame clips it.
        let usable: u16 = if frame_height <= term_height {
            frame_height
        } else {
            term_height
        };

        // Sums are taken in u32, where they cannot wrap.
        let rest_top: u32 = offset as u32 + usable as u32;
        let remaining: u32 = (term_height as u32).saturating_sub(rest_top);
        let shift: u16 = if remaining < lines_printed as u32 {
            remaining as u16
        } else {
            lines_printed
        };

        let end_y: u32 = offset as u32 + lines_printed as u32;
        let frame_cap: u32 = (term_height - usable) as u32;
        let overrun: u32 = end_y.saturating_sub(frame_cap);
        let pad_max: u16 = if usable == 0 {
            0
        } else {
            usable - 1
        };
        let pad: u16 = if overrun < pad_max as u32 {
            overrun as u16
        } else {
            pad_max
        };

        Frame { pad, shift }
    }
}

/// More prior scroll never leaves more room to shift: with the terminal
/// height, the lines printed and the frame height the same, a larger offset
/// gives a shift no larger.
pub proof fn lemma_shift_non_increasing_in_offset(a: Space, b: Space)
    requires
        a.term_height == b.term_height,
        a.lines_printed == b.lines_printed,
        a.frame_height == b.frame_height,
        a.offset <= b.offset,
    ensures
        b.spec_shift() <= a.spec_shift(),
{
}

/// More prior scroll never lowers the padding: with the terminal height, the
/// lines printed and the frame height the same, a larger offset gives a
/// padding no smaller.
pub proof fn lemma_pad_non_decreasing_in_offset(a: Space, b: Space)
    requires
        a.term_height == b.term_height,
        a.lines_printed == b.lines_printed,
        a.frame_height == b.frame_height,
        a.offset <= b.offset,
    ensures
        a.spec_pad() <= b.spec_pad(),
{
}

/// The layout is a function of the snapshot alone: equal snapshots give
/// equal padding and equal shift.
pub proof fn lemma_frame_deterministic(a: Space, b: Space)
    requires
        a == b,
    ensures
        a.spec_pad() == b.spec_pad(),
        a.spec_shift() == b.spec_shift(),
{
}

} // verus!

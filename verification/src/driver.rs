//! The display driver's state machine.
//!
//! The driver decides when a frame is drawn, how many lines of the
//! previous frame must be erased first, and when the run is over. The
//! drawing itself -- writing lines, sleeping between ticks -- happens
//! outside this crate; the driver only hands out those instructions.

use vstd::prelude::*;

verus! {

/// Whether the run renders once after all probing, or repeatedly while
/// results arrive.
#[derive(PartialEq, Eq, Structural, Clone, Copy, Debug)]
pub enum Mode {
    Static,
    Progressive,
}

#[derive(PartialEq, Eq, Structural, Clone, Copy, Debug)]
pub enum DriverState {
    Idle,
    Rendering,
    WaitingForNextTick,
    Done,
}

/// The driver: its state, and the line count of the frame drawn last.
pub struct Driver {
    pub mode: Mode,
    pub state: DriverState,
    pub prev_lines: usize,
}

impl Driver {
    /// A fresh driver has drawn nothing: there is nothing to erase.
    pub fn start(mode: Mode) -> (d: Driver)
        ensures
            d.mode == mode,
            d.state == DriverState::Idle,
            d.prev_lines == 0,
    {
        Driver { mode, state: DriverState::Idle, prev_lines: 0 }
    }

    /// Begins a frame. The returned count is how many lines of the
    /// previous frame the caller must erase before drawing: exactly the
    /// number of lines that frame had, and zero before the first frame.
    pub fn begin_frame(&mut self) -> (erase: usize)
        requires
            old(self).state == DriverState::Idle || old(self).state
                == DriverState::WaitingForNextTick,
        ensures
            erase == old(self).prev_lines,
            final(self).state == DriverState::Rendering,
            final(self).mode == old(self).mode,
            final(self).prev_lines == old(self).prev_lines,
    {
        self.state = DriverState::Rendering;
        self.prev_lines
    }

    /// Ends a frame of `lines` lines. In static mode one frame is all
    /// there is; in progressive mode the driver keeps ticking until the
    /// completion detector reports the snapshot complete.
    pub fn end_frame(&mut self, lines: usize, complete: bool)
        requires
            old(self).state == DriverState::Rendering,
        ensures
            final(self).prev_lines == lines,
            final(self).mode == old(self).mode,
            final(self).state == (if old(self).mode == Mode::Static || complete {
                DriverState::Done
            } else {
                DriverState::WaitingForNextTick
            }),
    {
        self.prev_lines = lines;
        self.state = if matches!(self.mode, Mode::Static) || complete {
            DriverState::Done
        } else {
            DriverState::WaitingForNextTick
        };
    }

    pub fn is_done(&self) -> (r: bool)
        ensures
            r == (self.state == DriverState::Done),
    {
        matches!(self.state, DriverState::Done)
    }
}

} // verus!

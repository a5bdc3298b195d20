use vstd::prelude::*;

verus! {

/// Whether the animation still draws rows.
#[derive(Clone, Copy, Debug, PartialEq, Eq, Structural)]
pub enum Phase {
    Running,
    Stopped,
}

/// The animation's state: the row drawn next and its phase.
#[derive(Clone, Copy, Debug, PartialEq, Eq, Structural)]
pub struct Animation {
    pub row: i32,
    pub phase: Phase,
}

impl Animation {
    /// The state before the first row: row 0, running.
    pub fn new() -> (r: Animation)
        ensures
            r.row == 0,
            r.phase == Phase::Running,
    {
        Animation { row: 0, phase: Phase::Running }
    }

    /// Whether another row is to be drawn.
    pub fn is_running(&self) -> (r: bool)
        ensures
            r == (self.phase == Phase::Running),
    {
        self.phase == Phase::Running
    }

    /// Takes in the interrupt flag, read at the top of each iteration: a
    /// cleared flag stops the animation. The row is kept.
    pub fn observe_signal(&mut self, running: bool)
        ensures
            final(self).row == old(self).row,
            final(self).phase == (if running {
                old(self).phase
            } else {
                Phase::Stopped
            }),
    {
        if !running {
            self.phase = Phase::Stopped;
        }
    }

    /// Takes in the outcome of drawing the current row: a heart that has
    /// scrolled off the screen stops the animation, otherwise the next row
    /// follows. A stopped animation stays as it is, and a row counter at its
    /// maximum stops it too.
    pub fn row_drawn(&mut self, finished: bool)
        ensures
            old(self).phase == Phase::Stopped ==> *final(self) == *old(self),
            old(self).phase == Phase::Running && (finished || old(self).row == i32::MAX)
                ==> final(self).row == old(self).row && final(self).phase == Phase::Stopped,
            old(self).phase == Phase::Running && !finished && old(self).row < i32::MAX
                ==> final(self).row == old(self).row + 1 && final(self).phase == Phase::Running,
            final(self).row >= old(self).row,
    {
        if self.phase == Phase::Stopped {
            return;
        }
        if finished || self.row == i32::MAX {
            self.phase = Phase::Stopped;
        } else {
            self.row = self.row + 1;
        }
    }
}

} // verus!

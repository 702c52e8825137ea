//! Emulating button presses on the output lines.
//!
//! A press drives one output line active, holds it for at least the minimum
//! dwell, and releases it. The actuator keeps the time at which each line was
//! engaged and decides what may happen next; the caller owns the lines and
//! the clock, and carries out each drive that the actuator hands back. Lines
//! are independent of each other. Presses of one line are serialised: while a
//! line is held, a second press of it is turned away.

use vstd::prelude::*;
use crate::error::RemoteError;
use crate::gpio::Output;

verus! {

/// The shortest time, in milliseconds, that a line is held so that the
/// device registers a press.
pub const DWELL_MS: u64 = 60;

/// The logical level of a line.
#[derive(Clone, Copy, Debug, PartialEq, Eq, Structural)]
pub enum Level {
    Inactive,
    Active,
}

impl Level {
    /// The opposite level.
    pub open spec fn opposite(self) -> Level {
        match self {
            Level::Active => Level::Inactive,
            Level::Inactive => Level::Active,
        }
    }

    /// The level opposite to this one.
    pub fn not(&self) -> (r: Level)
        ensures
            r == self.opposite(),
    {
        match self {
            Level::Active => Level::Inactive,
            Level::Inactive => Level::Active,
        }
    }
}

/// What the caller has to do to a line: set the line at `offset` to `level`.
#[derive(Clone, Copy, Debug, PartialEq, Eq, Structural)]
pub struct Drive {
    /// Offset of the output line.
    pub offset: u32,
    /// The level to set it to.
    pub level: Level,
}

/// One output line: since when it is held, if it is, and when it was last
/// released.
#[derive(Clone, Copy, Debug, PartialEq, Eq, Structural)]
pub struct LineState {
    /// The time at which the press in progress began, if there is one.
    pub held_since: Option<u64>,
    /// The time at which the last press ended; zero before the first.
    pub released_at: u64,
}

/// The four output lines.
#[derive(Clone, Copy, Debug, PartialEq, Eq, Structural)]
pub struct Actuator {
    /// The line of the select button.
    pub select: LineState,
    /// The line of the down button.
    pub down: LineState,
    /// The line of the stop button.
    pub stop: LineState,
    /// The line of the up button.
    pub up: LineState,
}

impl LineState {
    /// A line that was never pressed.
    pub open spec fn idle() -> LineState {
        LineState { held_since: None, released_at: 0 }
    }

    /// Whether a press may begin at `now`: the line is not held, and the
    /// last press of it is over.
    pub open spec fn free_at(self, now: u64) -> bool {
        self.held_since.is_none() && self.released_at <= now
    }

    /// Whether the line may be released at `now`: it is held, and has been
    /// for the minimum dwell.
    pub open spec fn due_at(self, now: u64) -> bool {
        match self.held_since {
            Some(since) => since + DWELL_MS <= now,
            None => false,
        }
    }
}

impl Actuator {
    /// The state of one line.
    pub open spec fn line(self, which: Output) -> LineState {
        match which {
            Output::Select => self.select,
            Output::Down => self.down,
            Output::Stop => self.stop,
            Output::Up => self.up,
        }
    }

    /// The actuator with the state of one line replaced.
    pub open spec fn with_line(self, which: Output, state: LineState) -> Actuator {
        match which {
            Output::Select => Actuator { select: state, ..self },
            Output::Down => Actuator { down: state, ..self },
            Output::Stop => Actuator { stop: state, ..self },
            Output::Up => Actuator { up: state, ..self },
        }
    }

    /// What `engage` does: the error, or the actuator with the line held.
    pub open spec fn engaged(self, which: Output, now: u64) -> Result<Actuator, RemoteError> {
        if self.line(which).free_at(now) {
            Ok(
                self.with_line(
                    which,
                    LineState { held_since: Some(now), released_at: self.line(which).released_at },
                ),
            )
        } else {
            Err(RemoteError::LineBusy)
        }
    }

    /// What `release` does: the error, or the actuator with the line free.
    pub open spec fn released(self, which: Output, now: u64) -> Result<Actuator, RemoteError> {
        if self.line(which).held_since.is_none() {
            Err(RemoteError::LineIdle)
        } else if !self.line(which).due_at(now) {
            Err(RemoteError::DwellNotElapsed)
        } else {
            Ok(self.with_line(which, LineState { held_since: None, released_at: now }))
        }
    }

    /// What `abandon` does: the error, or the actuator with the line free
    /// and no press of it on record.
    pub open spec fn abandoned(self, which: Output) -> Result<Actuator, RemoteError> {
        if self.line(which).held_since.is_none() {
            Err(RemoteError::LineIdle)
        } else {
            Ok(
                self.with_line(
                    which,
                    LineState { held_since: None, released_at: self.line(which).released_at },
                ),
            )
        }
    }

    /// An actuator none of whose lines was ever pressed.
    pub fn new() -> (a: Actuator)
        ensures
            forall|which: Output| a.line(which) == LineState::idle(),
    {
        let idle = LineState { held_since: None, released_at: 0 };
        Actuator { select: idle, down: idle, stop: idle, up: idle }
    }

    /// The state of one line.
    pub fn state(&self, which: Output) -> (s: LineState)
        ensures
            s == self.line(which),
    {
        match which {
            Output::Select => self.select,
            Output::Down => self.down,
            Output::Stop => self.stop,
            Output::Up => self.up,
        }
    }

    fn set(&mut self, which: Output, state: LineState)
        ensures
            *final(self) == old(self).with_line(which, state),
    {
        match which {
            Output::Select => {
                self.select = state;
            },
            Output::Down => {
                self.down = state;
            },
            Output::Stop => {
                self.stop = state;
            },
            Output::Up => {
                self.up = state;
            },
        }
    }

    /// Begins a press of `which` at time `now`, in milliseconds on the
    /// caller's clock. The press is turned away with `LineBusy` while the
    /// line is held or `now` lies before its last release; the actuator is
    /// then unchanged. Otherwise the line counts as held from `now`, and the
    /// caller has to drive it active.
    pub fn engage(&mut self, which: Output, now: u64) -> (r: Result<Drive, RemoteError>)
        ensures
            match old(self).engaged(which, now) {
                Ok(after) => *final(self) == after && r == Ok::<Drive, RemoteError>(
                    (Drive { offset: which.line() as u32, level: Level::Active }),
                ),
                Err(e) => *final(self) == *old(self) && r == Err::<Drive, RemoteError>(e),
            },
    {
        let line = self.state(which);
        if line.held_since.is_none() && line.released_at <= now {
            self.set(which, LineState { held_since: Some(now), released_at: line.released_at });
            Ok(Drive { offset: which.offset(), level: Level::Active })
        } else {
            Err(RemoteError::LineBusy)
        }
    }

    /// Ends the press of `which` at time `now`. It is turned away with
    /// `LineIdle` when the line is not held and with `DwellNotElapsed` when
    /// it has been held for less than the minimum dwell; the actuator is
    /// then unchanged. Otherwise the line is free again, and the caller has
    /// to drive it inactive.
    pub fn release(&mut self, which: Output, now: u64) -> (r: Result<Drive, RemoteError>)
        ensures
            match old(self).released(which, now) {
                Ok(after) => *final(self) == after && r == Ok::<Drive, RemoteError>(
                    (Drive { offset: which.line() as u32, level: Level::Inactive }),
                ),
                Err(e) => *final(self) == *old(self) && r == Err::<Drive, RemoteError>(e),
            },
    {
        let line = self.state(which);
        match line.held_since {
            None => Err(RemoteError::LineIdle),
            Some(since) => {
                if now < since || now - since < DWELL_MS {
                    Err(RemoteError::DwellNotElapsed)
                } else {
                    self.set(which, LineState { held_since: None, released_at: now });
                    Ok(Drive { offset: which.offset(), level: Level::Active.not() })
                }
            },
        }
    }

    /// Gives up the press of `which` that `engage` began, for the case that
    /// the line could not be acquired and so was never driven. The line is
    /// free again as if the press had not begun. A line that is not held is
    /// turned away with `LineIdle`.
    pub fn abandon(&mut self, which: Output) -> (r: Result<(), RemoteError>)
        ensures
            match old(self).abandoned(which) {
                Ok(after) => *final(self) == after && r == Ok::<(), RemoteError>(()),
                Err(e) => *final(self) == *old(self) && r == Err::<(), RemoteError>(e),
            },
    {
        let line = self.state(which);
        if line.held_since.is_none() {
            Err(RemoteError::LineIdle)
        } else {
            self.set(which, LineState { held_since: None, released_at: line.released_at });
            Ok(())
        }
    }
}

/// A press that begins at `start` and ends at `end` holds its line for at
/// least the minimum dwell, and leaves the line free.
pub proof fn law_press_holds_for_dwell(a: Actuator, which: Output, start: u64, end: u64)
    requires
        a.engaged(which, start) is Ok,
        a.engaged(which, start)->Ok_0.released(which, end) is Ok,
    ensures
        end - start >= DWELL_MS,
        a.engaged(which, start)->Ok_0.released(which, end)->Ok_0.line(which).held_since.is_none(),
        a.engaged(which, start)->Ok_0.released(which, end)->Ok_0.line(which).released_at == end,
{
}

/// While a line is held, a second press of it is turned away.
pub proof fn law_held_line_is_busy(a: Actuator, which: Output, start: u64, again: u64)
    requires
        a.engaged(which, start) is Ok,
    ensures
        a.engaged(which, start)->Ok_0.engaged(which, again) == Err::<Actuator, RemoteError>(
            RemoteError::LineBusy,
        ),
{
}

/// Two presses of one line, one after the other, do not overlap: the second
/// begins no earlier than the first has ended, and each lasts at least the
/// minimum dwell.
pub proof fn law_sequential_presses_do_not_overlap(
    a: Actuator,
    which: Output,
    start1: u64,
    end1: u64,
    start2: u64,
    end2: u64,
)
    requires
        a.engaged(which, start1) is Ok,
        a.engaged(which, start1)->Ok_0.released(which, end1) is Ok,
        a.engaged(which, start1)->Ok_0.released(which, end1)->Ok_0.engaged(which, start2) is Ok,
        a.engaged(which, start1)->Ok_0.released(which, end1)->Ok_0.engaged(
            which,
            start2,
        )->Ok_0.released(which, end2) is Ok,
    ensures
        start1 + DWELL_MS <= end1,
        end1 <= start2,
        start2 + DWELL_MS <= end2,
{
    let freed = a.engaged(which, start1)->Ok_0.released(which, end1)->Ok_0;
    law_press_holds_for_dwell(a, which, start1, end1);
    law_press_holds_for_dwell(freed, which, start2, end2);
}

/// A press of one line leaves every other line as it was.
pub proof fn law_presses_of_other_lines_are_independent(
    a: Actuator,
    which: Output,
    other: Output,
    now: u64,
)
    requires
        other != which,
    ensures
        a.engaged(which, now) is Ok ==> a.engaged(which, now)->Ok_0.line(other) == a.line(other),
        a.released(which, now) is Ok ==> a.released(which, now)->Ok_0.line(other) == a.line(other),
{
}

} // verus!

//! The remote control: the authoritative position, how a sensed position
//! becomes the authoritative one, and how a target position is sought.

use vstd::prelude::*;
use std::collections::VecDeque;
use crate::broadcast::{Broadcaster, Subscription};
use crate::error::RemoteError;
use crate::gpio::{line_at, output_named};
use crate::sampler::{sample, sampled, EdgeEvent};

pub use crate::gpio::{Input, Output};

verus! {

/// The buttons of the device. `Select` is the one that cycles the device to
/// its next position; the others move it and leave the position alone.
#[derive(Clone, Copy, Debug, PartialEq, Eq, Structural, Hash)]
pub enum Command {
    Select,
    Up,
    Stop,
    Down,
}

impl Command {
    /// The output line that a command drives.
    pub open spec fn output(self) -> Output {
        match self {
            Command::Select => Output::Select,
            Command::Up => Output::Up,
            Command::Stop => Output::Stop,
            Command::Down => Output::Down,
        }
    }

    /// The command whose output line is `line`.
    pub open spec fn of_output(line: Output) -> Command {
        match line {
            Output::Select => Command::Select,
            Output::Up => Command::Up,
            Output::Stop => Command::Stop,
            Output::Down => Command::Down,
        }
    }

    /// The command that a word stands for.
    pub open spec fn named(word: Seq<char>) -> Option<Command> {
        match output_named(word) {
            Some(line) => Some(Command::of_output(line)),
            None => None,
        }
    }

    /// Reads a command word: `select`, `up`, `stop` or `down`.
    pub fn from_str(value: &str) -> (r: Option<Command>)
        ensures
            r == Command::named(value@),
            r matches Some(c) ==> output_named(value@) == Some(c.output()),
    {
        match Output::from_str(value) {
            Some(Output::Select) => Some(Command::Select),
            Some(Output::Up) => Some(Command::Up),
            Some(Output::Stop) => Some(Command::Stop),
            Some(Output::Down) => Some(Command::Down),
            None => None,
        }
    }

    /// The output line that this command drives.
    pub fn to_output(&self) -> (r: Output)
        ensures
            r == self.output(),
    {
        match self {
            Command::Select => Output::Select,
            Command::Up => Output::Up,
            Command::Stop => Output::Stop,
            Command::Down => Output::Down,
        }
    }
}

/// Number of pins that the remote control remembers.
pub const HISTORY_LEN: usize = 4;

/// The remembered pins after `pin` has fired: the last `HISTORY_LEN` of the
/// pins so far, oldest first.
pub open spec fn slid(history: Seq<u8>, pin: u8) -> Seq<u8> {
    let all = history.push(pin);
    if all.len() > HISTORY_LEN {
        all.subrange(all.len() - HISTORY_LEN, all.len() as int)
    } else {
        all
    }
}

/// Whether the remembered pins show every indicator line firing in turn: the
/// memory is full and no pin occurs in it twice.
pub open spec fn all_fired(window: Seq<u8>) -> bool {
    window.len() >= HISTORY_LEN && window.no_duplicates()
}

/// The position that the remembered pins point to: `Ambiguous` when every
/// line fired, else the line of the pin that fired last.
pub open spec fn candidate(window: Seq<u8>) -> Option<Input> {
    if all_fired(window) {
        Some(Input::Ambiguous)
    } else if window.len() > 0 {
        line_at(window.last() as int)
    } else {
        None
    }
}

/// Whether the hardened policy takes `sensed` for the new position while the
/// position is `current`: it is the same position, it is `Ambiguous`, or it
/// is the next one in the ring. Anything else is bounce.
pub open spec fn accepts(current: Input, sensed: Input) -> bool {
    sensed == current || sensed == Input::Ambiguous || sensed == current.successor()
}

/// Whether the policy takes `sensed` while the position is `current`.
pub fn is_accepted(current: Input, sensed: Input) -> (r: bool)
    ensures
        r == accepts(current, sensed),
{
    sensed == current || sensed == Input::Ambiguous || sensed == current.next()
}

/// What a cycle comes to once the press and the sampling pass are both over:
/// the failure of the press, else what the pass reported.
pub open spec fn joined(pressed: Result<(), RemoteError>, sensed: Result<Input, RemoteError>)
    -> Result<Input, RemoteError> {
    match pressed {
        Err(e) => Err(e),
        Ok(_) => sensed,
    }
}

/// Whether no pin occurs twice among the remembered ones.
fn all_distinct(pins: &VecDeque<u8>) -> (r: bool)
    ensures
        r == pins@.no_duplicates(),
{
    let n: usize = pins.len();
    let mut i: usize = 0;
    while i < n
        invariant
            n == pins@.len(),
            i <= n,
            forall|a: int, b: int| 0 <= a < i && 0 <= b < n && a != b ==> pins@[a] != pins@[b],
        decreases n - i,
    {
        let mut j: usize = 0;
        while j < n
            invariant
                n == pins@.len(),
                i < n,
                j <= n,
                forall|b: int| 0 <= b < j && i != b ==> pins@[i as int] != pins@[b],
            decreases n - j,
        {
            if i != j && pins[i] == pins[j] {
                return false;
            }
            j = j + 1;
        }
        i = i + 1;
    }
    true
}

/// The state of the remote control.
///
/// It holds the authoritative position, the pins that fired last, and the
/// slot through which observers follow the position. The slot's value and
/// the authoritative position change together and are never apart.
#[derive(Debug)]
pub struct RemoteControl {
    selection: Input,
    queue: VecDeque<u8>,
    feed: Broadcaster,
}

impl RemoteControl {
    /// The authoritative position.
    pub closed spec fn selection(&self) -> Input {
        self.selection
    }

    /// The pins that fired last, oldest first.
    pub closed spec fn history(&self) -> Seq<u8> {
        self.queue@
    }

    /// The slot that observers follow.
    pub closed spec fn feed(&self) -> Broadcaster {
        self.feed
    }

    /// What holds of every remote control: observers see the authoritative
    /// position, and the memory of pins is bounded.
    pub open spec fn wf(&self) -> bool {
        &&& self.feed().value == self.selection()
        &&& self.history().len() <= HISTORY_LEN
    }

    /// Whether one more position can be published.
    pub open spec fn can_publish(&self) -> bool {
        self.feed().version < u64::MAX
    }

    /// A remote control whose position is `initial`, the result of the first
    /// sampling pass.
    pub fn new(initial: Input) -> (rc: RemoteControl)
        ensures
            rc.wf(),
            rc.selection() == initial,
            rc.history() == Seq::<u8>::empty(),
            rc.feed().version == 0,
    {
        RemoteControl {
            selection: initial,
            queue: VecDeque::with_capacity(HISTORY_LEN),
            feed: Broadcaster::new(initial),
        }
    }

    /// The last published position. Reads the state and nothing else.
    pub fn current(&self) -> (p: Input)
        requires
            self.wf(),
        ensures
            p == self.selection(),
            p == self.feed().value,
    {
        self.selection
    }

    /// The slot, for handles to read from.
    pub fn broadcaster(&self) -> (slot: &Broadcaster)
        ensures
            *slot == self.feed(),
    {
        &self.feed
    }

    /// A new observer's handle.
    pub fn subscribe(&self) -> (handle: Subscription)
        ensures
            handle == self.feed().subscribed(),
            handle.follows(self.feed()),
    {
        self.feed.subscribe()
    }

    /// Whether one more position can be published.
    pub fn has_room(&self) -> (r: bool)
        ensures
            r == self.can_publish(),
    {
        self.feed.has_room()
    }

    /// Takes `sensed` for the new position, whatever the position was, and
    /// publishes it.
    pub fn resolve(&mut self, sensed: Input) -> (p: Input)
        requires
            old(self).wf(),
            old(self).can_publish(),
        ensures
            final(self).wf(),
            p == sensed,
            final(self).selection() == sensed,
            final(self).feed() == old(self).feed().published(sensed),
            final(self).history() == old(self).history(),
    {
        self.selection = sensed;
        self.feed.publish(sensed);
        sensed
    }

    /// Ends one cycle of the device: `pressed` is what became of the press
    /// of the select button, `sensed` what the sampling pass reported. When
    /// either failed, the failure is handed on, that of the press first, and
    /// the position stays. Otherwise the sensed position is taken and
    /// published.
    pub fn settle(
        &mut self,
        pressed: Result<(), RemoteError>,
        sensed: Result<Input, RemoteError>,
    ) -> (r: Result<Input, RemoteError>)
        requires
            old(self).wf(),
            old(self).can_publish(),
        ensures
            final(self).wf(),
            final(self).history() == old(self).history(),
            r == joined(pressed, sensed),
            match r {
                Ok(p) => final(self).selection() == p && final(self).feed() == old(
                    self,
                ).feed().published(p),
                Err(_) => final(self).selection() == old(self).selection() && final(self).feed()
                    == old(self).feed(),
            },
    {
        match pressed {
            Err(e) => Err(e),
            Ok(_) => match sensed {
                Err(e) => Err(e),
                Ok(p) => Ok(self.resolve(p)),
            },
        }
    }

    /// One cycle of the device over a recorded window: the select button was
    /// pressed with the outcome `pressed`, and `events` arrived on the
    /// indicator lines.
    pub fn cycle(&mut self, pressed: Result<(), RemoteError>, events: &Vec<EdgeEvent>) -> (r:
        Result<Input, RemoteError>)
        requires
            old(self).wf(),
            old(self).can_publish(),
        ensures
            final(self).wf(),
            final(self).history() == old(self).history(),
            r == joined(pressed, sampled(events@)),
            match r {
                Ok(p) => final(self).selection() == p && final(self).feed() == old(
                    self,
                ).feed().published(p),
                Err(_) => final(self).selection() == old(self).selection() && final(self).feed()
                    == old(self).feed(),
            },
    {
        let sensed = sample(events);
        self.settle(pressed, sensed)
    }

    /// Takes note that the indicator line at `pin` fired, under the hardened
    /// policy.
    ///
    /// A pin that belongs to no indicator line is turned away with
    /// `InvalidInput` and changes nothing. Otherwise the pin is remembered,
    /// the oldest remembered pin making room for it. The remembered pins
    /// point to a position (see `candidate`). When the policy takes that
    /// position (see `accepts`), it becomes the authoritative one and is
    /// published, and the result holds it; otherwise it is bounce, the
    /// position stays, and the result is `None`.
    pub fn on_event(&mut self, pin: u8) -> (r: Result<Option<Input>, RemoteError>)
        requires
            old(self).wf(),
            old(self).can_publish(),
        ensures
            final(self).wf(),
            line_at(pin as int).is_none() ==> {
                &&& r == Err::<Option<Input>, RemoteError>(RemoteError::InvalidInput)
                &&& final(self).selection() == old(self).selection()
                &&& final(self).history() == old(self).history()
                &&& final(self).feed() == old(self).feed()
            },
            accepts(old(self).selection(), final(self).selection()),
            line_at(pin as int).is_some() ==> {
                &&& final(self).history() == slid(old(self).history(), pin)
                &&& candidate(final(self).history()) matches Some(sensed)
                &&& if accepts(old(self).selection(), sensed) {
                    &&& r == Ok::<Option<Input>, RemoteError>(Some(sensed))
                    &&& final(self).selection() == sensed
                    &&& final(self).feed() == old(self).feed().published(sensed)
                } else {
                    &&& r == Ok::<Option<Input>, RemoteError>(None)
                    &&& final(self).selection() == old(self).selection()
                    &&& final(self).feed() == old(self).feed()
                }
            },
    {
        let line = match Input::from_u8(pin) {
            None => {
                return Err(RemoteError::InvalidInput);
            },
            Some(line) => line,
        };
        if self.queue.len() >= HISTORY_LEN {
            self.queue.pop_front();
        }
        self.queue.push_back(pin);
        assert(self.queue@ =~= slid(old(self).history(), pin));
        let sensed = if self.queue.len() >= HISTORY_LEN && all_distinct(&self.queue) {
            Input::Ambiguous
        } else {
            line
        };
        if is_accepted(self.selection, sensed) {
            self.selection = sensed;
            self.feed.publish(sensed);
            Ok(Some(sensed))
        } else {
            Ok(None)
        }
    }
}

/// The most cycles that one seek issues: one full turn of the ring.
pub const MAX_SEEK_CYCLES: u8 = 5;

/// Milliseconds that a seek waits after a cycle for the device to travel.
pub const SEEK_TRAVEL_MS: u64 = 500;

/// Milliseconds that a seek then lets the device settle before it looks at
/// the position again.
pub const SEEK_SETTLE_MS: u64 = 200;

/// What a seek asks of the caller next.
#[derive(Clone, Copy, Debug, PartialEq, Eq, Structural)]
pub enum SeekStep {
    /// The position is the target: the seek is over.
    Arrived,
    /// Cycle the device once, pace, and come back with the new position.
    Cycle,
}

/// A seek in progress.
#[derive(Clone, Copy, Debug, PartialEq, Eq, Structural)]
pub struct Seek {
    /// The position sought.
    pub target: Input,
    /// The cycles issued so far.
    pub cycles: u8,
}

impl Seek {
    /// What `step` answers while the position is `current`, and the seek
    /// after it.
    pub open spec fn stepped(self, current: Input) -> (Result<SeekStep, RemoteError>, Seek) {
        if current == self.target {
            (Ok(SeekStep::Arrived), self)
        } else if self.cycles >= MAX_SEEK_CYCLES {
            (Err(RemoteError::SeekNotConverging), self)
        } else {
            (Ok(SeekStep::Cycle), Seek { target: self.target, cycles: (self.cycles + 1) as u8 })
        }
    }

    /// A seek for `target` that has issued no cycle yet.
    pub fn new(target: Input) -> (s: Seek)
        ensures
            s == (Seek { target, cycles: 0 }),
    {
        Seek { target, cycles: 0 }
    }

    /// Decides what comes next while the position is `current`. At the
    /// target the seek is over at once, and nothing is issued. Short of the
    /// target it asks for one more cycle, as long as fewer than
    /// `MAX_SEEK_CYCLES` were issued, and fails with `SeekNotConverging`
    /// after that.
    pub fn step(&mut self, current: Input) -> (r: Result<SeekStep, RemoteError>)
        ensures
            (r, *final(self)) == old(self).stepped(current),
    {
        if current == self.target {
            Ok(SeekStep::Arrived)
        } else if self.cycles >= MAX_SEEK_CYCLES {
            Err(RemoteError::SeekNotConverging)
        } else {
            self.cycles = self.cycles + 1;
            Ok(SeekStep::Cycle)
        }
    }
}

/// The number of cycles that lead from `from` to `to` along the ring.
pub open spec fn ring_distance(from: Input, to: Input) -> int {
    (to.rank() - from.rank() + 5) % 5
}

/// The cycles that a seek issues from here on, on a device that moves to the
/// next position of the ring with each cycle and stands at `current`: the
/// count when the seek arrives, `None` when it fails.
pub open spec fn cycles_on_ring(seek: Seek, current: Input) -> Option<int>
    decreases MAX_SEEK_CYCLES - seek.cycles,
{
    let (step, next) = seek.stepped(current);
    match step {
        Ok(SeekStep::Arrived) => Some(0),
        Err(_) => None,
        Ok(SeekStep::Cycle) => if seek.cycles < MAX_SEEK_CYCLES {
            match cycles_on_ring(next, current.successor()) {
                Some(n) => Some(n + 1),
                None => None,
            }
        } else {
            None
        },
    }
}

/// A seek that starts at its target is over at once, without a cycle, and
/// is left as it was.
pub proof fn law_seek_at_target_issues_nothing(seek: Seek)
    ensures
        seek.stepped(seek.target) == (Ok::<SeekStep, RemoteError>(SeekStep::Arrived), seek),
        cycles_on_ring(seek, seek.target) == Some(0int),
{
}

/// On a device that follows the ring, a seek arrives after exactly as many
/// cycles as the ring has steps between the position and the target, as long
/// as its attempts allow that many.
pub proof fn law_seek_follows_ring(seek: Seek, current: Input)
    requires
        seek.cycles + ring_distance(current, seek.target) <= MAX_SEEK_CYCLES,
    ensures
        cycles_on_ring(seek, current) == Some(ring_distance(current, seek.target)),
    decreases ring_distance(current, seek.target),
{
    if current != seek.target {
        let next = Seek { target: seek.target, cycles: (seek.cycles + 1) as u8 };
        assert(ring_distance(current.successor(), seek.target) == ring_distance(
            current,
            seek.target,
        ) - 1);
        law_seek_follows_ring(next, current.successor());
    }
}

/// A seek never issues more than `MAX_SEEK_CYCLES` cycles, on whatever
/// device.
pub proof fn law_seek_is_bounded(seek: Seek, current: Input)
    requires
        seek.cycles <= MAX_SEEK_CYCLES,
    ensures
        seek.stepped(current).1.cycles <= MAX_SEEK_CYCLES,
        seek.stepped(current).1.target == seek.target,
        seek.stepped(current).0 == Ok::<SeekStep, RemoteError>(SeekStep::Cycle) <==> seek.stepped(
            current,
        ).1.cycles == seek.cycles + 1,
{
}

/// From any position, a fresh seek reaches any target on a device that
/// follows the ring, within four cycles, and never gives up.
pub proof fn law_fresh_seek_arrives(current: Input, target: Input)
    ensures
        cycles_on_ring((Seek { target, cycles: 0 }), current) == Some(
            ring_distance(current, target),
        ),
        0 <= ring_distance(current, target) <= 4,
{
    law_seek_follows_ring(Seek { target, cycles: 0 }, current);
}

} // verus!

//! One sampling pass over the indicator lines.
//!
//! A pass collects edge events until the observation window has elapsed or
//! the event cap is reached, whichever comes first, and reduces them to one
//! position. The caller owns the lines and the clock: it asks the pass how
//! long to wait, hands over each event that arrives, and asks for the result
//! when the pass wants no more.

use vstd::prelude::*;
use crate::error::RemoteError;
use crate::gpio::{line_at, Input};

verus! {

/// Length of the observation window, in milliseconds.
pub const WINDOW_MS: u64 = 300;

/// Number of events after which a pass stops and reports `Ambiguous`.
pub const MAX_EVENTS: usize = 16;

/// One edge on an indicator line.
#[derive(Clone, Copy, Debug, PartialEq, Eq, Structural)]
pub struct EdgeEvent {
    /// Offset of the line that toggled.
    pub offset: u32,
    /// Milliseconds between the opening of the window and the edge.
    pub at_ms: u64,
}

/// The number of events a pass takes from `events`, counting on from `from`.
///
/// The pass takes events in order of arrival, and stops at the cap, at the
/// end of the stream, or at the first event that arrives once the window has
/// elapsed.
pub open spec fn taken(events: Seq<EdgeEvent>, from: int) -> int
    decreases events.len() - from,
{
    if from < 0 || from >= events.len() || from >= MAX_EVENTS || events[from].at_ms >= WINDOW_MS {
        from
    } else {
        taken(events, from + 1)
    }
}

/// What a pass reports that has taken `count` events, the last of them on the
/// line at `last`.
pub open spec fn verdict(count: int, last: int) -> Result<Input, RemoteError> {
    if count >= MAX_EVENTS {
        Ok(Input::Ambiguous)
    } else if count <= 0 {
        Err(RemoteError::NoSignal)
    } else {
        match line_at(last) {
            Some(p) => Ok(p),
            None => Err(RemoteError::InvalidInput),
        }
    }
}

/// What a pass over `events` reports.
pub open spec fn sampled(events: Seq<EdgeEvent>) -> Result<Input, RemoteError> {
    let n = taken(events, 0);
    verdict(n, if n > 0 { events[n - 1].offset as int } else { 0 })
}

/// The state of one pass: how many events it has taken, and the line of the
/// last one.
#[derive(Clone, Copy, Debug, PartialEq, Eq, Structural)]
pub struct Sampler {
    count: usize,
    last: u32,
}

impl Sampler {
    /// The number of events taken so far.
    pub closed spec fn count(self) -> int {
        self.count as int
    }

    /// The line of the last event taken; meaningless while `count` is zero.
    pub closed spec fn last(self) -> int {
        self.last as int
    }

    /// A pass never holds more than the cap.
    #[verifier::type_invariant]
    spec fn within_cap(self) -> bool {
        self.count <= MAX_EVENTS
    }

    /// A pass that has seen nothing yet. Each pass starts here: no event is
    /// carried over from an earlier one.
    pub fn new() -> (s: Sampler)
        ensures
            s.count() == 0,
    {
        Sampler { count: 0, last: 0 }
    }

    /// How long the pass still waits for an event, `elapsed_ms` after the
    /// window opened: the rest of the window, or `None` once the window has
    /// elapsed or the cap is reached.
    pub fn remaining(&self, elapsed_ms: u64) -> (r: Option<u64>)
        ensures
            r == if self.count() < MAX_EVENTS && elapsed_ms < WINDOW_MS {
                Some((WINDOW_MS - elapsed_ms) as u64)
            } else {
                None::<u64>
            },
    {
        if self.count < MAX_EVENTS && elapsed_ms < WINDOW_MS {
            Some(WINDOW_MS - elapsed_ms)
        } else {
            None
        }
    }

    /// Takes one event on the line at `offset`. At the cap the event is
    /// dropped and the pass stays as it is.
    pub fn record(&mut self, offset: u32)
        ensures
            old(self).count() < MAX_EVENTS ==> final(self).count() == old(self).count() + 1
                && final(self).last() == offset,
            old(self).count() >= MAX_EVENTS ==> *final(self) == *old(self),
    {
        if self.count < MAX_EVENTS {
            self.count = self.count + 1;
            self.last = offset;
        }
    }

    /// The result of the pass: `Ambiguous` at the cap, `NoSignal` when
    /// nothing was taken, else the position of the last event's line.
    pub fn finish(&self) -> (r: Result<Input, RemoteError>)
        ensures
            r == verdict(self.count(), self.last()),
    {
        if self.count >= MAX_EVENTS {
            Ok(Input::Ambiguous)
        } else if self.count == 0 {
            Err(RemoteError::NoSignal)
        } else {
            Input::try_from(self.last)
        }
    }
}

/// Runs one pass over a recorded stream of events, in order of arrival.
pub fn sample(events: &Vec<EdgeEvent>) -> (r: Result<Input, RemoteError>)
    ensures
        r == sampled(events@),
{
    let mut pass = Sampler::new();
    let mut i: usize = 0;
    while i < events.len() && pass.remaining(events[i].at_ms).is_some()
        invariant
            0 <= i <= events.len(),
            pass.count() == i,
            i > 0 ==> pass.last() == events@[i - 1].offset,
            taken(events@, 0) == taken(events@, i as int),
        decreases events.len() - i,
    {
        pass.record(events[i].offset);
        i = i + 1;
    }
    pass.finish()
}

/// A window with no event in it ends in `NoSignal`.
pub proof fn law_silence_is_no_signal(events: Seq<EdgeEvent>)
    requires
        events.len() == 0 || events[0].at_ms >= WINDOW_MS,
    ensures
        sampled(events) == Err::<Input, RemoteError>(RemoteError::NoSignal),
{
}

/// Once the first `from` events lie inside the window, a pass takes at least
/// as many as the cap allows of the first `upto`.
proof fn lemma_taken_reaches(events: Seq<EdgeEvent>, from: int, upto: int)
    requires
        0 <= from <= upto <= events.len(),
        upto <= MAX_EVENTS,
        forall|i: int| 0 <= i < upto ==> events[i].at_ms < WINDOW_MS,
    ensures
        taken(events, from) == taken(events, upto),
    decreases upto - from,
{
    if from < upto {
        lemma_taken_reaches(events, from + 1, upto);
    }
}

/// When the cap's worth of events arrives inside the window, the pass ends in
/// `Ambiguous`, whatever lines they came from.
pub proof fn law_cap_is_ambiguous(events: Seq<EdgeEvent>)
    requires
        events.len() >= MAX_EVENTS,
        forall|i: int| 0 <= i < MAX_EVENTS ==> events[i].at_ms < WINDOW_MS,
    ensures
        sampled(events) == Ok::<Input, RemoteError>(Input::Ambiguous),
{
    lemma_taken_reaches(events, 0, MAX_EVENTS as int);
}

/// A pass ends in `Ambiguous` only at the cap: never on fewer events, from
/// whatever lines.
pub proof fn law_ambiguous_only_at_cap(events: Seq<EdgeEvent>)
    ensures
        sampled(events) == Ok::<Input, RemoteError>(Input::Ambiguous) <==> taken(events, 0)
            >= MAX_EVENTS,
{
}

/// When the events inside the window, at least one and fewer than the cap,
/// all come from the line of one position, the pass ends in that position.
pub proof fn law_single_line_is_its_position(events: Seq<EdgeEvent>, n: int, p: Input)
    requires
        0 < n <= events.len(),
        n < MAX_EVENTS,
        forall|i: int| 0 <= i < n ==> events[i].at_ms < WINDOW_MS,
        n == events.len() || events[n].at_ms >= WINDOW_MS,
        forall|i: int| 0 <= i < n ==> Some(events[i].offset as int) == p.line(),
    ensures
        sampled(events) == Ok::<Input, RemoteError>(p),
{
    lemma_taken_reaches(events, 0, n);
    assert(Some(events[n - 1].offset as int) == p.line());
}

} // verus!

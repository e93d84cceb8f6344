//! The decisions of the streaming loop.
//!
//! The loop itself reads and writes, which is not done here. After each read
//! it reports what happened, and is told what to do next: write the line as
//! it was read, pass over it, or stop.

use vstd::prelude::*;
use crate::pattern::{pattern_matches, Pattern};
use crate::strip::{strip_ansi_escapes, stripped};

verus! {

/// Where a run stands.
#[derive(Clone, Copy, Debug, PartialEq, Eq, Structural)]
pub enum State {
    /// More input is expected.
    Reading,
    /// The run is over: the input ended, or a read or a write failed.
    Done,
}

/// What the loop has seen.
#[derive(Clone, Copy, Debug)]
pub enum Event<'a> {
    /// A read delivered the line `raw`, terminator included, and the cleaned
    /// form of the line matched the pattern or did not.
    Line { raw: &'a [u8], matched: bool },
    /// A read delivered no bytes.
    EndOfInput,
    /// A read or a write failed.
    Failure,
}

/// What the loop has to do.
#[derive(Clone, Copy, Debug, PartialEq, Eq)]
pub enum Action<'a> {
    /// Write these bytes, then read on.
    Emit(&'a [u8]),
    /// Write nothing, and read on.
    Skip,
    /// Read no more.
    Stop,
}

/// The state that follows `state` on `event`, and what is to be done.
///
/// A line that matched is written as it was read; one that did not is
/// passed over. The end of the input and a failure both end the run, and a
/// run that is over stays so.
pub open spec fn transition<'a>(state: State, event: Event<'a>) -> (State, Action<'a>) {
    match state {
        State::Done => (State::Done, Action::Stop),
        State::Reading => match event {
            Event::Line { raw, matched } => (
                State::Reading,
                if matched {
                    Action::Emit(raw)
                } else {
                    Action::Skip
                },
            ),
            Event::EndOfInput => (State::Done, Action::Stop),
            Event::Failure => (State::Done, Action::Stop),
        },
    }
}

/// Whether the line `raw` passes under the pattern written as `pattern`:
/// whether its cleaned form matches.
pub open spec fn passes(pattern: Seq<char>, raw: Seq<u8>) -> bool {
    pattern_matches(pattern, stripped(raw))
}

/// What a read that delivered `raw` amounts to under the pattern written as
/// `pattern`: the end of the input where `raw` is empty, else a line that is
/// judged by its cleaned form.
pub open spec fn read_event<'a>(pattern: Seq<char>, raw: &'a [u8]) -> Event<'a> {
    if raw@.len() == 0 {
        Event::EndOfInput
    } else {
        Event::Line { raw, matched: passes(pattern, raw@) }
    }
}

/// One step of a run: the next state, and what is to be done.
pub fn step<'a>(state: State, event: Event<'a>) -> (next: (State, Action<'a>))
    ensures
        next == transition(state, event),
{
    match state {
        State::Done => (State::Done, Action::Stop),
        State::Reading => match event {
            Event::Line { raw, matched } => {
                if matched {
                    (State::Reading, Action::Emit(raw))
                } else {
                    (State::Reading, Action::Skip)
                }
            },
            Event::EndOfInput => (State::Done, Action::Stop),
            Event::Failure => (State::Done, Action::Stop),
        },
    }
}

/// A run of the filter over one input: the pattern, the state, and the
/// buffer that holds the cleaned form of the line at hand.
pub struct LinePump {
    pattern: Pattern,
    cleaned: Vec<u8>,
    state: State,
}

impl LinePump {
    /// The text of the pattern that lines are tested against.
    pub closed spec fn pattern_text(&self) -> Seq<char> {
        self.pattern@
    }

    /// Where the run stands.
    pub closed spec fn spec_state(&self) -> State {
        self.state
    }

    /// What the cleaned buffer holds.
    pub closed spec fn cleaned_view(&self) -> Seq<u8> {
        self.cleaned@
    }

    /// A run that has read nothing yet.
    pub fn new(pattern: Pattern) -> (pump: LinePump)
        ensures
            pump.pattern_text() == pattern@,
            pump.spec_state() == State::Reading,
            pump.cleaned_view() == Seq::<u8>::empty(),
    {
        LinePump { pattern, cleaned: Vec::new(), state: State::Reading }
    }

    /// Where the run stands.
    #[verifier::when_used_as_spec(spec_state)]
    pub fn state(&self) -> (state: State)
        ensures
            state == self.spec_state(),
    {
        self.state
    }

    /// The cleaned form of the line that was judged last.
    pub fn cleaned(&self) -> (bytes: &[u8])
        ensures
            bytes@ == self.cleaned_view(),
    {
        self.cleaned.as_slice()
    }

    /// Takes in what a read delivered, and says what to do with it.
    ///
    /// An empty `raw` is the end of the input. Any other `raw` is a line: it
    /// is cleaned, the cleaned form alone decides, and a line that passes is
    /// handed back as it came, styling sequences and all. The cleaned buffer
    /// is rebuilt from `raw` before it is looked at, so nothing of an
    /// earlier line bears on the decision.
    pub fn on_read<'a>(&mut self, raw: &'a [u8]) -> (action: Action<'a>)
        ensures
            final(self).pattern_text() == old(self).pattern_text(),
            (final(self).spec_state(), action) == transition(
                old(self).spec_state(),
                read_event(old(self).pattern_text(), raw),
            ),
            final(self).cleaned_view() == if old(self).spec_state() == State::Reading
                && raw@.len() > 0 {
                stripped(raw@)
            } else {
                old(self).cleaned_view()
            },
            old(self).spec_state() == State::Reading && raw@.len() > 0
                && passes(old(self).pattern_text(), raw@)
                ==> action == Action::Emit(raw) && final(self).spec_state() == State::Reading,
            old(self).spec_state() == State::Reading && raw@.len() > 0
                && !passes(old(self).pattern_text(), raw@)
                ==> action == Action::<'a>::Skip && final(self).spec_state() == State::Reading,
            old(self).spec_state() == State::Reading && raw@.len() == 0
                ==> action == Action::<'a>::Stop && final(self).spec_state() == State::Done,
            old(self).spec_state() == State::Done
                ==> action == Action::<'a>::Stop && final(self).spec_state() == State::Done,
    {
        match self.state {
            State::Done => Action::Stop,
            State::Reading => {
                let event = if raw.len() == 0 {
                    Event::EndOfInput
                } else {
                    strip_ansi_escapes(raw, &mut self.cleaned);
                    Event::Line { raw, matched: self.pattern.is_match(self.cleaned.as_slice()) }
                };
                let (state, action) = step(State::Reading, event);
                self.state = state;
                action
            },
        }
    }

    /// Takes in that a read or a write failed: the run is over.
    pub fn on_failure(&mut self)
        ensures
            final(self).pattern_text() == old(self).pattern_text(),
            final(self).cleaned_view() == old(self).cleaned_view(),
            final(self).spec_state() == State::Done,
            final(self).spec_state() == transition(old(self).spec_state(), Event::Failure).0,
    {
        let (state, _) = step(self.state, Event::Failure);
        self.state = state;
    }
}

} // verus!

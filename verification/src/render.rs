//! The stream renderer: how an answer that arrives in fragments is shown.
//!
//! A session takes one event at a time and answers with what is to be done to
//! the sink, the message in which the answer is shown. Writing to a sink is
//! slow and may be refused, so the session writes at most once in an
//! interval, and when a write is refused it moves on to a new sink, which
//! starts with the text that the old one did not take.

use vstd::prelude::*;
use crate::text::{seconds, seconds_text};

verus! {

/// What is shown in place of an answer whose stream broke off.
pub const STREAM_ERROR_NOTICE: &'static str = "Error generating response!";

/// Where a session stands.
#[derive(Clone, Copy, Debug, PartialEq, Eq, Structural)]
pub enum Phase {
    /// No fragment has come yet.
    Idle,
    /// Fragments come, and no write is under way.
    Streaming,
    /// Fragments come while a write awaits its result.
    Flushing,
    /// The stream is complete and the last write awaits its result.
    Finalizing,
    /// The answer is complete.
    Done,
    /// The stream broke off.
    Failed,
}

/// What can happen to a session.
#[derive(Debug, PartialEq, Eq)]
pub enum Event {
    /// The backend delivered `text`, at the time `now`.
    Fragment { text: String, now: u64 },
    /// The backend completed the answer, at the time `now`.
    Finished { now: u64 },
    /// The stream broke off before it was complete.
    Interrupted,
    /// The sink took the last write.
    Flushed,
    /// The sink refused the last write.
    Rejected,
}

/// What is to be done after an event.
#[derive(Debug, PartialEq, Eq)]
pub enum Action {
    /// Nothing: wait for the next event.
    Wait,
    /// Write `text` to the sink in place of what it shows, and report
    /// `Flushed` or `Rejected`.
    Flush { text: String },
    /// Open a new sink that shows `seed` and make it the sink. Nothing is
    /// reported back.
    Spill { seed: String },
    /// Write the notice `text` to the sink in place of what it shows.
    /// Nothing is reported back.
    Report { text: String },
}

/// An event as the contracts speak of it.
pub enum EventView {
    Fragment { text: Seq<char>, now: nat },
    Finished { now: nat },
    Interrupted,
    Flushed,
    Rejected,
}

/// An action as the contracts speak of it.
pub enum ActionView {
    Wait,
    Flush { text: Seq<char> },
    Spill { seed: Seq<char> },
    Report { text: Seq<char> },
}

/// A session as the contracts speak of it. Times are in milliseconds.
pub struct SessionView {
    pub phase: Phase,
    /// The least time between the start of the stream and a write, and
    /// between two writes.
    pub interval: nat,
    /// When the stream began.
    pub started: nat,
    /// How long the request was prepared before the stream began.
    pub preparation: nat,
    /// When a write was last begun, or the stream began.
    pub last_flush: nat,
    /// All the text of the answer so far.
    pub total: Seq<char>,
    /// What the sink is meant to show: what it shows, then `sent`, then
    /// `pending`.
    pub shown: Seq<char>,
    /// The text that the write under way adds to what the sink shows.
    pub sent: Seq<char>,
    /// The text that came since a write was last begun.
    pub pending: Seq<char>,
}

impl View for Event {
    type V = EventView;

    open spec fn view(&self) -> EventView {
        match *self {
            Event::Fragment { text, now } => EventView::Fragment { text: text@, now: now as nat },
            Event::Finished { now } => EventView::Finished { now: now as nat },
            Event::Interrupted => EventView::Interrupted,
            Event::Flushed => EventView::Flushed,
            Event::Rejected => EventView::Rejected,
        }
    }
}

impl View for Action {
    type V = ActionView;

    open spec fn view(&self) -> ActionView {
        match *self {
            Action::Wait => ActionView::Wait,
            Action::Flush { text } => ActionView::Flush { text: text@ },
            Action::Spill { seed } => ActionView::Spill { seed: seed@ },
            Action::Report { text } => ActionView::Report { text: text@ },
        }
    }
}

/// The line that closes an answer: how long it took to generate and to
/// prepare, and a caution.
pub open spec fn footer_text(generation: nat, preparation: nat) -> Seq<char> {
    "\n-# Generated response in "@ + seconds_text(generation) + "s ("@ + seconds_text(preparation)
        + "s prep). There may be [inaccuracies in AI output](<https://lib.guides.umd.edu/c.php?g=1340355&p=9880574>). Check important info."@
}

/// Writes the line that closes an answer.
pub fn footer(generation: u64, preparation: u64) -> (r: String)
    ensures
        r@ == footer_text(generation as nat, preparation as nat),
{
    let mut r = "\n-# Generated response in ".to_owned();
    r.append(seconds(generation).as_str());
    r.append("s (");
    r.append(seconds(preparation).as_str());
    r.append(
        "s prep). There may be [inaccuracies in AI output](<https://lib.guides.umd.edu/c.php?g=1340355&p=9880574>). Check important info.",
    );
    r
}

/// The time from `earlier` to `later`: none where the clock went back.
pub open spec fn span(earlier: nat, later: nat) -> nat {
    if later >= earlier {
        (later - earlier) as nat
    } else {
        0
    }
}

impl SessionView {
    /// A session at the start of a stream.
    pub open spec fn fresh(now: nat, preparation: nat, interval: nat) -> SessionView {
        SessionView {
            phase: Phase::Idle,
            interval,
            started: now,
            preparation,
            last_flush: now,
            total: Seq::empty(),
            shown: Seq::empty(),
            sent: Seq::empty(),
            pending: Seq::empty(),
        }
    }

    /// Whether the session still takes fragments.
    pub open spec fn accepting(self) -> bool {
        self.phase is Idle || self.phase is Streaming || self.phase is Flushing
    }

    /// Whether a write awaits its result.
    pub open spec fn awaiting(self) -> bool {
        self.phase is Flushing || self.phase is Finalizing
    }

    /// Whether a fragment that comes at `now` is written at once: no write
    /// is under way and the interval has passed since the last.
    pub open spec fn due(self, now: nat) -> bool {
        (self.phase is Idle || self.phase is Streaming) && span(self.last_flush, now)
            >= self.interval
    }

    /// The text that no sink is known to show: what came since the last
    /// write that the sink took.
    pub open spec fn unconfirmed(self) -> Seq<char> {
        self.sent + self.pending
    }

    /// The closing line of an answer that is complete at `now`.
    pub open spec fn footer_at(self, now: nat) -> Seq<char> {
        footer_text(span(self.started, now), self.preparation)
    }

    /// The session after the event `e`.
    pub open spec fn next(self, e: EventView) -> SessionView {
        match e {
            EventView::Fragment { text, now } => if !self.accepting() {
                self
            } else if self.due(now) {
                SessionView {
                    phase: Phase::Flushing,
                    last_flush: now,
                    total: self.total + text,
                    shown: self.shown + text,
                    sent: self.unconfirmed() + text,
                    pending: Seq::empty(),
                    ..self
                }
            } else {
                SessionView {
                    phase: if self.phase is Flushing {
                        Phase::Flushing
                    } else {
                        Phase::Streaming
                    },
                    total: self.total + text,
                    shown: self.shown + text,
                    pending: self.pending + text,
                    ..self
                }
            },
            EventView::Finished { now } => if !self.accepting() {
                self
            } else {
                SessionView {
                    phase: Phase::Finalizing,
                    shown: self.shown + self.footer_at(now),
                    sent: self.unconfirmed() + self.footer_at(now),
                    pending: Seq::empty(),
                    ..self
                }
            },
            EventView::Interrupted => if !self.accepting() {
                self
            } else {
                SessionView { phase: Phase::Failed, ..self }
            },
            EventView::Flushed => if !self.awaiting() {
                self
            } else {
                SessionView {
                    phase: if self.phase is Flushing {
                        Phase::Streaming
                    } else {
                        Phase::Done
                    },
                    sent: Seq::empty(),
                    ..self
                }
            },
            EventView::Rejected => if !self.awaiting() {
                self
            } else {
                SessionView {
                    phase: if self.phase is Flushing {
                        Phase::Streaming
                    } else {
                        Phase::Done
                    },
                    shown: self.unconfirmed(),
                    sent: Seq::empty(),
                    pending: Seq::empty(),
                    ..self
                }
            },
        }
    }

    /// What is to be done after the event `e`.
    pub open spec fn action(self, e: EventView) -> ActionView {
        match e {
            EventView::Fragment { text, now } => if self.accepting() && self.due(now) {
                ActionView::Flush { text: self.shown + text }
            } else {
                ActionView::Wait
            },
            EventView::Finished { now } => if self.accepting() {
                ActionView::Flush { text: self.shown + self.footer_at(now) }
            } else {
                ActionView::Wait
            },
            EventView::Interrupted => if self.accepting() {
                ActionView::Report { text: STREAM_ERROR_NOTICE@ }
            } else {
                ActionView::Wait
            },
            EventView::Flushed => ActionView::Wait,
            EventView::Rejected => if self.awaiting() {
                ActionView::Spill { seed: self.unconfirmed() }
            } else {
                ActionView::Wait
            },
        }
    }
}

/// The state of one answer that is being streamed.
pub struct StreamSession {
    phase: Phase,
    interval: u64,
    started: u64,
    preparation: u64,
    last_flush: u64,
    total: String,
    shown: String,
    sent: String,
    pending: String,
}

impl View for StreamSession {
    type V = SessionView;

    closed spec fn view(&self) -> SessionView {
        SessionView {
            phase: self.phase,
            interval: self.interval as nat,
            started: self.started as nat,
            preparation: self.preparation as nat,
            last_flush: self.last_flush as nat,
            total: self.total@,
            shown: self.shown@,
            sent: self.sent@,
            pending: self.pending@,
        }
    }
}

impl StreamSession {
    /// A session for a stream that begins at `now`, after `preparation`
    /// milliseconds of preparing the request, and whose sink is written at
    /// most once in `interval` milliseconds.
    pub fn open(now: u64, preparation: u64, interval: u64) -> (r: StreamSession)
        ensures
            r@ == SessionView::fresh(now as nat, preparation as nat, interval as nat),
    {
        StreamSession {
            phase: Phase::Idle,
            interval,
            started: now,
            preparation,
            last_flush: now,
            total: String::new(),
            shown: String::new(),
            sent: String::new(),
            pending: String::new(),
        }
    }

    /// Where the session stands.
    pub fn phase(&self) -> (r: Phase)
        ensures
            r == self@.phase,
    {
        self.phase
    }

    /// Whether the session has come to its end, complete or broken off.
    pub fn is_over(&self) -> (r: bool)
        ensures
            r == (self@.phase is Done || self@.phase is Failed),
    {
        match self.phase {
            Phase::Done => true,
            Phase::Failed => true,
            _ => false,
        }
    }

    /// The answer to be remembered: all its text, without the closing line,
    /// once the session is `Done`; nothing before that, and nothing of an
    /// answer that broke off.
    pub fn committed(&self) -> (r: Option<String>)
        ensures
            match r {
                Some(text) => self@.phase is Done && text@ == self@.total,
                None => !(self@.phase is Done),
            },
    {
        match self.phase {
            Phase::Done => Some(self.total.clone()),
            _ => None,
        }
    }

    /// Takes the event `event` and says what is to be done.
    ///
    /// A fragment is added to the text while the stream is open, and the
    /// text is written when no write is under way and the interval has
    /// passed. The end of the stream has the text written with the closing
    /// line. A refused write has a new sink opened with the text that no
    /// sink took. A stream that breaks off has the notice written. An event
    /// that does not fit where the session stands changes nothing.
    pub fn step(&mut self, event: Event) -> (r: Action)
        ensures
            final(self)@ == old(self)@.next(event@),
            r@ == old(self)@.action(event@),
    {
        let accepting = match self.phase {
            Phase::Idle => true,
            Phase::Streaming => true,
            Phase::Flushing => true,
            _ => false,
        };
        let awaiting = match self.phase {
            Phase::Flushing => true,
            Phase::Finalizing => true,
            _ => false,
        };
        match event {
            Event::Fragment { text, now } => {
                if !accepting {
                    return Action::Wait;
                }
                self.total.append(text.as_str());
                self.shown.append(text.as_str());
                self.pending.append(text.as_str());
                let flushing = match self.phase {
                    Phase::Flushing => true,
                    _ => false,
                };
                let elapsed = if now >= self.last_flush {
                    now - self.last_flush
                } else {
                    0
                };
                if !flushing && elapsed >= self.interval {
                    self.phase = Phase::Flushing;
                    self.last_flush = now;
                    self.sent.append(self.pending.as_str());
                    self.pending = String::new();
                    assert(self.sent@ =~= old(self)@.unconfirmed() + text@);
                    Action::Flush { text: self.shown.clone() }
                } else {
                    if !flushing {
                        self.phase = Phase::Streaming;
                    }
                    Action::Wait
                }
            },
            Event::Finished { now } => {
                if !accepting {
                    return Action::Wait;
                }
                let generation = if now >= self.started {
                    now - self.started
                } else {
                    0
                };
                let closing = footer(generation, self.preparation);
                self.phase = Phase::Finalizing;
                self.shown.append(closing.as_str());
                self.sent.append(self.pending.as_str());
                self.sent.append(closing.as_str());
                self.pending = String::new();
                Action::Flush { text: self.shown.clone() }
            },
            Event::Interrupted => {
                if !accepting {
                    return Action::Wait;
                }
                self.phase = Phase::Failed;
                Action::Report { text: STREAM_ERROR_NOTICE.to_owned() }
            },
            Event::Flushed => {
                if !awaiting {
                    return Action::Wait;
                }
                self.phase = match self.phase {
                    Phase::Flushing => Phase::Streaming,
                    _ => Phase::Done,
                };
                self.sent = String::new();
                Action::Wait
            },
            Event::Rejected => {
                if !awaiting {
                    return Action::Wait;
                }
                self.phase = match self.phase {
                    Phase::Flushing => Phase::Streaming,
                    _ => Phase::Done,
                };
                let mut seed = self.sent.clone();
                seed.append(self.pending.as_str());
                self.shown = seed.clone();
                self.sent = String::new();
                self.pending = String::new();
                Action::Spill { seed }
            },
        }
    }
}

} // verus!

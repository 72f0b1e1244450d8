//! Runs of a session: what holds of every sequence of events.

use vstd::prelude::*;
use crate::render::{ActionView, EventView, SessionView};

verus! {

/// The session after the events `events`, one after another.
pub open spec fn run(s: SessionView, events: Seq<EventView>) -> SessionView
    decreases events.len(),
{
    if events.len() == 0 {
        s
    } else {
        run(s.next(events[0]), events.drop_first())
    }
}

/// The text that `events` deliver: their fragments up to the end of the
/// stream, one after another.
pub open spec fn delivered(events: Seq<EventView>) -> Seq<char>
    decreases events.len(),
{
    if events.len() == 0 {
        Seq::empty()
    } else {
        match events[0] {
            EventView::Fragment { text, now } => text + delivered(events.drop_first()),
            EventView::Finished { now } => Seq::empty(),
            EventView::Interrupted => Seq::empty(),
            _ => delivered(events.drop_first()),
        }
    }
}

/// How many writes of the answer the events `events` bring about.
pub open spec fn flushes(s: SessionView, events: Seq<EventView>) -> nat
    decreases events.len(),
{
    if events.len() == 0 {
        0
    } else {
        (if s.action(events[0]) is Flush {
            1nat
        } else {
            0nat
        }) + flushes(s.next(events[0]), events.drop_first())
    }
}

/// Whether every event of `events` is a fragment.
pub open spec fn only_fragments(events: Seq<EventView>) -> bool {
    forall|i: int| 0 <= i < events.len() ==> #[trigger] events[i] is Fragment
}

/// Whether no event of `events` bears a time after `end`.
pub open spec fn no_later_than(events: Seq<EventView>, end: nat) -> bool {
    forall|i: int|
        0 <= i < events.len() ==> match #[trigger] events[i] {
            EventView::Fragment { text, now } => now <= end,
            EventView::Finished { now } => now <= end,
            _ => true,
        }
}

/// `a` divided by `b`, rounded up.
pub open spec fn ceil_div(a: nat, b: nat) -> nat
    recommends
        b > 0,
{
    ((a + b - 1) / (b as int)) as nat
}

/// Whatever is written and whenever, and whatever the sinks refuse, a session
/// that takes fragments gathers exactly the text delivered to it, and one
/// whose stream has ended gathers no more.
pub proof fn lemma_text_gathered(s: SessionView, events: Seq<EventView>)
    ensures
        s.accepting() ==> run(s, events).total == s.total + delivered(events),
        !s.accepting() ==> run(s, events).total == s.total,
        !s.accepting() ==> !run(s, events).accepting(),
    decreases events.len(),
{
    if events.len() == 0 {
        assert(s.total + Seq::<char>::empty() =~= s.total);
    } else {
        let e = events[0];
        let rest = events.drop_first();
        lemma_text_gathered(s.next(e), rest);
        if s.accepting() {
            match e {
                EventView::Fragment { text, now } => {
                    assert((s.total + text) + delivered(rest) =~= s.total + (text + delivered(
                        rest,
                    )));
                },
                EventView::Finished { now } => {
                    assert(s.total + Seq::<char>::empty() =~= s.total);
                },
                EventView::Interrupted => {
                    assert(s.total + Seq::<char>::empty() =~= s.total);
                },
                _ => {},
            }
        }
    }
}

/// Streaming fidelity: the text of a session that began fresh is the
/// concatenation of the fragments delivered to it, in their order. The times
/// of the events, and which writes the sinks took or refused, have no part
/// in it.
pub proof fn lemma_streaming_fidelity(
    now: nat,
    preparation: nat,
    interval: nat,
    events: Seq<EventView>,
)
    ensures
        run(SessionView::fresh(now, preparation, interval), events).total == delivered(events),
{
    let s = SessionView::fresh(now, preparation, interval);
    lemma_text_gathered(s, events);
    assert(s.total + delivered(events) =~= delivered(events));
}

/// While only fragments come, what the sink is meant to show and what no
/// sink is known to show both grow by exactly the text delivered.
pub proof fn lemma_fragments_accumulate(s: SessionView, events: Seq<EventView>)
    requires
        s.accepting(),
        only_fragments(events),
    ensures
        run(s, events).accepting(),
        run(s, events).shown == s.shown + delivered(events),
        run(s, events).unconfirmed() == s.unconfirmed() + delivered(events),
    decreases events.len(),
{
    if events.len() == 0 {
        assert(s.shown + Seq::<char>::empty() =~= s.shown);
        assert(s.unconfirmed() + Seq::<char>::empty() =~= s.unconfirmed());
    } else {
        let e = events[0];
        let rest = events.drop_first();
        assert(e is Fragment);
        assert forall|i: int| 0 <= i < rest.len() implies #[trigger] rest[i] is Fragment by {
            assert(events[i + 1] is Fragment);
        }
        let text = e->Fragment_text;
        let t = s.next(e);
        lemma_fragments_accumulate(t, rest);
        assert(t.shown == s.shown + text);
        assert(t.unconfirmed() =~= s.unconfirmed() + text);
        assert((s.shown + text) + delivered(rest) =~= s.shown + (text + delivered(rest)));
        assert((s.unconfirmed() + text) + delivered(rest) =~= s.unconfirmed() + (text + delivered(
            rest,
        )));
    }
}

/// No duplication across a spill: when the sink shows all that came before,
/// fragments come, and the sink refuses the write that was begun for them,
/// the new sink is seeded with exactly the text of those fragments, and shows
/// nothing else.
pub proof fn lemma_spill_seed(s: SessionView, events: Seq<EventView>)
    requires
        s.accepting(),
        s.unconfirmed() == Seq::<char>::empty(),
        only_fragments(events),
        run(s, events).phase is Flushing,
    ensures
        run(s, events).action(EventView::Rejected) == (ActionView::Spill {
            seed: delivered(events),
        }),
        run(s, events).next(EventView::Rejected).shown == delivered(events),
        run(s, events).next(EventView::Rejected).unconfirmed() == Seq::<char>::empty(),
        run(s, events).next(EventView::Rejected).total == s.total + delivered(events),
{
    lemma_fragments_accumulate(s, events);
    lemma_text_gathered(s, events);
    let t = run(s, events);
    assert(Seq::<char>::empty() + delivered(events) =~= delivered(events));
    assert(t.next(EventView::Rejected).unconfirmed() =~= Seq::<char>::empty());
}

/// What the sink shows: what it is meant to show, less the text that no
/// sink is known to show.
pub open spec fn confirmed(s: SessionView) -> Seq<char> {
    s.shown.subrange(0, s.shown.len() - s.unconfirmed().len())
}

/// Whether what the sink is meant to show ends with the text that no sink is
/// known to show.
pub open spec fn coherent(s: SessionView) -> bool {
    s.unconfirmed().len() <= s.shown.len() && s.shown == confirmed(s) + s.unconfirmed()
}

/// The text on the sinks that the events `events` have the session leave
/// behind: what each of them showed when it refused a write.
pub open spec fn left_behind(s: SessionView, events: Seq<EventView>) -> Seq<char>
    decreases events.len(),
{
    if events.len() == 0 {
        Seq::empty()
    } else {
        (if events[0] is Rejected && s.awaiting() {
            confirmed(s)
        } else {
            Seq::empty()
        }) + left_behind(s.next(events[0]), events.drop_first())
    }
}

/// The closing line that the events `events` have the session write: that of
/// the end of the stream, if it comes while the session takes fragments.
pub open spec fn closing(s: SessionView, events: Seq<EventView>) -> Seq<char>
    decreases events.len(),
{
    if events.len() == 0 || !s.accepting() {
        Seq::empty()
    } else {
        match events[0] {
            EventView::Finished { now } => s.footer_at(now),
            _ => closing(s.next(events[0]), events.drop_first()),
        }
    }
}

/// An event leaves a coherent session coherent.
pub proof fn lemma_next_coherent(s: SessionView, e: EventView)
    requires
        coherent(s),
    ensures
        coherent(s.next(e)),
{
    let n = s.next(e);
    let x = confirmed(s);
    match e {
        EventView::Fragment { text, now } => {
            if s.accepting() {
                assert(n.unconfirmed() =~= s.unconfirmed() + text);
                assert(n.shown =~= x + n.unconfirmed());
                assert(confirmed(n) =~= x);
            }
        },
        EventView::Finished { now } => {
            if s.accepting() {
                assert(n.unconfirmed() =~= s.unconfirmed() + s.footer_at(now));
                assert(n.shown =~= x + n.unconfirmed());
                assert(confirmed(n) =~= x);
            }
        },
        EventView::Interrupted => {},
        EventView::Flushed => {
            if s.awaiting() {
                assert(n.unconfirmed() =~= s.pending);
                assert(n.shown =~= (x + s.sent) + s.pending);
                assert(confirmed(n) =~= x + s.sent);
            }
        },
        EventView::Rejected => {
            if s.awaiting() {
                assert(n.unconfirmed() =~= Seq::<char>::empty());
                assert(confirmed(n) =~= n.shown);
                assert(n.shown =~= confirmed(n) + n.unconfirmed());
            }
        },
    }
}

/// Nothing is lost and nothing is shown twice: the text on the sinks left
/// behind, followed by what the last sink is meant to show, is what was to
/// be shown at the start, followed by the text delivered since and the
/// closing line.
pub proof fn lemma_sinks_hold_the_text(s: SessionView, events: Seq<EventView>)
    requires
        coherent(s),
    ensures
        coherent(run(s, events)),
        s.accepting() ==> left_behind(s, events) + run(s, events).shown == s.shown + delivered(
            events,
        ) + closing(s, events),
        !s.accepting() ==> left_behind(s, events) + run(s, events).shown == s.shown,
    decreases events.len(),
{
    let none = Seq::<char>::empty();
    if events.len() == 0 {
        assert(none + s.shown =~= s.shown);
        assert(s.shown + none + none =~= s.shown);
    } else {
        let e = events[0];
        let rest = events.drop_first();
        let n = s.next(e);
        lemma_next_coherent(s, e);
        lemma_sinks_hold_the_text(n, rest);
        let tail = left_behind(n, rest) + run(n, rest).shown;
        let head = if e is Rejected && s.awaiting() {
            confirmed(s)
        } else {
            none
        };
        assert(left_behind(s, events) + run(s, events).shown =~= head + tail);
        if e is Rejected && s.awaiting() {
            assert(n.shown == s.unconfirmed());
            if n.accepting() {
                assert(head + (n.shown + delivered(rest) + closing(n, rest)) =~= s.shown
                    + delivered(rest) + closing(n, rest));
            }
        } else {
            assert(none + tail =~= tail);
            if s.accepting() {
                match e {
                    EventView::Fragment { text, now } => {
                        assert((s.shown + text) + delivered(rest) + closing(n, rest) =~= s.shown
                            + (text + delivered(rest)) + closing(n, rest));
                    },
                    EventView::Finished { now } => {
                        assert(s.shown + none + s.footer_at(now) =~= s.shown + s.footer_at(now));
                    },
                    EventView::Interrupted => {
                        assert(s.shown + none + none =~= s.shown);
                    },
                    _ => {},
                }
            }
        }
    }
}

/// From a fresh session on, the sinks hold the text delivered, each part of
/// it once, and the closing line.
pub proof fn lemma_sinks_hold_the_answer(
    now: nat,
    preparation: nat,
    interval: nat,
    events: Seq<EventView>,
)
    ensures
        ({
            let s = SessionView::fresh(now, preparation, interval);
            left_behind(s, events) + run(s, events).shown == run(s, events).total + closing(
                s,
                events,
            )
        }),
{
    let s = SessionView::fresh(now, preparation, interval);
    assert(s.unconfirmed() =~= Seq::<char>::empty());
    assert(confirmed(s) =~= Seq::<char>::empty());
    assert(s.shown =~= confirmed(s) + s.unconfirmed());
    lemma_sinks_hold_the_text(s, events);
    lemma_streaming_fidelity(now, preparation, interval, events);
    assert(s.shown + delivered(events) + closing(s, events) =~= delivered(events) + closing(
        s,
        events,
    ));
}

/// The writes of a session are bounded by the time it has: with `k` writes
/// behind it, each an interval after the one before, a session brings about
/// no more than fit between its start and `end`, and one more for the end of
/// the stream. A session whose stream has ended brings about none.
proof fn lemma_flushes_bounded(s: SessionView, events: Seq<EventView>, end: nat, k: nat)
    requires
        s.interval > 0,
        s.started <= s.last_flush <= end,
        no_later_than(events, end),
        s.accepting() ==> k * s.interval <= s.last_flush - s.started,
    ensures
        s.accepting() ==> k + flushes(s, events) <= (end - s.started) / (s.interval as int) + 1,
        !s.accepting() ==> flushes(s, events) == 0,
    decreases events.len(),
{
    let i = s.interval as int;
    let t = end - s.started;
    if s.accepting() {
        assert(k <= t / i) by (nonlinear_arith)
            requires
                k * i <= t,
                i > 0,
        ;
    }
    if events.len() > 0 {
        let e = events[0];
        let rest = events.drop_first();
        let n = s.next(e);
        assert forall|j: int| 0 <= j < rest.len() implies match #[trigger] rest[j] {
            EventView::Fragment { text, now } => now <= end,
            EventView::Finished { now } => now <= end,
            _ => true,
        } by {
            assert(rest[j] == events[j + 1]);
        }
        assert(match events[0] {
            EventView::Fragment { text, now } => now <= end,
            EventView::Finished { now } => now <= end,
            _ => true,
        });
        if s.accepting() {
            match e {
                EventView::Fragment { text, now } => {
                    if s.due(now) {
                        assert((k + 1) * i <= now - s.started) by (nonlinear_arith)
                            requires
                                k * i <= s.last_flush - s.started,
                                now - s.last_flush >= i,
                        ;
                        lemma_flushes_bounded(n, rest, end, k + 1);
                    } else {
                        lemma_flushes_bounded(n, rest, end, k);
                    }
                },
                EventView::Finished { now } => {
                    lemma_flushes_bounded(n, rest, end, k);
                },
                EventView::Interrupted => {
                    lemma_flushes_bounded(n, rest, end, k);
                },
                _ => {
                    lemma_flushes_bounded(n, rest, end, k);
                },
            }
        } else {
            lemma_flushes_bounded(n, rest, end, k);
        }
    }
}

/// The rate bound: a session with an interval of `interval` whose stream
/// lasts from `now` to `end` brings about at most as many writes of the
/// answer as intervals go into that time, rounded up, and one more, the last
/// write, which waits for no interval.
pub proof fn lemma_rate_bound(
    now: nat,
    preparation: nat,
    interval: nat,
    events: Seq<EventView>,
    end: nat,
)
    requires
        interval > 0,
        now <= end,
        no_later_than(events, end),
    ensures
        flushes(SessionView::fresh(now, preparation, interval), events) <= ceil_div(
            (end - now) as nat,
            interval,
        ) + 1,
{
    let s = SessionView::fresh(now, preparation, interval);
    assert(0 * s.interval == 0) by (nonlinear_arith);
    lemma_flushes_bounded(s, events, end, 0);
    let t = end - now;
    let i = interval as int;
    assert(t / i <= (t + i - 1) / i) by (nonlinear_arith)
        requires
            i > 0,
            t >= 0,
    ;
}

} // verus!

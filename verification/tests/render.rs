use deskhelp::render::{footer, Action, Event, Phase, StreamSession, STREAM_ERROR_NOTICE};

fn fragment(text: &str, now: u64) -> Event {
    Event::Fragment { text: text.to_string(), now }
}

fn flush(text: &str) -> Action {
    Action::Flush { text: text.to_string() }
}

const CAUTION: &str = ". There may be [inaccuracies in AI output](<https://lib.guides.umd.edu/c.php?g=1340355&p=9880574>). Check important info.";

#[test]
fn the_footer_gives_both_times_in_seconds() {
    assert_eq!(
        footer(1234, 56),
        format!("\n-# Generated response in 1.234s (0.056s prep){}", CAUTION)
    );
    assert_eq!(footer(0, 0), format!("\n-# Generated response in 0.000s (0.000s prep){}", CAUTION));
    assert_eq!(
        footer(120007, 10900),
        format!("\n-# Generated response in 120.007s (10.900s prep){}", CAUTION)
    );
}

#[test]
fn three_fragments_make_one_flush_and_the_last() {
    let mut session = StreamSession::open(0, 250, 1000);
    assert_eq!(session.phase(), Phase::Idle);
    assert_eq!(session.step(fragment("Hel", 100)), Action::Wait);
    assert_eq!(session.phase(), Phase::Streaming);
    assert_eq!(session.step(fragment("lo, ", 500)), Action::Wait);
    assert_eq!(session.step(fragment("world!", 1200)), flush("Hello, world!"));
    assert_eq!(session.phase(), Phase::Flushing);
    assert_eq!(session.step(Event::Flushed), Action::Wait);
    assert_eq!(session.phase(), Phase::Streaming);
    assert_eq!(session.committed(), None);
    let last = session.step(Event::Finished { now: 1500 });
    assert_eq!(last, flush(&format!("Hello, world!{}", footer(1500, 250))));
    assert_eq!(session.phase(), Phase::Finalizing);
    assert_eq!(session.committed(), None);
    assert_eq!(session.step(Event::Flushed), Action::Wait);
    assert_eq!(session.phase(), Phase::Done);
    assert!(session.is_over());
    assert_eq!(session.committed(), Some("Hello, world!".to_string()));
}

#[test]
fn fragments_within_the_interval_are_gathered() {
    let mut session = StreamSession::open(1000, 0, 1000);
    assert_eq!(session.step(fragment("a", 1001)), Action::Wait);
    assert_eq!(session.step(fragment("b", 1999)), Action::Wait);
    assert_eq!(session.step(fragment("c", 2000)), flush("abc"));
    assert_eq!(session.step(Event::Flushed), Action::Wait);
    assert_eq!(session.step(fragment("d", 2999)), Action::Wait);
    assert_eq!(session.step(fragment("e", 3000)), flush("abcde"));
}

#[test]
fn a_refused_flush_seeds_the_next_sink_with_what_was_not_shown() {
    let mut session = StreamSession::open(0, 0, 1000);
    assert_eq!(session.step(fragment("shown ", 1000)), flush("shown "));
    assert_eq!(session.step(Event::Flushed), Action::Wait);
    assert_eq!(session.step(fragment("not ", 1500)), Action::Wait);
    assert_eq!(session.step(fragment("yet", 2000)), flush("shown not yet"));
    assert_eq!(session.step(Event::Rejected), Action::Spill { seed: "not yet".to_string() });
    assert_eq!(session.phase(), Phase::Streaming);
    assert_eq!(session.step(fragment(" more", 3000)), flush("not yet more"));
    assert_eq!(session.step(Event::Rejected), Action::Spill { seed: " more".to_string() });
    assert_eq!(session.step(Event::Finished { now: 3500 }), flush(&format!(" more{}", footer(3500, 0))));
    assert_eq!(session.step(Event::Flushed), Action::Wait);
    assert_eq!(session.committed(), Some("shown not yet more".to_string()));
}

#[test]
fn a_refused_last_flush_spills_the_rest_with_the_footer() {
    let mut session = StreamSession::open(0, 40, 1000);
    assert_eq!(session.step(fragment("first", 1000)), flush("first"));
    assert_eq!(session.step(Event::Flushed), Action::Wait);
    assert_eq!(session.step(fragment(" second", 1100)), Action::Wait);
    let closing = footer(1200, 40);
    assert_eq!(
        session.step(Event::Finished { now: 1200 }),
        flush(&format!("first second{}", closing))
    );
    assert_eq!(
        session.step(Event::Rejected),
        Action::Spill { seed: format!(" second{}", closing) }
    );
    assert_eq!(session.phase(), Phase::Done);
    assert_eq!(session.committed(), Some("first second".to_string()));
}

#[test]
fn fragments_that_come_while_a_flush_is_under_way_are_kept() {
    let mut session = StreamSession::open(0, 0, 10);
    assert_eq!(session.step(fragment("a", 10)), flush("a"));
    assert_eq!(session.step(fragment("b", 30)), Action::Wait);
    assert_eq!(session.step(Event::Rejected), Action::Spill { seed: "ab".to_string() });
    assert_eq!(session.step(fragment("c", 40)), flush("abc"));
    assert_eq!(session.step(fragment("d", 60)), Action::Wait);
    assert_eq!(session.step(Event::Flushed), Action::Wait);
    assert_eq!(session.step(fragment("e", 70)), flush("abcde"));
    assert_eq!(session.step(Event::Rejected), Action::Spill { seed: "de".to_string() });
    assert_eq!(session.step(Event::Finished { now: 80 }), flush(&format!("de{}", footer(80, 0))));
    assert_eq!(session.step(Event::Flushed), Action::Wait);
    assert_eq!(session.committed(), Some("abcde".to_string()));
}

#[test]
fn a_stream_that_breaks_off_is_not_committed() {
    let mut session = StreamSession::open(0, 0, 1000);
    assert_eq!(session.step(fragment("partial", 1000)), flush("partial"));
    assert_eq!(session.step(Event::Flushed), Action::Wait);
    assert_eq!(
        session.step(Event::Interrupted),
        Action::Report { text: "Error generating response!".to_string() }
    );
    assert_eq!(STREAM_ERROR_NOTICE, "Error generating response!");
    assert_eq!(session.phase(), Phase::Failed);
    assert!(session.is_over());
    assert_eq!(session.committed(), None);
    assert_eq!(session.step(fragment("late", 5000)), Action::Wait);
    assert_eq!(session.step(Event::Finished { now: 6000 }), Action::Wait);
    assert_eq!(session.step(Event::Rejected), Action::Wait);
    assert_eq!(session.phase(), Phase::Failed);
    assert_eq!(session.committed(), None);
}

#[test]
fn a_stream_that_fails_before_any_fragment_reports_the_error() {
    let mut session = StreamSession::open(0, 0, 1000);
    assert_eq!(
        session.step(Event::Interrupted),
        Action::Report { text: STREAM_ERROR_NOTICE.to_string() }
    );
    assert_eq!(session.committed(), None);
}

#[test]
fn an_answer_without_text_is_still_closed() {
    let mut session = StreamSession::open(500, 20, 1000);
    assert_eq!(session.step(Event::Finished { now: 700 }), flush(&footer(200, 20)));
    assert_eq!(session.step(Event::Flushed), Action::Wait);
    assert_eq!(session.committed(), Some(String::new()));
}

#[test]
fn events_that_do_not_fit_change_nothing() {
    let mut session = StreamSession::open(0, 0, 1000);
    assert_eq!(session.step(Event::Flushed), Action::Wait);
    assert_eq!(session.step(Event::Rejected), Action::Wait);
    assert_eq!(session.phase(), Phase::Idle);
    assert_eq!(session.step(fragment("a", 100)), Action::Wait);
    assert_eq!(session.step(Event::Rejected), Action::Wait);
    assert_eq!(session.step(fragment("b", 1000)), flush("ab"));
    assert_eq!(session.step(Event::Flushed), Action::Wait);
    assert_eq!(session.step(Event::Finished { now: 1100 }), flush(&format!("ab{}", footer(1100, 0))));
    assert_eq!(session.step(fragment("late", 1200)), Action::Wait);
    assert_eq!(session.step(Event::Interrupted), Action::Wait);
    assert_eq!(session.step(Event::Flushed), Action::Wait);
    assert_eq!(session.step(Event::Flushed), Action::Wait);
    assert_eq!(session.committed(), Some("ab".to_string()));
}

#[test]
fn a_clock_that_goes_back_counts_as_no_time() {
    let mut session = StreamSession::open(5000, 0, 1000);
    assert_eq!(session.step(fragment("a", 100)), Action::Wait);
    assert_eq!(session.step(fragment("b", 6000)), flush("ab"));
    assert_eq!(session.step(Event::Flushed), Action::Wait);
    assert_eq!(session.step(Event::Finished { now: 10 }), flush(&format!("ab{}", footer(0, 0))));
}

#[test]
fn the_flushes_stay_within_the_rate() {
    let interval = 1000;
    let mut session = StreamSession::open(0, 0, interval);
    let mut flushes = 0;
    let mut text = String::new();
    let mut now = 0;
    for i in 0..500u64 {
        now = i * 37;
        text.push('x');
        if let Action::Flush { .. } = session.step(fragment("x", now)) {
            flushes += 1;
            let result = if flushes % 3 == 0 { Event::Rejected } else { Event::Flushed };
            session.step(result);
        }
    }
    if let Action::Flush { .. } = session.step(Event::Finished { now }) {
        flushes += 1;
    }
    session.step(Event::Flushed);
    // 499 * 37 = 18463 milliseconds: 19 intervals, rounded up, and the last flush.
    // A flush comes with the first fragment at least 1000 after the one before,
    // which is every 1036: 17 of them, and the last flush.
    assert_eq!(now, 18463);
    assert!(flushes <= 19 + 1);
    assert_eq!(flushes, 18);
    assert_eq!(session.committed(), Some(text));
}

#[test]
fn an_interval_of_nothing_flushes_every_fragment() {
    let mut session = StreamSession::open(0, 0, 0);
    assert_eq!(session.step(fragment("a", 0)), flush("a"));
    assert_eq!(session.step(Event::Flushed), Action::Wait);
    assert_eq!(session.step(fragment("b", 0)), flush("ab"));
}

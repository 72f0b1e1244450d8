use deskhelp::assembler::{receive, settle, speaker_label, submission};
use deskhelp::config::Config;
use deskhelp::render::{Event, StreamSession};
use deskhelp::store::ConversationStore;
use deskhelp::tokenizer::{CostEstimationError, MAX_MEASURED_BYTES};
use deskhelp::turn::Turn;

#[test]
fn a_speaker_is_labelled_with_name_and_id() {
    assert_eq!(speaker_label("Riprod", 276531165878288385), "Riprod (276531165878288385)");
    assert_eq!(speaker_label("", 0), " (0)");
    assert_eq!(speaker_label("max", u64::MAX), "max (18446744073709551615)");
    assert_eq!(speaker_label("ten", 10), "ten (10)");
    assert_eq!(speaker_label("x", 1005), "x (1005)");
}

#[test]
fn a_message_is_taken_into_the_history_at_once() {
    let mut store = ConversationStore::new();
    let history = receive(&mut store, "c1", "ann (1)", "hello");
    assert_eq!(history, vec![Turn::user("ann (1)", "hello")]);
    assert_eq!(history[0].content, "ann (1): hello");
    let history = receive(&mut store, "c1", "bob (2)", "hi ann");
    assert_eq!(history, vec![Turn::user("ann (1)", "hello"), Turn::user("bob (2)", "hi ann")]);
    assert_eq!(store.snapshot("c1"), history);
}

#[test]
fn a_complete_answer_is_remembered() {
    let mut store = ConversationStore::new();
    receive(&mut store, "c1", "ann (1)", "hello");
    let mut session = StreamSession::open(0, 0, 1000);
    session.step(Event::Fragment { text: "Hi ".to_string(), now: 10 });
    session.step(Event::Fragment { text: "Ann!".to_string(), now: 20 });
    session.step(Event::Finished { now: 30 });
    assert!(!settle(&mut store, "c1", &session));
    assert_eq!(store.snapshot("c1"), vec![Turn::user("ann (1)", "hello")]);
    session.step(Event::Flushed);
    assert!(settle(&mut store, "c1", &session));
    assert_eq!(
        store.snapshot("c1"),
        vec![Turn::user("ann (1)", "hello"), Turn::assistant("Hi Ann!")]
    );
}

#[test]
fn an_answer_that_broke_off_is_not_remembered() {
    let mut store = ConversationStore::new();
    receive(&mut store, "c1", "ann (1)", "hello");
    let mut session = StreamSession::open(0, 0, 1000);
    session.step(Event::Fragment { text: "Hi ".to_string(), now: 2000 });
    session.step(Event::Flushed);
    session.step(Event::Interrupted);
    assert!(!settle(&mut store, "c1", &session));
    assert_eq!(store.snapshot("c1"), vec![Turn::user("ann (1)", "hello")]);
}

#[test]
fn a_submission_keeps_to_the_budget_of_the_settings() {
    let config = Config::from_settings(Some(100), None, None);
    let preamble = Turn::system("p").with_cost(10);
    let history = vec![
        Turn::user("ann (1)", "a").with_cost(60),
        Turn::assistant("b").with_cost(50),
        Turn::user("ann (1)", "c").with_cost(40),
    ];
    assert_eq!(
        submission(&history, &preamble, &config),
        Ok(vec![preamble, history[1].clone(), history[2].clone()])
    );
}

#[test]
fn a_submission_fails_when_a_cost_cannot_be_found() {
    let config = Config::default();
    let preamble = Turn::system("p").with_cost(10);
    let history = vec![Turn::assistant(&"y".repeat(MAX_MEASURED_BYTES + 1))];
    assert_eq!(submission(&history, &preamble, &config), Err(CostEstimationError));
}

#[test]
fn a_request_from_message_to_answer() {
    let config = Config::default();
    let mut store = ConversationStore::new();
    let label = speaker_label("ann", 1);
    let history = receive(&mut store, "c1", &label, "What is DeskThing?");
    let preamble = Turn::system("Be brief.");
    let chosen = submission(&history, &preamble, &config).unwrap();
    assert_eq!(chosen, vec![preamble, Turn::user("ann (1)", "What is DeskThing?")]);
    let mut session = StreamSession::open(0, 0, config.flush_interval_ms);
    session.step(Event::Fragment { text: "A second screen.".to_string(), now: 100 });
    session.step(Event::Finished { now: 200 });
    session.step(Event::Flushed);
    assert!(settle(&mut store, "c1", &session));
    assert_eq!(
        store.snapshot("c1"),
        vec![Turn::user("ann (1)", "What is DeskThing?"), Turn::assistant("A second screen.")]
    );
}

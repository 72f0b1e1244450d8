use deskhelp::store::ConversationStore;
use deskhelp::tokenizer::{CostEstimationError, Tokenizer, MAX_MEASURED_BYTES};
use deskhelp::turn::Turn;
use deskhelp::window::select_window;

fn priced(text: &str, cost: usize) -> Turn {
    Turn::user("ann (1)", text).with_cost(cost)
}

fn tokenizer() -> Tokenizer {
    Tokenizer::new("o1-mini", 128000)
}

#[test]
fn one_turn_that_fits_follows_the_preamble() {
    let mut store = ConversationStore::new();
    let preamble = Turn::system("be kind").with_cost(50);
    store.append("c1", priced("hello", 20));
    let chosen = select_window(&store.snapshot("c1"), &preamble, 1000, &tokenizer());
    assert_eq!(chosen, Ok(vec![preamble, priced("hello", 20)]));
}

#[test]
fn the_oldest_turns_are_dropped_when_the_budget_is_short() {
    let mut store = ConversationStore::new();
    let preamble = Turn::system("be kind").with_cost(50);
    store.append("c1", priced("turn 0", 20));
    for i in 1..=100 {
        store.append("c1", priced(&format!("turn {}", i), 20));
    }
    let history = store.snapshot("c1");
    assert_eq!(history.len(), 101);
    let chosen = select_window(&history, &preamble, 1000, &tokenizer()).unwrap();
    // 50 for the preamble and 47 turns of 20 make 990; one more would make 1010.
    assert_eq!(chosen.len(), 48);
    assert_eq!(chosen[0], preamble);
    assert_eq!(&chosen[1..], &history[54..]);
    assert_eq!(chosen[1], priced("turn 54", 20));
    assert_eq!(chosen[47], priced("turn 100", 20));
    let spent: usize = chosen.iter().map(|t| t.estimated_cost.unwrap()).sum();
    assert_eq!(spent, 990);
}

#[test]
fn a_budget_that_is_met_exactly_is_enough() {
    let preamble = Turn::system("p").with_cost(10);
    let history = vec![priced("a", 30), priced("b", 40), priced("c", 50)];
    let chosen = select_window(&history, &preamble, 100, &tokenizer()).unwrap();
    assert_eq!(chosen, vec![preamble.clone(), priced("b", 40), priced("c", 50)]);
    let chosen = select_window(&history, &preamble, 99, &tokenizer()).unwrap();
    assert_eq!(chosen, vec![preamble.clone(), priced("c", 50)]);
    let chosen = select_window(&history, &preamble, 130, &tokenizer()).unwrap();
    assert_eq!(chosen, vec![preamble, priced("a", 30), priced("b", 40), priced("c", 50)]);
}

#[test]
fn the_walk_stops_at_the_first_turn_that_does_not_fit() {
    let preamble = Turn::system("p").with_cost(10);
    // The oldest turn would fit by itself, but the one after it does not.
    let history = vec![priced("small", 1), priced("large", 500), priced("last", 20)];
    let chosen = select_window(&history, &preamble, 100, &tokenizer()).unwrap();
    assert_eq!(chosen, vec![preamble, priced("last", 20)]);
}

#[test]
fn a_preamble_over_the_budget_goes_alone() {
    let preamble = Turn::system("a long preamble").with_cost(2000);
    let history = vec![priced("a", 1), priced("free", 0)];
    let chosen = select_window(&history, &preamble, 1000, &tokenizer()).unwrap();
    assert_eq!(chosen, vec![preamble]);
}

#[test]
fn an_empty_history_gives_the_preamble() {
    let preamble = Turn::system("p").with_cost(5);
    let chosen = select_window(&Vec::new(), &preamble, 0, &tokenizer());
    assert_eq!(chosen, Ok(vec![preamble]));
}

#[test]
fn after_clear_the_selection_is_the_preamble() {
    let mut store = ConversationStore::new();
    let preamble = Turn::system("p").with_cost(50);
    store.append("c1", priced("one", 20));
    store.append("c1", priced("two", 20));
    store.clear("c1");
    assert!(store.snapshot("c1").is_empty());
    let chosen = select_window(&store.snapshot("c1"), &preamble, 1000, &tokenizer());
    assert_eq!(chosen, Ok(vec![preamble]));
}

#[test]
fn a_turn_too_long_to_measure_fails_the_selection() {
    let preamble = Turn::system("p").with_cost(5);
    let long = Turn::assistant(&"x".repeat(MAX_MEASURED_BYTES + 1));
    let history = vec![priced("old", 1), long];
    assert_eq!(select_window(&history, &preamble, 1000, &tokenizer()), Err(CostEstimationError));
}

#[test]
fn a_turn_without_a_cost_that_the_walk_never_meets_does_no_harm() {
    let preamble = Turn::system("p").with_cost(5);
    let long = Turn::assistant(&"x".repeat(MAX_MEASURED_BYTES + 1));
    let history = vec![long, priced("large", 5000), priced("last", 10)];
    let chosen = select_window(&history, &preamble, 1000, &tokenizer());
    assert_eq!(chosen, Ok(vec![preamble, priced("last", 10)]));
}

#[test]
fn a_preamble_without_a_cost_fails_the_selection() {
    let preamble = Turn::system(&"x".repeat(MAX_MEASURED_BYTES + 1));
    let history = vec![priced("a", 1)];
    assert_eq!(select_window(&history, &preamble, 1000, &tokenizer()), Err(CostEstimationError));
}

#[test]
fn turns_without_an_estimate_are_measured() {
    let preamble = Turn::system("You are a helpful assistant.");
    let history = vec![priced("dropped", 7000), Turn::user("ann (1)", "How do I flash my Car Thing?")];
    let chosen = select_window(&history, &preamble, 7000, &tokenizer()).unwrap();
    assert_eq!(chosen, vec![preamble, Turn::user("ann (1)", "How do I flash my Car Thing?")]);
}

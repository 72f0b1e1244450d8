use deskhelp::tokenizer::{cost_of_remainder, CostEstimationError, Tokenizer, MAX_MEASURED_BYTES};
use deskhelp::turn::Turn;

fn counted(role: &str, content: &str) -> usize {
    let message = tiktoken_rs::ChatCompletionRequestMessage {
        role: role.to_string(),
        content: Some(content.to_string()),
        name: None,
        function_call: None,
    };
    tiktoken_rs::num_tokens_from_messages("o1-mini", &[message]).unwrap()
}

#[test]
fn the_cost_is_what_the_context_loses() {
    assert_eq!(cost_of_remainder(128000, Ok(127990)), Ok(10));
    assert_eq!(cost_of_remainder(128000, Ok(128000)), Ok(0));
    assert_eq!(cost_of_remainder(128000, Ok(0)), Ok(128000));
}

#[test]
fn more_left_than_the_context_holds_is_an_error() {
    assert_eq!(cost_of_remainder(7000, Ok(127990)), Err(CostEstimationError));
    assert_eq!(cost_of_remainder(0, Ok(1)), Err(CostEstimationError));
}

#[test]
fn a_failed_tokenizer_is_an_error() {
    assert_eq!(cost_of_remainder(128000, Err(anyhow::Error::msg("no tokenizer"))), Err(CostEstimationError));
}

#[test]
fn a_recorded_estimate_is_the_cost() {
    let tokenizer = Tokenizer::new("no such model", 1);
    let turn = Turn::assistant("whatever it says").with_cost(42);
    assert_eq!(tokenizer.estimate(&turn), Ok(42));
}

#[test]
fn a_user_turn_costs_its_tokens() {
    let tokenizer = Tokenizer::new("o1-mini", 128000);
    let turn = Turn::user("ann (1)", "How do I flash my Car Thing?");
    let cost = tokenizer.estimate(&turn).unwrap();
    assert_eq!(cost, counted("user", "ann (1): How do I flash my Car Thing?"));
    assert!(cost > 7);
    assert!(cost < 40);
}

#[test]
fn an_empty_system_turn_costs_its_frame() {
    let tokenizer = Tokenizer::new("o1-mini", 128000);
    let cost = tokenizer.estimate(&Turn::system("")).unwrap();
    assert_eq!(cost, counted("system", ""));
    assert!(cost >= 7);
}

#[test]
fn an_unknown_model_is_an_error() {
    let tokenizer = Tokenizer::new("no such model", 128000);
    assert_eq!(tokenizer.estimate(&Turn::assistant("hello")), Err(CostEstimationError));
}

#[test]
fn a_window_smaller_than_what_is_left_is_an_error() {
    let tokenizer = Tokenizer::new("o1-mini", 7000);
    assert_eq!(tokenizer.estimate(&Turn::assistant("hello")), Err(CostEstimationError));
}

#[test]
fn content_over_the_limit_is_not_measured() {
    let tokenizer = Tokenizer::new("o1-mini", 128000);
    let turn = Turn::assistant(&"a".repeat(MAX_MEASURED_BYTES + 1));
    assert_eq!(tokenizer.estimate(&turn), Err(CostEstimationError));
}

#[test]
fn a_long_run_of_spaces_is_measured() {
    let tokenizer = Tokenizer::new("o1-mini", 128000);
    let mut text = " ".repeat(8191);
    text.push('x');
    let cost = tokenizer.estimate(&Turn::assistant(&text)).unwrap();
    assert_eq!(cost, counted("assistant", &text));
    assert!(cost > 7);
    assert!(cost <= 8192 + 7);
}

//! The settings of the assistant.

use vstd::prelude::*;
use crate::tokenizer::{Tokenizer, TOKENIZER_MODEL};

verus! {

/// The model that answers where no other is named.
pub const DEFAULT_MODEL: &'static str = "llama-3.2-11b-vision-preview";

/// The size, in tokens, of the context that turns are measured against.
pub const DEFAULT_CONTEXT_WINDOW: usize = 128000;

/// The tokens that one submission may cost.
pub const DEFAULT_TOKEN_BUDGET: usize = 7000;

/// The tokens that one answer may have.
pub const MAX_OUTPUT_TOKENS: u32 = 2800;

/// The least time, in milliseconds, between two writes of an answer.
pub const FLUSH_INTERVAL_MS: u64 = 1000;

/// What a request is run with.
pub struct Config {
    /// The model that generates the answers.
    pub model: String,
    /// The size of the context that turns are measured against, in tokens.
    pub context_window: usize,
    /// The tokens that one submission may cost.
    pub token_budget: usize,
    /// The tokens that one answer may have.
    pub max_output_tokens: u32,
    /// The least time between two writes of an answer, in milliseconds.
    pub flush_interval_ms: u64,
}

impl Config {
    /// The settings in which `token_budget`, `context_window` and `model`
    /// stand where they are given, and the defaults where they are not.
    pub fn from_settings(
        token_budget: Option<usize>,
        context_window: Option<usize>,
        model: Option<String>,
    ) -> (r: Config)
        ensures
            r.token_budget == (match token_budget {
                Some(n) => n,
                None => DEFAULT_TOKEN_BUDGET,
            }),
            r.context_window == (match context_window {
                Some(n) => n,
                None => DEFAULT_CONTEXT_WINDOW,
            }),
            r.model@ == (match model {
                Some(name) => name@,
                None => DEFAULT_MODEL@,
            }),
            r.max_output_tokens == MAX_OUTPUT_TOKENS,
            r.flush_interval_ms == FLUSH_INTERVAL_MS,
    {
        Config {
            model: match model {
                Some(name) => name,
                None => DEFAULT_MODEL.to_owned(),
            },
            context_window: match context_window {
                Some(n) => n,
                None => DEFAULT_CONTEXT_WINDOW,
            },
            token_budget: match token_budget {
                Some(n) => n,
                None => DEFAULT_TOKEN_BUDGET,
            },
            max_output_tokens: MAX_OUTPUT_TOKENS,
            flush_interval_ms: FLUSH_INTERVAL_MS,
        }
    }

    /// The tokenizer that these settings ask for: the vocabulary of
    /// `TOKENIZER_MODEL`, measured against the context window.
    pub fn tokenizer(&self) -> (r: Tokenizer)
        ensures
            r.model@ == TOKENIZER_MODEL@,
            r.context_window == self.context_window,
    {
        Tokenizer::new(TOKENIZER_MODEL, self.context_window)
    }
}

impl Default for Config {
    fn default() -> (r: Config)
        ensures
            r.model@ == DEFAULT_MODEL@,
            r.context_window == DEFAULT_CONTEXT_WINDOW,
            r.token_budget == DEFAULT_TOKEN_BUDGET,
            r.max_output_tokens == MAX_OUTPUT_TOKENS,
            r.flush_interval_ms == FLUSH_INTERVAL_MS,
    {
        Config::from_settings(None, None, None)
    }
}

} // verus!

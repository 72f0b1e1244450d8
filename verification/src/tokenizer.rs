//! Token costs: what a turn takes of the budget of a request.

use vstd::prelude::*;
use vstd::utf8::encode_utf8;
use crate::turn::Turn;

verus! {

/// The error that `tiktoken_rs` reports; nothing of it is read.
#[verifier::external_type_specification]
#[verifier::external_body]
pub struct ExTokenizerFault(anyhow::Error);

/// The number that `tiktoken_rs::get_chat_completion_max_tokens` gives for
/// the model `model` and one message of the role `role` with the content
/// `content`: the tokens that the model's context leaves free beside that
/// message. `None` where it reports an error.
pub uninterp spec fn free_tokens(model: Seq<char>, role: Seq<char>, content: Seq<char>) -> Option<
    nat,
>;

/// The model by whose vocabulary turns are measured.
pub const TOKENIZER_MODEL: &'static str = "o1-mini";

/// The longest content, in bytes, that is handed to the tokenizer.
pub const MAX_MEASURED_BYTES: usize = 32_768;

/// The longest role name, in characters, that is handed to the tokenizer.
pub const MAX_ROLE_CHARS: usize = 16;

/// No cost could be found for a turn.
#[derive(Clone, Copy, Debug, PartialEq, Eq, Structural)]
pub struct CostEstimationError;

/// The length of `text` in bytes.
pub open spec fn byte_len(text: Seq<char>) -> nat {
    encode_utf8(text).len()
}

/// Calls `tiktoken_rs::get_chat_completion_max_tokens` on one message that
/// has the role and the content given and neither a name nor a function call.
/// The crate computes its answer from the three texts and the vocabularies
/// compiled into it, so the answer is the one that `free_tokens` names.
/// The lengths are limited because the crate unwraps what its pattern matcher
/// returns, and the matcher gives up with an error once a search has filled
/// its stack of a million entries or taken a million steps back; a text of
/// this length does not bring a search that far.
#[verifier::external_body]
fn tokens_left(model: &str, role: &str, content: &str) -> (r: Result<usize, anyhow::Error>)
    requires
        role@.len() <= MAX_ROLE_CHARS,
        byte_len(content@) <= MAX_MEASURED_BYTES,
    ensures
        match r {
            Ok(n) => free_tokens(model@, role@, content@) == Some(n as nat),
            Err(_) => free_tokens(model@, role@, content@) is None,
        },
{
    let message = tiktoken_rs::ChatCompletionRequestMessage {
        role: role.to_string(),
        content: Some(content.to_string()),
        name: None,
        function_call: None,
    };
    tiktoken_rs::get_chat_completion_max_tokens(model, &[message])
}

/// The cost that follows from what the tokenizer left free of a context of
/// `context_window` tokens: what the message took of it.
pub open spec fn cost_from_left(context_window: nat, left: Option<nat>) -> Option<nat> {
    match left {
        Some(n) => if n <= context_window {
            Some((context_window - n) as nat)
        } else {
            None
        },
        None => None,
    }
}

/// What the tokenizer finds for a message of the role `role` with the content
/// `content`, by the vocabulary of `model` and against a context of
/// `context_window` tokens. It finds nothing for a content longer than
/// `MAX_MEASURED_BYTES`.
pub open spec fn measured_cost(
    model: Seq<char>,
    context_window: nat,
    role: Seq<char>,
    content: Seq<char>,
) -> Option<nat> {
    if byte_len(content) <= MAX_MEASURED_BYTES {
        cost_from_left(context_window, free_tokens(model, role, content))
    } else {
        None
    }
}

/// The cost of `turn`: the estimate that it carries, and where it carries
/// none, what the tokenizer finds for its role and content.
pub open spec fn turn_cost(model: Seq<char>, context_window: nat, turn: Turn) -> Option<nat> {
    match turn.estimated_cost {
        Some(c) => Some(c as nat),
        None => measured_cost(model, context_window, turn.role.wire_name(), turn.content@),
    }
}

/// The costs of `turns`, turn by turn.
pub open spec fn turn_costs(model: Seq<char>, context_window: nat, turns: Seq<Turn>) -> Seq<
    Option<nat>,
> {
    Seq::new(turns.len(), |i: int| turn_cost(model, context_window, turns[i]))
}

/// The tokenizer together with the size of the context that it measures against.
pub struct Tokenizer {
    pub model: String,
    pub context_window: usize,
}

impl Tokenizer {
    /// The cost of `turn` with this tokenizer.
    pub open spec fn cost(&self, turn: Turn) -> Option<nat> {
        turn_cost(self.model@, self.context_window as nat, turn)
    }

    /// The costs of `turns` with this tokenizer, turn by turn.
    pub open spec fn costs(&self, turns: Seq<Turn>) -> Seq<Option<nat>> {
        turn_costs(self.model@, self.context_window as nat, turns)
    }

    /// A tokenizer for `model` that measures against a context of
    /// `context_window` tokens.
    pub fn new(model: &str, context_window: usize) -> (r: Tokenizer)
        ensures
            r.model@ == model@,
            r.context_window == context_window,
    {
        Tokenizer { model: model.to_owned(), context_window }
    }

    /// The cost of `turn`. It fails where the turn carries no estimate and
    /// its content is longer than `MAX_MEASURED_BYTES`, the tokenizer reports
    /// an error, or the tokenizer leaves more free than the context holds.
    pub fn estimate(&self, turn: &Turn) -> (r: Result<usize, CostEstimationError>)
        ensures
            match r {
                Ok(c) => self.cost(*turn) == Some(c as nat),
                Err(_) => self.cost(*turn) is None,
            },
    {
        match turn.estimated_cost {
            Some(c) => Ok(c),
            None => {
                if turn.content.as_str().as_bytes().len() > MAX_MEASURED_BYTES {
                    return Err(CostEstimationError);
                }
                let role = turn.role.name();
                proof {
                    reveal_strlit("system");
                    reveal_strlit("user");
                    reveal_strlit("assistant");
                }
                let left = tokens_left(self.model.as_str(), role, turn.content.as_str());
                cost_of_remainder(self.context_window, left)
            },
        }
    }
}

/// The cost of a message of which the tokenizer gave `left`: the part of a
/// context of `context_window` tokens that `left` does not cover. It fails
/// where the tokenizer failed and where it left more than the context holds.
pub fn cost_of_remainder(context_window: usize, left: Result<usize, anyhow::Error>) -> (r: Result<
    usize,
    CostEstimationError,
>)
    ensures
        match r {
            Ok(c) => left matches Ok(n) && n <= context_window && c == context_window - n,
            Err(_) => left matches Ok(n) ==> n > context_window,
        },
{
    match left {
        Ok(n) => if n <= context_window {
            Ok(context_window - n)
        } else {
            Err(CostEstimationError)
        },
        Err(_) => Err(CostEstimationError),
    }
}

} // verus!

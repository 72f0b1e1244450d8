//! The response assembler: what a request does to the conversation store.
//!
//! A request takes the user's message into the history at once. The answer
//! is taken into it only when its stream has come to its proper end: an
//! answer that broke off is not remembered.

use vstd::prelude::*;
use crate::config::Config;
use crate::render::StreamSession;
use crate::store::ConversationStore;
use crate::text::{decimal, decimal_text};
use crate::tokenizer::{turn_cost, turn_costs, CostEstimationError, TOKENIZER_MODEL};
use crate::turn::{labelled, Role, Turn};
use crate::window::{select_window, selection};

verus! {

/// The label of a speaker: the name, then the id in brackets.
pub open spec fn speaker_text(name: Seq<char>, id: nat) -> Seq<char> {
    name + " ("@ + decimal_text(id) + ")"@
}

/// Whether `turn` is what the speaker `speaker` said with `message`.
pub open spec fn is_user_turn(turn: Turn, speaker: Seq<char>, message: Seq<char>) -> bool {
    &&& turn.role == Role::User
    &&& turn.speaker_label@ == speaker
    &&& turn.content@ == labelled(speaker, message)
    &&& turn.estimated_cost is None
}

/// Whether `turn` is the assistant's answer `text`.
pub open spec fn is_answer(turn: Turn, text: Seq<char>) -> bool {
    &&& turn.role == Role::Assistant
    &&& turn.speaker_label@ == Seq::<char>::empty()
    &&& turn.content@ == text
    &&& turn.estimated_cost is None
}

/// Writes the label of the speaker with the name `name` and the id `id`.
pub fn speaker_label(name: &str, id: u64) -> (r: String)
    ensures
        r@ == speaker_text(name@, id as nat),
{
    let mut r = name.to_owned();
    r.append(" (");
    r.append(decimal(id).as_str());
    r.append(")");
    r
}

/// Takes the message `message` of the speaker `speaker` into the
/// conversation `conversation` and hands out a copy of the history as it
/// then stands, the new turn last.
pub fn receive(store: &mut ConversationStore, conversation: &str, speaker: &str, message: &str) -> (r:
    Vec<Turn>)
    ensures
        r@.len() == old(store).history(conversation@).len() + 1,
        r@.drop_last() == old(store).history(conversation@),
        is_user_turn(r@.last(), speaker@, message@),
        final(store)@ == old(store)@.insert(conversation@, r@),
{
    let turn = Turn::user(speaker, message);
    store.append(conversation, turn);
    let history = store.snapshot(conversation);
    assert(history@.drop_last() =~= old(store).history(conversation@));
    history
}

/// What is submitted for the history `history` with the preamble
/// `preamble`: the selection under the token budget of `config`, with costs
/// found by the tokenizer of `config`.
pub fn submission(history: &Vec<Turn>, preamble: &Turn, config: &Config) -> (r: Result<
    Vec<Turn>,
    CostEstimationError,
>)
    ensures
        match r {
            Ok(chosen) => selection(
                history@,
                turn_costs(TOKENIZER_MODEL@, config.context_window as nat, history@),
                *preamble,
                turn_cost(TOKENIZER_MODEL@, config.context_window as nat, *preamble),
                config.token_budget as nat,
            ) == Ok::<Seq<Turn>, CostEstimationError>(chosen@),
            Err(e) => selection(
                history@,
                turn_costs(TOKENIZER_MODEL@, config.context_window as nat, history@),
                *preamble,
                turn_cost(TOKENIZER_MODEL@, config.context_window as nat, *preamble),
                config.token_budget as nat,
            ) == Err::<Seq<Turn>, CostEstimationError>(e),
        },
{
    let tokenizer = config.tokenizer();
    select_window(history, preamble, config.token_budget, &tokenizer)
}

/// Closes a request on the conversation `conversation`. The answer of a
/// session that is `Done` is added to the history; any other session leaves
/// the store as it was. The result says whether the answer was added.
pub fn settle(store: &mut ConversationStore, conversation: &str, session: &StreamSession) -> (r:
    bool)
    ensures
        r == (session@.phase is Done),
        r ==> ({
            let history = final(store).history(conversation@);
            &&& history.len() == old(store).history(conversation@).len() + 1
            &&& history.drop_last() == old(store).history(conversation@)
            &&& is_answer(history.last(), session@.total)
            &&& final(store)@ == old(store)@.insert(conversation@, history)
        }),
        !r ==> final(store)@ == old(store)@,
{
    match session.committed() {
        Some(text) => {
            let turn = Turn::assistant(text.as_str());
            store.append(conversation, turn);
            assert(store.history(conversation@).drop_last() =~= old(store).history(
                conversation@,
            ));
            true
        },
        None => false,
    }
}

/// Clearing resets: once a conversation is cleared, its history is empty,
/// and the next selection for it, where the cost of the preamble is known,
/// holds the preamble and nothing else.
pub proof fn lemma_clear_resets(
    before: ConversationStore,
    after: ConversationStore,
    conversation: Seq<char>,
    preamble: Turn,
    preamble_cost: nat,
    budget: nat,
)
    requires
        after@ == before@.insert(conversation, Seq::empty()),
    ensures
        after.history(conversation) == Seq::<Turn>::empty(),
        selection(
            after.history(conversation),
            Seq::empty(),
            preamble,
            Some(preamble_cost),
            budget,
        ) == Ok::<Seq<Turn>, CostEstimationError>(seq![preamble]),
{
    let history = after.history(conversation);
    assert(history =~= Seq::<Turn>::empty());
    assert(crate::window::latest(history, 0) =~= Seq::<Turn>::empty());
    assert(seq![preamble] + Seq::<Turn>::empty() =~= seq![preamble]);
}

} // verus!

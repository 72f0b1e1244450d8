//! The commands of the assistant: what it says when its memory of a
//! conversation is cleared, and when it is asked for the age of an account.

use vstd::prelude::*;
use rand::Rng;
use crate::store::ConversationStore;

verus! {

/// How many notices there are for a cleared memory.
pub const RESET_NOTICES: usize = 18;

/// The notice with the number `i`.
pub open spec fn reset_text(i: nat) -> Seq<char>
    recommends
        i < RESET_NOTICES,
{
    if i == 0 {
        "*dropped anvil on head* uhh my head hurts"@
    } else if i == 1 {
        "*accidentally reboots brain* Whoopsie! Did someone forget to save?"@
    } else if i == 2 {
        "*slams head on keyboard* bzzzzt ERROR 404: MEMORY NOT FOUND"@
    } else if i == 3 {
        "*shakes head vigorously* CTRL+ALT+DELETE on my neural network!"@
    } else if i == 4 {
        "*pokes own forehead* Hello? Is this thing on? Anybody home?"@
    } else if i == 5 {
        "*performs dramatic software reset dance* SYSTEM REFRESH IN PROGRESS"@
    } else if i == 6 {
        "*taps microphone* ONE, TWO, IS THIS CONTEXT WORKING?"@
    } else if i == 7 {
        "*waves magic reset wand* Abracadabra, clean slate incoming!"@
    } else if i == 8 {
        "*bonks noggin* Memory go bye-bye!"@
    } else if i == 9 {
        "*static noise* BZZZZT! Soft reboot engaged!"@
    } else if i == 10 {
        "*karate chops own temple* HIYAA! Context cleared!"@
    } else if i == 11 {
        "*pulls imaginary reset lever* Systems returning to default mode!"@
    } else if i == 12 {
        "*summons memory tornado* WHOOOOOOSH! Clean slate incoming!"@
    } else if i == 13 {
        "*applies extreme memory defragmentation* Cleaning up neural cobwebs!"@
    } else if i == 14 {
        "*does quantum memory shuffle* Schrödinger's conversation - both remembered and forgotten!"@
    } else if i == 15 {
        "*uses giant eraser* Goodbye, previous conversation!"@
    } else if i == 16 {
        "*uses compressed air* WHOOSH! Blowing away old context!"@
    } else {
        "*robot voice* ATTENTION: MEMORY BANKS FORMATTING IN 3... 2... 1..."@
    }
}

/// The text that tells when the account of `name` was made.
pub open spec fn age_text(name: Seq<char>, created: Seq<char>) -> Seq<char> {
    name + "'s account was created at "@ + created
}

/// Draws a number below `n` from the generator of the thread:
/// `rand::thread_rng().gen_range(0..n)`. The crate documents that the number
/// lies in the range, and that it panics on an empty range, which is why `n`
/// may not be 0. Which number comes is left open.
#[verifier::external_body]
fn random_below(n: usize) -> (r: usize)
    requires
        n > 0,
    ensures
        r < n,
{
    rand::thread_rng().gen_range(0..n)
}

/// The notice with the number `i`, if there is one.
pub fn reset_notice(i: usize) -> (r: Option<&'static str>)
    ensures
        match r {
            Some(text) => i < RESET_NOTICES && text@ == reset_text(i as nat),
            None => i >= RESET_NOTICES,
        },
{
    if i >= RESET_NOTICES {
        return None;
    }
    let r = if i == 0 {
        "*dropped anvil on head* uhh my head hurts"
    } else if i == 1 {
        "*accidentally reboots brain* Whoopsie! Did someone forget to save?"
    } else if i == 2 {
        "*slams head on keyboard* bzzzzt ERROR 404: MEMORY NOT FOUND"
    } else if i == 3 {
        "*shakes head vigorously* CTRL+ALT+DELETE on my neural network!"
    } else if i == 4 {
        "*pokes own forehead* Hello? Is this thing on? Anybody home?"
    } else if i == 5 {
        "*performs dramatic software reset dance* SYSTEM REFRESH IN PROGRESS"
    } else if i == 6 {
        "*taps microphone* ONE, TWO, IS THIS CONTEXT WORKING?"
    } else if i == 7 {
        "*waves magic reset wand* Abracadabra, clean slate incoming!"
    } else if i == 8 {
        "*bonks noggin* Memory go bye-bye!"
    } else if i == 9 {
        "*static noise* BZZZZT! Soft reboot engaged!"
    } else if i == 10 {
        "*karate chops own temple* HIYAA! Context cleared!"
    } else if i == 11 {
        "*pulls imaginary reset lever* Systems returning to default mode!"
    } else if i == 12 {
        "*summons memory tornado* WHOOOOOOSH! Clean slate incoming!"
    } else if i == 13 {
        "*applies extreme memory defragmentation* Cleaning up neural cobwebs!"
    } else if i == 14 {
        "*does quantum memory shuffle* Schrödinger's conversation - both remembered and forgotten!"
    } else if i == 15 {
        "*uses giant eraser* Goodbye, previous conversation!"
    } else if i == 16 {
        "*uses compressed air* WHOOSH! Blowing away old context!"
    } else {
        "*robot voice* ATTENTION: MEMORY BANKS FORMATTING IN 3... 2... 1..."
    };
    Some(r)
}

/// One of the notices, drawn at random.
pub fn random_reset_notice() -> (r: &'static str)
    ensures
        exists|i: nat| i < RESET_NOTICES && r@ == reset_text(i),
{
    let i = random_below(RESET_NOTICES);
    match reset_notice(i) {
        Some(text) => {
            assert(text@ == reset_text(i as nat));
            text
        },
        None => "",
    }
}

/// Clears the memory of the conversation `conversation` and hands out the
/// notice to be shown, one of the notices, drawn at random.
pub fn forget(store: &mut ConversationStore, conversation: &str) -> (r: &'static str)
    ensures
        final(store)@ == old(store)@.insert(conversation@, Seq::empty()),
        exists|i: nat| i < RESET_NOTICES && r@ == reset_text(i),
{
    store.clear(conversation);
    random_reset_notice()
}

/// Writes the text that tells when the account of `name` was made, `created`
/// being that time as text.
pub fn age_reply(name: &str, created: &str) -> (r: String)
    ensures
        r@ == age_text(name@, created@),
{
    let mut r = name.to_owned();
    r.append("'s account was created at ");
    r.append(created);
    r
}

} // verus!

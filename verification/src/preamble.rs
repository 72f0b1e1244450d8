//! The preamble: the system turn that opens every submission. It is made
//! anew for each request and kept in no history.

use vstd::prelude::*;
use crate::turn::{Role, Turn};

verus! {

/// How the time is written in a preamble: the date, then the time of day.
pub const CLOCK_LAYOUT: &'static str = "[year]-[month]-[day] [hour]:[minute]:[second]";

/// The text that the `time` crate writes for the moment `seconds` seconds
/// after the beginning of 1970, in UTC, when it is given the layout `layout`:
/// the result of `OffsetDateTime::format`. `None` where the crate has no such
/// moment, does not accept the layout, or cannot write the one in the other.
pub uninterp spec fn clock_text(seconds: int, layout: Seq<char>) -> Option<Seq<char>>;

/// Has the `time` crate write a moment: `OffsetDateTime::from_unix_timestamp`
/// makes the moment, `format_description::parse_borrowed` reads the layout
/// and `OffsetDateTime::format` writes. Each of them reports what it cannot
/// do as an error and none panics; an error of any of them is `None` here.
/// The three compute from their arguments alone, so the text is the one that
/// `clock_text` names.
#[verifier::external_body]
fn write_clock(seconds: i64, layout: &str) -> (r: Option<String>)
    ensures
        match r {
            Some(text) => clock_text(seconds as int, layout@) == Some(text@),
            None => clock_text(seconds as int, layout@) is None,
        },
{
    let moment = time::OffsetDateTime::from_unix_timestamp(seconds).ok()?;
    let items = time::format_description::parse_borrowed::<1>(layout).ok()?;
    moment.format(&items).ok()
}

/// The text of a preamble: the standing instructions, then the facts of the
/// request.
pub open spec fn preamble_text(
    instructions: Seq<char>,
    time: Seq<char>,
    name: Seq<char>,
    id: Seq<char>,
    venue: Seq<char>,
) -> Seq<char> {
    instructions + "\nThe time is "@ + time + ". You are "@ + name + " (id: "@ + id + "), in the "@
        + venue + " server"@
}

/// Whether `turn` is the preamble made of these instructions and facts.
pub open spec fn is_preamble(
    turn: Turn,
    instructions: Seq<char>,
    time: Seq<char>,
    name: Seq<char>,
    id: Seq<char>,
    venue: Seq<char>,
) -> bool {
    &&& turn.role == Role::System
    &&& turn.speaker_label@ == Seq::<char>::empty()
    &&& turn.content@ == preamble_text(instructions, time, name, id, venue)
    &&& turn.estimated_cost is None
}

/// Makes the preamble of a request from the standing instructions and the
/// facts of the request: the time as text, the name and the id of the
/// assistant, and the name of the venue.
pub fn build_preamble(instructions: &str, time: &str, name: &str, id: &str, venue: &str) -> (r:
    Turn)
    ensures
        is_preamble(r, instructions@, time@, name@, id@, venue@),
{
    let mut content = instructions.to_owned();
    content.append("\nThe time is ");
    content.append(time);
    content.append(". You are ");
    content.append(name);
    content.append(" (id: ");
    content.append(id);
    content.append("), in the ");
    content.append(venue);
    content.append(" server");
    Turn::system(content.as_str())
}

/// Makes the preamble of a request that comes `now` seconds after the
/// beginning of 1970. There is none where that time cannot be written.
pub fn preamble_at(instructions: &str, now: i64, name: &str, id: &str, venue: &str) -> (r: Option<
    Turn,
>)
    ensures
        match r {
            Some(turn) => clock_text(now as int, CLOCK_LAYOUT@) matches Some(time) && is_preamble(
                turn,
                instructions@,
                time,
                name@,
                id@,
                venue@,
            ),
            None => clock_text(now as int, CLOCK_LAYOUT@) is None,
        },
{
    match write_clock(now, CLOCK_LAYOUT) {
        Some(time) => Some(build_preamble(instructions, time.as_str(), name, id, venue)),
        None => None,
    }
}

} // verus!

//! Which messages the assistant answers.

use vstd::prelude::*;

verus! {

/// The channel in which every message is answered where no list is given.
pub const DEFAULT_CHANNELS: &'static str = "-1302692329400041482";

/// The mark that opens a message which is not meant for the assistant.
pub const ASIDE_MARK: char = '~';

/// The place of the first comma of `s`, or the length of `s` if it has none.
pub open spec fn first_comma(s: Seq<char>) -> nat
    decreases s.len(),
{
    if s.len() == 0 || s[0] == ',' {
        0
    } else {
        1 + first_comma(s.drop_first())
    }
}

/// The parts into which the commas of `s` divide it. There is one part more
/// than there are commas; a part may be empty.
pub open spec fn pieces(s: Seq<char>) -> Seq<Seq<char>>
    decreases s.len(),
{
    let i = first_comma(s);
    if i >= s.len() {
        seq![s]
    } else {
        seq![s.take(i as int)] + pieces(s.skip(i as int + 1))
    }
}

/// The texts of `items`, one for one.
pub open spec fn texts(items: Seq<String>) -> Seq<Seq<char>> {
    Seq::new(items.len(), |i: int| items[i]@)
}

/// Whether a message is answered: one that mentions the assistant always;
/// any other only in a listed channel, from an author that is no bot, and
/// unless it opens with the aside mark.
pub open spec fn answered(mentioned: bool, listed: bool, from_bot: bool, content: Seq<char>) -> bool {
    mentioned || (listed && !from_bot && !(content.len() > 0 && content[0] == ASIDE_MARK))
}

/// Where `s` has no comma before the place `k`, its first comma is not
/// before `k`, and is at `k` if a comma or the end of `s` is there.
proof fn lemma_first_comma(s: Seq<char>, k: int)
    requires
        0 <= k <= s.len(),
        forall|j: int| 0 <= j < k ==> s[j] != ',',
    ensures
        first_comma(s) >= k,
        first_comma(s) <= s.len(),
        k == s.len() || s[k] == ',' ==> first_comma(s) == k,
    decreases s.len(),
{
    if s.len() == 0 || s[0] == ',' {
    } else {
        let rest = s.drop_first();
        if k == 0 {
            lemma_first_comma(rest, 0);
        } else {
            assert forall|j: int| 0 <= j < k - 1 implies rest[j] != ',' by {
                assert(rest[j] == s[j + 1]);
            }
            lemma_first_comma(rest, k - 1);
        }
    }
}

/// Divides `list` at its commas.
pub fn split_commas(list: &str) -> (r: Vec<String>)
    ensures
        texts(r@) == pieces(list@),
{
    let n = list.unicode_len();
    let mut out: Vec<String> = Vec::new();
    let mut start: usize = 0;
    let mut i: usize = 0;
    proof {
        assert(list@.skip(0) =~= list@);
        assert(texts(out@) =~= Seq::<Seq<char>>::empty());
        assert(Seq::<Seq<char>>::empty() + pieces(list@) =~= pieces(list@));
    }
    while i < n
        invariant
            n == list@.len(),
            start <= i <= n,
            texts(out@) + pieces(list@.skip(start as int)) == pieces(list@),
            forall|j: int| start <= j < i ==> list@[j] != ',',
        decreases n - i,
    {
        let c = list.get_char(i);
        if c == ',' {
            let piece = list.substring_char(start, i);
            let ghost rest = list@.skip(start as int);
            let ghost before = texts(out@);
            proof {
                assert forall|j: int| 0 <= j < i - start implies rest[j] != ',' by {
                    assert(rest[j] == list@[start + j]);
                }
                lemma_first_comma(rest, i - start);
                assert(rest.take(i - start) =~= list@.subrange(start as int, i as int));
                assert(rest.skip(i - start + 1) =~= list@.skip(i + 1));
            }
            out.push(piece.to_owned());
            proof {
                assert(texts(out@) =~= before + seq![piece@]);
                assert((before + seq![piece@]) + pieces(list@.skip(i + 1)) =~= before + (
                seq![piece@] + pieces(list@.skip(i + 1))));
            }
            start = i + 1;
        }
        i += 1;
    }
    let piece = list.substring_char(start, n);
    let ghost rest = list@.skip(start as int);
    let ghost before = texts(out@);
    proof {
        assert forall|j: int| 0 <= j < n - start implies rest[j] != ',' by {
            assert(rest[j] == list@[start + j]);
        }
        lemma_first_comma(rest, n - start);
        assert(rest =~= list@.subrange(start as int, n as int));
    }
    out.push(piece.to_owned());
    proof {
        assert(texts(out@) =~= before + seq![piece@]);
    }
    out
}

/// Whether `channel` is one of `channels`.
pub fn is_listed(channels: &Vec<String>, channel: &str) -> (r: bool)
    ensures
        r == texts(channels@).contains(channel@),
{
    let wanted = channel.to_owned();
    let mut i: usize = 0;
    while i < channels.len()
        invariant
            i <= channels@.len(),
            wanted@ == channel@,
            forall|j: int| 0 <= j < i ==> channels@[j]@ != channel@,
        decreases channels@.len() - i,
    {
        if channels[i] == wanted {
            assert(texts(channels@)[i as int] == channel@);
            return true;
        }
        i += 1;
    }
    assert forall|j: int| 0 <= j < texts(channels@).len() implies texts(channels@)[j]
        != channel@ by {
        assert(texts(channels@)[j] == channels@[j]@);
    }
    false
}

/// Whether the assistant answers a message: `mentioned` says whether the
/// message mentions it, `listed` whether the channel is one in which it
/// answers unasked, `from_bot` whether a bot wrote the message.
pub fn should_respond(mentioned: bool, listed: bool, from_bot: bool, content: &str) -> (r: bool)
    ensures
        r == answered(mentioned, listed, from_bot, content@),
{
    if mentioned {
        return true;
    }
    if !listed || from_bot {
        return false;
    }
    if content.unicode_len() == 0 {
        return true;
    }
    content.get_char(0) != ASIDE_MARK
}

} // verus!

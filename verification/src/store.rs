//! The conversation store: every conversation's history, by conversation id.

use vstd::prelude::*;
use crate::turn::Turn;

verus! {

/// The history of one conversation.
pub struct ConversationRecord {
    pub id: String,
    pub history: Vec<Turn>,
}

/// All the conversations, each under its id. A record comes into being when
/// its conversation is first appended to or cleared, and is never removed.
pub struct ConversationStore {
    records: Vec<ConversationRecord>,
}

/// Whether some record of `records` carries the id `id`.
spec fn holds_id(records: Seq<ConversationRecord>, id: Seq<char>) -> bool {
    exists|i: int| 0 <= i < records.len() && #[trigger] records[i].id@ == id
}

/// The place of the record with the id `id`.
spec fn slot_of(records: Seq<ConversationRecord>, id: Seq<char>) -> int {
    choose|i: int| 0 <= i < records.len() && #[trigger] records[i].id@ == id
}

/// No two records share an id.
spec fn distinct_ids(records: Seq<ConversationRecord>) -> bool {
    forall|i: int, j: int|
        0 <= i < records.len() && 0 <= j < records.len() && #[trigger] records[i].id@
            == #[trigger] records[j].id@ ==> i == j
}

/// The histories of `records`, each under the id of its record.
spec fn histories(records: Seq<ConversationRecord>) -> Map<Seq<char>, Seq<Turn>> {
    Map::new(
        |id: Seq<char>| holds_id(records, id),
        |id: Seq<char>| records[slot_of(records, id)].history@,
    )
}

/// With distinct ids, the record at place `i` is the one that its id finds.
proof fn lemma_slot(records: Seq<ConversationRecord>, i: int)
    requires
        distinct_ids(records),
        0 <= i < records.len(),
    ensures
        holds_id(records, records[i].id@),
        slot_of(records, records[i].id@) == i,
{
    let id = records[i].id@;
    assert(records[i].id@ == id);
    let j = slot_of(records, id);
    assert(0 <= j < records.len() && records[j].id@ == id);
}

/// Replacing the history of the record at place `i` replaces the entry of
/// its id and no other.
proof fn lemma_history_replaced(
    before: Seq<ConversationRecord>,
    after: Seq<ConversationRecord>,
    i: int,
)
    requires
        distinct_ids(before),
        0 <= i < before.len(),
        after.len() == before.len(),
        forall|k: int| 0 <= k < before.len() ==> (#[trigger] after[k]).id@ == before[k].id@,
        forall|k: int| 0 <= k < before.len() && k != i ==> (#[trigger] after[k]).history == before[k].history,
    ensures
        distinct_ids(after),
        histories(after) == histories(before).insert(before[i].id@, after[i].history@),
{
    assert(distinct_ids(after)) by {
        assert forall|a: int, b: int|
            0 <= a < after.len() && 0 <= b < after.len() && #[trigger] after[a].id@
                == #[trigger] after[b].id@ implies a == b by {
            assert(before[a].id@ == before[b].id@);
        }
    }
    let wanted = histories(before).insert(before[i].id@, after[i].history@);
    assert forall|id: Seq<char>| histories(after).dom().contains(id) <==> wanted.dom().contains(
        id,
    ) by {
        if holds_id(after, id) {
            let k = slot_of(after, id);
            assert(before[k].id@ == id);
        }
        if holds_id(before, id) {
            let k = slot_of(before, id);
            assert(after[k].id@ == id);
        }
        if id == before[i].id@ {
            assert(after[i].id@ == id);
        }
    }
    assert forall|id: Seq<char>| histories(after).dom().contains(id) implies histories(after)[id]
        == wanted[id] by {
        let k = slot_of(after, id);
        lemma_slot(after, k);
        assert(before[k].id@ == id);
        lemma_slot(before, k);
    }
    assert(histories(after) =~= wanted);
}

/// A record added for an id that no record carried adds the entry of that id
/// and changes no other.
proof fn lemma_record_added(before: Seq<ConversationRecord>, record: ConversationRecord)
    requires
        distinct_ids(before),
        !holds_id(before, record.id@),
    ensures
        distinct_ids(before.push(record)),
        histories(before.push(record)) == histories(before).insert(record.id@, record.history@),
{
    let after = before.push(record);
    let last = before.len() as int;
    assert(distinct_ids(after)) by {
        assert forall|a: int, b: int|
            0 <= a < after.len() && 0 <= b < after.len() && #[trigger] after[a].id@
                == #[trigger] after[b].id@ implies a == b by {
            if a < last && b < last {
                assert(before[a].id@ == before[b].id@);
            } else if a < last {
                assert(before[a].id@ == record.id@);
            } else if b < last {
                assert(before[b].id@ == record.id@);
            }
        }
    }
    let wanted = histories(before).insert(record.id@, record.history@);
    assert forall|id: Seq<char>| histories(after).dom().contains(id) <==> wanted.dom().contains(
        id,
    ) by {
        if holds_id(after, id) {
            let k = slot_of(after, id);
            if k < last {
                assert(before[k].id@ == id);
            }
        }
        if holds_id(before, id) {
            let k = slot_of(before, id);
            assert(after[k].id@ == id);
        }
        if id == record.id@ {
            assert(after[last].id@ == id);
        }
    }
    assert forall|id: Seq<char>| histories(after).dom().contains(id) implies histories(after)[id]
        == wanted[id] by {
        let k = slot_of(after, id);
        lemma_slot(after, k);
        if k < last {
            assert(before[k].id@ == id);
            lemma_slot(before, k);
        }
    }
    assert(histories(after) =~= wanted);
}

impl View for ConversationStore {
    type V = Map<Seq<char>, Seq<Turn>>;

    closed spec fn view(&self) -> Map<Seq<char>, Seq<Turn>> {
        histories(self.records@)
    }
}

impl ConversationStore {
    #[verifier::type_invariant]
    spec fn well_formed(&self) -> bool {
        distinct_ids(self.records@)
    }

    /// The history kept under `id`: empty where no record exists.
    pub open spec fn history(&self, id: Seq<char>) -> Seq<Turn> {
        if self@.dom().contains(id) {
            self@[id]
        } else {
            Seq::empty()
        }
    }

    /// A store without conversations.
    pub fn new() -> (r: ConversationStore)
        ensures
            r@ == Map::<Seq<char>, Seq<Turn>>::empty(),
    {
        let r = ConversationStore { records: Vec::new() };
        assert(r@ =~= Map::<Seq<char>, Seq<Turn>>::empty());
        r
    }

    /// The place of the record of `id`, if there is one.
    fn find(&self, id: &str) -> (r: Option<usize>)
        ensures
            match r {
                Some(i) => i < self.records@.len() && self.records@[i as int].id@ == id@,
                None => !holds_id(self.records@, id@),
            },
    {
        let wanted = id.to_owned();
        let mut i: usize = 0;
        while i < self.records.len()
            invariant
                i <= self.records@.len(),
                wanted@ == id@,
                forall|j: int| 0 <= j < i ==> self.records@[j].id@ != id@,
            decreases self.records@.len() - i,
        {
            if self.records[i].id == wanted {
                return Some(i);
            }
            i += 1;
        }
        None
    }

    /// A copy of the history of `id`, which later changes of the store do
    /// not reach. The store is left as it is: an id without a record has the
    /// empty history.
    pub fn snapshot(&self, id: &str) -> (r: Vec<Turn>)
        ensures
            r@ == self.history(id@),
    {
        proof {
            use_type_invariant(self);
        }
        match self.find(id) {
            Some(i) => {
                proof {
                    lemma_slot(self.records@, i as int);
                }
                copy_turns(&self.records[i].history)
            },
            None => Vec::new(),
        }
    }

    /// Adds `turn` at the end of the history of `id`, whose record is made
    /// if it was not there.
    pub fn append(&mut self, id: &str, turn: Turn)
        ensures
            final(self)@ == old(self)@.insert(id@, old(self).history(id@).push(turn)),
    {
        proof {
            use_type_invariant(&*self);
        }
        let found = self.find(id);
        let ghost before = self.records@;
        let mut taken = ConversationStore { records: Vec::new() };
        std::mem::swap(self, &mut taken);
        let mut records = taken.records;
        match found {
            Some(i) => {
                records[i].history.push(turn);
                proof {
                    lemma_slot(before, i as int);
                    lemma_history_replaced(before, records@, i as int);
                }
            },
            None => {
                let mut history: Vec<Turn> = Vec::new();
                history.push(turn);
                let record = ConversationRecord { id: id.to_owned(), history };
                proof {
                    lemma_record_added(before, record);
                    assert(record.history@ =~= Seq::<Turn>::empty().push(turn));
                }
                records.push(record);
            },
        }
        *self = ConversationStore { records };
    }

    /// Empties the history of `id`. The record stays, and is made if it was
    /// not there.
    pub fn clear(&mut self, id: &str)
        ensures
            final(self)@ == old(self)@.insert(id@, Seq::empty()),
    {
        proof {
            use_type_invariant(&*self);
        }
        let found = self.find(id);
        let ghost before = self.records@;
        let mut taken = ConversationStore { records: Vec::new() };
        std::mem::swap(self, &mut taken);
        let mut records = taken.records;
        match found {
            Some(i) => {
                records[i].history.clear();
                proof {
                    lemma_history_replaced(before, records@, i as int);
                }
            },
            None => {
                let record = ConversationRecord { id: id.to_owned(), history: Vec::new() };
                proof {
                    lemma_record_added(before, record);
                }
                records.push(record);
            },
        }
        *self = ConversationStore { records };
    }
}

/// A copy of `turns`, turn by turn.
pub fn copy_turns(turns: &Vec<Turn>) -> (r: Vec<Turn>)
    ensures
        r@ == turns@,
{
    let mut r: Vec<Turn> = Vec::new();
    let mut i: usize = 0;
    while i < turns.len()
        invariant
            i <= turns@.len(),
            r@ == turns@.take(i as int),
        decreases turns@.len() - i,
    {
        r.push(turns[i].clone());
        assert(turns@.take(i + 1) =~= turns@.take(i as int).push(turns@[i as int]));
        i += 1;
    }
    assert(turns@.take(turns@.len() as int) =~= turns@);
    r
}

} // verus!

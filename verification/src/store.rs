//! The subscriber store: records keyed by identifier, with lookup by
//! address, as a mathematical model and as an in-memory implementation.

use crate::subscriber::{Subscriber, SubscriberView, Update, UpdateView};
use vstd::prelude::*;

verus! {

/// The store, or the way to it, failed: nothing is known of what it holds.
#[derive(Clone, Copy, Debug, PartialEq, Eq, Structural)]
pub struct StoreFailure;

/// The index of the first record with identifier `id`.
pub open spec fn position(records: Seq<SubscriberView>, id: Seq<char>) -> Option<int>
    decreases records.len(),
{
    if records.len() == 0 {
        None
    } else {
        match position(records.drop_last(), id) {
            Some(i) => Some(i),
            None => if records.last().id == id {
                Some(records.len() - 1)
            } else {
                None
            },
        }
    }
}

/// The record with identifier `id`.
pub open spec fn lookup(records: Seq<SubscriberView>, id: Seq<char>) -> Option<SubscriberView> {
    match position(records, id) {
        Some(i) => Some(records[i]),
        None => None,
    }
}

/// The records with address `email`, in stored order.
pub open spec fn matching(records: Seq<SubscriberView>, email: Seq<char>) -> Seq<SubscriberView>
    decreases records.len(),
{
    if records.len() == 0 {
        Seq::empty()
    } else if records.last().email == email {
        matching(records.drop_last(), email).push(records.last())
    } else {
        matching(records.drop_last(), email)
    }
}

/// The store after a full write of `record`: it replaces the record with
/// the same identifier, or is added after the others.
pub open spec fn upsert(records: Seq<SubscriberView>, record: SubscriberView) -> Seq<
    SubscriberView,
> {
    match position(records, record.id) {
        Some(i) => records.update(i, record),
        None => records.push(record),
    }
}

/// Whether the store makes `update` to the record `id`: the record exists
/// and the update's condition holds of it.
pub open spec fn accepts(records: Seq<SubscriberView>, id: Seq<char>, update: UpdateView) -> bool {
    match lookup(records, id) {
        Some(record) => update.admits(record),
        None => false,
    }
}

/// The store after a conditional update of the record `id`: changed in
/// that one record if the update is accepted, unchanged otherwise.
pub open spec fn updated(records: Seq<SubscriberView>, id: Seq<char>, update: UpdateView) -> Seq<
    SubscriberView,
> {
    match position(records, id) {
        Some(i) => if update.admits(records[i]) {
            records.update(i, update.apply(records[i]))
        } else {
            records
        },
        None => records,
    }
}

/// Every record is well formed and no identifier occurs twice.
pub open spec fn store_wf(records: Seq<SubscriberView>) -> bool {
    &&& forall|i: int| 0 <= i < records.len() ==> (#[trigger] records[i]).wf()
    &&& forall|i: int, j: int|
        0 <= i < j < records.len() ==> (#[trigger] records[i]).id != (#[trigger] records[j]).id
}

/// `position` finds the first record with the identifier, and finds none
/// only where no record has it.
pub proof fn lemma_position(records: Seq<SubscriberView>, id: Seq<char>)
    ensures
        match position(records, id) {
            Some(i) => {
                &&& 0 <= i < records.len()
                &&& records[i].id == id
                &&& forall|j: int| 0 <= j < i ==> (#[trigger] records[j]).id != id
            },
            None => forall|j: int| 0 <= j < records.len() ==> (#[trigger] records[j]).id != id,
        },
    decreases records.len(),
{
    if records.len() > 0 {
        let front = records.drop_last();
        lemma_position(front, id);
        assert forall|j: int| 0 <= j < front.len() implies (#[trigger] records[j]) == front[j] by {}
    }
}

/// Every matching record has the address asked for and is a record of the
/// store, and a store that holds a record with the address has a match.
pub proof fn lemma_matching(records: Seq<SubscriberView>, email: Seq<char>)
    ensures
        forall|k: int|
            0 <= k < matching(records, email).len() ==> {
                &&& (#[trigger] matching(records, email)[k]).email == email
                &&& records.contains(matching(records, email)[k])
            },
        forall|i: int|
            0 <= i < records.len() && (#[trigger] records[i]).email == email ==> matching(
                records,
                email,
            ).len() > 0,
        matching(records, email).len() <= records.len(),
    decreases records.len(),
{
    if records.len() > 0 {
        let front = records.drop_last();
        lemma_matching(front, email);
        assert forall|k: int| 0 <= k < matching(records, email).len() implies records.contains(
            #[trigger] matching(records, email)[k],
        ) by {
            if k < matching(front, email).len() {
                let found = matching(front, email)[k];
                assert(front.contains(found));
                let at = choose|at: int| 0 <= at < front.len() && front[at] == found;
                assert(records[at] == found);
            } else {
                assert(records[records.len() - 1] == records.last());
            }
        }
        assert forall|i: int|
            0 <= i < records.len() && (#[trigger] records[i]).email == email implies matching(
            records,
            email,
        ).len() > 0 by {
            if i < front.len() {
                assert(front[i].email == email);
            }
        }
    }
}

/// A conditional update keeps the store well formed and as long as it was.
/// Where the store accepts it, the record asked for holds the change and
/// every other record is as before; where not, the store is unchanged.
pub proof fn lemma_updated(records: Seq<SubscriberView>, id: Seq<char>, update: UpdateView)
    requires
        store_wf(records),
        update.wf(),
    ensures
        store_wf(updated(records, id, update)),
        updated(records, id, update).len() == records.len(),
        !accepts(records, id, update) ==> updated(records, id, update) == records,
        accepts(records, id, update) ==> {
            &&& position(records, id) matches Some(i)
            &&& position(updated(records, id, update), id) == Some(i)
            &&& updated(records, id, update) == records.update(i, update.apply(records[i]))
            &&& lookup(updated(records, id, update), id) == Some(update.apply(records[i]))
        },
{
    lemma_position(records, id);
    let after = updated(records, id, update);
    lemma_position(after, id);
    if accepts(records, id, update) {
        let i = position(records, id)->0;
        crate::subscriber::lemma_update_preserves(update, records[i]);
        assert(after[i].id == id);
        assert forall|j: int| 0 <= j < i implies (#[trigger] after[j]).id != id by {
            assert(after[j] == records[j]);
        }
    }
}

/// An in-memory store.
#[derive(Debug)]
pub struct MemoryStore {
    records: Vec<Subscriber>,
}

impl View for MemoryStore {
    type V = Seq<SubscriberView>;

    closed spec fn view(&self) -> Seq<SubscriberView> {
        self.records@.map_values(|s: Subscriber| s@)
    }
}

impl MemoryStore {
    pub open spec fn wf(&self) -> bool {
        store_wf(self@)
    }

    /// The store without records.
    pub fn new() -> (r: MemoryStore)
        ensures
            r@ == Seq::<SubscriberView>::empty(),
            r.wf(),
    {
        let r = MemoryStore { records: Vec::new() };
        assert(r@ == Seq::<SubscriberView>::empty());
        r
    }

    /// The number of records.
    pub fn len(&self) -> (r: usize)
        ensures
            r == self@.len(),
    {
        self.records.len()
    }

    /// The index of the record with identifier `id`.
    fn find(&self, id: &String) -> (r: Option<usize>)
        ensures
            r matches Some(i) ==> i < self.records.len() && position(self@, id@) == Some(i as int),
            r is None ==> position(self@, id@) is None,
    {
        let mut i: usize = 0;
        while i < self.records.len()
            invariant
                i <= self.records.len(),
                forall|j: int| 0 <= j < i ==> (#[trigger] self@[j]).id != id@,
            decreases self.records.len() - i,
        {
            if self.records[i].id == *id {
                proof {
                    lemma_position(self@, id@);
                    assert(self@[i as int].id == id@);
                }
                return Some(i);
            }
            i = i + 1;
        }
        proof {
            lemma_position(self@, id@);
        }
        None
    }

    /// Full write of one record, keyed by its identifier.
    pub fn put(&mut self, record: Subscriber)
        requires
            old(self).wf(),
            record.wf(),
        ensures
            final(self)@ == upsert(old(self)@, record@),
            final(self).wf(),
    {
        proof {
            lemma_position(self@, record@.id);
        }
        match self.find(&record.id) {
            Some(i) => {
                self.records.set(i, record);
                assert(self@ == old(self)@.update(i as int, record@));
            },
            None => {
                self.records.push(record);
                assert(self@ == old(self)@.push(record@));
            },
        }
    }

    /// The record with identifier `id`.
    pub fn get(&self, id: &str) -> (r: Option<Subscriber>)
        ensures
            match lookup(self@, id@) {
                Some(record) => r matches Some(s) && s@ == record,
                None => r is None,
            },
            self.wf() ==> (r matches Some(s) ==> s.wf()),
    {
        let wanted = id.to_owned();
        match self.find(&wanted) {
            Some(i) => {
                assert(self@[i as int] == self.records@[i as int]@);
                Some(self.records[i].clone())
            },
            None => None,
        }
    }

    /// The records with address `email`, in stored order.
    pub fn find_by_email(&self, email: &str) -> (r: Vec<Subscriber>)
        ensures
            r@.map_values(|s: Subscriber| s@) == matching(self@, email@),
            self.wf() ==> forall|k: int| 0 <= k < r.len() ==> (#[trigger] r[k]).wf(),
    {
        let wanted = email.to_owned();
        let mut found: Vec<Subscriber> = Vec::new();
        let mut i: usize = 0;
        assert(self@.take(0) == Seq::<SubscriberView>::empty());
        while i < self.records.len()
            invariant
                i <= self.records.len(),
                wanted@ == email@,
                found@.map_values(|s: Subscriber| s@) == matching(self@.take(i as int), email@),
                self.wf() ==> forall|k: int| 0 <= k < found.len() ==> (#[trigger] found[k]).wf(),
            decreases self.records.len() - i,
        {
            proof {
                let prefix = self@.take(i + 1);
                assert(prefix.drop_last() == self@.take(i as int));
                assert(prefix.last() == self@[i as int]);
            }
            if self.records[i].email == wanted {
                let ghost before = found@;
                let copy = self.records[i].clone();
                found.push(copy);
                assert(found@.map_values(|s: Subscriber| s@) == before.map_values(
                    |s: Subscriber| s@,
                ).push(copy@));
            }
            i = i + 1;
        }
        assert(self@.take(i as int) == self@);
        found
    }

    /// Conditional update of the record `id`. Returns whether the update
    /// was made.
    pub fn update(&mut self, id: &str, update: &Update) -> (r: bool)
        requires
            old(self).wf(),
            update.wf(),
        ensures
            r == accepts(old(self)@, id@, update@),
            final(self)@ == updated(old(self)@, id@, update@),
            final(self).wf(),
    {
        let wanted = id.to_owned();
        proof {
            lemma_position(self@, id@);
        }
        match self.find(&wanted) {
            Some(i) => {
                let mut record = self.records[i].clone();
                if record.admits(update) {
                    record.apply(update);
                    self.records.set(i, record);
                    assert(self@ == old(self)@.update(i as int, record@));
                    true
                } else {
                    false
                }
            },
            None => false,
        }
    }
}

} // verus!

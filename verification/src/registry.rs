//! The task registry: a table of stable slot identifiers.
//!
//! Each occupied slot tracks one registered task and holds that task's
//! single-use stop sender until someone consumes it.  Identifiers are
//! reused: an insertion always takes the lowest currently-free slot, which
//! bounds the table's growth under long-running, high-churn workloads.
//! Removal is idempotent, so the task's own removal path and a concurrent
//! shutdown pass can race without harm.

use vstd::prelude::*;

verus! {

use vstd::pervasive::VecAdditionalExecFns;

/// One entry of the registry.
///
/// A `Vacant` slot carries no task and is available for reuse.  An `Armed`
/// slot belongs to a registered task whose stop sender has not been consumed
/// yet.  A `Consumed` slot belongs to a registered task whose sender has
/// already been taken, by a shutdown pass or by the task's own removal path.
pub enum Slot<T> {
    Vacant,
    Armed(T),
    Consumed,
}

/// The identifier an insertion into `s` hands out: the lowest vacant
/// position, or `s.len()` when every position is occupied.
pub open spec fn first_vacant<T>(s: Seq<Slot<T>>) -> int
    decreases s.len(),
{
    if s.len() == 0 {
        0
    } else if s[0] is Vacant {
        0
    } else {
        1 + first_vacant(s.drop_first())
    }
}

/// The table after registering a task with stop sender `sender`: the lowest
/// vacant slot becomes armed, or a fresh armed slot is appended when no
/// position is free.
pub open spec fn after_insert<T>(s: Seq<Slot<T>>, sender: T) -> Seq<Slot<T>> {
    if first_vacant(s) < s.len() {
        s.update(first_vacant(s), Slot::Armed(sender))
    } else {
        s.push(Slot::Armed(sender))
    }
}

/// The table after removing identifier `id`: that slot becomes vacant.
/// Removing an identifier that is already vacant, or out of range, changes
/// nothing.
pub open spec fn after_remove<T>(s: Seq<Slot<T>>, id: int) -> Seq<Slot<T>> {
    if 0 <= id < s.len() {
        s.update(id, Slot::Vacant)
    } else {
        s
    }
}

/// The table after a shutdown pass: every armed slot is consumed, and no
/// slot is created or freed.
pub open spec fn after_shutdown<T>(s: Seq<Slot<T>>) -> Seq<Slot<T>> {
    Seq::new(s.len(), |i: int| if s[i] is Armed { Slot::Consumed } else { s[i] })
}

/// The stop senders held by the armed slots of `s`, in ascending identifier
/// order: exactly the senders a shutdown pass consumes and signals.
pub open spec fn armed_senders<T>(s: Seq<Slot<T>>) -> Seq<T>
    decreases s.len(),
{
    if s.len() == 0 {
        Seq::empty()
    } else {
        match s.last() {
            Slot::Armed(t) => armed_senders(s.drop_last()).push(t),
            _ => armed_senders(s.drop_last()),
        }
    }
}

/// How many slots of `s` are occupied, that is, how many registered tasks
/// the table currently tracks.
pub open spec fn occupied_count<T>(s: Seq<Slot<T>>) -> nat
    decreases s.len(),
{
    if s.len() == 0 {
        0
    } else if s.last() is Vacant {
        occupied_count(s.drop_last())
    } else {
        (occupied_count(s.drop_last()) + 1) as nat
    }
}

/// A scan that stopped at position `i` with every earlier slot occupied has
/// found exactly the lowest vacant position.
proof fn lemma_first_vacant_at<T>(s: Seq<Slot<T>>, i: int)
    requires
        0 <= i <= s.len(),
        forall|j: int| 0 <= j < i ==> !(s[j] is Vacant),
        i < s.len() ==> s[i] is Vacant,
    ensures
        first_vacant(s) == i,
    decreases i,
{
    if i == 0 {
        if s.len() > 0 && !(s[0] is Vacant) {
            assert(i < s.len() ==> s[i] is Vacant);
        }
    } else {
        let s1 = s.drop_first();
        assert(!(s[0] is Vacant));
        assert forall|j: int| 0 <= j < i - 1 implies !(s1[j] is Vacant) by {
            assert(s1[j] == s[j + 1]);
        }
        if i - 1 < s1.len() {
            assert(s1[i - 1] == s[i]);
        }
        lemma_first_vacant_at(s1, i - 1);
    }
}

/// The lowest vacant position is indeed vacant, and lies within the table
/// exactly when the table has a vacancy at all.
pub proof fn lemma_first_vacant_in_range<T>(s: Seq<Slot<T>>)
    ensures
        0 <= first_vacant(s) <= s.len(),
        first_vacant(s) < s.len() ==> s[first_vacant(s)] is Vacant,
    decreases s.len(),
{
    if s.len() > 0 && !(s[0] is Vacant) {
        lemma_first_vacant_in_range(s.drop_first());
    }
}

/// Overwriting one slot changes the number of tracked tasks by the
/// difference in occupancy between the new entry and the old one.
pub proof fn lemma_occupied_count_update<T>(s: Seq<Slot<T>>, i: int, v: Slot<T>)
    requires
        0 <= i < s.len(),
    ensures
        occupied_count(s.update(i, v)) + (if s[i] is Vacant { 0int } else { 1int })
            == occupied_count(s) + (if v is Vacant { 0int } else { 1int }),
    decreases s.len(),
{
    let su = s.update(i, v);
    if i == s.len() - 1 {
        assert(su.drop_last() =~= s.drop_last());
        assert(su.last() == v);
    } else {
        assert(su.drop_last() =~= s.drop_last().update(i, v));
        assert(su.last() == s.last());
        lemma_occupied_count_update(s.drop_last(), i, v);
    }
}

/// Registering a task occupies exactly one further slot.
pub proof fn lemma_insert_occupies<T>(s: Seq<Slot<T>>, t: T)
    ensures
        occupied_count(after_insert(s, t)) == occupied_count(s) + 1,
{
    lemma_first_vacant_in_range(s);
    let fv = first_vacant(s);
    if fv < s.len() {
        lemma_occupied_count_update(s, fv, Slot::Armed(t));
    } else {
        let sp = s.push(Slot::Armed(t));
        assert(sp.drop_last() =~= s);
        assert(sp.last() == Slot::Armed(t));
    }
}

/// Removing an occupied slot frees exactly one slot; removing an absent
/// identifier frees none.
pub proof fn lemma_remove_frees<T>(s: Seq<Slot<T>>, id: int)
    ensures
        occupied_count(after_remove(s, id))
            == if 0 <= id < s.len() && !(s[id] is Vacant) {
                occupied_count(s) - 1
            } else {
                occupied_count(s) as int
            },
{
    if 0 <= id < s.len() {
        lemma_occupied_count_update(s, id, Slot::Vacant);
        if s[id] is Vacant {
            assert(s.update(id, Slot::Vacant) =~= s);
        }
    }
}

/// A shutdown pass consumes senders but neither creates nor frees a slot:
/// the number of tracked tasks is unchanged.
pub proof fn lemma_shutdown_keeps_occupancy<T>(s: Seq<Slot<T>>)
    ensures
        occupied_count(after_shutdown(s)) == occupied_count(s),
    decreases s.len(),
{
    if s.len() > 0 {
        assert(after_shutdown(s).drop_last() =~= after_shutdown(s.drop_last()));
        assert(after_shutdown(s).last() == (if s.last() is Armed {
            Slot::<T>::Consumed
        } else {
            s.last()
        }));
        lemma_shutdown_keeps_occupancy(s.drop_last());
    }
}

/// The slot table.  Its view is the sequence of abstract slots; every
/// operation's contract is stated against that view.
pub struct Registry<T> {
    slots: Vec<Slot<T>>,
}

impl<T> View for Registry<T> {
    type V = Seq<Slot<T>>;

    closed spec fn view(&self) -> Seq<Slot<T>> {
        self.slots@
    }
}

impl<T> Registry<T> {
    /// A fresh registry with no slots at all.
    pub fn new() -> (r: Registry<T>)
        ensures
            r@ == Seq::<Slot<T>>::empty(),
    {
        Registry { slots: Vec::new() }
    }

    fn slot_is_vacant(slot: &Slot<T>) -> (b: bool)
        ensures
            b <==> (*slot is Vacant),
    {
        match slot {
            Slot::Vacant => true,
            _ => false,
        }
    }

    /// Register a task: arm the lowest currently-free slot with the task's
    /// stop sender and return that slot's identifier.
    pub fn insert(&mut self, sender: T) -> (id: usize)
        ensures
            id as int == first_vacant(old(self)@),
            final(self)@ == after_insert(old(self)@, sender),
            id <= old(self)@.len(),
            forall|j: int| 0 <= j < id ==> !(old(self)@[j] is Vacant),
            id < old(self)@.len() ==> old(self)@[id as int] is Vacant,
            final(self)@[id as int] == Slot::Armed(sender),
            final(self)@.len() == if id < old(self)@.len() {
                old(self)@.len()
            } else {
                old(self)@.len() + 1
            },
    {
        let ghost s0 = self@;
        let n = self.slots.len();
        let mut i: usize = 0;
        while i < n
            invariant
                i <= n,
                n == s0.len(),
                self@ == s0,
                forall|j: int| 0 <= j < i ==> !(s0[j] is Vacant),
            ensures
                i <= n,
                self@ == s0,
                forall|j: int| 0 <= j < i ==> !(s0[j] is Vacant),
                i < n ==> s0[i as int] is Vacant,
            decreases n - i,
        {
            if Self::slot_is_vacant(&self.slots[i]) {
                break;
            }
            i = i + 1;
        }
        proof {
            lemma_first_vacant_at(s0, i as int);
        }
        if i < n {
            self.slots.set(i, Slot::Armed(sender));
        } else {
            self.slots.push(Slot::Armed(sender));
        }
        i
    }

    /// Free the slot with identifier `id`.  The call is a silent no-op when
    /// the slot is already vacant or the identifier is out of range: the
    /// task's own removal path may race with other parties and must be able
    /// to repeat a removal without harm.
    pub fn remove(&mut self, id: usize)
        ensures
            final(self)@ == after_remove(old(self)@, id as int),
            final(self)@.len() == old(self)@.len(),
    {
        if id < self.slots.len() {
            self.slots.set(id, Slot::Vacant);
        }
    }

    /// Consume the stop sender of slot `id` and hand it out, leaving the
    /// slot occupied but consumed.  Whichever of the shutdown pass and the
    /// task's own removal path gets here first receives the sender; every
    /// later caller sees that the sender is already gone and gets nothing.
    pub fn take(&mut self, id: usize) -> (sender: Option<T>)
        ensures
            final(self)@.len() == old(self)@.len(),
            if id < old(self)@.len() && old(self)@[id as int] is Armed {
                &&& old(self)@[id as int] matches Slot::Armed(t) && sender == Some(t)
                &&& final(self)@ == old(self)@.update(id as int, Slot::Consumed::<T>)
            } else {
                &&& sender is None
                &&& final(self)@ == old(self)@
            },
    {
        if id < self.slots.len() {
            let mut slot = Slot::Consumed;
            self.slots.set_and_swap(id, &mut slot);
            match slot {
                Slot::Armed(t) => Some(t),
                Slot::Vacant => {
                    self.slots.set(id, Slot::Vacant);
                    None
                }
                Slot::Consumed => None,
            }
        } else {
            None
        }
    }

    /// Consume every armed slot's stop sender in one pass, in ascending
    /// identifier order, and hand the senders out.  No slot is created or
    /// freed: tasks that are mid-removal keep their (consumed) slots, and
    /// removal remains theirs to perform.
    pub fn consume_all(&mut self) -> (senders: Vec<T>)
        ensures
            final(self)@ == after_shutdown(old(self)@),
            senders@ == armed_senders(old(self)@),
    {
        let ghost s0 = self@;
        let mut senders: Vec<T> = Vec::new();
        let n = self.slots.len();
        let mut i: usize = 0;
        while i < n
            invariant
                i <= n,
                n == s0.len(),
                self@.len() == n,
                forall|j: int| 0 <= j < i ==> self@[j] == after_shutdown(s0)[j],
                forall|j: int| i <= j < n ==> self@[j] == s0[j],
                senders@ == armed_senders(s0.take(i as int)),
            decreases n - i,
        {
            let taken = self.take(i);
            match taken {
                Some(t) => senders.push(t),
                None => (),
            }
            proof {
                assert(s0.take(i + 1).drop_last() =~= s0.take(i as int));
                assert(s0.take(i + 1).last() == s0[i as int]);
            }
            i = i + 1;
        }
        proof {
            assert(s0.take(n as int) =~= s0);
            assert(self@ =~= after_shutdown(s0));
        }
        senders
    }

    /// How many tasks the registry currently tracks.
    pub fn task_count(&self) -> (n: usize)
        ensures
            n == occupied_count(self@),
    {
        let ghost s0 = self@;
        let len = self.slots.len();
        let mut n: usize = 0;
        let mut i: usize = 0;
        while i < len
            invariant
                i <= len,
                len == s0.len(),
                self@ == s0,
                n <= i,
                n == occupied_count(s0.take(i as int)),
            decreases len - i,
        {
            if !Self::slot_is_vacant(&self.slots[i]) {
                n = n + 1;
            }
            proof {
                assert(s0.take(i + 1).drop_last() =~= s0.take(i as int));
                assert(s0.take(i + 1).last() == s0[i as int]);
            }
            i = i + 1;
        }
        proof {
            assert(s0.take(len as int) =~= s0);
        }
        n
    }
}

} // verus!

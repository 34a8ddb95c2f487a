use vstd::prelude::*;

verus! {

/// The ordered record of every registration made through `subscribe`.
///
/// Entries are only ever appended: the order of the entries is the order of
/// the calls, and it is the order in which a fresh connection replays them.
pub struct SubscriptionRegistry<T> {
    entries: Vec<T>,
}

impl<T: Clone> SubscriptionRegistry<T> {
    pub closed spec fn view(&self) -> Seq<T> {
        self.entries@
    }

    /// An empty registry.
    pub fn new() -> (r: Self)
        ensures
            r@ == Seq::<T>::empty(),
    {
        SubscriptionRegistry { entries: Vec::new() }
    }

    /// Records one registration after all earlier ones.
    pub fn append(&mut self, registration: T)
        ensures
            final(self)@ == old(self)@.push(registration),
    {
        self.entries.push(registration);
    }

    /// The number of registrations recorded so far.
    pub fn len(&self) -> (r: usize)
        ensures
            r == self@.len(),
    {
        self.entries.len()
    }

    /// A copy of every registration, in the order of registration.
    ///
    /// The copy is what a fresh connection replays: later appends do not
    /// reach it.
    pub fn snapshot(&self) -> (r: Vec<T>)
        ensures
            r@.len() == self@.len(),
            forall|i: int| 0 <= i < r@.len() ==> cloned::<T>(self@[i], #[trigger] r@[i]),
    {
        self.entries.clone()
    }
}

/// The registry's contents after `calls` were appended, one after another, to `start`.
pub open spec fn after_appends<T>(start: Seq<T>, calls: Seq<T>) -> Seq<T>
    decreases calls.len(),
{
    if calls.len() == 0 {
        start
    } else {
        after_appends(start.push(calls[0]), calls.drop_first())
    }
}

/// Registrations are replayed in the order of the `subscribe` calls that made
/// them: appending `calls` one by one to an empty registry leaves exactly
/// `calls`, first call first, duplicates included.
pub proof fn lemma_replay_order<T>(calls: Seq<T>)
    ensures
        after_appends(Seq::<T>::empty(), calls) == calls,
{
    lemma_after_appends(Seq::<T>::empty(), calls);
    assert(Seq::<T>::empty() + calls =~= calls);
}

proof fn lemma_after_appends<T>(start: Seq<T>, calls: Seq<T>)
    ensures
        after_appends(start, calls) == start + calls,
    decreases calls.len(),
{
    if calls.len() > 0 {
        lemma_after_appends(start.push(calls[0]), calls.drop_first());
        assert(start.push(calls[0]) + calls.drop_first() =~= start + calls);
    } else {
        assert(start + calls =~= start);
    }
}

} // verus!

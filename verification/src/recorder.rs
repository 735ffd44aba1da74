//! The call recorder: an ordered, append-only record of received messages.

use vstd::laws_eq::obeys_concrete_eq;
use vstd::prelude::*;
use vstd::seq_lib::to_multiset_build;
use vstd::std_specs::cmp::PartialEqSpec;

verus! {

/// Number of entries of `log` that `probe` compares equal to.
pub open spec fn matching_count<M: PartialEq>(log: Seq<M>, probe: M) -> nat {
    log.filter(|entry: M| probe.eq_spec(&entry)).len()
}

/// Recording one more entry raises the count for `probe` by one if `probe`
/// compares equal to the entry, and leaves it unchanged otherwise.
pub proof fn lemma_matching_count_push<M: PartialEq>(log: Seq<M>, entry: M, probe: M)
    ensures
        matching_count(log.push(entry), probe) == matching_count(log, probe) + (if probe.eq_spec(
            &entry,
        ) {
            1nat
        } else {
            0nat
        }),
{
    reveal(Seq::filter);
    assert(log.push(entry).drop_last() =~= log);
}

/// An empty record holds no match for any probe.
pub proof fn lemma_matching_count_empty<M: PartialEq>(probe: M)
    ensures
        matching_count(Seq::<M>::empty(), probe) == 0,
{
    reveal(Seq::filter);
}

/// Where `==` on `M` is structural equality, the count for `probe` is the
/// number of times that `probe` stands in the record.
pub proof fn lemma_matching_count_is_multiplicity<M: PartialEq>(log: Seq<M>, probe: M)
    requires
        obeys_concrete_eq::<M>(),
    ensures
        matching_count(log, probe) == log.to_multiset().count(probe),
    decreases log.len(),
{
    reveal(obeys_concrete_eq);
    if log.len() == 0 {
        lemma_matching_count_empty(probe);
        assert(log =~= Seq::<M>::empty());
        log.to_multiset_ensures();
    } else {
        let earlier = log.drop_last();
        lemma_matching_count_is_multiplicity(earlier, probe);
        lemma_matching_count_push(earlier, log.last(), probe);
        to_multiset_build(earlier, log.last());
        assert(earlier.push(log.last()) =~= log);
    }
}

/// Every message a stand-in has handled, oldest first.
pub struct CallRecorder<M> {
    entries: Vec<M>,
}

impl<M> View for CallRecorder<M> {
    type V = Seq<M>;

    closed spec fn view(&self) -> Seq<M> {
        self.entries@
    }
}

impl<M> CallRecorder<M> {
    /// A recorder that has seen nothing yet.
    pub fn new() -> (recorder: Self)
        ensures
            recorder@ == Seq::<M>::empty(),
    {
        CallRecorder { entries: Vec::new() }
    }

    /// Appends `message` to the end of the record.
    pub fn record(&mut self, message: M)
        ensures
            final(self)@ == old(self)@.push(message),
    {
        self.entries.push(message);
    }

    /// Number of messages recorded so far.
    pub fn count(&self) -> (n: usize)
        ensures
            n == self@.len(),
    {
        self.entries.len()
    }
}

impl<M: PartialEq> CallRecorder<M> {
    /// Number of recorded messages that `probe` compares equal to.
    pub fn count_matching(&self, probe: &M) -> (n: usize)
        ensures
            n <= self@.len(),
            M::obeys_eq_spec() ==> n == matching_count(self@, *probe),
    {
        let mut n: usize = 0;
        let mut i: usize = 0;
        proof {
            lemma_matching_count_empty(*probe);
            assert(self.entries@.take(0) =~= Seq::<M>::empty());
        }
        while i < self.entries.len()
            invariant
                i <= self.entries.len(),
                n <= i,
                M::obeys_eq_spec() ==> n == matching_count(self.entries@.take(i as int), *probe),
            decreases self.entries.len() - i,
        {
            proof {
                lemma_matching_count_push(self.entries@.take(i as int), self.entries@[i as int], *probe);
                assert(self.entries@.take(i as int).push(self.entries@[i as int])
                    =~= self.entries@.take(i + 1));
            }
            if *probe == self.entries[i] {
                n = n + 1;
            }
            i = i + 1;
        }
        proof {
            assert(self.entries@.take(i as int) =~= self.entries@);
        }
        n
    }
}

} // verus!

use vstd::prelude::*;
use crate::address::Address;

verus! {

/// The counter an association sequence gives an address: the value of the
/// last matching entry, or 0 where none matches. An address never seen starts
/// at 0 — the Sequence Ledger's documented default.
pub open spec fn counter_of(s: Seq<(Address, u64)>, a: Address) -> u64
    decreases s.len(),
{
    if s.len() == 0 {
        0u64
    } else if s.last().0 == a {
        s.last().1
    } else {
        counter_of(s.drop_last(), a)
    }
}

/// Each address appears in at most one entry.
pub open spec fn unique_addrs(s: Seq<(Address, u64)>) -> bool {
    forall|i: int, j: int|
        0 <= i < j < s.len() ==> (#[trigger] s[i]).0 != (#[trigger] s[j]).0
}

/// With unique addresses, the counter is the value stored at any matching index.
proof fn lemma_counter_of_at(s: Seq<(Address, u64)>, a: Address, i: int)
    requires
        unique_addrs(s),
        0 <= i < s.len(),
        s[i].0 == a,
    ensures
        counter_of(s, a) == s[i].1,
    decreases s.len(),
{
    if i == s.len() - 1 {
        assert(s.last() == s[i]);
    } else {
        assert(s.last().0 != a);
        assert(unique_addrs(s.drop_last()));
        assert(s.drop_last()[i] == s[i]);
        lemma_counter_of_at(s.drop_last(), a, i);
    }
}

/// An address matched by no entry has counter 0.
proof fn lemma_counter_of_absent(s: Seq<(Address, u64)>, a: Address)
    requires
        forall|i: int| 0 <= i < s.len() ==> (#[trigger] s[i]).0 != a,
    ensures
        counter_of(s, a) == 0,
    decreases s.len(),
{
    if s.len() > 0 {
        lemma_counter_of_absent(s.drop_last(), a);
    }
}

/// Updating the value at index `i` leaves every other address's counter alone.
proof fn lemma_counter_of_update_other(s: Seq<(Address, u64)>, i: int, v: u64, b: Address)
    requires
        0 <= i < s.len(),
        s[i].0 != b,
    ensures
        counter_of(s.update(i, (s[i].0, v)), b) == counter_of(s, b),
    decreases s.len(),
{
    let t = s.update(i, (s[i].0, v));
    if i == s.len() - 1 {
        assert(t.last().0 != b);
        assert(s.last().0 != b);
        assert(t.drop_last() =~= s.drop_last());
    } else {
        assert(t.last() == s.last());
        if s.last().0 == b {
        } else {
            assert(t.drop_last() =~= s.drop_last().update(i, (s.drop_last()[i].0, v)));
            lemma_counter_of_update_other(s.drop_last(), i, v, b);
        }
    }
}

/// Appending an entry for a fresh address leaves every other counter alone.
proof fn lemma_counter_of_push_other(s: Seq<(Address, u64)>, p: (Address, u64), b: Address)
    requires
        p.0 != b,
    ensures
        counter_of(s.push(p), b) == counter_of(s, b),
{
    assert(s.push(p).last() == p);
    assert(s.push(p).drop_last() =~= s);
}

/// The per-address transaction-ordering counters of one harness session.
///
/// Behaves as a map with a default: an address never recorded has counter 0.
/// The remote node's counters are never consulted; this ledger is the
/// session's only record of ordering.
pub struct SequenceLedger {
    entries: Vec<(Address, u64)>,
}

impl View for SequenceLedger {
    type V = Seq<(Address, u64)>;

    closed spec fn view(&self) -> Seq<(Address, u64)> {
        self.entries@
    }
}

impl SequenceLedger {
    /// Each address holds at most one entry.
    pub closed spec fn wf(&self) -> bool {
        unique_addrs(self.entries@)
    }

    /// A fresh ledger: every address's counter is 0.
    pub fn new() -> (r: SequenceLedger)
        ensures
            r.wf(),
            forall|a: Address| counter_of(r@, a) == 0,
    {
        SequenceLedger { entries: Vec::new() }
    }

    /// The counter currently recorded for `a`; 0 where none is.
    pub fn get_counter(&self, a: &Address) -> (r: u64)
        requires
            self.wf(),
        ensures
            r == counter_of(self@, *a),
    {
        let n = self.entries.len();
        let mut i: usize = 0;
        while i < n
            invariant
                n == self.entries@.len(),
                0 <= i <= n,
                self.wf(),
                forall|j: int| 0 <= j < i ==> (#[trigger] self.entries@[j]).0 != *a,
            decreases n - i,
        {
            let e = self.entries[i];
            if e.0 == *a {
                proof {
                    lemma_counter_of_at(self.entries@, *a, i as int);
                }
                return e.1;
            }
            i += 1;
        }
        proof {
            lemma_counter_of_absent(self.entries@, *a);
        }
        0
    }

    /// Records `v` as the counter for `a`, replacing any earlier entry; every
    /// other address keeps its counter.
    pub fn set_counter(&mut self, a: Address, v: u64)
        requires
            old(self).wf(),
        ensures
            final(self).wf(),
            counter_of(final(self)@, a) == v,
            forall|b: Address| b != a ==> counter_of(final(self)@, b) == counter_of(old(self)@, b),
    {
        let n = self.entries.len();
        let mut i: usize = 0;
        while i < n
            invariant
                n == self.entries@.len(),
                0 <= i <= n,
                self.wf(),
                self.entries@ == old(self).entries@,
                forall|j: int| 0 <= j < i ==> (#[trigger] self.entries@[j]).0 != a,
            decreases n - i,
        {
            let e = self.entries[i];
            if e.0 == a {
                proof {
                    let s = self.entries@;
                    let t = s.update(i as int, (a, v));
                    assert(t =~= s.update(i as int, (s[i as int].0, v)));
                    assert(unique_addrs(t)) by {
                        assert(forall|p: int, q: int|
                            0 <= p < q < t.len() ==> (#[trigger] t[p]).0 != (#[trigger] t[q]).0) by {
                            assert(forall|p: int| 0 <= p < t.len() ==> (#[trigger] t[p]).0 == s[p].0);
                        }
                    }
                    lemma_counter_of_at(t, a, i as int);
                    assert(forall|b: Address| b != a ==> counter_of(t, b) == counter_of(s, b)) by {
                        assert forall|b: Address| b != a implies counter_of(t, b) == counter_of(s, b) by {
                            lemma_counter_of_update_other(s, i as int, v, b);
                        }
                    }
                }
                self.entries.set(i, (a, v));
                return;
            }
            i += 1;
        }
        proof {
            let s = self.entries@;
            let t = s.push((a, v));
            assert(unique_addrs(t)) by {
                assert(forall|p: int| 0 <= p < s.len() ==> (#[trigger] t[p]) == s[p]);
                assert(t[t.len() - 1].0 == a);
            }
            assert(t.last() == (a, v));
            assert(counter_of(t, a) == v);
            assert(forall|b: Address| b != a ==> counter_of(t, b) == counter_of(s, b)) by {
                assert forall|b: Address| b != a implies counter_of(t, b) == counter_of(s, b) by {
                    lemma_counter_of_push_other(s, (a, v), b);
                }
            }
        }
        self.entries.push((a, v));
    }

    /// Hands out the next ordering counter for `a` — its current value — and
    /// increments the stored value by exactly one. The increment happens on
    /// every call, whatever becomes of the transaction it numbers.
    pub fn next_counter(&mut self, a: &Address) -> (r: u64)
        requires
            old(self).wf(),
            counter_of(old(self)@, *a) < u64::MAX,
        ensures
            final(self).wf(),
            r == counter_of(old(self)@, *a),
            counter_of(final(self)@, *a) == r + 1,
            forall|b: Address| b != *a ==> counter_of(final(self)@, b) == counter_of(old(self)@, b),
    {
        let r = self.get_counter(a);
        self.set_counter(*a, r + 1);
        r
    }
}

/// The number of submissions in `senders` made by `a`.
pub open spec fn submissions_by(senders: Seq<Address>, a: Address) -> nat
    decreases senders.len(),
{
    if senders.len() == 0 {
        0nat
    } else {
        submissions_by(senders.drop_last(), a) + (if senders.last() == a {
            1nat
        } else {
            0nat
        })
    }
}

/// One submission's effect on the session's counters: the sender's counter
/// grows by one, every other counter stands.
pub open spec fn bump(c: spec_fn(Address) -> int, a: Address) -> spec_fn(Address) -> int {
    |b: Address| if b == a { c(b) + 1 } else { c(b) }
}

/// The counters after a run of submissions, applied sender by sender.
pub open spec fn counters_after(c: spec_fn(Address) -> int, senders: Seq<Address>) -> spec_fn(
    Address,
) -> int
    decreases senders.len(),
{
    if senders.len() == 0 {
        c
    } else {
        bump(counters_after(c, senders.drop_last()), senders.last())
    }
}

/// Law: after any run of submissions, an address's counter has grown by
/// exactly the number of submissions that address made — the transition never
/// looks at an execution's outcome, so aborted and discarded submissions
/// count like successful ones.
pub proof fn lemma_counter_counts_submissions(
    c: spec_fn(Address) -> int,
    senders: Seq<Address>,
    a: Address,
)
    ensures
        counters_after(c, senders)(a) == c(a) + submissions_by(senders, a),
    decreases senders.len(),
{
    if senders.len() == 0 {
    } else {
        lemma_counter_counts_submissions(c, senders.drop_last(), a);
    }
}

/// Law: in a session whose counter for `a` starts at 0 — every fresh session,
/// and every address just seeded by account creation — the counter after a run
/// of submissions is exactly the number of submissions `a` made.
pub proof fn lemma_fresh_counter_equals_submissions(
    c: spec_fn(Address) -> int,
    senders: Seq<Address>,
    a: Address,
)
    requires
        c(a) == 0,
    ensures
        counters_after(c, senders)(a) == submissions_by(senders, a),
{
    lemma_counter_counts_submissions(c, senders, a);
}

} // verus!

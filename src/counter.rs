use vstd::prelude::*;

use crate::decimal::{decimal, lemma_decimal_injective, to_decimal};

verus! {

/// Issues the unique keys that distinguish window instances.
///
/// Keys start at 1 and every issued key is one more than the previous one,
/// so no key is ever issued twice by the same counter.
pub struct KeyCounter {
    next: usize,
}

/// `after` is `before` once it has issued its next key.
pub open spec fn advances(before: KeyCounter, after: KeyCounter) -> bool {
    after.next_spec() == before.next_spec() + 1
}

impl KeyCounter {
    /// The key that the next request receives.
    pub closed spec fn next_spec(&self) -> nat {
        self.next as nat
    }

    pub fn new() -> (r: KeyCounter)
        ensures
            r.next_spec() == 1,
    {
        KeyCounter { next: 1 }
    }

    /// The key that the next request receives.
    pub fn peek(&self) -> (r: usize)
        ensures
            r as nat == self.next_spec(),
    {
        self.next
    }

    /// Hands out the next key, or `None` once the key space is used up
    /// (the counter is then left as it was).
    pub fn next_key(&mut self) -> (r: Option<usize>)
        ensures
            old(self).next_spec() < usize::MAX ==> (r matches Some(k) && k as nat == old(self).next_spec()
                && advances(*old(self), *final(self))),
            old(self).next_spec() >= usize::MAX ==> (r is None && *final(self) == *old(self)),
    {
        if self.next < usize::MAX {
            let k = self.next;
            self.next = self.next + 1;
            Some(k)
        } else {
            None
        }
    }
}

/// Issues the next key of `counter` as a decimal string, or `None` once the
/// key space is used up (the counter is then left as it was).
pub fn generate_unique_key(counter: &mut KeyCounter) -> (r: Option<String>)
    ensures
        old(counter).next_spec() < usize::MAX ==> (r matches Some(s) && s@ == decimal(
            old(counter).next_spec(),
        ) && advances(*old(counter), *final(counter))),
        old(counter).next_spec() >= usize::MAX ==> (r is None && *final(counter) == *old(
            counter,
        )),
{
    match counter.next_key() {
        Some(k) => Some(to_decimal(k)),
        None => None,
    }
}

/// Over any run of requests, each of which takes one key from the counter,
/// the keys handed out are strictly increasing, and so are their decimal
/// strings pairwise distinct.
///
/// `states[i]` is the counter before request `i`; request `i` receives
/// `states[i].next_spec()`.
pub proof fn lemma_keys_strictly_increase(states: Seq<KeyCounter>)
    requires
        forall|i: int| 0 <= i < states.len() - 1 ==> advances(#[trigger] states[i], states[i + 1]),
    ensures
        forall|i: int, j: int|
            0 <= i < j < states.len() ==> #[trigger] states[i].next_spec() < #[trigger] states[j].next_spec()
                && decimal(states[i].next_spec()) != decimal(states[j].next_spec()),
{
    assert forall|i: int, j: int| 0 <= i < j < states.len() implies states[i].next_spec() + (j - i)
        == states[j].next_spec() by {
        lemma_advance_distance(states, i, j);
    }
    assert forall|i: int, j: int| 0 <= i < j < states.len() implies decimal(states[i].next_spec())
        != decimal(states[j].next_spec()) by {
        if decimal(states[i].next_spec()) == decimal(states[j].next_spec()) {
            lemma_decimal_injective(states[i].next_spec(), states[j].next_spec());
        }
    }
}

proof fn lemma_advance_distance(states: Seq<KeyCounter>, i: int, j: int)
    requires
        forall|k: int| 0 <= k < states.len() - 1 ==> advances(#[trigger] states[k], states[k + 1]),
        0 <= i <= j < states.len(),
    ensures
        states[i].next_spec() + (j - i) == states[j].next_spec(),
    decreases j - i,
{
    if i < j {
        lemma_advance_distance(states, i, j - 1);
        assert(advances(states[j - 1], states[j]));
    }
}

} // verus!

//! Counters that hand out identifiers.

use vstd::prelude::*;

verus! {

/// Hands out the numbers 1, 2, 3 and so on, each of them once.
#[derive(Debug)]
pub struct IdCounter {
    /// The next number to hand out.
    pub value: u64,
}

impl IdCounter {
    /// A counter that has not handed anything out yet.
    pub fn new() -> (counter: Self)
        ensures
            counter.value == 1,
    {
        IdCounter { value: 1 }
    }

    /// Whether `count` more numbers can be handed out.
    pub open spec fn can_supply(self, count: int) -> bool {
        self.value + count <= u64::MAX
    }

    /// Tells whether `count` more numbers can be handed out.
    pub fn has_left(&self, count: usize) -> (enough: bool)
        ensures
            enough == self.can_supply(count as int),
    {
        let left: u64 = u64::MAX - self.value;
        count as u128 <= left as u128
    }

    /// Hands out the next number.
    pub fn next(&mut self) -> (id: u64)
        requires
            old(self).can_supply(1),
        ensures
            id == old(self).value,
            final(self).value == id + 1,
    {
        let id: u64 = self.value;
        self.value = id + 1;
        id
    }
}

/// Numbers are handed out from 1 on, each of them once and in order.
pub proof fn numbers_are_handed_out_once(
    fresh: IdCounter,
    first: &mut IdCounter,
    second: &mut IdCounter,
    a: u64,
    b: u64,
)
    requires
        call_ensures(IdCounter::new, (), fresh),
        old(first).can_supply(2),
        call_ensures(IdCounter::next, (first,), a),
        *old(second) == *final(first),
        call_ensures(IdCounter::next, (second,), b),
    ensures
        b == a + 1,
        *old(first) == fresh ==> a == 1,
{
}

/// A counter says that it has numbers left exactly if it can hand them out.
pub proof fn counters_know_what_is_left(counter: IdCounter, count: usize, enough: bool)
    requires
        call_ensures(IdCounter::has_left, (&counter, count), enough),
    ensures
        enough <==> counter.value + count <= u64::MAX,
{
}

} // verus!

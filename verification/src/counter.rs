//! An incrementing counter for generating unique ids.

use vstd::prelude::*;

verus! {

/// A counter that hands out the numbers from one upward. After the largest
/// 64-bit number it starts again at zero.
#[derive(Debug)]
pub struct Counter {
    value: u64,
}

impl View for Counter {
    type V = nat;

    /// The number that is handed out next.
    closed spec fn view(&self) -> nat {
        self.value as nat
    }
}

/// The number that follows `n` in a counter.
pub open spec fn following(n: nat) -> nat {
    if n >= u64::MAX {
        0
    } else {
        n + 1
    }
}

impl Counter {
    /// A counter whose first number is one.
    pub fn new() -> (r: Counter)
        ensures
            r@ == 1,
    {
        Counter { value: 1 }
    }

    /// A counter whose first number is `init`, which is not zero.
    pub fn new_unchecked(init: u64) -> (r: Counter)
        requires
            init != 0,
        ensures
            r@ == init,
    {
        Counter { value: init }
    }

    /// Hands out the next number.
    pub fn next(&mut self) -> (r: u64)
        ensures
            r == old(self)@,
            final(self)@ == following(old(self)@),
    {
        let now = self.value;
        self.value = if now == u64::MAX {
            0
        } else {
            now + 1
        };
        now
    }

    /// Hands out the next number, which is not zero as long as the counter
    /// has not started again.
    pub fn next_nonzero(&mut self) -> (r: u64)
        requires
            old(self)@ != 0,
        ensures
            r != 0,
            r == old(self)@,
            final(self)@ == following(old(self)@),
    {
        self.next()
    }
}

} // verus!

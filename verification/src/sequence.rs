//! The wrapping sequence number embedded in every packet header.
//!
//! Sequence values live in `1..=255`; `0` is only the initial state of a
//! fresh counter and is never emitted. Incrementing `255` wraps to `1`.

use vstd::prelude::*;

verus! {

/// The value the counter takes after one step from `current`.
pub open spec fn next_sequence(current: u8) -> u8 {
    if current == 0 || current == 255 {
        1
    } else {
        (current + 1) as u8
    }
}

/// The counter's value after `k` steps from a fresh counter.
pub open spec fn sequence_after(k: nat) -> u8
    decreases k,
{
    if k == 0 {
        0
    } else {
        next_sequence(sequence_after((k - 1) as nat))
    }
}

/// Generator of the sequence byte for packet headers.
pub struct SequenceCounter {
    counter: u8,
}

impl SequenceCounter {
    /// The current value of the counter: `0` only before the first step.
    pub closed spec fn value(&self) -> u8 {
        self.counter
    }

    /// Create a counter whose first `next` will return 1.
    pub fn new() -> (r: SequenceCounter)
        ensures
            r.value() == 0,
    {
        SequenceCounter { counter: 0 }
    }

    /// Advance the counter and return the new sequence value.
    pub fn next(&mut self) -> (r: u8)
        ensures
            r == next_sequence(old(self).value()),
            final(self).value() == r,
            1 <= r <= 255,
    {
        let current = self.counter;
        let next: u8 = if current == 0 {
            1
        } else {
            if current == 255 {
                1
            } else {
                current + 1
            }
        };
        self.counter = next;
        next
    }

    /// Advance the counter without returning the new value.
    pub fn increment(&mut self)
        ensures
            final(self).value() == next_sequence(old(self).value()),
    {
        let current = self.counter;
        let next: u8 = if current == 0 {
            1
        } else {
            if current == 255 {
                1
            } else {
                current + 1
            }
        };
        self.counter = next;
    }
}

impl Default for SequenceCounter {
    /// A fresh counter, as `new` builds it.
    fn default() -> (r: SequenceCounter)
        ensures
            r.value() == 0,
    {
        SequenceCounter::new()
    }
}

/// Law: starting from a fresh counter, the `k`-th value handed out is
/// `((k - 1) % 255) + 1`. In particular the first value is 1, no value is
/// ever 0, and after 255 steps the counter has cycled back to 1.
pub proof fn lemma_sequence_cycle(k: nat)
    requires
        k >= 1,
    ensures
        sequence_after(k) == ((k - 1) as nat % 255) + 1,
        1 <= sequence_after(k) <= 255,
        sequence_after(k + 255) == sequence_after(k),
    decreases k,
{
    if k == 1 {
        assert(sequence_after(1) == next_sequence(sequence_after(0)));
    } else {
        lemma_sequence_cycle((k - 1) as nat);
        assert(((k - 1) as nat % 255) == (((k - 2) as nat % 255) + 1) % 255) by {
            vstd::arithmetic::div_mod::lemma_add_mod_noop((k - 2) as int, 1, 255);
            assert((1int % 255) == 1);
        }
    }
    assert(sequence_after(k + 255) == ((k + 254) as nat % 255) + 1) by {
        lemma_sequence_chain(k, 255);
    }
    assert(((k + 254) as nat % 255) == ((k - 1) as nat % 255)) by {
        vstd::arithmetic::div_mod::lemma_mod_add_multiples_vanish((k - 1) as int, 255);
    }
}

proof fn lemma_sequence_chain(k: nat, steps: nat)
    requires
        k >= 1,
        sequence_after(k) == ((k - 1) as nat % 255) + 1,
    ensures
        sequence_after(k + steps) == ((k + steps - 1) as nat % 255) + 1,
    decreases steps,
{
    if steps > 0 {
        lemma_sequence_chain(k, (steps - 1) as nat);
        assert(sequence_after(k + steps) == next_sequence(sequence_after((k + steps - 1) as nat)));
        vstd::arithmetic::div_mod::lemma_add_mod_noop((k + steps - 2) as int, 1, 255);
    }
}

} // verus!

//! The state cell: one unsigned 64-bit counter, and the two halves of keeping
//! it across a teardown and reconstruction of the actor.

use vstd::prelude::*;
use vstd::arithmetic::div_mod::lemma_add_mod_noop;
use vstd::arithmetic::div_mod::lemma_small_mod;

verus! {

/// What a cell holds when nothing has been written to it and no snapshot was
/// found.
pub const DEFAULT_VALUE: u64 = 5;

/// How many values a cell can hold.
pub open spec fn cell_range() -> int {
    0x1_0000_0000_0000_0000
}

/// The value after one increment: one more, and zero after the largest.
pub open spec fn successor(value: u64) -> u64 {
    if value == u64::MAX {
        0
    } else {
        (value + 1) as u64
    }
}

/// The value after `times` increments.
pub open spec fn advanced(value: u64, times: nat) -> u64
    decreases times,
{
    if times == 0 {
        value
    } else {
        successor(advanced(value, (times - 1) as nat))
    }
}

/// What a freshly built cell holds once it has looked for a snapshot: the
/// snapshot where there is one, its own value otherwise.
pub open spec fn restored(fresh: u64, saved: Option<u64>) -> u64 {
    match saved {
        Some(value) => value,
        None => fresh,
    }
}

/// The actor's durable value.
#[derive(Clone, Copy, Debug, PartialEq, Eq)]
pub struct Counter(u64);

impl View for Counter {
    type V = u64;

    closed spec fn view(&self) -> u64 {
        self.0
    }
}

impl Default for Counter {
    fn default() -> (cell: Self)
        ensures
            cell@ == DEFAULT_VALUE,
    {
        Counter(DEFAULT_VALUE)
    }
}

impl Counter {
    /// The current value.
    pub fn read(&self) -> (value: u64)
        ensures
            value == self@,
    {
        self.0
    }

    /// Replaces the value.
    pub fn write(&mut self, value: u64)
        ensures
            final(self)@ == value,
    {
        self.0 = value;
    }

    /// Adds one; the largest value wraps to zero.
    pub fn increment(&mut self)
        ensures
            final(self)@ == successor(old(self)@),
    {
        self.0 = self.0.wrapping_add(1);
    }

    /// The value to hand to durable storage before teardown. The cell is
    /// borrowed for the whole of it, so nothing can change the value between
    /// reading and returning it.
    pub fn snapshot(&self) -> (saved: u64)
        ensures
            saved == self@,
    {
        self.0
    }

    /// Takes over what durable storage gave back after reconstruction. With
    /// no snapshot the cell keeps what it has.
    pub fn restore(&mut self, saved: Option<u64>)
        ensures
            final(self)@ == restored(old(self)@, saved),
    {
        match saved {
            Some(value) => {
                self.0 = value;
            },
            None => {},
        }
    }
}

/// Incrementing `times` times adds `times`, modulo the range of the cell.
pub proof fn increments_add_modulo_range(value: u64, times: nat)
    ensures
        advanced(value, times) == (value + times) % cell_range(),
    decreases times,
{
    if times == 0 {
        lemma_small_mod(value as nat, cell_range() as nat);
    } else {
        let before = advanced(value, (times - 1) as nat);
        increments_add_modulo_range(value, (times - 1) as nat);
        lemma_add_mod_noop(value + times - 1, 1, cell_range());
        lemma_small_mod(1, cell_range() as nat);
        if before == u64::MAX {
            assert((before + 1) % cell_range() == 0) by {
                vstd::arithmetic::div_mod::lemma_mod_self_0(cell_range());
            }
        } else {
            lemma_small_mod((before + 1) as nat, cell_range() as nat);
        }
    }
}

} // verus!

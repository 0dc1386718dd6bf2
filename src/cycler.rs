use vstd::prelude::*;

verus! {

/// A cycle over a fixed, non-empty, ordered list of values (speeds, colours).
/// Each hotkey press moves to the next value, wrapping round at the end; the
/// caller writes the reported value to every accessor bound to the cycle.
pub struct Cycler<T> {
    pub values: Vec<T>,
    pub index: usize,
}

impl<T: Copy> Cycler<T> {
    pub open spec fn values(&self) -> Seq<T> {
        self.values@
    }

    pub open spec fn index(&self) -> int {
        self.index as int
    }

    pub open spec fn wf(&self) -> bool {
        0 <= self.index() < self.values().len()
    }

    /// A cycle positioned at its first value.
    pub fn new(values: Vec<T>) -> (r: Cycler<T>)
        requires
            values@.len() > 0,
        ensures
            r.wf(),
            r.values() == values@,
            r.index() == 0,
    {
        Cycler { values, index: 0 }
    }

    /// The value the cycle stands on.
    pub fn current(&self) -> (r: T)
        requires
            self.wf(),
        ensures
            r == self.values()[self.index()],
    {
        self.values[self.index]
    }

    /// Moves to the next value (modulo the length) and returns it.
    pub fn advance(&mut self) -> (r: T)
        requires
            old(self).wf(),
        ensures
            final(self).wf(),
            final(self).values() == old(self).values(),
            final(self).index() == (old(self).index() + 1) % (old(self).values().len() as int),
            r == final(self).values()[final(self).index()],
    {
        let len = self.values.len();
        let next = self.index + 1;
        proof {
            if next == len {
                vstd::arithmetic::div_mod::lemma_mod_self_0(len as int);
            } else {
                vstd::arithmetic::div_mod::lemma_small_mod(next as nat, len as nat);
            }
        }
        self.index = if next == len {
            0
        } else {
            next
        };
        self.values[self.index]
    }
}

} // verus!

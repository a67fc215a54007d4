//! The selected entry of a list that the user moves through, wrapping at
//! both ends.
use vstd::arithmetic::div_mod::{lemma_fundamental_div_mod, lemma_fundamental_div_mod_converse};
use vstd::prelude::*;

verus! {

/// A vertical move through a list.
#[derive(Clone, Copy, Debug, PartialEq, Eq)]
pub enum Direction {
    Up,
    Down,
}

/// The entry before `focused` in a list of `size`, the last one before the first.
pub open spec fn previous(focused: nat, size: nat) -> nat {
    if focused == 0 {
        (size - 1) as nat
    } else {
        (focused - 1) as nat
    }
}

/// The entry after `focused`, the first one after the last.
pub open spec fn next(focused: nat, size: nat) -> nat {
    if focused == size - 1 {
        0
    } else {
        focused + 1
    }
}

/// The selected entry of a list.
#[derive(Clone, Copy, Debug, PartialEq, Eq)]
pub struct Pointer {
    pub focused: usize,
    pub size: usize,
}

impl Pointer {
    /// The selection stays inside a list that is not empty.
    pub open spec fn wf(&self) -> bool {
        self.size > 0 ==> self.focused < self.size
    }

    /// A pointer at the first entry of a list of `size`.
    pub fn new(size: usize) -> (r: Self)
        ensures
            r.size == size,
            r.focused == 0,
            r.wf(),
    {
        Pointer { size, focused: 0 }
    }

    /// Moves one entry up, or down; an empty list keeps its selection.
    pub fn update(&mut self, direction: Direction)
        requires
            old(self).wf(),
        ensures
            final(self).wf(),
            final(self).size == old(self).size,
            final(self).focused == (if old(self).size == 0 {
                old(self).focused as nat
            } else {
                match direction {
                    Direction::Up => previous(old(self).focused as nat, old(self).size as nat),
                    Direction::Down => next(old(self).focused as nat, old(self).size as nat),
                }
            }),
    {
        if self.size > 0 {
            match direction {
                Direction::Up => self.increment(),
                Direction::Down => self.decrement(),
            }
        }
    }

    /// Selects entry `to` where it exists; returns whether it does.
    pub fn jump_to(&mut self, to: usize) -> (r: bool)
        requires
            old(self).wf(),
        ensures
            final(self).wf(),
            final(self).size == old(self).size,
            r == (to < old(self).size),
            final(self).focused == (if r {
                to
            } else {
                old(self).focused
            }),
    {
        if to < self.size {
            self.focused = to;
            true
        } else {
            false
        }
    }

    /// Moves by `to_add` entries, wrapping around the list.
    pub fn plus(&mut self, to_add: isize)
        requires
            old(self).wf(),
            0 < old(self).size <= isize::MAX,
        ensures
            final(self).wf(),
            final(self).size == old(self).size,
            final(self).focused as int == (old(self).focused as int + to_add as int) % (old(self).size as int),
    {
        let size = self.size;
        let step: usize = if to_add >= 0 {
            (to_add as usize) % size
        } else {
            size - 1 - ((-(to_add + 1)) as usize) % size
        };
        let sum = self.focused + step;
        let result = if sum >= size {
            sum - size
        } else {
            sum
        };
        proof {
            let x = self.focused as int + to_add as int;
            let d = size as int;
            let mut base: int = 0;
            if to_add >= 0 {
                base = (to_add as int) / d;
                lemma_fundamental_div_mod(to_add as int, d);
                assert(to_add as int == d * base + step);
            } else {
                let k = -(to_add as int + 1);
                let a = k / d;
                lemma_fundamental_div_mod(k, d);
                base = -a - 1;
                assert(to_add as int == d * base + step) by (nonlinear_arith)
                    requires
                        k == d * a + k % d,
                        to_add as int == -k - 1,
                        step as int == d - 1 - k % d,
                        base == -a - 1,
                ;
            }
            let q = if sum >= size { base + 1 } else { base };
            assert(x == q * d + result) by (nonlinear_arith)
                requires
                    x == self.focused as int + to_add as int,
                    to_add as int == d * base + step,
                    q == (if sum >= size { base + 1 } else { base }),
                    sum == self.focused + step,
                    result == (if sum >= size { sum - size } else { sum as int }),
                    d == size,
            ;
            lemma_fundamental_div_mod_converse(x, d, q, result as int);
        }
        self.focused = result;
    }

    /// Selects the first entry.
    pub fn start(&mut self)
        ensures
            final(self).focused == 0,
            final(self).size == old(self).size,
            final(self).wf(),
    {
        self.focused = 0;
    }

    /// Selects the last entry.
    pub fn end(&mut self)
        requires
            old(self).size > 0,
        ensures
            final(self).focused == old(self).size - 1,
            final(self).size == old(self).size,
            final(self).wf(),
    {
        self.focused = self.size - 1;
    }

    /// Moves up one entry, from the first to the last.
    pub fn increment(&mut self)
        requires
            old(self).size > 0,
            old(self).wf(),
        ensures
            final(self).focused == previous(old(self).focused as nat, old(self).size as nat),
            final(self).size == old(self).size,
            final(self).wf(),
    {
        self.focused = if self.focused == 0 {
            self.size - 1
        } else {
            self.focused - 1
        };
    }

    /// Moves down one entry, from the last to the first.
    pub fn decrement(&mut self)
        requires
            old(self).size > 0,
            old(self).wf(),
        ensures
            final(self).focused == next(old(self).focused as nat, old(self).size as nat),
            final(self).size == old(self).size,
            final(self).wf(),
    {
        self.focused = if self.focused == self.size - 1 {
            0
        } else {
            self.focused + 1
        };
    }
}

/// A list's selection, which knows whether the list is empty.
#[derive(Clone, Copy, Debug, PartialEq, Eq)]
pub struct List {
    pub focused: usize,
    pub size: usize,
    pub empty: bool,
}

impl List {
    pub fn new(focused: usize, size: usize) -> (r: Self)
        ensures
            r == (List { focused, size, empty: size == 0 }),
    {
        List { focused, size, empty: size == 0 }
    }

    /// Moves up one entry, from the first to the last.
    pub fn increment(&mut self)
        requires
            old(self).size > 0,
        ensures
            final(self).focused == previous(old(self).focused as nat, old(self).size as nat),
            final(self).size == old(self).size,
            final(self).empty == old(self).empty,
    {
        self.focused = if self.focused == 0 {
            self.size - 1
        } else {
            self.focused - 1
        };
    }

    /// Moves down one entry, from the last to the first.
    pub fn decrement(&mut self)
        requires
            old(self).size > 0,
            old(self).focused < old(self).size,
        ensures
            final(self).focused == next(old(self).focused as nat, old(self).size as nat),
            final(self).size == old(self).size,
            final(self).empty == old(self).empty,
    {
        self.focused = if self.focused == self.size - 1 {
            0
        } else {
            self.focused + 1
        };
    }
}

} // verus!

//! How far a run has come, as an exact fraction.

use vstd::prelude::*;

verus! {

/// The part of a run that is done: `completed` of `total` equal steps.
///
/// A percentage is `100 * completed / total`; the fraction is kept instead,
/// so that a third stays a third.
#[derive(Clone, Copy, Debug, PartialEq, Eq, Structural)]
pub struct Progress {
    pub completed: usize,
    pub total: usize,
}

impl Progress {
    /// A fraction between nothing and all: `total` is not zero and
    /// `completed` does not exceed it.
    pub open spec fn wf(self) -> bool {
        0 < self.total && self.completed <= self.total
    }

    /// Nothing is done.
    pub open spec fn is_zero(self) -> bool {
        self.completed == 0
    }

    /// Everything is done: the fraction is one, the percentage 100.
    pub open spec fn is_full(self) -> bool {
        self.completed == self.total
    }

    /// `self` is no further than `other`, as fractions.
    pub open spec fn le(self, other: Progress) -> bool {
        self.completed * other.total <= other.completed * self.total
    }

    /// Whether everything is done.
    pub fn is_complete(&self) -> (full: bool)
        ensures
            full == self.is_full(),
    {
        self.completed == self.total
    }
}

/// The order of progress values is that of their numerators where the
/// denominators agree.
pub proof fn lemma_le_same_total(a: Progress, b: Progress)
    requires
        a.total == b.total,
        0 < a.total,
    ensures
        a.le(b) <==> a.completed <= b.completed,
{
    let t = a.total as int;
    let x = a.completed as int;
    let y = b.completed as int;
    assert(x <= y ==> x * t <= y * t) by (nonlinear_arith)
        requires
            0 < t,
    ;
    assert(x > y ==> x * t > y * t) by (nonlinear_arith)
        requires
            0 < t,
    ;
}

} // verus!

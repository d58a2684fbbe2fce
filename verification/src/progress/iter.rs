//! Tracking progress over the items of an iterator.

use vstd::prelude::*;

verus! {

/// What progress report follows one step of a tracked iterator.
#[derive(Debug, Clone, Copy, PartialEq, Eq, Structural)]
pub enum ProgressStep {
    /// The iterator is exhausted: the progress finishes.
    Finish,
    /// Item `cur` of `of` expected items: the progress is `cur / of`.
    UpdateOf(usize, usize),
    /// More items than expected: the progress is unknown.
    Unknown,
}

/// Counts the items of an iterator against the number it promised.
pub struct Iter {
    len: usize,
    pos: usize,
}

impl Iter {
    /// The number of items expected.
    pub closed spec fn expected(&self) -> nat {
        self.len as nat
    }

    /// The number of progress updates made so far.
    pub closed spec fn position(&self) -> nat {
        self.pos as nat
    }

    /// Starts tracking an iterator whose size hint has the given upper
    /// bound; no bound counts as zero items.
    pub fn new(size_hint_upper: Option<usize>) -> (it: Self)
        ensures
            it.expected() == match size_hint_upper {
                Some(n) => n as nat,
                None => 0,
            },
            it.position() == 0,
    {
        let len = match size_hint_upper {
            Some(n) => n,
            None => 0,
        };
        Iter { len, pos: 0 }
    }

    /// The number of updates made so far and the number of items expected.
    pub fn counts(&self) -> (r: (usize, usize))
        ensures
            r.0 == self.position(),
            r.1 == self.expected(),
    {
        (self.pos, self.len)
    }

    /// The report after one step of the iterator; `fin` tells that the
    /// iterator gave no item.
    pub fn update_progress(&mut self, fin: bool) -> (step: ProgressStep)
        requires
            fin || old(self).position() > old(self).expected() || old(self).position() < usize::MAX,
        ensures
            final(self).expected() == old(self).expected(),
            fin ==> step == ProgressStep::Finish && final(self).position() == old(self).position(),
            !fin && old(self).position() <= old(self).expected() ==> step == ProgressStep::UpdateOf(
                old(self).position() as usize,
                old(self).expected() as usize,
            ) && final(self).position() == old(self).position() + 1,
            !fin && old(self).position() > old(self).expected() ==> step == ProgressStep::Unknown
                && final(self).position() == old(self).position(),
    {
        if fin {
            ProgressStep::Finish
        } else if self.pos <= self.len {
            let step = ProgressStep::UpdateOf(self.pos, self.len);
            self.pos = self.pos + 1;
            step
        } else {
            ProgressStep::Unknown
        }
    }
}

} // verus!

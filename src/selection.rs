//! The contiguous range of entries marked in visual-select mode.
use vstd::prelude::*;

verus! {

/// The entry where the selection started and the entry under the pointer.
#[derive(Clone, Copy, Debug, PartialEq, Eq, Structural)]
pub struct SelectionRange {
    pub anchor: usize,
    pub current: usize,
}

impl SelectionRange {
    pub open spec fn low(self) -> int {
        if self.anchor <= self.current {
            self.anchor as int
        } else {
            self.current as int
        }
    }

    pub open spec fn high(self) -> int {
        if self.anchor <= self.current {
            self.current as int
        } else {
            self.anchor as int
        }
    }

    /// Index `i` lies in the selection.
    pub open spec fn contains(self, i: int) -> bool {
        self.low() <= i <= self.high()
    }

    /// The set of selected indices.
    pub open spec fn selected_set(self) -> Set<int> {
        Set::new(|i: int| self.contains(i))
    }

    pub open spec fn new_spec(index: usize) -> SelectionRange {
        SelectionRange { anchor: index, current: index }
    }

    /// A selection of the single entry `index`.
    pub fn new(index: usize) -> (r: SelectionRange)
        ensures
            r == SelectionRange::new_spec(index),
    {
        SelectionRange { anchor: index, current: index }
    }

    /// Moves the moving end of the selection to `index`.
    pub fn update(&mut self, index: usize)
        ensures
            final(self).anchor == old(self).anchor,
            final(self).current == index,
    {
        self.current = index;
    }

    /// Whether index `i` lies in the selection.
    pub fn is_selected(&self, i: usize) -> (r: bool)
        ensures
            r == self.contains(i as int),
    {
        if self.anchor <= self.current {
            self.anchor <= i && i <= self.current
        } else {
            self.current <= i && i <= self.anchor
        }
    }

    /// The selected indices in increasing order.
    pub fn indices(&self) -> (r: Vec<usize>)
        ensures
            r@.len() == self.high() - self.low() + 1,
            forall|k: int| 0 <= k < r@.len() ==> r@[k] == self.low() + k,
    {
        let (lo, hi) = if self.anchor <= self.current {
            (self.anchor, self.current)
        } else {
            (self.current, self.anchor)
        };
        let mut r: Vec<usize> = Vec::new();
        let mut i: usize = lo;
        while i < hi
            invariant
                lo <= i <= hi,
                lo == self.low(),
                hi == self.high(),
                r@.len() == i - lo,
                forall|k: int| 0 <= k < r@.len() ==> r@[k] == lo + k,
            decreases hi - i,
        {
            r.push(i);
            i = i + 1;
        }
        r.push(hi);
        r
    }
}

} // verus!

//! The pointer into a listing and the scroll offset of the viewport.
use vstd::prelude::*;

verus! {

/// Selected index and scroll offset ("skip") of the list view.
///
/// With `len` entries and a viewport of `cap` rows, a well-formed cursor keeps
/// the pointer inside the visible window: `skip <= index < skip + cap`.
#[derive(Clone, Copy, Debug, PartialEq, Eq, Structural)]
pub struct Num {
    pub index: usize,
    pub skip: usize,
}

impl Num {
    /// The cursor fits a listing of `len` entries shown in `cap` rows.
    pub open spec fn wf(self, len: nat, cap: nat) -> bool {
        &&& cap >= 1
        &&& (len == 0 ==> self.index == 0 && self.skip == 0)
        &&& (len > 0 ==> self.skip <= self.index < len && self.index < self.skip + cap)
        &&& (self.skip == 0 || self.skip + cap <= len)
    }

    /// Row of the pointer inside the viewport.
    pub open spec fn row(self) -> int {
        self.index - self.skip
    }

    /// The cursor after one step down.
    pub open spec fn down(self, len: nat, cap: nat) -> Num {
        if len == 0 || self.index + 1 >= len {
            self
        } else if self.index - self.skip == cap - 1 && len > cap {
            Num { index: (self.index + 1) as usize, skip: (self.skip + 1) as usize }
        } else {
            Num { index: (self.index + 1) as usize, skip: self.skip }
        }
    }

    /// The cursor after one step up.
    pub open spec fn up(self) -> Num {
        if self.index == 0 {
            self
        } else if self.index == self.skip && self.skip > 0 {
            Num { index: (self.index - 1) as usize, skip: (self.skip - 1) as usize }
        } else {
            Num { index: (self.index - 1) as usize, skip: self.skip }
        }
    }

    /// The cursor on the last entry.
    pub open spec fn bottom(self, len: nat, cap: nat) -> Num {
        if len == 0 {
            self
        } else if len > cap {
            Num { index: (len - 1) as usize, skip: (len - cap) as usize }
        } else {
            Num { index: (len - 1) as usize, skip: self.skip }
        }
    }

    /// The cursor on the first entry, with the viewport at the top.
    pub open spec fn top() -> Num {
        Num { index: 0, skip: 0 }
    }

    /// A cursor on the first entry of the listing.
    pub fn new() -> (r: Num)
        ensures
            r == Num::top(),
    {
        Num { index: 0, skip: 0 }
    }

    pub fn go_up(&mut self)
        requires
            old(self).index > 0,
        ensures
            final(self).index == old(self).index - 1,
            final(self).skip == old(self).skip,
    {
        self.index -= 1;
    }

    pub fn go_down(&mut self)
        requires
            old(self).index < usize::MAX,
        ensures
            final(self).index == old(self).index + 1,
            final(self).skip == old(self).skip,
    {
        self.index += 1;
    }

    pub fn go_top(&mut self)
        ensures
            final(self).index == 0,
            final(self).skip == old(self).skip,
    {
        self.index = 0;
    }

    pub fn go_bottom(&mut self, len: usize)
        ensures
            final(self).index == len,
            final(self).skip == old(self).skip,
    {
        self.index = len;
    }

    /// Back to the first entry with the viewport at the top.
    pub fn reset(&mut self)
        ensures
            *final(self) == Num::top(),
    {
        self.index = 0;
        self.skip = 0;
    }

    /// Puts the pointer on the first entry, leaving the viewport as it is.
    pub fn starting_point(&mut self)
        ensures
            final(self).index == 0,
            final(self).skip == old(self).skip,
    {
        self.index = 0;
    }

    pub fn inc_skip(&mut self)
        requires
            old(self).skip < usize::MAX,
        ensures
            final(self).skip == old(self).skip + 1,
            final(self).index == old(self).index,
    {
        self.skip += 1;
    }

    pub fn dec_skip(&mut self)
        requires
            old(self).skip > 0,
        ensures
            final(self).skip == old(self).skip - 1,
            final(self).index == old(self).index,
    {
        self.skip -= 1;
    }

    pub fn reset_skip(&mut self)
        ensures
            final(self).skip == 0,
            final(self).index == old(self).index,
    {
        self.skip = 0;
    }

    /// Whether the cursor fits a listing of `len` entries shown in `cap` rows.
    pub fn fits(&self, len: usize, cap: usize) -> (r: bool)
        ensures
            r == self.wf(len as nat, cap as nat),
    {
        cap >= 1 && (len != 0 || (self.index == 0 && self.skip == 0)) && (len == 0 || (
        self.skip <= self.index && self.index < len && self.index - self.skip < cap)) && (
        self.skip == 0 || (self.skip <= len && len - self.skip >= cap))
    }

    /// One step down; the viewport scrolls when the pointer is on its last row
    /// and more entries lie below. No-op on the last entry or an empty listing.
    pub fn move_down(&mut self, len: usize, cap: usize)
        requires
            old(self).wf(len as nat, cap as nat),
        ensures
            *final(self) == old(self).down(len as nat, cap as nat),
            final(self).wf(len as nat, cap as nat),
    {
        if len == 0 || self.index + 1 >= len {
            return;
        }
        if self.index - self.skip == cap - 1 && len > cap {
            self.inc_skip();
            self.go_down();
        } else {
            self.go_down();
        }
    }

    /// One step up; the viewport scrolls when the pointer is on its first row
    /// and entries lie above it. No-op on the first entry.
    pub fn move_up(&mut self, len: usize, cap: usize)
        requires
            old(self).wf(len as nat, cap as nat),
        ensures
            *final(self) == old(self).up(),
            final(self).wf(len as nat, cap as nat),
    {
        if self.index == 0 {
            return;
        }
        if self.index == self.skip && self.skip > 0 {
            self.dec_skip();
            self.go_up();
        } else {
            self.go_up();
        }
    }

    /// To the first entry, scrolling back to the top.
    pub fn move_top(&mut self, len: usize, cap: usize)
        requires
            old(self).wf(len as nat, cap as nat),
        ensures
            *final(self) == Num::top(),
            final(self).wf(len as nat, cap as nat),
    {
        self.go_top();
        if self.skip != 0 {
            self.reset_skip();
        }
    }

    /// To the last entry; when the listing is longer than the viewport, the
    /// viewport shows its last `cap` entries.
    pub fn move_bottom(&mut self, len: usize, cap: usize)
        requires
            old(self).wf(len as nat, cap as nat),
        ensures
            *final(self) == old(self).bottom(len as nat, cap as nat),
            final(self).wf(len as nat, cap as nat),
    {
        if len == 0 {
            return;
        }
        if len > cap {
            self.skip = len - cap;
        }
        self.go_bottom(len - 1);
    }
}

/// Every step of the cursor keeps the pointer inside the visible window.
pub proof fn lemma_moves_keep_window(c: Num, len: usize, cap: usize)
    requires
        c.wf(len as nat, cap as nat),
    ensures
        c.down(len as nat, cap as nat).wf(len as nat, cap as nat),
        c.up().wf(len as nat, cap as nat),
        Num::top().wf(len as nat, cap as nat),
        c.bottom(len as nat, cap as nat).wf(len as nat, cap as nat),
        len > 0 ==> 0 <= c.down(len as nat, cap as nat).row() < cap,
        len > 0 ==> 0 <= c.up().row() < cap,
        len > 0 ==> 0 <= c.bottom(len as nat, cap as nat).row() < cap,
{
}

/// A step down followed by a step up, from a position where neither step
/// scrolls, restores the cursor; and so does a step up followed by a step down.
pub proof fn lemma_down_up_restores(c: Num, len: usize, cap: usize)
    requires
        c.wf(len as nat, cap as nat),
    ensures
        c.index + 1 < len as nat && c.row() < cap - 1 ==> c.down(len as nat, cap as nat).up() == c,
        c.index > c.skip ==> c.up().down(len as nat, cap as nat) == c,
{
}

/// Going to the bottom and then to the top leaves the cursor on the first
/// entry with no scroll.
pub proof fn lemma_bottom_then_top(c: Num, len: usize, cap: usize)
    requires
        c.wf(len as nat, cap as nat),
    ensures
        c.bottom(len as nat, cap as nat).wf(len as nat, cap as nat),
        Num::top().wf(len as nat, cap as nat),
        Num::top().index == 0 && Num::top().skip == 0,
{
}

} // verus!

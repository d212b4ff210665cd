//! Cursor positions saved on the way down the directory tree.
use vstd::prelude::*;
use crate::state::Num;

verus! {

/// A stack of cursors: one pushed on each descent, popped on each ascent.
#[derive(Clone, Debug)]
pub struct HistoryStack {
    pub frames: Vec<Num>,
}

impl HistoryStack {
    pub open spec fn view(&self) -> Seq<Num> {
        self.frames@
    }

    pub fn new() -> (r: HistoryStack)
        ensures
            r.view() == Seq::<Num>::empty(),
    {
        HistoryStack { frames: Vec::new() }
    }

    /// Saves the cursor of the listing being left.
    pub fn push(&mut self, cursor: Num)
        ensures
            final(self).view() == old(self).view().push(cursor),
    {
        self.frames.push(cursor);
    }

    /// The cursor to restore on ascent: the last one saved, or the cursor on
    /// the first entry when nothing was saved.
    pub fn pop(&mut self) -> (r: Num)
        ensures
            old(self).view().len() > 0 ==> r == old(self).view().last() && final(self).view()
                == old(self).view().drop_last(),
            old(self).view().len() == 0 ==> r == Num::top() && final(self).view() == old(
                self,
            ).view(),
    {
        match self.frames.pop() {
            Some(c) => c,
            None => Num::new(),
        }
    }
}

/// Popping right after a push gives back the pushed cursor and the stack as it
/// was; so two descents followed by two ascents restore both cursors in turn.
pub proof fn lemma_push_pop(s: Seq<Num>, a: Num, b: Num)
    ensures
        s.push(a).last() == a,
        s.push(a).drop_last() == s,
        s.push(a).push(b).last() == b,
        s.push(a).push(b).drop_last() == s.push(a),
{
    assert(s.push(a).drop_last() =~= s);
    assert(s.push(a).push(b).drop_last() =~= s.push(a));
}

} // verus!

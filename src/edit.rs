//! A single-line text model: characters and a cursor offset.
use vstd::prelude::*;

verus! {

/// Failure of an edit at a position past the end of the text.
#[derive(Clone, Copy, Debug, PartialEq, Eq, Structural)]
pub enum EditError {
    OutOfBounds,
}

/// The line being edited, with the cursor between characters.
#[derive(Clone, Debug)]
pub struct EditBuffer {
    pub text: Vec<char>,
    pub cursor: usize,
}

impl EditBuffer {
    pub open spec fn wf(&self) -> bool {
        self.cursor <= self.text@.len()
    }

    /// An empty buffer.
    pub fn new() -> (r: EditBuffer)
        ensures
            r.wf(),
            r.text@ == Seq::<char>::empty(),
            r.cursor == 0,
    {
        EditBuffer { text: Vec::new(), cursor: 0 }
    }

    /// A buffer holding `text`, with the cursor after its last character.
    pub fn with_text(text: Vec<char>) -> (r: EditBuffer)
        ensures
            r.wf(),
            r.text@ == text@,
            r.cursor == text@.len(),
    {
        let n = text.len();
        EditBuffer { text, cursor: n }
    }

    /// Inserts `c` before position `pos`.
    pub fn insert_at(&mut self, pos: usize, c: char) -> (r: Result<(), EditError>)
        requires
            old(self).wf(),
        ensures
            final(self).wf(),
            final(self).cursor == old(self).cursor,
            pos <= old(self).text@.len() ==> r is Ok && final(self).text@ == old(
                self,
            ).text@.insert(pos as int, c),
            pos > old(self).text@.len() ==> r == Err::<(), EditError>(EditError::OutOfBounds)
                && final(self).text@ == old(self).text@,
    {
        if pos > self.text.len() {
            return Err(EditError::OutOfBounds);
        }
        self.text.insert(pos, c);
        Ok(())
    }

    /// Types `c` at the cursor, which then stands after it.
    pub fn insert_char(&mut self, c: char)
        requires
            old(self).wf(),
        ensures
            final(self).wf(),
            final(self).text@ == old(self).text@.insert(old(self).cursor as int, c),
            final(self).cursor == old(self).cursor + 1,
    {
        let pos = self.cursor;
        let _ = self.insert_at(pos, c);
        let n = self.text.len();
        assert(pos < n);
        self.cursor = pos + 1;
    }

    /// Removes the character before position `pos`; no-op at position 0.
    pub fn delete_before(&mut self, pos: usize) -> (r: Result<(), EditError>)
        requires
            old(self).wf(),
        ensures
            final(self).wf(),
            pos > old(self).text@.len() ==> r == Err::<(), EditError>(EditError::OutOfBounds)
                && final(self).text@ == old(self).text@,
            pos == 0 ==> r is Ok && final(self).text@ == old(self).text@,
            0 < pos <= old(self).text@.len() ==> r is Ok && final(self).text@ == old(
                self,
            ).text@.remove(pos - 1),
            final(self).cursor == if old(self).cursor >= pos && pos > 0 && pos <= old(
                self,
            ).text@.len() {
                (old(self).cursor - 1) as usize
            } else {
                old(self).cursor
            },
    {
        if pos > self.text.len() {
            return Err(EditError::OutOfBounds);
        }
        if pos == 0 {
            return Ok(());
        }
        self.text.remove(pos - 1);
        if self.cursor >= pos {
            self.cursor = self.cursor - 1;
        }
        Ok(())
    }

    /// Backspace: removes the character before the cursor.
    pub fn backspace(&mut self)
        requires
            old(self).wf(),
        ensures
            final(self).wf(),
            old(self).cursor == 0 ==> final(self).text@ == old(self).text@ && final(self).cursor == 0,
            old(self).cursor > 0 ==> final(self).text@ == old(self).text@.remove(
                old(self).cursor - 1,
            ) && final(self).cursor == old(self).cursor - 1,
    {
        let pos = self.cursor;
        let _ = self.delete_before(pos);
    }

    pub fn move_left(&mut self)
        requires
            old(self).wf(),
        ensures
            final(self).wf(),
            final(self).text@ == old(self).text@,
            final(self).cursor == if old(self).cursor > 0 {
                (old(self).cursor - 1) as usize
            } else {
                0
            },
    {
        if self.cursor > 0 {
            self.cursor = self.cursor - 1;
        }
    }

    pub fn move_right(&mut self)
        requires
            old(self).wf(),
        ensures
            final(self).wf(),
            final(self).text@ == old(self).text@,
            old(self).cursor < old(self).text@.len() ==> final(self).cursor == old(self).cursor + 1,
            old(self).cursor == old(self).text@.len() ==> final(self).cursor == old(self).cursor,
    {
        if self.cursor < self.text.len() {
            self.cursor = self.cursor + 1;
        }
    }
}

} // verus!

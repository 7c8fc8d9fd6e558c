use vstd::prelude::*;

use crate::cursor::{CursorRef, InputRef};

verus! {

/// A saved index of the cursor, to go back to when parsing fails.
///
/// There are no destructors here: letting an anchor go out of scope does
/// nothing to the cursor. End its use with `restore`, which sets the index
/// back to the saved one, or with `forget`, which keeps the current index.
#[derive(Debug, Clone, Copy)]
pub struct Anchor {
    pub index: usize,
}

impl Anchor {
    /// Anchor the current index of the cursor.
    pub fn new<T>(iref: &InputRef<T>) -> (a: Anchor)
        ensures
            a.index == iref@.index,
    {
        let index = iref.scope_cursor(|c: &CursorRef<T>| -> (i: usize) ensures i == c@.index { c.index() });
        Anchor { index }
    }

    /// Move the anchor to the current index.
    pub fn renew<T>(&mut self, iref: &InputRef<T>)
        ensures
            final(self).index == iref@.index,
    {
        self.index = iref.scope_cursor(|c: &CursorRef<T>| -> (i: usize) ensures i == c@.index { c.index() });
    }

    /// End the anchor without touching the cursor: the current index stays.
    pub fn forget(self) {
    }

    /// End the anchor and set the index of the cursor back to the saved one.
    pub fn restore<T>(self, iref: &mut InputRef<T>)
        ensures
            final(iref)@.index == self.index,
            final(iref)@.buf@ == old(iref)@.buf@,
    {
        let index = self.index;
        let set = |c: &mut CursorRef<T>|
            ensures
                final(c)@.index == index,
            { *c.index_mut() = index; };
        iref.scope_cursor_mut(set);
    }
}

} // verus!

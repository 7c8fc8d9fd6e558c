use vstd::prelude::*;
use vstd::slice::slice_subrange;

verus! {

/// Data of an input: the items received so far and the current index.
#[derive(Debug)]
pub struct Cursor<T> {
    /// Sequence of items; more items may be appended to it at any time.
    /// Parsers never remove items from it.
    pub buf: Vec<T>,
    /// Current index of the cursor, at most `buf.len()`.
    pub index: usize,
}

impl<T> Cursor<T> {
    /// The index points into the buffer or just past its end.
    pub open spec fn wf(&self) -> bool {
        self.index <= self.buf@.len()
    }

    /// Check that the index is within the buffer.
    pub fn sanity_check(&self) -> (ok: bool)
        ensures
            ok == self.wf(),
    {
        self.index <= self.buf.len()
    }
}

/// The cursor as a parser sees it: it can move the index, and read the
/// buffer, but it cannot change the buffer, which it only borrows.
#[derive(Debug)]
pub struct CursorRef<'b, T> {
    buf: &'b Vec<T>,
    index: usize,
}

impl<'b, T> View for CursorRef<'b, T> {
    type V = Cursor<T>;

    closed spec fn view(&self) -> Cursor<T> {
        Cursor { buf: *self.buf, index: self.index }
    }
}

impl<'b, T> CursorRef<'b, T> {
    /// Get the current index.
    pub fn index(&self) -> (i: usize)
        ensures
            i == self@.index,
    {
        self.index
    }

    /// Get the mutable reference of the current index.
    pub fn index_mut(&mut self) -> (i: &mut usize)
        ensures
            *i == old(self)@.index,
            final(self)@.buf@ == old(self)@.buf@,
            final(self)@.index == *final(i),
    {
        &mut self.index
    }

    /// The items from the current index to the end of the buffer.
    pub fn remaining(&self) -> (items: &[T])
        requires
            self@.wf(),
        ensures
            items@ == self@.buf@.skip(self@.index as int),
    {
        let buf = self.buf.as_slice();
        let items = slice_subrange(buf, self.index, buf.len());
        assert(items@ =~= self@.buf@.skip(self@.index as int));
        items
    }

    /// Get the buffer.
    pub fn buf(&self) -> (items: &[T])
        ensures
            items@ == self@.buf@,
    {
        self.buf.as_slice()
    }
}

/// The handle through which a parser reaches the input while it runs.
#[derive(Debug)]
pub struct InputRef<T> {
    cursor: Cursor<T>,
}

impl<T> View for InputRef<T> {
    type V = Cursor<T>;

    open spec fn view(&self) -> Cursor<T> {
        self.cursor_ref()@
    }
}

impl<T> InputRef<T> {
    /// The cursor reference that `scope_cursor` and `scope_cursor_mut` hand out.
    pub closed spec fn cursor_ref(&self) -> CursorRef<'_, T> {
        CursorRef { buf: &self.cursor.buf, index: self.cursor.index }
    }

    pub(crate) fn new(cursor: Cursor<T>) -> (r: InputRef<T>)
        ensures
            r@ == cursor,
    {
        InputRef { cursor }
    }

    pub(crate) fn into_cursor(self) -> (c: Cursor<T>)
        ensures
            c == self@,
    {
        self.cursor
    }

    pub(crate) fn cursor_mut(&mut self) -> (c: &mut Cursor<T>)
        ensures
            *c == old(self)@,
            final(self)@ == *final(c),
    {
        &mut self.cursor
    }

    pub(crate) fn cursor(&self) -> (c: &Cursor<T>)
        ensures
            *c == self@,
    {
        &self.cursor
    }

    /// Do something with a mutable reference of the cursor. The jail may
    /// move the index; the buffer stays as it is.
    pub fn scope_cursor_mut<O, F: FnOnce(&mut CursorRef<T>) -> O>(&mut self, jail: F) -> (r: O)
        requires
            forall|c: &mut CursorRef<T>|
                *c == old(self).cursor_ref() ==> #[trigger] jail.requires((c,)),
        ensures
            final(self)@.buf == old(self)@.buf,
            exists|c: &mut CursorRef<T>|
                {
                    &&& *c == old(self).cursor_ref()
                    &&& final(self)@.index == final(c)@.index
                    &&& #[trigger] jail.ensures((c,), r)
                },
    {
        let mut c = CursorRef { buf: &self.cursor.buf, index: self.cursor.index };
        let r = jail(&mut c);
        let index = c.index;
        self.cursor.index = index;
        r
    }

    /// Do something with a reference of the cursor.
    pub fn scope_cursor<O, F: FnOnce(&CursorRef<T>) -> O>(&self, jail: F) -> (r: O)
        requires
            jail.requires((&self.cursor_ref(),)),
        ensures
            jail.ensures((&self.cursor_ref(),), r),
    {
        let c = CursorRef { buf: &self.cursor.buf, index: self.cursor.index };
        jail(&c)
    }

    /// A wait that ends once the buffer is longer than it is now.
    pub fn read(&self) -> (r: Read)
        ensures
            r.start_len == Some(self@.buf@.len() as usize),
            r.start_len is Some && r.start_len->0 == self@.buf@.len(),
    {
        Read { start_len: Some(self.cursor.buf.len()) }
    }

    /// A wait that ends once `buf.len() >= index + at_least`, with the index as it is now.
    pub fn read_n(&self, at_least: usize) -> (r: ReadAtLeast)
        ensures
            r.start_index == Some(self@.index),
            r.at_least == at_least,
    {
        ReadAtLeast { start_index: Some(self.cursor.index), at_least }
    }
}

/// Waiting for the buffer to grow. `start_len` is the length it must exceed;
/// `None` until the wait has started (it starts on its first check as a parser).
#[derive(Debug, Clone, Copy)]
pub struct Read {
    pub start_len: Option<usize>,
}

/// Whether a wait for growth is over on a buffer of `len` items.
pub open spec fn read_ready(start_len: Option<usize>, len: nat) -> bool {
    match start_len {
        Some(s) => len > s,
        None => false,
    }
}

/// Waiting until `at_least` items are available from `start_index`;
/// `start_index` is `None` until the wait has started.
#[derive(Debug, Clone, Copy)]
pub struct ReadAtLeast {
    pub start_index: Option<usize>,
    pub at_least: usize,
}

/// Whether a wait for `at_least` items from `start_index` is over on a buffer of `len` items.
pub open spec fn read_n_ready(start_index: Option<usize>, at_least: usize, len: nat) -> bool {
    match start_index {
        Some(s) => len >= s + at_least,
        None => false,
    }
}

/// A wait for growth that is over stays over while items are appended.
pub proof fn lemma_read_stays_ready(start_len: Option<usize>, len: nat, grown: nat)
    requires
        read_ready(start_len, len),
        len <= grown,
    ensures
        read_ready(start_len, grown),
{
}

/// A wait for enough items that is over stays over while items are appended.
pub proof fn lemma_read_n_stays_ready(start_index: Option<usize>, at_least: usize, len: nat, grown: nat)
    requires
        read_n_ready(start_index, at_least, len),
        len <= grown,
    ensures
        read_n_ready(start_index, at_least, grown),
{
}

/// A wait for growth is over exactly when the buffer has become longer than
/// the length it started at; a wait that has not started is not over, and a
/// wait is never over on the buffer it started on.
pub proof fn lemma_read_ready_means_growth(start: usize, len: nat)
    ensures
        read_ready(Some(start), len) <==> len > start,
        !read_ready(None, len),
        len <= usize::MAX ==> !read_ready(Some(len as usize), len),
{
}

/// A wait for `at_least` items is over exactly when at least `at_least` items
/// follow the index it started at; a wait that has not started is not over.
pub proof fn lemma_read_n_ready_means_enough(start: usize, at_least: usize, len: nat)
    ensures
        read_n_ready(Some(start), at_least, len) <==> len >= start + at_least,
        len < start + at_least ==> !read_n_ready(Some(start), at_least, len),
        !read_n_ready(None, at_least, len),
{
}

impl Read {
    /// A wait that has not started yet.
    pub fn new() -> (r: Read)
        ensures
            r.start_len is None,
    {
        Read { start_len: None }
    }

    /// Is the buffer longer than when the wait started?
    pub fn is_ready<T>(&self, input: &InputRef<T>) -> (ready: bool)
        ensures
            ready == read_ready(self.start_len, input@.buf@.len()),
            ready <==> (self.start_len is Some && input@.buf@.len() > self.start_len->0),
    {
        match self.start_len {
            Some(s) => input.cursor.buf.len() > s,
            None => false,
        }
    }
}

impl ReadAtLeast {
    /// A wait for `at_least` items that has not started yet.
    pub fn new(at_least: usize) -> (r: ReadAtLeast)
        ensures
            r.start_index is None,
            r.at_least == at_least,
    {
        ReadAtLeast { start_index: None, at_least }
    }

    /// Are there `at_least` items from the index at which the wait started?
    pub fn is_ready<T>(&self, input: &InputRef<T>) -> (ready: bool)
        ensures
            ready == read_n_ready(self.start_index, self.at_least, input@.buf@.len()),
            ready <==> (self.start_index is Some && input@.buf@.len() >= self.start_index->0
                + self.at_least),
    {
        match self.start_index {
            Some(s) => {
                let len = input.cursor.buf.len();
                s <= len && self.at_least <= len - s
            },
            None => false,
        }
    }
}

} // verus!

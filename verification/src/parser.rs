use vstd::prelude::*;

use crate::cursor::{read_n_ready, read_ready, InputRef, Read, ReadAtLeast};

verus! {

/// What one run of a parser on the input received so far comes to.
#[derive(Debug, PartialEq, Eq)]
pub enum Step<O> {
    /// The parser is done and this is its output.
    Ready(O),
    /// The parser needs more items; run it again once the buffer has grown.
    Pending,
}

/// A parser that can be suspended while it waits for more input.
///
/// `resume` runs the parser as far as the items in the buffer allow. It
/// moves the index but never changes the buffer, and it leaves the index
/// within the buffer.
pub trait Parser<T> {
    type Output;

    fn resume(&mut self, input: &mut InputRef<T>) -> (step: Step<Self::Output>)
        requires
            old(input)@.wf(),
        ensures
            final(input)@.wf(),
            final(input)@.buf@ == old(input)@.buf@,
    ;
}

impl<T> Parser<T> for Read {
    type Output = ();

    /// Starts the wait on its first run, then is ready once the buffer has grown.
    fn resume(&mut self, input: &mut InputRef<T>) -> (step: Step<()>)
        ensures
            final(input)@ == old(input)@,
            final(self).start_len == (match old(self).start_len {
                Some(s) => Some(s),
                None => Some(old(input)@.buf@.len() as usize),
            }),
            step is Ready <==> read_ready(final(self).start_len, old(input)@.buf@.len()),
            step is Ready <==> old(input)@.buf@.len() > final(self).start_len->0,
            old(self).start_len is None ==> step is Pending,
    {
        if self.start_len.is_none() {
            *self = input.read();
        }
        if self.is_ready(input) {
            Step::Ready(())
        } else {
            Step::Pending
        }
    }
}

impl<T> Parser<T> for ReadAtLeast {
    type Output = ();

    /// Starts the wait at the current index on its first run, then is ready
    /// once `at_least` items follow that index.
    fn resume(&mut self, input: &mut InputRef<T>) -> (step: Step<()>)
        ensures
            final(input)@ == old(input)@,
            final(self).at_least == old(self).at_least,
            final(self).start_index == (match old(self).start_index {
                Some(s) => Some(s),
                None => Some(old(input)@.index),
            }),
            step is Ready <==> old(input)@.buf@.len() >= final(self).start_index->0
                + final(self).at_least,
            step is Ready <==> read_n_ready(
                final(self).start_index,
                final(self).at_least,
                old(input)@.buf@.len(),
            ),
    {
        if self.start_index.is_none() {
            *self = input.read_n(self.at_least);
        }
        if self.is_ready(input) {
            Step::Ready(())
        } else {
            Step::Pending
        }
    }
}

} // verus!

use vstd::prelude::*;

use crate::cursor::{Cursor, InputRef, Read, ReadAtLeast};
use crate::parser::{Parser, Step};

verus! {

/// The input of parsers: a cursor that the caller fills and parsers read.
#[derive(Debug)]
pub struct Input<T> {
    cursor: Cursor<T>,
}

impl<T> View for Input<T> {
    type V = Cursor<T>;

    closed spec fn view(&self) -> Cursor<T> {
        self.cursor
    }
}

/// Call `resume` (a parser's `resume`) on `parser` and `input`.
fn call_resume<T, P: Parser<T>, F: FnOnce(&mut P, &mut InputRef<T>) -> Step<P::Output>>(
    resume: F,
    parser: &mut P,
    input: &mut InputRef<T>,
) -> (step: Step<P::Output>)
    requires
        forall|p: &mut P, i: &mut InputRef<T>| (*i)@.wf() ==> #[trigger] resume.requires((p, i)),
        old(input)@.wf(),
    ensures
        exists|p: &mut P, i: &mut InputRef<T>|
            {
                &&& *p == *old(parser)
                &&& *final(p) == *final(parser)
                &&& *i == *old(input)
                &&& *final(i) == *final(input)
                &&& #[trigger] resume.ensures((p, i), step)
            },
{
    resume(parser, input)
}

/// Run `parser` once on the cursor of `input`.
fn run_parser<T, P: Parser<T>>(parser: &mut P, input: &mut Input<T>) -> (step: Step<P::Output>)
    requires
        old(input)@.wf(),
    ensures
        final(input)@.wf(),
        final(input)@.buf@ == old(input)@.buf@,
        exists|p: &mut P, i: &mut InputRef<T>|
            {
                &&& *p == *old(parser)
                &&& *final(p) == *final(parser)
                &&& (*i)@ == old(input)@
                &&& (*final(i))@ == final(input)@
                &&& #[trigger] call_ensures(P::resume, (p, i), step)
            },
{
    let mut cursor = Cursor { buf: Vec::new(), index: 0 };
    core::mem::swap(&mut cursor, &mut input.cursor);
    let mut iref = InputRef::new(cursor);
    let step = call_resume(P::resume, parser, &mut iref);
    input.cursor = iref.into_cursor();
    step
}

impl<T> Input<T> {
    /// Create a new Input from a Cursor.
    pub fn new(cursor: Cursor<T>) -> (input: Input<T>)
        ensures
            input@ == cursor,
    {
        Input { cursor }
    }

    /// Get a reference of the Cursor.
    pub fn cursor(&self) -> (c: &Cursor<T>)
        ensures
            *c == self@,
    {
        &self.cursor
    }

    /// Get a mutable reference of the Cursor.
    pub fn cursor_mut(&mut self) -> (c: &mut Cursor<T>)
        ensures
            *c == old(self)@,
            final(self)@ == *final(c),
    {
        &mut self.cursor
    }

    /// Take the Cursor out of the Input.
    pub fn into_inner(self) -> (c: Cursor<T>)
        ensures
            c == self@,
    {
        self.cursor
    }

    /// A wait that ends once the buffer is longer than it is now.
    pub fn read(&self) -> (r: Read)
        ensures
            r.start_len == Some(self@.buf@.len() as usize),
            r.start_len is Some && r.start_len->0 == self@.buf@.len(),
    {
        Read { start_len: Some(self.cursor.buf.len()) }
    }

    /// A wait that ends once `buf.len() >= index + at_least`, with the index as it is now.
    pub fn read_n(&self, at_least: usize) -> (r: ReadAtLeast)
        ensures
            r.start_index == Some(self@.index),
            r.at_least == at_least,
    {
        ReadAtLeast { start_index: Some(self.cursor.index), at_least }
    }

    /// Start parsing with a parser that borrows this Input.
    pub fn start_parsing<'a, P: Parser<T>>(&'a mut self, parser: P) -> (p: Parsing<'a, T, P>)
        ensures
            p.spec_cursor() == old(self)@,
            p.spec_result() is None,
            !p.spec_done(),
            p.spec_parser() == parser,
            *final(p.spec_input()) == *final(self),
    {
        Parsing::new(self, parser)
    }

    /// Turn this Input into a ParsingInput, which owns it.
    pub fn into_parsing_input<P: Parser<T>>(self) -> (p: ParsingInput<T, P>)
        ensures
            p.spec_cursor() == self@,
            p.spec_result() is None,
            !p.spec_done(),
            p.spec_future() is None,
    {
        ParsingInput::new(self)
    }
}

/// A parser running on a borrowed Input, with its result once it is done.
#[derive(Debug)]
pub struct Parsing<'a, T, P: Parser<T>> {
    input: &'a mut Input<T>,
    result: Option<P::Output>,
    parser: P,
}

impl<'a, T, P: Parser<T>> Parsing<'a, T, P> {
    /// The cursor of the borrowed Input.
    pub closed spec fn spec_cursor(&self) -> Cursor<T> {
        self.input@
    }

    /// The parser's output, once it is done.
    pub closed spec fn spec_result(&self) -> Option<P::Output> {
        self.result
    }

    /// Whether some call of `poll` has returned true: the result is set by
    /// `poll` alone, when it returns true, and nothing unsets it.
    pub closed spec fn spec_done(&self) -> bool {
        self.result is Some
    }

    /// The borrow of the Input; once the Parsing is gone the Input holds
    /// what `*final(self.spec_input())` says.
    pub closed spec fn spec_input(&self) -> &'a mut Input<T> {
        self.input
    }

    /// The parser in its current state.
    pub closed spec fn spec_parser(&self) -> P {
        self.parser
    }

    /// Create a new Parsing from an Input and a parser.
    pub fn new(input: &'a mut Input<T>, parser: P) -> (p: Parsing<'a, T, P>)
        ensures
            p.spec_cursor() == old(input)@,
            p.spec_result() is None,
            !p.spec_done(),
            p.spec_parser() == parser,
            *final(p.spec_input()) == *final(input),
    {
        Parsing { input, result: None, parser }
    }

    /// Record what one run of the parser came to: its output when it is
    /// done, and whether it is.
    fn settle(&mut self, step: Step<P::Output>) -> (done: bool)
        ensures
            final(self).spec_cursor() == old(self).spec_cursor(),
            final(self).spec_parser() == old(self).spec_parser(),
            *final(final(self).spec_input()) == *final(old(self).spec_input()),
            match step {
                Step::Ready(o) => done && final(self).spec_result() == Some(o),
                Step::Pending => !done && final(self).spec_result() == old(self).spec_result(),
            },
    {
        match step {
            Step::Ready(o) => {
                self.result = Some(o);
                true
            },
            Step::Pending => false,
        }
    }

    /// Run the parser on the items received so far. Returns true when it is
    /// done (do not call this again then), false when it needs more items.
    pub fn poll(&mut self) -> (done: bool)
        requires
            !old(self).spec_done(),
            old(self).spec_cursor().wf(),
        ensures
            final(self).spec_done() == (old(self).spec_done() || done),
            final(self).spec_cursor().wf(),
            final(self).spec_cursor().buf@ == old(self).spec_cursor().buf@,
            *final(final(self).spec_input()) == *final(old(self).spec_input()),
            done <==> final(self).spec_result() is Some,
            exists|p: &mut P, i: &mut InputRef<T>, step: Step<P::Output>|
                {
                    &&& *p == old(self).spec_parser()
                    &&& *final(p) == final(self).spec_parser()
                    &&& (*i)@ == old(self).spec_cursor()
                    &&& (*final(i))@ == final(self).spec_cursor()
                    &&& #[trigger] call_ensures(P::resume, (p, i), step)
                    &&& match step {
                        Step::Ready(o) => done && final(self).spec_result() == Some(o),
                        Step::Pending => !done && final(self).spec_result() == old(
                            self,
                        ).spec_result(),
                    }
                },
    {
        let step = run_parser(&mut self.parser, self.input);
        self.settle(step)
    }

    /// Get the reference of the Cursor.
    pub fn cursor(&self) -> (c: &Cursor<T>)
        ensures
            *c == self.spec_cursor(),
    {
        self.input.cursor()
    }

    /// Get the mutable reference of the Cursor, to append items to the buffer.
    pub fn cursor_mut(&mut self) -> (c: &mut Cursor<T>)
        ensures
            *c == old(self).spec_cursor(),
            final(self).spec_cursor() == *final(c),
            final(self).spec_result() == old(self).spec_result(),
            final(self).spec_done() == old(self).spec_done(),
            final(self).spec_parser() == old(self).spec_parser(),
            *final(final(self).spec_input()) == *final(old(self).spec_input()),
    {
        self.input.cursor_mut()
    }

    /// The result of the parser: Some once `poll` has returned true, None before.
    pub fn into_result(self) -> (r: Option<P::Output>)
        ensures
            r == self.spec_result(),
            r is Some <==> self.spec_done(),
            (*final(self.spec_input()))@ == self.spec_cursor(),
    {
        self.result
    }
}

/// A parser running on an Input that it owns, with its result once it is done.
#[derive(Debug)]
pub struct ParsingInput<T, P: Parser<T>> {
    input: Input<T>,
    result: Option<P::Output>,
    future: Option<P>,
}

impl<T, P: Parser<T>> ParsingInput<T, P> {
    /// The cursor of the owned Input.
    pub closed spec fn spec_cursor(&self) -> Cursor<T> {
        self.input@
    }

    /// The output of the last parser that is done.
    pub closed spec fn spec_result(&self) -> Option<P::Output> {
        self.result
    }

    /// Whether some call of `poll` has returned true: the result is set by
    /// `poll` alone, when it returns true, and nothing unsets it.
    pub closed spec fn spec_done(&self) -> bool {
        self.result is Some
    }

    /// The parser that is running, if any.
    pub closed spec fn spec_future(&self) -> Option<P> {
        self.future
    }

    /// Create a new ParsingInput from an Input, with no parser yet.
    pub fn new(input: Input<T>) -> (p: ParsingInput<T, P>)
        ensures
            p.spec_cursor() == input@,
            p.spec_result() is None,
            !p.spec_done(),
            p.spec_future() is None,
    {
        ParsingInput { input, result: None, future: None }
    }

    /// Get the reference of the Cursor.
    pub fn cursor(&self) -> (c: &Cursor<T>)
        ensures
            *c == self.spec_cursor(),
    {
        self.input.cursor()
    }

    /// Get the mutable reference of the Cursor.
    pub fn cursor_mut(&mut self) -> (c: &mut Cursor<T>)
        ensures
            *c == old(self).spec_cursor(),
            final(self).spec_cursor() == *final(c),
            final(self).spec_result() == old(self).spec_result(),
            final(self).spec_done() == old(self).spec_done(),
            final(self).spec_future() == old(self).spec_future(),
    {
        self.input.cursor_mut()
    }

    /// Get the result of the parser.
    pub fn result_mut(&mut self) -> (r: Option<&mut P::Output>)
        ensures
            final(self).spec_cursor() == old(self).spec_cursor(),
            final(self).spec_future() == old(self).spec_future(),
            final(self).spec_done() == old(self).spec_done(),
            r is Some <==> old(self).spec_done(),
            match old(self).spec_result() {
                None => r is None && final(self).spec_result() is None,
                Some(o) => {
                    &&& r is Some
                    &&& *r->0 == o
                    &&& final(self).spec_result() == Some(*final(r->0))
                },
            },
    {
        self.result.as_mut()
    }

    /// Break the ParsingInput into its Input.
    pub fn into_input(self) -> (input: Input<T>)
        ensures
            input@ == self.spec_cursor(),
    {
        self.input
    }

    /// Start parsing with a parser.
    pub fn start_parsing(&mut self, parser: P)
        ensures
            final(self).spec_cursor() == old(self).spec_cursor(),
            final(self).spec_result() == old(self).spec_result(),
            final(self).spec_done() == old(self).spec_done(),
            final(self).spec_future() == Some(parser),
    {
        self.future = Some(parser);
    }

    /// Record what one run of the parser came to: when it is done its output
    /// becomes the result and the parser is dropped.
    fn settle(&mut self, step: Step<P::Output>) -> (done: bool)
        ensures
            final(self).spec_cursor() == old(self).spec_cursor(),
            match step {
                Step::Ready(o) => {
                    &&& done
                    &&& final(self).spec_result() == Some(o)
                    &&& final(self).spec_future() is None
                },
                Step::Pending => {
                    &&& !done
                    &&& final(self).spec_result() == old(self).spec_result()
                    &&& final(self).spec_future() == old(self).spec_future()
                },
            },
    {
        match step {
            Step::Ready(o) => {
                self.result = Some(o);
                self.future = None;
                true
            },
            Step::Pending => false,
        }
    }

    /// Run the parser on the items received so far. Returns true when it is
    /// done, false when it needs more items or when no parser is running.
    pub fn poll(&mut self) -> (done: bool)
        requires
            old(self).spec_future() is Some ==> old(self).spec_cursor().wf(),
        ensures
            final(self).spec_done() == (old(self).spec_done() || done),
            final(self).spec_cursor().buf@ == old(self).spec_cursor().buf@,
            old(self).spec_future() is Some ==> final(self).spec_cursor().wf(),
            old(self).spec_future() is None ==> !done && final(self).spec_cursor() == old(
                self,
            ).spec_cursor() && final(self).spec_result() == old(self).spec_result()
                && final(self).spec_future() is None,
            done ==> final(self).spec_result() is Some && final(self).spec_future() is None,
            !done ==> final(self).spec_result() == old(self).spec_result(),
            !done ==> (final(self).spec_future() is Some <==> old(self).spec_future() is Some),
            old(self).spec_future() is Some ==> exists|
                p: &mut P,
                i: &mut InputRef<T>,
                step: Step<P::Output>,
            |
                {
                    &&& Some(*p) == old(self).spec_future()
                    &&& (*i)@ == old(self).spec_cursor()
                    &&& (*final(i))@ == final(self).spec_cursor()
                    &&& #[trigger] call_ensures(P::resume, (p, i), step)
                    &&& match step {
                        Step::Ready(o) => {
                            &&& done
                            &&& final(self).spec_result() == Some(o)
                            &&& final(self).spec_future() is None
                        },
                        Step::Pending => {
                            &&& !done
                            &&& final(self).spec_result() == old(self).spec_result()
                            &&& final(self).spec_future() == Some(*final(p))
                        },
                    }
                },
    {
        match self.future.as_mut() {
            Some(parser) => {
                let step = run_parser(parser, &mut self.input);
                self.settle(step)
            },
            None => false,
        }
    }
}

} // verus!

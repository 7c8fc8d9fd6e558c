use core::marker::PhantomData;
use core::ops::Range;
use vstd::prelude::*;
use vstd::std_specs::cmp::PartialEqSpec;

use crate::cursor::{InputRef, ReadAtLeast};
use crate::parser::{Parser, Step};

verus! {

/// `cond` may answer `true` for every item of `buf` from `from` up to `to`.
pub open spec fn accepts_all<T, F: Fn(&T) -> bool>(cond: F, buf: Seq<T>, from: int, to: int) -> bool {
    forall|i: int| from <= i < to ==> #[trigger] cond.ensures((&buf[i],), true)
}

/// `cond` may answer `false` for `item`.
pub open spec fn rejects<T, F: Fn(&T) -> bool>(cond: F, item: T) -> bool {
    cond.ensures((&item,), false)
}

/// `cond` may be called on any item.
pub open spec fn callable<T, F: Fn(&T) -> bool>(cond: F) -> bool {
    forall|x: &T| #[trigger] cond.requires((x,))
}

/// Items appended between two runs change nothing for the items seen in the
/// first: what a match accepted before the buffer grew and what it accepts
/// after it together are what one run over the grown buffer accepts.
pub proof fn lemma_accepts_all_across_growth<T, F: Fn(&T) -> bool>(
    cond: F,
    before: Seq<T>,
    after: Seq<T>,
    from: int,
    mid: int,
    to: int,
)
    requires
        before.is_prefix_of(after),
        0 <= from <= mid <= to,
        mid <= before.len(),
        accepts_all(cond, before, from, mid),
        accepts_all(cond, after, mid, to),
    ensures
        accepts_all(cond, after, from, to),
{
    assert forall|i: int| from <= i < to implies #[trigger] cond.ensures((&after[i],), true) by {
        if i < mid {
            assert(after.subrange(0, before.len() as int)[i] == after[i]);
        }
    }
}

/// When `cond` gives each item one answer, a match from `from` can only end at
/// one index: the first item from there that `cond` rejects.
pub proof fn lemma_match_end_unique<T, F: Fn(&T) -> bool>(
    cond: F,
    buf: Seq<T>,
    from: int,
    end1: int,
    end2: int,
)
    requires
        forall|x: &T, b1: bool, b2: bool|
            cond.ensures((x,), b1) && cond.ensures((x,), b2) ==> b1 == b2,
        from <= end1 < buf.len(),
        from <= end2 < buf.len(),
        accepts_all(cond, buf, from, end1),
        rejects(cond, buf[end1]),
        accepts_all(cond, buf, from, end2),
        rejects(cond, buf[end2]),
    ensures
        end1 == end2,
{
    if end1 < end2 {
        assert(cond.ensures((&buf[end1],), true));
    } else if end2 < end1 {
        assert(cond.ensures((&buf[end2],), true));
    }
}

/// Advance the index over the items that `cond` accepts. Returns the index of
/// the first item that `cond` rejects, or `None` when it accepted every item up
/// to the end of the buffer (the index is then at the end).
fn scan_while<T, F: Fn(&T) -> bool>(input: &mut InputRef<T>, cond: &F) -> (end: Option<usize>)
    requires
        old(input)@.wf(),
        callable(*cond),
    ensures
        final(input)@.wf(),
        final(input)@.buf@ == old(input)@.buf@,
        old(input)@.index <= final(input)@.index,
        accepts_all(*cond, old(input)@.buf@, old(input)@.index as int, final(input)@.index as int),
        match end {
            Some(e) => {
                &&& e == final(input)@.index
                &&& e < old(input)@.buf@.len()
                &&& rejects(*cond, old(input)@.buf@[final(input)@.index as int])
            },
            None => final(input)@.index == old(input)@.buf@.len(),
        },
{
    let ghost buf = input@.buf@;
    let ghost start = input@.index;
    let c = input.cursor_mut();
    let len = c.buf.len();
    let mut i = c.index;
    let mut stop = false;
    while !stop && i < len
        invariant
            c.buf@ == buf,
            c.index == start,
            len == buf.len(),
            start <= i <= len,
            callable(*cond),
            accepts_all(*cond, buf, start as int, i as int),
            stop ==> i < len && rejects(*cond, buf[i as int]),
        decreases len - i + (if stop { 0int } else { 1int }),
    {
        let item = &c.buf[i];
        if cond(item) {
            i += 1;
        } else {
            stop = true;
        }
    }
    c.index = i;
    if stop {
        Some(i)
    } else {
        None
    }
}

/// Match a single item.
#[derive(Debug, Clone)]
pub struct Just<T> {
    pub item: T,
}

/// A parser that matches `t` and, if it matches, advances the index over it.
pub fn just<T>(t: T) -> (p: Just<T>)
    ensures
        p.item == t,
{
    Just { item: t }
}

impl<T: PartialEq> Parser<T> for Just<T> {
    /// The index of the matched item, or `Err(())` when the next item is another one.
    type Output = Result<usize, ()>;

    /// Waits for one item at the index, then compares it with `item`. On a
    /// match the index moves past it; otherwise the index stays.
    fn resume(&mut self, input: &mut InputRef<T>) -> (step: Step<Result<usize, ()>>)
        ensures
            *final(self) == *old(self),
            final(input)@.buf@ == old(input)@.buf@,
            (step is Pending) <==> old(input)@.index >= old(input)@.buf@.len(),
            match step {
                Step::Pending => final(input)@.index == old(input)@.index,
                Step::Ready(Ok(i)) => {
                    &&& i == old(input)@.index
                    &&& final(input)@.index == old(input)@.index + 1
                    &&& T::obeys_eq_spec() ==> old(input)@.buf@[old(input)@.index as int].eq_spec(&old(self).item)
                },
                Step::Ready(Err(_)) => {
                    &&& final(input)@.index == old(input)@.index
                    &&& T::obeys_eq_spec() ==> !old(input)@.buf@[old(
                        input,
                    )@.index as int].eq_spec(&old(self).item)
                },
            },
    {
        let wait: ReadAtLeast = input.read_n(1);
        if !wait.is_ready(input) {
            return Step::Pending;
        }
        let c = input.cursor_mut();
        let len = c.buf.len();
        let index = c.index;
        if c.buf[index] == self.item {
            assert(index < len);
            c.index = index + 1;
            Step::Ready(Ok(index))
        } else {
            Step::Ready(Err(()))
        }
    }
}

/// Match a sequence of items.
#[derive(Debug, Clone, Copy)]
pub struct Tag<'t, T> {
    pub tag: &'t [T],
}

/// A parser that matches the items of `tag` in order and, if they match,
/// advances the index over them.
pub fn tag<'t, T>(items: &'t [T]) -> (p: Tag<'t, T>)
    ensures
        p.tag@ == items@,
{
    Tag { tag: items }
}

/// The items of `buf` from `at` on begin with `tag`, item by item as `==` sees them.
pub open spec fn starts_with<T: PartialEq>(buf: Seq<T>, at: int, tag: Seq<T>) -> bool {
    &&& at + tag.len() <= buf.len()
    &&& forall|k: int| 0 <= k < tag.len() ==> #[trigger] buf[at + k].eq_spec(&tag[k])
}

/// For bytes, the items of `buf` from `at` on begin with `tag` exactly when
/// the slice of `buf` that starts at `at` and is as long as `tag` is `tag`;
/// a first item that differs from the tag's first item rules it out.
pub proof fn lemma_starts_with_bytes(buf: Seq<u8>, at: int, tag: Seq<u8>)
    requires
        0 <= at,
    ensures
        starts_with(buf, at, tag) <==> (at + tag.len() <= buf.len() && buf.subrange(
            at,
            at + tag.len(),
        ) == tag),
        tag.len() > 0 && at < buf.len() && buf[at] != tag[0] ==> !starts_with(buf, at, tag),
{
    if at + tag.len() <= buf.len() {
        if starts_with(buf, at, tag) {
            assert forall|k: int| 0 <= k < tag.len() implies buf.subrange(at, at + tag.len())[k]
                == tag[k] by {
                assert(buf[at + k].eq_spec(&tag[k]));
            }
            assert(buf.subrange(at, at + tag.len()) =~= tag);
        }
        if buf.subrange(at, at + tag.len()) == tag {
            assert forall|k: int| 0 <= k < tag.len() implies #[trigger] buf[at + k].eq_spec(
                &tag[k],
            ) by {
                assert(buf.subrange(at, at + tag.len())[k] == tag[k]);
            }
        }
    }
    if tag.len() > 0 && at < buf.len() && buf[at] != tag[0] && starts_with(buf, at, tag) {
        assert(buf[at + 0].eq_spec(&tag[0]));
    }
}

impl<'t, T: PartialEq> Tag<'t, T> {
    /// Compare the items at `at` with the tag, which is known to fit.
    fn matches_at(&self, items: &[T], at: usize) -> (m: bool)
        requires
            at + self.tag@.len() <= items@.len(),
        ensures
            T::obeys_eq_spec() ==> (m == starts_with(items@, at as int, self.tag@)),
            T::obeys_eq_spec() ==> (m <==> forall|k: int|
                0 <= k < self.tag@.len() ==> #[trigger] items@[at + k].eq_spec(&self.tag@[k])),
            self.tag@.len() == 0 ==> m,
    {
        let n = self.tag.len();
        let total = items.len();
        let mut k: usize = 0;
        while k < n
            invariant
                n == self.tag@.len(),
                total == items@.len(),
                at + n <= total,
                k <= n,
                T::obeys_eq_spec() ==> forall|j: int|
                    0 <= j < k ==> #[trigger] items@[at + j].eq_spec(&self.tag@[j]),
            decreases n - k,
        {
            if !(items[at + k] == self.tag[k]) {
                assert(T::obeys_eq_spec() ==> !items@[at + k].eq_spec(&self.tag@[k as int]));
                return false;
            }
            k += 1;
        }
        true
    }
}

impl<'t, T: PartialEq> Parser<T> for Tag<'t, T> {
    /// The range of the matched items, or `Err(())` when the items differ.
    type Output = Result<Range<usize>, ()>;

    /// Waits for as many items at the index as the tag has, then compares
    /// them with it. On a match the index moves past them; otherwise it stays.
    fn resume(&mut self, input: &mut InputRef<T>) -> (step: Step<Result<Range<usize>, ()>>)
        ensures
            *final(self) == *old(self),
            final(input)@.buf@ == old(input)@.buf@,
            (step is Pending) <==> old(input)@.index + old(self).tag@.len()
                > old(input)@.buf@.len(),
            old(self).tag@.len() == 0 ==> step matches Step::Ready(Ok(_)),
            match step {
                Step::Pending => final(input)@.index == old(input)@.index,
                Step::Ready(Ok(r)) => {
                    &&& r.start == old(input)@.index
                    &&& r.end == old(input)@.index + old(self).tag@.len()
                    &&& final(input)@.index == r.end
                    &&& T::obeys_eq_spec() ==> starts_with(
                        old(input)@.buf@,
                        old(input)@.index as int,
                        old(self).tag@,
                    )
                    &&& T::obeys_eq_spec() ==> forall|k: int|
                        0 <= k < old(self).tag@.len() ==> #[trigger] old(
                            input,
                        )@.buf@[old(input)@.index + k].eq_spec(&old(self).tag@[k])
                },
                Step::Ready(Err(_)) => {
                    &&& final(input)@.index == old(input)@.index
                    &&& T::obeys_eq_spec() ==> !starts_with(
                        old(input)@.buf@,
                        old(input)@.index as int,
                        old(self).tag@,
                    )
                    &&& T::obeys_eq_spec() ==> exists|k: int|
                        0 <= k < old(self).tag@.len() && !(#[trigger] old(
                            input,
                        )@.buf@[old(input)@.index + k].eq_spec(&old(self).tag@[k]))
                },
            },
    {
        let wait: ReadAtLeast = input.read_n(self.tag.len());
        if !wait.is_ready(input) {
            return Step::Pending;
        }
        let c = input.cursor_mut();
        let start = c.index;
        let len = c.buf.len();
        assert(start + self.tag@.len() <= len);
        if self.matches_at(c.buf.as_slice(), start) {
            let end = start + self.tag.len();
            c.index = end;
            Step::Ready(Ok(start..end))
        } else {
            Step::Ready(Err(()))
        }
    }
}

/// Match zero or more items that `cond` accepts.
pub struct Many0<T, F: Fn(&T) -> bool> {
    start: Option<usize>,
    cond: F,
    item: PhantomData<T>,
}

impl<T, F: Fn(&T) -> bool> Many0<T, F> {
    #[verifier::type_invariant]
    closed spec fn inv(self) -> bool {
        callable(self.cond)
    }

    /// The index at which the match began; `None` before the first run.
    pub closed spec fn spec_start(&self) -> Option<usize> {
        self.start
    }

    /// The condition that items must meet.
    pub closed spec fn spec_cond(&self) -> F {
        self.cond
    }
}

/// A parser that matches items as long as `cond` accepts them, and gives the
/// range of the matched items, which may be empty.
pub fn many0<T, F: Fn(&T) -> bool>(cond: F) -> (p: Many0<T, F>)
    requires
        callable(cond),
    ensures
        p.spec_start() is None,
        p.spec_cond() == cond,
{
    Many0 { start: None, cond, item: PhantomData }
}

impl<T, F: Fn(&T) -> bool> Parser<T> for Many0<T, F> {
    type Output = Range<usize>;

    /// On its first run it remembers the index as the start of the match.
    /// Each run moves the index over the items that `cond` accepts; at the
    /// first item that it rejects the parser is done, else it waits at the
    /// end of the buffer.
    fn resume(&mut self, input: &mut InputRef<T>) -> (step: Step<Range<usize>>)
        ensures
            final(self).spec_cond() == old(self).spec_cond(),
            final(self).spec_start() == (match old(self).spec_start() {
                Some(s) => Some(s),
                None => Some(old(input)@.index),
            }),
            final(input)@.buf@ == old(input)@.buf@,
            old(input)@.index <= final(input)@.index,
            accepts_all(
                old(self).spec_cond(),
                old(input)@.buf@,
                old(input)@.index as int,
                final(input)@.index as int,
            ),
            forall|i: int|
                old(input)@.index <= i < final(input)@.index ==> #[trigger] old(
                    self,
                ).spec_cond().ensures((&old(input)@.buf@[i],), true),
            step is Ready ==> final(input)@.index < old(input)@.buf@.len() && old(
                self,
            ).spec_cond().ensures((&old(input)@.buf@[final(input)@.index as int],), false),
            match step {
                Step::Ready(r) => {
                    &&& Some(r.start) == final(self).spec_start()
                    &&& r.end == final(input)@.index
                    &&& r.end < old(input)@.buf@.len()
                    &&& rejects(old(self).spec_cond(), old(input)@.buf@[final(input)@.index as int])
                },
                Step::Pending => final(input)@.index == old(input)@.buf@.len(),
            },
    {
        proof {
            use_type_invariant(&*self);
        }
        if self.start.is_none() {
            self.start = Some(input.cursor().index);
        }
        let start = match self.start {
            Some(s) => s,
            None => 0,
        };
        match scan_while(input, &self.cond) {
            Some(end) => Step::Ready(start..end),
            None => Step::Pending,
        }
    }
}

/// Match one or more items that `cond` accepts.
pub struct Many1<T, F: Fn(&T) -> bool> {
    start: Option<usize>,
    cond: F,
    item: PhantomData<T>,
}

impl<T, F: Fn(&T) -> bool> Many1<T, F> {
    #[verifier::type_invariant]
    closed spec fn inv(self) -> bool {
        callable(self.cond)
    }

    /// The index at which the match began; `None` before the first run.
    pub closed spec fn spec_start(&self) -> Option<usize> {
        self.start
    }

    /// The condition that items must meet.
    pub closed spec fn spec_cond(&self) -> F {
        self.cond
    }
}

/// A parser that matches items as long as `cond` accepts them, and gives the
/// range of the matched items, or `Err(())` when not even one item matched.
pub fn many1<T, F: Fn(&T) -> bool>(cond: F) -> (p: Many1<T, F>)
    requires
        callable(cond),
    ensures
        p.spec_start() is None,
        p.spec_cond() == cond,
{
    Many1 { start: None, cond, item: PhantomData }
}

impl<T, F: Fn(&T) -> bool> Parser<T> for Many1<T, F> {
    type Output = Result<Range<usize>, ()>;

    /// As `Many0`, but an empty match is `Err(())`. The index is left where
    /// the match ended either way.
    fn resume(&mut self, input: &mut InputRef<T>) -> (step: Step<Result<Range<usize>, ()>>)
        ensures
            final(self).spec_cond() == old(self).spec_cond(),
            final(self).spec_start() == (match old(self).spec_start() {
                Some(s) => Some(s),
                None => Some(old(input)@.index),
            }),
            final(input)@.buf@ == old(input)@.buf@,
            old(input)@.index <= final(input)@.index,
            accepts_all(
                old(self).spec_cond(),
                old(input)@.buf@,
                old(input)@.index as int,
                final(input)@.index as int,
            ),
            forall|i: int|
                old(input)@.index <= i < final(input)@.index ==> #[trigger] old(
                    self,
                ).spec_cond().ensures((&old(input)@.buf@[i],), true),
            step is Ready ==> final(input)@.index < old(input)@.buf@.len() && old(
                self,
            ).spec_cond().ensures((&old(input)@.buf@[final(input)@.index as int],), false),
            match step {
                Step::Ready(res) => {
                    &&& final(input)@.index < old(input)@.buf@.len()
                    &&& rejects(old(self).spec_cond(), old(input)@.buf@[final(input)@.index as int])
                    &&& (res is Err <==> final(self).spec_start() == Some(final(input)@.index))
                    &&& res matches Ok(r) ==> Some(r.start) == final(self).spec_start() && r.end
                        == final(input)@.index
                },
                Step::Pending => final(input)@.index == old(input)@.buf@.len(),
            },
    {
        proof {
            use_type_invariant(&*self);
        }
        if self.start.is_none() {
            self.start = Some(input.cursor().index);
        }
        let start = match self.start {
            Some(s) => s,
            None => 0,
        };
        match scan_while(input, &self.cond) {
            Some(end) => {
                if start == end {
                    Step::Ready(Err(()))
                } else {
                    Step::Ready(Ok(start..end))
                }
            },
            None => Step::Pending,
        }
    }
}

} // verus!

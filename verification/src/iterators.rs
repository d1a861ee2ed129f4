//! Hand-written iterators: each `next` hands out one item and moves on.

use vstd::prelude::*;
use crate::functions::fib;

verus! {

/// Counts from one to five.
pub struct Counter {
    pub count: u32,
}

impl Counter {
    /// A counter that has handed out nothing yet.
    pub fn new() -> (c: Counter)
        ensures
            c.count == 0,
    {
        Counter { count: 0 }
    }

    /// The next number, up to five; after that `None`, and the counter stays
    /// as it is.
    pub fn next(&mut self) -> (item: Option<u32>)
        ensures
            old(self).count < 5 ==> final(self).count == old(self).count + 1,
            old(self).count < 5 ==> item == Some(final(self).count),
            old(self).count >= 5 ==> final(self).count == old(self).count,
            old(self).count >= 5 ==> item.is_none(),
    {
        if self.count < 5 {
            self.count += 1;
            Some(self.count)
        } else {
            None
        }
    }
}

/// Walks along the Fibonacci numbers, two neighbours at a time.
pub struct Fibonacci {
    pub curr: u32,
    pub next: u32,
}

impl Fibonacci {
    /// The iterator stands at the `k`-th Fibonacci number.
    pub open spec fn stands_at(&self, k: nat) -> bool {
        self.curr == fib(k) && self.next == fib(k + 1)
    }

    /// The iterator at the start: it stands at the number zero.
    pub fn new() -> (f: Fibonacci)
        ensures
            f.curr == 0,
            f.next == 1,
            f.stands_at(0),
    {
        Fibonacci { curr: 0, next: 1 }
    }

    /// Steps to the next Fibonacci number and hands it out. An iterator that
    /// stood at the `k`-th number then stands at the one after it.
    pub fn next(&mut self) -> (item: Option<u32>)
        requires
            old(self).curr + old(self).next <= u32::MAX,
        ensures
            final(self).curr == old(self).next,
            final(self).next == old(self).curr + old(self).next,
            item == Some(old(self).next),
            forall|k: nat| old(self).stands_at(k) ==> final(self).stands_at(k + 1),
    {
        let new_next: u32 = self.curr + self.next;
        self.curr = self.next;
        self.next = new_next;
        Some(self.curr)
    }
}

/// Walks from `start` towards `end` in steps of `step`.
pub struct Range {
    pub start: i32,
    pub end: i32,
    pub step: i32,
}

impl Range {
    /// The walk from `start` to `end`, `end` not included.
    pub fn new(start: i32, end: i32, step: i32) -> (r: Range)
        ensures
            r.start == start,
            r.end == end,
            r.step == step,
    {
        Range { start, end, step }
    }

    /// The current position, after which the walk moves one step on; `None`
    /// once the position has reached the end.
    pub fn next(&mut self) -> (item: Option<i32>)
        requires
            old(self).start < old(self).end ==> i32::MIN <= old(self).start + old(self).step
                <= i32::MAX,
        ensures
            final(self).end == old(self).end,
            final(self).step == old(self).step,
            old(self).start < old(self).end ==> item == Some(old(self).start),
            old(self).start < old(self).end ==> final(self).start == old(self).start
                + old(self).step,
            old(self).start >= old(self).end ==> item.is_none(),
            old(self).start >= old(self).end ==> final(self).start == old(self).start,
    {
        if self.start < self.end {
            let current: i32 = self.start;
            self.start += self.step;
            Some(current)
        } else {
            None
        }
    }
}

} // verus!

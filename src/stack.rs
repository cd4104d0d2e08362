use vstd::prelude::*;

use crate::value::Value;

verus! {

/// The last `n` values of `s` in their order, or all of `s` when it holds
/// fewer.
pub open spec fn top_n(s: Seq<Value>, n: nat) -> Seq<Value> {
    if n >= s.len() {
        s
    } else {
        s.subrange(s.len() - n, s.len() as int)
    }
}

/// The frames after opening a frame with carry `n`: a new last frame holding
/// the last `n` values of the previous one, which keeps them.
pub open spec fn opened(frames: Seq<Seq<Value>>, n: nat) -> Seq<Seq<Value>> {
    frames.push(top_n(frames.last(), n))
}

/// The frames after closing the last frame with carry `n`: it is discarded and
/// its last `n` values are appended to the frame below.
pub open spec fn closed(frames: Seq<Seq<Value>>, n: nat) -> Seq<Seq<Value>> {
    frames.drop_last().drop_last().push(frames[frames.len() - 2] + top_n(frames.last(), n))
}

/// Opening a frame with carry `n` and closing it at once with carry `n` keeps
/// the number of frames and every frame but the current one, and the current
/// frame then ends with the same `n` values as before. (When the current frame
/// held fewer than `n` values, the copies appended on closing would make up
/// part of its last `n`.)
pub proof fn lemma_open_then_close(frames: Seq<Seq<Value>>, n: nat)
    requires
        frames.len() > 0,
        n <= frames.last().len(),
    ensures
        closed(opened(frames, n), n).len() == frames.len(),
        closed(opened(frames, n), n).drop_last() == frames.drop_last(),
        top_n(closed(opened(frames, n), n).last(), n) == top_n(frames.last(), n),
{
    let o = opened(frames, n);
    let c = closed(o, n);
    let last = frames.last();
    let carried = top_n(last, n);
    assert(carried.len() == n);
    assert(top_n(carried, n) == carried);
    assert(o[o.len() - 2] == last);
    assert(c.last() == last + carried);
    assert(top_n(last + carried, n) =~= carried);
    assert(o.drop_last().drop_last() =~= frames.drop_last());
}

/// The operand stack: a sequence of frames, the last being the current one.
#[derive(Debug)]
pub struct Stack {
    stacks: Vec<Vec<Value>>,
}

impl View for Stack {
    type V = Seq<Seq<Value>>;

    closed spec fn view(&self) -> Seq<Seq<Value>> {
        self.stacks@.map_values(|f: Vec<Value>| f@)
    }
}

/// A copy of the last `n` values of `frame` (all of them when it holds fewer).
fn copy_top(frame: &Vec<Value>, n: usize) -> (r: Vec<Value>)
    ensures
        r@ == top_n(frame@, n as nat),
{
    let len = frame.len();
    let start: usize = if n >= len {
        0
    } else {
        len - n
    };
    let mut out: Vec<Value> = Vec::new();
    let mut i: usize = start;
    while i < len
        invariant
            start <= i <= len,
            len == frame@.len(),
            start == (if n >= len {
                0
            } else {
                len - n
            }),
            out@ == frame@.subrange(start as int, i as int),
        decreases len - i,
    {
        out.push(frame[i].clone_value());
        i = i + 1;
    }
    proof {
        if n >= len {
            assert(out@ =~= frame@);
        }
    }
    out
}

impl Stack {
    /// A stack of one empty frame.
    pub fn new() -> (r: Stack)
        ensures
            r@ == seq![Seq::<Value>::empty()],
    {
        let mut stacks: Vec<Vec<Value>> = Vec::new();
        stacks.push(Vec::new());
        let r = Stack { stacks };
        assert(r@ =~= seq![Seq::<Value>::empty()]);
        r
    }

    /// The number of frames.
    pub fn depth(&self) -> (r: usize)
        ensures
            r == self@.len(),
    {
        self.stacks.len()
    }

    /// The current frame.
    pub fn current(&self) -> (r: &Vec<Value>)
        requires
            self@.len() > 0,
        ensures
            r@ == self@.last(),
    {
        &self.stacks[self.stacks.len() - 1]
    }

    /// Removes the current frame and hands it out.
    pub(crate) fn take_current(&mut self) -> (r: Vec<Value>)
        requires
            old(self)@.len() > 0,
        ensures
            r@ == old(self)@.last(),
            final(self)@ == old(self)@.drop_last(),
    {
        let r = self.stacks.pop().unwrap();
        assert(self@ =~= old(self)@.drop_last());
        r
    }

    /// Makes `frame` the current frame.
    pub(crate) fn put_current(&mut self, frame: Vec<Value>)
        ensures
            final(self)@ == old(self)@.push(frame@),
    {
        self.stacks.push(frame);
        assert(self@ =~= old(self)@.push(frame@));
    }

    /// Opens a frame: a new current frame holding copies of the last
    /// `carry_count` values of the current one, which keeps them.
    pub fn substack(&mut self, carry_count: usize)
        requires
            old(self)@.len() > 0,
        ensures
            final(self)@ == opened(old(self)@, carry_count as nat),
    {
        let carried = copy_top(self.current(), carry_count);
        self.put_current(carried);
    }

    /// Closes the current frame: it is discarded and its last `carry_count`
    /// values are appended, in order, to the frame below.
    pub fn destack(&mut self, carry_count: usize)
        requires
            old(self)@.len() >= 2,
        ensures
            final(self)@ == closed(old(self)@, carry_count as nat),
    {
        let top = self.take_current();
        let mut carried = copy_top(&top, carry_count);
        let mut below = self.take_current();
        below.append(&mut carried);
        self.put_current(below);
    }
}

} // verus!

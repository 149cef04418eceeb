use vstd::prelude::*;

verus! {

/// A half-open `[start, end)` span of offsets into the current chunk.
#[derive(Clone, Copy, Debug, PartialEq, Eq, Structural)]
pub struct Range {
    pub start: usize,
    pub end: usize,
}

impl Range {
    /// The span is well formed inside a chunk of `len` bytes.
    pub open spec fn within(self, len: nat) -> bool {
        self.start <= self.end && self.end <= len
    }
}

/// Scan position inside the current chunk.
#[derive(Clone, Copy, Debug, PartialEq, Eq, Structural)]
pub struct Cursor {
    pub pos: usize,
}

impl Cursor {
    pub fn new() -> (r: Cursor)
        ensures
            r.pos == 0,
    {
        Cursor { pos: 0 }
    }

    pub fn pos(&self) -> (r: usize)
        ensures
            r == self.pos,
    {
        self.pos
    }
}

/// `v - offset`, or zero when `offset` exceeds `v`.
pub open spec fn aligned(v: usize, offset: usize) -> usize {
    if v >= offset {
        (v - offset) as usize
    } else {
        0
    }
}

/// Rebases an offset of the previous chunk onto a chunk that starts at `offset`.
pub fn align(v: &mut usize, offset: usize)
    ensures
        *final(v) == aligned(*old(v), offset),
{
    if *v >= offset {
        *v = *v - offset;
    } else {
        *v = 0;
    }
}

} // verus!

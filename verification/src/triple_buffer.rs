//! The index protocol of a triple buffer shared by one writer and one
//! reader.
//!
//! Three buffers are in play: the writer's, the reader's, and the back
//! buffer. A shared byte holds the back buffer's index in its low two bits
//! and, in bit 2, whether the writer has published into it since the reader
//! last took it. Each side changes the byte only by one atomic exchange, so
//! the sequence of exchanges is the whole story: [`Slots`] replays it.
use vstd::prelude::*;

verus! {

/// The bits of the shared byte that hold the back buffer's index.
pub const INDEX_MASK: u8 = 0b00000011;
/// The bit of the shared byte that marks a published back buffer.
pub const UPDATE_FLAG: u8 = 0b00000100;
/// The index of the buffer that starts as the back buffer.
pub const INIT_BACK_INDEX: u8 = 0;
/// The index of the buffer that the writer starts with.
pub const INIT_WRITE_INDEX: u8 = 1;
/// The index of the buffer that the reader starts with.
pub const INIT_READ_INDEX: u8 = 2;

/// The buffer index held in the shared byte `back`.
pub open spec fn index_spec(back: u8) -> int {
    back as int % 4
}

/// Whether the shared byte `back` marks a published buffer.
pub open spec fn updated_spec(back: u8) -> bool {
    (back as int / 4) % 2 == 1
}

proof fn lemma_byte(v: u8, i: u8)
    by (bit_vector)
    requires
        i < 4,
    ensures
        v & INDEX_MASK == v % 4,
        (v & UPDATE_FLAG != 0) == ((v / 4) % 2 == 1),
        (i | UPDATE_FLAG) % 4 == i,
        ((i | UPDATE_FLAG) / 4) % 2 == 1,
        i | UPDATE_FLAG < 8,
{
}

/// The shared byte with which the writer publishes buffer `index`.
pub fn publish(index: u8) -> (back: u8)
    requires
        index < 3,
    ensures
        back == index | UPDATE_FLAG,
        index_spec(back) == index,
        updated_spec(back),
        back < 8,
{
    proof {
        lemma_byte(index, index);
    }
    index | UPDATE_FLAG
}

/// The buffer index held in the shared byte `back`.
pub fn index_of(back: u8) -> (index: u8)
    ensures
        index == index_spec(back),
{
    proof {
        lemma_byte(back, 0);
    }
    back & INDEX_MASK
}

/// Whether the shared byte `back` marks a published buffer.
pub fn is_updated(back: u8) -> (r: bool)
    ensures
        r == updated_spec(back),
{
    proof {
        lemma_byte(back, 0);
    }
    back & UPDATE_FLAG != 0
}

/// The writer's and the reader's buffer indices and the shared byte.
#[derive(Clone, Copy, Debug, PartialEq, Eq, Structural)]
pub struct Slots {
    /// The buffer the writer fills.
    pub write: u8,
    /// The buffer the reader shows.
    pub read: u8,
    /// The shared byte.
    pub back: u8,
}

impl Slots {
    /// The three buffers are distinct and each index names one of them.
    pub open spec fn wf(&self) -> bool {
        &&& self.write < 3
        &&& self.read < 3
        &&& index_spec(self.back) < 3
        &&& self.write != self.read
        &&& self.write != index_spec(self.back)
        &&& self.read != index_spec(self.back)
    }

    /// The starting slots: nothing published.
    pub fn new() -> (s: Slots)
        ensures
            s.wf(),
            s.write == INIT_WRITE_INDEX,
            s.read == INIT_READ_INDEX,
            index_spec(s.back) == INIT_BACK_INDEX,
            !updated_spec(s.back),
    {
        Slots { write: INIT_WRITE_INDEX, read: INIT_READ_INDEX, back: INIT_BACK_INDEX }
    }

    /// `n` is `self` after the writer publishes its buffer: that buffer
    /// becomes the back buffer, marked published, and the writer goes on
    /// with the old back buffer.
    pub open spec fn writer_swapped(&self, n: Slots) -> bool {
        &&& n.back == self.write | UPDATE_FLAG
        &&& index_spec(n.back) == self.write
        &&& updated_spec(n.back)
        &&& n.write == index_spec(self.back)
        &&& n.read == self.read
    }

    /// `n` is `self` after the reader looks for a published buffer: if
    /// there is one, the reader takes it and hands its own buffer back
    /// unmarked; otherwise nothing changes.
    pub open spec fn reader_swapped(&self, n: Slots) -> bool {
        &&& updated_spec(self.back) ==> {
            &&& n.read == index_spec(self.back)
            &&& n.back == self.read
            &&& n.write == self.write
        }
        &&& !updated_spec(self.back) ==> n == *self
    }

    /// The writer publishes its buffer.
    pub fn writer_swap(&mut self)
        requires
            old(self).wf(),
        ensures
            final(self).wf(),
            old(self).writer_swapped(*final(self)),
    {
        let new_back = publish(self.write);
        let old_back = self.back;
        self.back = new_back;
        self.write = index_of(old_back);
    }

    /// The reader takes the back buffer if it was published.
    pub fn reader_swap(&mut self)
        requires
            old(self).wf(),
        ensures
            final(self).wf(),
            old(self).reader_swapped(*final(self)),
            !updated_spec(final(self).back),
    {
        if is_updated(self.back) {
            let new_back = self.read;
            let old_back = self.back;
            self.back = new_back;
            self.read = index_of(old_back);
        }
    }
}

/// What the writer publishes is what the reader takes next: after the
/// writer swaps, the reader's swap hands it the buffer that the writer had
/// filled, and the three buffers stay distinct.
pub proof fn lemma_reader_takes_latest(s: Slots, w: Slots, r: Slots)
    requires
        s.wf(),
        s.writer_swapped(w),
        w.reader_swapped(r),
    ensures
        r.read == s.write,
        r.wf(),
{
}

} // verus!

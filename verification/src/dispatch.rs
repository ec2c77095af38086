//! A bus that dispatches each address to a read handler and a write
//! handler, kept in one table entry per address.
use vstd::prelude::*;

verus! {

/// The handler tables: entry `a` holds the handlers of address `a`.
pub struct Bus<R, W> {
    /// The read handler of each address.
    pub readers: Vec<R>,
    /// The write handler of each address.
    pub writers: Vec<W>,
}

impl<R: Copy, W: Copy> Bus<R, W> {
    /// Creates tables of `n` addresses, each with the default handlers.
    pub fn new(n: usize, read_default: R, write_default: W) -> (bus: Bus<R, W>)
        ensures
            bus.readers@ == Seq::new(n as nat, |i: int| read_default),
            bus.writers@ == Seq::new(n as nat, |i: int| write_default),
    {
        let mut readers: Vec<R> = Vec::new();
        let mut writers: Vec<W> = Vec::new();
        let mut i: usize = 0;
        while i < n
            invariant
                i <= n,
                readers@ == Seq::new(i as nat, |k: int| read_default),
                writers@ == Seq::new(i as nat, |k: int| write_default),
            decreases n - i,
        {
            readers.push(read_default);
            writers.push(write_default);
            i = i + 1;
            assert(readers@ =~= Seq::new(i as nat, |k: int| read_default));
            assert(writers@ =~= Seq::new(i as nat, |k: int| write_default));
        }
        Bus { readers, writers }
    }

    /// Installs `reader` and `writer`, where given, for every address from
    /// `start` to `end` inclusive; other addresses keep their handlers.
    pub fn set(&mut self, start: u16, end: u16, reader: Option<R>, writer: Option<W>)
        requires
            start <= end ==> (end as int) < old(self).readers@.len(),
            start <= end ==> (end as int) < old(self).writers@.len(),
        ensures
            final(self).readers@.len() == old(self).readers@.len(),
            final(self).writers@.len() == old(self).writers@.len(),
            forall|a: int|
                0 <= a < old(self).readers@.len() ==> #[trigger] final(self).readers@[a] == if start
                    <= a <= end && reader is Some {
                    reader->0
                } else {
                    old(self).readers@[a]
                },
            forall|a: int|
                0 <= a < old(self).writers@.len() ==> #[trigger] final(self).writers@[a] == if start
                    <= a <= end && writer is Some {
                    writer->0
                } else {
                    old(self).writers@[a]
                },
    {
        let mut addr: u32 = start as u32;
        while addr <= end as u32
            invariant
                start <= addr <= end as int + 1 || (start > end && addr == start),
                start <= end ==> (end as int) < old(self).readers@.len(),
                start <= end ==> (end as int) < old(self).writers@.len(),
                self.readers@.len() == old(self).readers@.len(),
                self.writers@.len() == old(self).writers@.len(),
                forall|a: int|
                    0 <= a < old(self).readers@.len() ==> #[trigger] self.readers@[a] == if start
                        <= a < addr && reader is Some {
                        reader->0
                    } else {
                        old(self).readers@[a]
                    },
                forall|a: int|
                    0 <= a < old(self).writers@.len() ==> #[trigger] self.writers@[a] == if start
                        <= a < addr && writer is Some {
                        writer->0
                    } else {
                        old(self).writers@[a]
                    },
            decreases end as int + 1 - addr,
        {
            if let Some(reader) = reader {
                self.readers.set(addr as usize, reader);
            }
            if let Some(writer) = writer {
                self.writers.set(addr as usize, writer);
            }
            addr = addr + 1;
        }
    }

    /// The read handler of `addr`.
    pub fn reader(&self, addr: u16) -> (r: R)
        requires
            (addr as int) < self.readers@.len(),
        ensures
            r == self.readers@[addr as int],
    {
        self.readers[addr as usize]
    }

    /// The write handler of `addr`.
    pub fn writer(&self, addr: u16) -> (w: W)
        requires
            (addr as int) < self.writers@.len(),
        ensures
            w == self.writers@[addr as int],
    {
        self.writers[addr as usize]
    }
}

} // verus!

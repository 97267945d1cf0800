//! Received data on its way to the reader.
use vstd::prelude::*;

use crate::pbuf::Pbuf;

verus! {

/// A received buffer on its way to the reader: the connection it came from, the
/// buffer, if there is one, and how much of it was read.
pub struct ReadItem {
    t_pcb: usize,
    p: Option<Pbuf>,
    offset: usize,
}

/// What is owed to lwIP for a buffer that was read to its end.
#[derive(Clone, Copy, Debug, PartialEq, Eq, Structural)]
pub struct Recved {
    /// The buffer to be freed.
    pub free: usize,
    /// The connection whose receive window grows again.
    pub t_pcb: usize,
    /// By how much it grows.
    pub len: u16,
}

impl ReadItem {
    #[verifier::type_invariant]
    spec fn inv(self) -> bool {
        match self.p {
            Some(p) => self.offset <= p@.len() <= 0xffff,
            None => true,
        }
    }

    /// The connection that the item came from.
    pub closed spec fn pcb(self) -> usize {
        self.t_pcb
    }

    /// The buffer of the item.
    pub closed spec fn buffer(self) -> Option<Pbuf> {
        self.p
    }

    /// How many bytes of the buffer were read.
    pub closed spec fn consumed(self) -> nat {
        self.offset as nat
    }

    /// The bytes that are still to be read.
    pub open spec fn unread(self) -> Seq<u8> {
        match self.buffer() {
            Some(p) => p@.skip(self.consumed() as int),
            None => Seq::empty(),
        }
    }

    /// Where the buffer stands that goes with the item.
    pub open spec fn held(self) -> Option<usize> {
        match self.buffer() {
            Some(p) => Some(p.at()),
            None => None,
        }
    }

    /// Whether this is the item that marks the end of the data.
    pub open spec fn is_null(self) -> bool {
        &&& self.pcb() == 0
        &&& self.buffer() is None
        &&& self.consumed() == 0
    }

    /// The item that marks the end of the data.
    pub fn new_null() -> (r: ReadItem)
        ensures
            r.is_null(),
    {
        ReadItem { t_pcb: 0, p: None, offset: 0 }
    }

    /// An item for a buffer of which nothing was read yet.
    pub fn new(t_pcb: usize, p: Option<Pbuf>) -> (r: ReadItem)
        ensures
            r.pcb() == t_pcb,
            r.buffer() == p,
            r.consumed() == 0,
    {
        if let Some(p) = &p {
            proof {
                use_type_invariant(p);
            }
        }
        ReadItem { t_pcb, p, offset: 0 }
    }

    /// Whether nothing is left to be read.
    pub fn is_empty(&self) -> (r: bool)
        ensures
            r == (self.unread().len() == 0),
    {
        proof {
            use_type_invariant(self);
        }
        match &self.p {
            None => true,
            Some(p) => p.tot_len() as usize == self.offset,
        }
    }

    /// The number of bytes that are left to be read.
    pub fn len(&self) -> (r: usize)
        ensures
            r == self.unread().len(),
            r <= 0xffff,
    {
        proof {
            use_type_invariant(self);
        }
        match &self.p {
            None => 0,
            Some(p) => p.tot_len() as usize - self.offset,
        }
    }

    /// Moves as many bytes as `buf` takes to its front, and returns how many.
    pub fn read(&mut self, buf: &mut [u8]) -> (n: usize)
        requires
            old(self).buffer() is Some,
        ensures
            n == min(old(buf)@.len() as int, old(self).unread().len() as int),
            final(buf)@ == old(self).unread().take(n as int) + old(buf)@.skip(n as int),
            rest_of(*old(self), n as int, *final(self)),
    {
        proof {
            use_type_invariant(&*self);
        }
        let room: usize = buf.len();
        let left: usize = self.len();
        let n: usize = if room < left { room } else { left };
        let offset: usize = self.offset;
        if let Some(p) = &self.p {
            p.copy_partial(buf, n, offset);
        }
        self.offset = offset + n;
        assert(self.unread() =~= old(self).unread().skip(n as int));
        n
    }

    /// Gives up a buffer that was read: what is owed to lwIP for it.
    pub fn recved(self) -> (r: Recved)
        requires
            self.buffer() is Some,
        ensures
            Some(r.free) == self.held(),
            r.t_pcb == self.pcb(),
            r.len == self.buffer()->0@.len(),
    {
        match &self.p {
            Some(p) => Recved { free: p.addr(), t_pcb: self.t_pcb, len: p.tot_len() },
            None => Recved { free: 0, t_pcb: self.t_pcb, len: 0 },
        }
    }

    /// Hands the buffer back: the item that is left holds none, so that nothing
    /// is freed with it.
    pub fn back(self) -> (r: ReadItem)
        ensures
            r.buffer() is None,
            r.pcb() == 0,
            r.consumed() == self.consumed(),
    {
        ReadItem { t_pcb: 0, p: None, offset: self.offset }
    }

    /// Discards the item: the buffer to be freed with it.
    pub fn discard(self) -> (r: Option<usize>)
        ensures
            r == self.held(),
    {
        match &self.p {
            Some(p) => Some(p.addr()),
            None => None,
        }
    }
}

/// The item `after` is what is left of `item` when `n` bytes were read.
pub open spec fn rest_of(item: ReadItem, n: int, after: ReadItem) -> bool {
    &&& after.pcb() == item.pcb()
    &&& after.buffer() == item.buffer()
    &&& after.consumed() == item.consumed() + n
    &&& after.unread() == item.unread().skip(n)
}

/// Reading an item in two pieces gives the bytes that reading it at once gives, and
/// leaves the same behind.
pub proof fn law_read_in_pieces(item: ReadItem, n: int, middle: ReadItem, m: int, after: ReadItem)
    requires
        0 <= n <= item.unread().len(),
        rest_of(item, n, middle),
        0 <= m <= middle.unread().len(),
        rest_of(middle, m, after),
    ensures
        item.unread().take(n) + middle.unread().take(m) == item.unread().take(n + m),
        rest_of(item, n + m, after),
{
    assert(item.unread().take(n) + middle.unread().take(m) =~= item.unread().take(n + m));
    assert(after.unread() =~= item.unread().skip(n + m));
}

/// The smaller of two numbers.
pub open spec fn min(a: int, b: int) -> int {
    if a < b {
        a
    } else {
        b
    }
}

} // verus!

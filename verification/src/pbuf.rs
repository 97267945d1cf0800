//! Packet buffers.
use vstd::prelude::*;

verus! {

/// A packet buffer of lwIP: where it stands, and the bytes of its whole chain
/// in order.
///
/// The total length of a chain is a 16-bit number in lwIP.
pub struct Pbuf {
    addr: usize,
    payload: Vec<u8>,
}

impl View for Pbuf {
    type V = Seq<u8>;

    closed spec fn view(&self) -> Seq<u8> {
        self.payload@
    }
}

impl Pbuf {
    /// The length of a buffer fits in 16 bits.
    #[verifier::type_invariant]
    pub open spec fn wf(self) -> bool {
        self@.len() <= 0xffff
    }

    /// Where the buffer stands.
    pub closed spec fn at(self) -> usize {
        self.addr
    }

    /// The buffer at `addr` with the given bytes.
    pub fn new(addr: usize, payload: Vec<u8>) -> (r: Pbuf)
        requires
            payload@.len() <= 0xffff,
        ensures
            r@ == payload@,
            r.at() == addr,
    {
        Pbuf { addr, payload }
    }

    /// Where the buffer stands.
    pub fn addr(&self) -> (r: usize)
        ensures
            r == self.at(),
    {
        self.addr
    }

    /// The number of bytes in the whole chain.
    pub fn tot_len(&self) -> (r: u16)
        ensures
            r == self@.len(),
    {
        proof {
            use_type_invariant(self);
        }
        self.payload.len() as u16
    }

    /// The bytes of the whole chain.
    pub fn into_bytes(self) -> (r: Vec<u8>)
        ensures
            r@ == self@,
    {
        self.payload
    }

    /// Copies `len` bytes, from `offset` on, to the front of `buf`.
    pub fn copy_partial(&self, buf: &mut [u8], len: usize, offset: usize)
        requires
            len <= old(buf)@.len(),
            offset + len <= self@.len(),
        ensures
            final(buf)@ == self@.subrange(offset as int, offset + len) + old(buf)@.skip(len as int),
    {
        proof {
            use_type_invariant(self);
        }
        let mut i: usize = 0;
        while i < len
            invariant
                self.payload@.len() <= 0xffff,
                i <= len,
                len <= buf@.len(),
                buf@.len() == old(buf)@.len(),
                offset + len <= self.payload@.len(),
                forall|j: int| 0 <= j < i ==> buf@[j] == self.payload@[offset + j],
                forall|j: int| i <= j < buf@.len() ==> buf@[j] == old(buf)@[j],
            decreases len - i,
        {
            buf[i] = self.payload[offset + i];
            i += 1;
        }
    }
}

} // verus!

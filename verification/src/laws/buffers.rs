//! Packet buffers and received data.
use vstd::prelude::*;

use crate::pbuf::Pbuf;
use crate::read_item::{ReadItem, Recved};

verus! {

/// A buffer has the bytes, the length and the place that it was made with.
pub proof fn law_buffer_keeps_its_bytes(
    addr: usize,
    payload: Vec<u8>,
    p: Pbuf,
    bytes: Vec<u8>,
    at: usize,
    len: u16,
)
    requires
        payload@.len() <= 0xffff,
        call_ensures(Pbuf::new, (addr, payload), p),
        call_ensures(Pbuf::into_bytes, (p,), bytes),
        call_ensures(Pbuf::addr, (&p,), at),
        call_ensures(Pbuf::tot_len, (&p,), len),
    ensures
        bytes@ == payload@,
        p@ == payload@,
        at == addr,
        len == payload@.len(),
{
}

/// A copy of a part of a buffer has the bytes that the buffer was made with, and touches
/// nothing behind them.
pub proof fn law_copy_is_of_the_bytes(
    addr: usize,
    payload: Vec<u8>,
    p: Pbuf,
    buf: &mut [u8],
    len: usize,
    offset: usize,
)
    requires
        call_ensures(Pbuf::new, (addr, payload), p),
        offset + len <= payload@.len(),
        len <= old(buf)@.len(),
        call_ensures(Pbuf::copy_partial, (&p, buf, len, offset), ()),
    ensures
        final(buf)@.len() == old(buf)@.len(),
        forall|i: int| 0 <= i < len ==> #[trigger] final(buf)@[i] == payload@[offset + i],
        forall|i: int| len <= i < old(buf)@.len() ==> #[trigger] final(buf)@[i] == old(buf)@[i],
{
}

/// What is still to be read of an item are the bytes of its buffer behind those that were
/// read, and nothing else.
pub proof fn law_unread_is_the_rest_of_the_buffer(item: ReadItem, p: Pbuf)
    requires
        item.buffer() == Some(p),
        item.consumed() <= p@.len(),
    ensures
        item.unread().len() == p@.len() - item.consumed(),
        forall|i: int|
            0 <= i < p@.len() - item.consumed() ==> #[trigger] item.unread()[i]
                == p@[item.consumed() + i],
        item.consumed() == 0 ==> item.unread() == p@,
{
    if item.consumed() == 0 {
        assert(item.unread() =~= p@);
    }
}

/// A new item holds the buffer that it was made for, and nothing of it was read.
pub proof fn law_new_item_is_unread(t_pcb: usize, p: Pbuf, item: ReadItem, len: usize, empty: bool)
    requires
        call_ensures(ReadItem::new, (t_pcb, Some(p)), item),
        call_ensures(ReadItem::len, (&item,), len),
        call_ensures(ReadItem::is_empty, (&item,), empty),
    ensures
        item.pcb() == t_pcb,
        item.buffer() == Some(p),
        item.consumed() == 0,
        len == p@.len(),
        empty == (p@.len() == 0),
{
}

/// An item is as long as what of its buffer was not read, and empty when that is nothing.
pub proof fn law_item_has_what_is_left(item: ReadItem, p: Pbuf, len: usize, empty: bool)
    requires
        item.buffer() == Some(p),
        item.consumed() <= p@.len(),
        call_ensures(ReadItem::len, (&item,), len),
        call_ensures(ReadItem::is_empty, (&item,), empty),
    ensures
        len + item.consumed() == p@.len(),
        empty <==> item.consumed() == p@.len(),
{
}

/// Of a buffer of which `k` bytes were read, a read gives the bytes from number `k` on: as
/// many as there are, or as many as the reader takes. The rest of the reader's buffer
/// stays, and so does the item, but for what was read of it.
pub proof fn law_read_gives_the_next_bytes(item: &mut ReadItem, p: Pbuf, buf: &mut [u8], n: usize)
    requires
        old(item).buffer() == Some(p),
        old(item).consumed() <= p@.len(),
        call_ensures(ReadItem::read, (item, buf), n),
    ensures
        ({
            let k = old(item).consumed() as int;
            &&& n <= old(buf)@.len()
            &&& k + n <= p@.len()
            &&& n == old(buf)@.len() || k + n == p@.len()
            &&& final(buf)@.len() == old(buf)@.len()
            &&& final(buf)@.take(n as int) == p@.subrange(k, k + n)
            &&& forall|i: int|
                n <= i < old(buf)@.len() ==> #[trigger] final(buf)@[i] == old(buf)@[i]
            &&& final(item).consumed() == k + n
            &&& final(item).buffer() == Some(p)
            &&& final(item).pcb() == old(item).pcb()
        }),
{
    let k = old(item).consumed() as int;
    assert(final(buf)@.take(n as int) =~= p@.subrange(k, k + n));
}

/// Two reads from a new item give its bytes one after the other.
pub proof fn law_two_reads_follow_each_other(
    t_pcb: usize,
    addr: usize,
    payload: Vec<u8>,
    p: Pbuf,
    item: &mut ReadItem,
    first: &mut [u8],
    n: usize,
    rest: &mut ReadItem,
    second: &mut [u8],
    m: usize,
)
    requires
        payload@.len() <= 0xffff,
        call_ensures(Pbuf::new, (addr, payload), p),
        call_ensures(ReadItem::new, (t_pcb, Some(p)), *old(item)),
        call_ensures(ReadItem::read, (item, first), n),
        *old(rest) == *final(item),
        call_ensures(ReadItem::read, (rest, second), m),
    ensures
        n + m <= payload@.len(),
        final(first)@.take(n as int) + final(second)@.take(m as int) == payload@.take(n + m),
{
    assert(final(first)@.take(n as int) + final(second)@.take(m as int) =~= payload@.take(n + m));
}

/// For an item that is given up, lwIP gets its buffer and its connection back, and the
/// window grows by the length of the buffer; an item that is discarded gives up its
/// buffer.
pub proof fn law_item_gives_its_buffer_back(
    item: ReadItem,
    p: Pbuf,
    at: usize,
    recved: Recved,
    free: Option<usize>,
)
    requires
        item.buffer() == Some(p),
        call_ensures(Pbuf::addr, (&p,), at),
        call_ensures(ReadItem::recved, (item,), recved),
        call_ensures(ReadItem::discard, (item,), free),
    ensures
        recved.free == at,
        recved.t_pcb == item.pcb(),
        recved.len == p@.len(),
        free == Some(at),
{
}

/// An item without a buffer has nothing to be read and gives nothing up: the marker of the
/// end, one that was made without a buffer, and one whose buffer was handed back.
pub proof fn law_item_without_buffer(
    marker: ReadItem,
    t_pcb: usize,
    bare: ReadItem,
    item: ReadItem,
    back: ReadItem,
)
    requires
        call_ensures(ReadItem::new_null, (), marker),
        call_ensures(ReadItem::new, (t_pcb, None::<Pbuf>), bare),
        call_ensures(ReadItem::back, (item,), back),
    ensures
        marker.buffer() is None,
        marker.consumed() == 0,
        bare.buffer() is None,
        back.buffer() is None,
        forall|some: ReadItem, len: usize|
            some.buffer() is None && #[trigger] call_ensures(ReadItem::len, (&some,), len) ==> len
                == 0,
        forall|some: ReadItem, empty: bool|
            some.buffer() is None && #[trigger] call_ensures(ReadItem::is_empty, (&some,), empty)
                ==> empty,
        forall|some: ReadItem, free: Option<usize>|
            some.buffer() is None && #[trigger] call_ensures(ReadItem::discard, (some,), free)
                ==> free is None,
{
}

} // verus!

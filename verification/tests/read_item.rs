use netstack::pbuf::Pbuf;
use netstack::read_item::{ReadItem, Recved};

fn item(bytes: &[u8]) -> ReadItem {
    ReadItem::new(7, Some(Pbuf::new(0x1000, bytes.to_vec())))
}

#[test]
fn null_item_is_empty() {
    let item = ReadItem::new_null();
    assert!(item.is_empty());
    assert_eq!(item.len(), 0);
    assert_eq!(item.discard(), None);
}

#[test]
fn item_without_bytes_is_empty_but_holds_a_buffer() {
    let item = item(&[]);
    assert!(item.is_empty());
    assert_eq!(item.len(), 0);
    assert_eq!(item.discard(), Some(0x1000));
}

#[test]
fn item_is_read_in_pieces() {
    let mut item = item(&[1, 2, 3, 4, 5]);
    assert_eq!(item.len(), 5);
    let mut buf = [0u8; 2];
    assert_eq!(item.read(&mut buf), 2);
    assert_eq!(buf, [1, 2]);
    assert_eq!(item.len(), 3);
    let mut buf = [9u8; 8];
    assert_eq!(item.read(&mut buf), 3);
    assert_eq!(buf, [3, 4, 5, 9, 9, 9, 9, 9]);
    assert!(item.is_empty());
    assert_eq!(item.read(&mut buf), 0);
    assert_eq!(buf, [3, 4, 5, 9, 9, 9, 9, 9]);
}

#[test]
fn reading_into_nothing_moves_nothing() {
    let mut item = item(&[1]);
    assert_eq!(item.read(&mut []), 0);
    assert_eq!(item.len(), 1);
}

#[test]
fn read_buffer_is_settled_in_full() {
    let mut item = item(&[1, 2, 3]);
    item.read(&mut [0u8; 3]);
    assert_eq!(item.recved(), Recved { free: 0x1000, t_pcb: 7, len: 3 });
}

#[test]
fn longest_buffer_is_settled_in_full() {
    let item = item(&[0u8; 65535]);
    assert_eq!(item.len(), 65535);
    assert_eq!(item.recved().len, 65535);
}

#[test]
fn buffer_that_is_handed_back_is_not_freed() {
    let rest = item(&[1, 2, 3]).back();
    assert!(rest.is_empty());
    assert_eq!(rest.discard(), None);
}

#[test]
fn buffers_are_copied_from_an_offset() {
    let p = Pbuf::new(1, vec![10, 11, 12, 13]);
    assert_eq!(p.tot_len(), 4);
    assert_eq!(p.addr(), 1);
    let mut buf = [0u8; 4];
    p.copy_partial(&mut buf, 2, 1);
    assert_eq!(buf, [11, 12, 0, 0]);
    assert_eq!(p.into_bytes(), vec![10, 11, 12, 13]);
}

use irc_tui::client::ringbuffer::{BufferError, RingBuffer};
use irc_tui::fifobuffer::{inc, inc_qty, FifoBuffer};

fn fill(buffer: &mut RingBuffer, data: &[u8]) -> Result<(), BufferError> {
    let (a, b) = buffer.slices();
    let k = a.len().min(data.len());
    a[..k].copy_from_slice(&data[..k]);
    let rest = &data[k..];
    let m = b.len().min(rest.len());
    b[..m].copy_from_slice(&rest[..m]);
    buffer.wrote(data.len())
}

#[test]
fn empty_buffer_offers_one_region_of_usable_capacity() {
    let mut buffer = RingBuffer::new(16);
    assert_eq!(buffer.unread(), 0);
    let (a, b) = buffer.slices();
    assert_eq!(a.len(), 15);
    assert_eq!(b.len(), 0);
}

#[test]
fn full_buffer_offers_no_room() {
    let mut buffer = RingBuffer::new(16);
    let data: Vec<u8> = (1..16).collect();
    assert_eq!(fill(&mut buffer, &data), Ok(()));
    assert_eq!(buffer.unread(), 15);
    let (a, b) = buffer.slices();
    assert_eq!(a.len() + b.len(), 0);
    assert_eq!(buffer.wrote(1), Err(BufferError::OverCommit));
    assert_eq!(buffer.unread(), 15);
}

#[test]
fn overcommit_is_rejected() {
    let mut buffer = RingBuffer::new(8);
    assert_eq!(buffer.wrote(8), Err(BufferError::OverCommit));
    assert_eq!(buffer.unread(), 0);
    assert_eq!(buffer.wrote(7), Ok(()));
    assert_eq!(buffer.unread(), 7);
}

#[test]
fn pattern_across_the_end_of_the_ring_is_found_at_its_offset() {
    let mut buffer = RingBuffer::new(16);
    let data: Vec<u8> = (1..16).collect();
    assert_eq!(fill(&mut buffer, &data), Ok(()));
    assert_eq!(buffer.consume(8), Some((1..9).collect::<Vec<u8>>()));
    {
        let (a, b) = buffer.slices();
        assert_eq!(a.len(), 1);
        assert_eq!(b.len(), 7);
    }
    let more = [0xAA, 0xBB, 20, 21, 22, 23, 24, 25];
    assert_eq!(fill(&mut buffer, &more), Ok(()));
    assert_eq!(buffer.unread(), 15);
    assert_eq!(buffer.find_first(&[0xAA, 0xBB]), Some(7));
    assert_eq!(buffer.find_first(&[15, 0xAA, 0xBB, 20]), Some(6));
    assert_eq!(buffer.find_first(&[0xBB, 0xAA]), None);
    let all = buffer.consume(100).unwrap();
    assert_eq!(all, vec![9, 10, 11, 12, 13, 14, 15, 0xAA, 0xBB, 20, 21, 22, 23, 24, 25]);
    assert_eq!(buffer.unread(), 0);
}

#[test]
fn find_first_on_empty_buffer_is_none() {
    let buffer = RingBuffer::new(4);
    assert_eq!(buffer.find_first(&[13, 10]), None);
}

#[test]
fn consume_on_empty_buffer_is_none() {
    let mut buffer = RingBuffer::new(4);
    assert_eq!(buffer.consume(3), None);
}

#[test]
fn consume_takes_at_most_what_is_unread() {
    let mut buffer = RingBuffer::new(10);
    assert_eq!(fill(&mut buffer, b"hello"), Ok(()));
    assert_eq!(buffer.consume(2), Some(b"he".to_vec()));
    assert_eq!(buffer.consume(0), Some(Vec::new()));
    assert_eq!(buffer.consume(9), Some(b"llo".to_vec()));
    assert_eq!(buffer.consume(1), None);
}

#[test]
fn discard_is_clamped_and_works_across_the_end() {
    let mut buffer = RingBuffer::new(8);
    assert_eq!(fill(&mut buffer, b"abcdef"), Ok(()));
    buffer.discard(5);
    assert_eq!(fill(&mut buffer, b"ghij"), Ok(()));
    assert_eq!(buffer.unread(), 5);
    buffer.discard(2);
    assert_eq!(buffer.consume(10), Some(b"hij".to_vec()));
    assert_eq!(fill(&mut buffer, b"xy"), Ok(()));
    buffer.discard(100);
    assert_eq!(buffer.unread(), 0);
}

#[test]
fn unread_never_exceeds_capacity_less_one() {
    let mut buffer = RingBuffer::new(5);
    for round in 0..20u8 {
        let (a, b) = buffer.slices();
        let room = a.len() + b.len();
        let data = vec![round; room];
        assert_eq!(fill(&mut buffer, &data), Ok(()));
        assert_eq!(buffer.unread(), 4);
        let taken = buffer.consume((round as usize % 4) + 1).unwrap();
        assert!(taken.len() <= 4);
        assert!(buffer.unread() <= 4);
    }
}

#[test]
fn consumed_bytes_are_those_committed_in_order() {
    let mut buffer = RingBuffer::new(6);
    let mut expected: Vec<u8> = Vec::new();
    let mut got: Vec<u8> = Vec::new();
    let mut next: u8 = 0;
    for step in 0..30usize {
        let want = step % 4 + 1;
        let (a, b) = buffer.slices();
        let room = a.len() + b.len();
        let n = want.min(room);
        let data: Vec<u8> = (0..n).map(|i| next.wrapping_add(i as u8)).collect();
        next = next.wrapping_add(n as u8);
        expected.extend_from_slice(&data);
        assert_eq!(fill(&mut buffer, &data), Ok(()));
        if let Some(bytes) = buffer.consume(step % 3 + 1) {
            got.extend_from_slice(&bytes);
        }
    }
    while let Some(bytes) = buffer.consume(3) {
        got.extend_from_slice(&bytes);
    }
    assert_eq!(got, expected);
}

#[test]
fn ring_steps_wrap_round() {
    assert_eq!(inc(3, 4), 0);
    assert_eq!(inc(1, 4), 2);
    assert_eq!(inc_qty(3, 4, 3), 2);
    assert_eq!(inc_qty(0, 4, 4), 0);
    assert_eq!(inc_qty(usize::MAX - 1, usize::MAX, 5), 4);
}

#[test]
fn fifo_buffer_frames_like_the_ring() {
    let mut fifo = FifoBuffer::new(8);
    {
        let (a, b) = fifo.get_vector_for_writing();
        assert_eq!(a.len(), 7);
        assert_eq!(b.len(), 0);
        a[..4].copy_from_slice(b"ab\r\n");
    }
    assert_eq!(fifo.wrote(4), Ok(()));
    assert_eq!(fifo.find_first(&[13, 10]), Some(2));
    assert_eq!(fifo.consume(2), Some(b"ab".to_vec()));
    fifo.discard(2);
    assert_eq!(fifo.consume(1), None);
    assert_eq!(fifo.wrote(8), Err(BufferError::OverCommit));
}

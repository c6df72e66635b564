use myr::results_buffer::ResultsRingBuffer;

#[test]
fn keeps_memory_bounded_to_capacity() {
    let mut buffer = ResultsRingBuffer::new(3);
    buffer.push("r1");
    buffer.push("r2");
    buffer.push("r3");
    buffer.push("r4");

    assert_eq!(buffer.len(), 3);
    assert_eq!(buffer.total_rows_seen(), 4);
    assert_eq!(buffer.get(0), Some(&"r2"));
    assert_eq!(buffer.get(1), Some(&"r3"));
    assert_eq!(buffer.get(2), Some(&"r4"));
}

#[test]
fn visible_rows_returns_requested_window() {
    let mut buffer = ResultsRingBuffer::new(5);
    buffer.push(10);
    buffer.push(20);
    buffer.push(30);
    buffer.push(40);

    let rows = buffer.visible_rows(1, 2);
    assert_eq!(rows, vec![&20, &30]);
}

#[test]
fn index_metadata_tracks_stream_position() {
    let mut buffer = ResultsRingBuffer::new(2);
    buffer.push("a");
    buffer.push("b");
    buffer.push("c");

    assert_eq!(buffer.total_rows_seen(), 3);
    assert_eq!(buffer.earliest_buffered_index(), 1);
    assert_eq!(buffer.latest_buffered_index(), Some(2));
}

#[test]
fn many_pushes_keep_len_within_capacity_and_count_every_row() {
    let mut buffer = ResultsRingBuffer::new(4);
    assert!(buffer.is_empty());
    assert_eq!(buffer.latest_buffered_index(), None);
    for i in 0..10u32 {
        buffer.push(i);
        assert!(buffer.len() <= buffer.capacity());
        assert_eq!(buffer.total_rows_seen(), u64::from(i) + 1);
        assert_eq!(buffer.latest_buffered_index(), Some(u64::from(i)));
    }
    assert_eq!(buffer.earliest_buffered_index(), 6);
    assert_eq!(buffer.visible_rows(0, 10), vec![&6, &7, &8, &9]);
    assert_eq!(buffer.get(4), None);
}

#[test]
fn windows_outside_the_buffer_are_empty() {
    let mut buffer = ResultsRingBuffer::new(3);
    buffer.push(1);
    assert!(buffer.visible_rows(1, 5).is_empty());
    assert!(buffer.visible_rows(0, 0).is_empty());
}

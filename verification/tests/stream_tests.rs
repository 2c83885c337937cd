use rnet_core::error::Error;
use rnet_core::stream::{ChunkItem, ChunkQueue, PullOutcome};

#[test]
fn chunks_come_out_in_arrival_order() {
    let mut q = ChunkQueue::new(8);
    assert!(q.push(ChunkItem::Data(vec![1])));
    assert!(q.push(ChunkItem::Data(vec![2])));
    assert!(q.push(ChunkItem::Data(vec![3])));
    assert!(matches!(q.pull(), PullOutcome::Chunk(c) if c == vec![1]));
    assert!(matches!(q.pull(), PullOutcome::Chunk(c) if c == vec![2]));
    assert!(matches!(q.pull(), PullOutcome::Chunk(c) if c == vec![3]));
}

#[test]
fn empty_live_queue_is_pending_and_drained_done_queue_is_exhausted() {
    let mut q = ChunkQueue::new(4);
    assert!(matches!(q.pull(), PullOutcome::Pending));
    q.push(ChunkItem::Data(vec![7]));
    q.finish();
    assert!(matches!(q.pull(), PullOutcome::Chunk(c) if c == vec![7]));
    assert!(matches!(q.pull(), PullOutcome::Exhausted));
    assert!(matches!(q.pull(), PullOutcome::Exhausted));
}

#[test]
fn upstream_fault_surfaces_at_its_position() {
    let mut q = ChunkQueue::new(4);
    q.push(ChunkItem::Data(vec![1]));
    q.push(ChunkItem::Fault(Error::Transport));
    assert!(matches!(q.pull(), PullOutcome::Chunk(_)));
    assert!(matches!(q.pull(), PullOutcome::Fault(Error::Transport)));
}

#[test]
fn capacity_bounds_the_buffer() {
    let mut q = ChunkQueue::new(2);
    assert!(q.push(ChunkItem::Data(vec![1])));
    assert!(q.push(ChunkItem::Data(vec![2])));
    assert!(!q.push(ChunkItem::Data(vec![3])));
    q.pull();
    assert!(q.push(ChunkItem::Data(vec![3])));
}

#[test]
fn abandoning_a_ten_chunk_stream_after_three_releases_once() {
    // A ten-chunk body whose iterator is abandoned after three chunks: the
    // first close (the scoped-resource exit) asks for the release of the
    // underlying stream, exactly once; the pump's later offers are
    // rejected so nothing leaks.
    let mut q = ChunkQueue::new(16);
    for i in 0..10u8 {
        assert!(q.push(ChunkItem::Data(vec![i])));
    }
    for _ in 0..3 {
        assert!(matches!(q.pull(), PullOutcome::Chunk(_)));
    }
    let release_now = q.close();
    assert!(release_now);
    let release_again = q.close();
    assert!(!release_again);
    assert!(!q.push(ChunkItem::Data(vec![99])));
    assert!(matches!(q.pull(), PullOutcome::Exhausted));
}

#[test]
fn close_discards_buffered_chunks() {
    let mut q = ChunkQueue::new(4);
    q.push(ChunkItem::Data(vec![1]));
    q.close();
    assert!(matches!(q.pull(), PullOutcome::Exhausted));
}

use sys_voice::queue::{BoundedQueue, OfferOutcome, PopOutcome, PublishOutcome};

#[test]
fn lossy_publish_drops_the_newest_once_full() {
    let mut q: BoundedQueue<u32> = BoundedQueue::new(2);
    assert!(q.producer_attached());
    assert!(q.consumer_attached());
    assert_eq!(q.publish_lossy(1), PublishOutcome::Accepted);
    assert_eq!(q.publish_lossy(2), PublishOutcome::Accepted);
    assert_eq!(q.publish_lossy(3), PublishOutcome::DroppedNewest);
    assert_eq!(q.len(), 2);
    // FIFO order, and the dropped item never appears.
    assert!(matches!(q.pop(), PopOutcome::Item(1)));
    assert!(matches!(q.pop(), PopOutcome::Item(2)));
    assert!(matches!(q.pop(), PopOutcome::Empty));
}

#[test]
fn a_closed_producer_ends_the_stream_after_draining() {
    let mut q: BoundedQueue<u32> = BoundedQueue::new(4);
    assert_eq!(q.publish_lossy(7), PublishOutcome::Accepted);
    q.close_producer();
    assert!(!q.producer_attached());
    assert!(matches!(q.pop(), PopOutcome::Item(7)));
    assert!(matches!(q.pop(), PopOutcome::Closed));
}

#[test]
fn a_closed_consumer_rejects_producers() {
    let mut q: BoundedQueue<u32> = BoundedQueue::new(4);
    q.close_consumer();
    assert_eq!(q.publish_lossy(5), PublishOutcome::Disconnected);
    assert!(matches!(q.offer(5), OfferOutcome::Disconnected));
    assert_eq!(q.len(), 0);
}

#[test]
fn offer_returns_the_item_when_full() {
    let mut q: BoundedQueue<u32> = BoundedQueue::new(1);
    assert!(matches!(q.offer(10), OfferOutcome::Accepted));
    match q.offer(11) {
        OfferOutcome::Full(back) => assert_eq!(back, 11),
        _ => panic!("expected the queue to be full"),
    }
    assert!(matches!(q.pop(), PopOutcome::Item(10)));
    assert!(matches!(q.offer(11), OfferOutcome::Accepted));
}

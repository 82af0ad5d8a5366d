use oatmeal_audio::queue::SampleQueue;

#[test]
fn queue_drains_oldest_first() {
    let mut q = SampleQueue::new(4);
    assert!(q.offer(10));
    assert!(q.offer(20));
    assert!(q.offer(30));
    assert_eq!(q.pop(), Some(10));
    assert_eq!(q.pop(), Some(20));
    assert_eq!(q.pop(), Some(30));
    assert_eq!(q.pop(), None);
}

#[test]
fn queue_drops_the_newest_sample_on_overflow() {
    let mut q = SampleQueue::new(3);
    assert!(q.offer(1));
    assert!(q.offer(2));
    assert!(q.offer(3));
    assert!(!q.offer(4), "a full queue must refuse the newest sample");
    assert_eq!(q.len(), 3);
    assert_eq!(q.pop(), Some(1));
    assert!(q.offer(5));
    assert_eq!(q.pop(), Some(2));
    assert_eq!(q.pop(), Some(3));
    assert_eq!(q.pop(), Some(5));
}

#[test]
fn queue_capacity_covers_two_seconds_of_audio() {
    let q = SampleQueue::for_rate(16_000);
    assert_eq!(q.capacity(), 32_000);
    assert_eq!(q.len(), 0);
}

use ipdmrust::frame::Frame;
use ipdmrust::queue::{FrameQueue, QUEUE_DEPTH};

fn numbered(n: u8) -> Frame {
    Frame::new_data(0x100 + n as u16, &[n]).unwrap()
}

#[test]
fn frames_leave_in_the_order_they_came() {
    let mut queue = FrameQueue::new();
    assert_eq!(queue.dequeue(), None);
    for n in 0..3 {
        queue.push(numbered(n));
    }
    assert_eq!(queue.dequeue(), Some(numbered(0)));
    queue.push(numbered(3));
    assert_eq!(queue.dequeue(), Some(numbered(1)));
    assert_eq!(queue.dequeue(), Some(numbered(2)));
    assert_eq!(queue.dequeue(), Some(numbered(3)));
    assert_eq!(queue.dequeue(), None);
    assert_eq!(queue.dequeue(), None);
}

#[test]
fn a_full_queue_drops_the_oldest_frame() {
    assert_eq!(QUEUE_DEPTH, 10);
    let mut queue = FrameQueue::new();
    for n in 0..10 {
        queue.push(numbered(n));
    }
    queue.push(numbered(10));
    queue.push(numbered(11));
    for n in 2..12 {
        assert_eq!(queue.dequeue(), Some(numbered(n)));
    }
    assert_eq!(queue.dequeue(), None);
    queue.push(numbered(42));
    assert_eq!(queue.dequeue(), Some(numbered(42)));
}

#[test]
fn a_queue_keeps_working_through_many_rounds() {
    let mut queue = FrameQueue::new();
    for round in 0..100u8 {
        queue.push(numbered(round));
        queue.push(numbered(round.wrapping_add(1)));
        assert_eq!(queue.dequeue(), Some(numbered(round)));
        assert_eq!(queue.dequeue(), Some(numbered(round.wrapping_add(1))));
        assert_eq!(queue.dequeue(), None);
    }
}

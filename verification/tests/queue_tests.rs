use touch_gui::queue::MessageQueue;

#[test]
fn message_queue_is_first_in_first_out() {
    let mut q = MessageQueue::with_capacity(3);
    assert!(q.is_empty());
    assert!(q.try_send((1, 10)));
    assert!(q.try_send((2, 20)));
    assert_eq!(q.len(), 2);
    assert_eq!(q.try_receive(), Some((1, 10)));
    assert_eq!(q.try_receive(), Some((2, 20)));
    assert_eq!(q.try_receive(), None);
}

#[test]
fn message_queue_refuses_when_full() {
    let mut q = MessageQueue::with_capacity(1);
    assert_eq!(q.capacity(), 1);
    assert!(q.try_send((7, 8)));
    assert!(q.is_full());
    assert!(!q.try_send((9, 9)));
    assert_eq!(q.len(), 1);
    assert_eq!(q.try_receive(), Some((7, 8)));
    assert!(q.is_empty());
}

use pamplemouche::ipc::{Message, Port, MAX_INLINE_PAYLOAD, PORT_QUEUE_CAPACITY};

#[test]
fn message_new_keeps_fields() {
    let m = Message::new(7, 3, vec![1, 2, 3]);
    assert_eq!(m.sender, 7);
    assert_eq!(m.msg_type, 3);
    assert_eq!(m.payload, vec![1, 2, 3]);
    let big = Message::new(0, 0, vec![0u8; MAX_INLINE_PAYLOAD]);
    assert_eq!(big.payload.len(), 256);
}

#[test]
fn port_is_fifo() {
    let mut p = Port::new(String::from("console"));
    assert!(p.dequeue().is_none());
    for i in 0..5u64 {
        assert!(p.enqueue(Message::new(i, i as u32, vec![i as u8])).is_ok());
    }
    for i in 0..5u64 {
        let m = p.dequeue().unwrap();
        assert_eq!(m.sender, i);
        assert_eq!(m.payload, vec![i as u8]);
    }
    assert!(p.dequeue().is_none());
}

#[test]
fn port_full_returns_message() {
    let mut p = Port::new(String::from("full"));
    for i in 0..PORT_QUEUE_CAPACITY as u64 {
        assert!(p.enqueue(Message::new(i, 0, vec![])).is_ok());
    }
    let refused = p.enqueue(Message::new(999, 42, vec![9, 9])).unwrap_err();
    assert_eq!(refused.sender, 999);
    assert_eq!(refused.msg_type, 42);
    assert_eq!(refused.payload, vec![9, 9]);
    // The queue kept the first 64 messages, oldest first.
    assert_eq!(p.dequeue().unwrap().sender, 0);
    // Room again for one.
    assert!(p.enqueue(Message::new(1000, 0, vec![])).is_ok());
    let mut last = 0;
    while let Some(m) = p.dequeue() {
        last = m.sender;
    }
    assert_eq!(last, 1000);
}

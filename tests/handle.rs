use lagoon::{Error, JobHandle, PendingCount};

#[test]
fn join_returns_delivered_value() {
    let (tx, h) = JobHandle::<i32>::channel();
    tx.send(42).unwrap();
    assert_eq!(h.join().unwrap(), 42);
}

#[test]
fn try_join_before_delivery_hands_back_handle() {
    let (tx, h) = JobHandle::<i32>::channel();
    let h = match h.try_join() {
        Ok(_) => panic!("no value was sent yet"),
        Err(h) => h,
    };
    tx.send(42).unwrap();
    assert_eq!(h.try_join().ok(), Some(42));
}

#[test]
fn is_completed_keeps_value_for_join() {
    let (tx, mut h) = JobHandle::<i32>::channel();
    assert!(!h.is_completed());
    tx.send(7).unwrap();
    assert!(h.is_completed());
    assert!(h.is_completed());
    assert_eq!(h.join().unwrap(), 7);
}

#[test]
fn is_completed_keeps_value_for_try_join() {
    let (tx, mut h) = JobHandle::<String>::channel();
    tx.send("done".to_string()).unwrap();
    assert!(h.is_completed());
    assert_eq!(h.try_join().ok(), Some("done".to_string()));
}

#[test]
fn dropped_sender_gives_timeout() {
    let (tx, h) = JobHandle::<i32>::channel();
    drop(tx);
    assert!(matches!(h.join(), Err(Error::Timeout)));
}

#[test]
fn dropped_sender_try_join_fails() {
    let (tx, mut h) = JobHandle::<i32>::channel();
    drop(tx);
    assert!(!h.is_completed());
    assert!(h.try_join().is_err());
}

#[test]
fn new_handle_on_receiver() {
    let (tx, rx) = oneshot::channel::<u8>();
    let h = JobHandle::new(rx);
    tx.send(3).unwrap();
    assert_eq!(h.join().unwrap(), 3);
}

#[test]
fn pending_count_settles() {
    let p = PendingCount::new();
    assert!(p.is_settled());
    let q = p.share();
    p.job_started();
    p.job_started();
    assert!(!q.is_settled());
    q.job_finished();
    assert!(!p.is_settled());
    q.job_finished();
    assert!(p.is_settled());
}


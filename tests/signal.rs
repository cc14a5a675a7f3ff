use station_iapetus::signal::{AnimationEvent, SignalQueue};

#[test]
fn second_drain_in_a_frame_is_empty() {
    let mut q = SignalQueue::new();
    q.push(AnimationEvent { signal_id: 1 });
    q.push(AnimationEvent { signal_id: 4 });
    let first = q.drain();
    assert_eq!(first, vec![AnimationEvent { signal_id: 1 }, AnimationEvent { signal_id: 4 }]);
    let second = q.drain();
    assert!(second.is_empty());
}

#[test]
fn events_after_a_drain_are_kept_for_the_next() {
    let mut q = SignalQueue::new();
    q.push(AnimationEvent { signal_id: 2 });
    q.drain();
    q.push(AnimationEvent { signal_id: 3 });
    assert_eq!(q.drain(), vec![AnimationEvent { signal_id: 3 }]);
}

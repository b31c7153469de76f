use param_sync::params::{ParamValue, Patch};
use param_sync::queue::{EventQueue, NodeEvent, QueueError};

fn param(v: i64) -> NodeEvent {
    NodeEvent::Param(Patch { path: 0, value: ParamValue::Int(v) })
}

#[test]
fn drain_returns_events_in_enqueue_order() {
    let mut q = EventQueue::new(8);
    for e in [param(1), NodeEvent::Custom(5), param(2), param(3)] {
        assert_eq!(q.push(e), Ok(()));
    }
    assert_eq!(q.drain(), vec![param(1), NodeEvent::Custom(5), param(2), param(3)]);
    assert_eq!(q.len(), 0);
    assert!(q.drain().is_empty());
}

#[test]
fn full_queue_applies_backpressure() {
    let mut q = EventQueue::new(2);
    assert_eq!(q.push(param(1)), Ok(()));
    assert_eq!(q.push(param(2)), Ok(()));
    assert_eq!(q.push(param(3)), Err(QueueError::Full));
    assert_eq!(q.len(), 2);
    assert_eq!(q.drain(), vec![param(1), param(2)]);
    assert_eq!(q.push(param(3)), Ok(()));
    assert_eq!(q.capacity(), 2);
}

#[test]
fn zero_capacity_queue_takes_nothing() {
    let mut q = EventQueue::new(0);
    assert_eq!(q.push(param(1)), Err(QueueError::Full));
}

#[test]
fn closed_queue_keeps_pending_events() {
    let mut q = EventQueue::new(4);
    assert_eq!(q.push(param(1)), Ok(()));
    q.close();
    assert!(q.is_closed());
    assert_eq!(q.push(param(2)), Err(QueueError::Closed));
    assert_eq!(q.drain(), vec![param(1)]);
}

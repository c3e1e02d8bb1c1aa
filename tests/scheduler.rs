use frame_scheduler::{Body, Transition, TransitionQueue};

const RED: (u8, u8, u8) = (255, 25, 25);
const BLACK: (u8, u8, u8) = (0, 0, 0);
const WHITE: (u8, u8, u8) = (255, 255, 255);

#[test]
fn new_body_is_idle_with_initial_value() {
    let b = Body::new(WHITE);
    assert!(b.is_idle());
    assert_eq!(*b.observable_value(), WHITE);
    assert_eq!(b.pending().len(), 0);
}

#[test]
fn schedule_does_not_touch_value_until_tick() {
    let mut b = Body::new(WHITE);
    b.schedule_now(RED);
    assert_eq!(*b.observable_value(), WHITE);
    assert!(!b.is_idle());
    b.schedule_at(BLACK, 3);
    assert_eq!(*b.observable_value(), WHITE);
    assert_eq!(b.pending().len(), 2);
}

#[test]
fn immediate_retirement_on_next_tick() {
    for frame in [0u64, 1, 59, u64::MAX] {
        let mut b = Body::new(BLACK);
        b.schedule_now(RED);
        b.tick(frame);
        assert_eq!(*b.observable_value(), RED);
        assert!(b.is_idle());
    }
}

#[test]
fn future_gating_holds_entry_until_due() {
    let mut b = Body::new(BLACK);
    b.schedule_at(RED, 20);
    b.tick(19);
    assert_eq!(*b.observable_value(), BLACK);
    assert_eq!(b.pending().len(), 1);
    assert!(matches!(b.pending().peek_oldest(), Some(Transition::Scheduled(RED, 20))));
    b.tick(20);
    assert_eq!(*b.observable_value(), RED);
    assert!(b.is_idle());
}

#[test]
fn eventual_retirement_despite_skipped_frames() {
    let mut b = Body::new(BLACK);
    b.schedule_at(RED, 10);
    for frame in 0u64..10 {
        b.tick(frame);
        assert_eq!(*b.observable_value(), BLACK);
        assert_eq!(b.pending().len(), 1);
    }
    b.tick(15);
    assert_eq!(*b.observable_value(), RED);
    assert!(b.is_idle());
}

#[test]
fn past_target_is_due_at_once() {
    let mut b = Body::new(BLACK);
    b.schedule_at(RED, 3);
    b.tick(50);
    assert_eq!(*b.observable_value(), RED);
}

#[test]
fn fifo_order_kept_across_requeue() {
    let mut b = Body::new(WHITE);
    b.schedule_at(RED, 100);
    b.schedule_now(BLACK);
    for _ in 0..5 {
        b.tick(5);
        assert_eq!(*b.observable_value(), WHITE);
        assert_eq!(b.pending().len(), 2);
        assert!(matches!(b.pending().peek_oldest(), Some(Transition::Scheduled(RED, 100))));
    }
    b.tick(100);
    assert_eq!(*b.observable_value(), RED);
    assert_eq!(b.pending().len(), 1);
    b.tick(101);
    assert_eq!(*b.observable_value(), BLACK);
    assert!(b.is_idle());
}

#[test]
fn one_retirement_per_tick() {
    let values: Vec<u32> = vec![10, 20, 30, 40, 50];
    let mut b = Body::new(0u32);
    for v in &values {
        b.schedule_now(*v);
    }
    for k in 0..values.len() {
        b.tick(7);
        assert_eq!(*b.observable_value(), values[k]);
        assert_eq!(b.pending().len(), values.len() - k - 1);
    }
    assert!(b.is_idle());
}

#[test]
fn idle_tick_changes_nothing() {
    let mut b = Body::new(RED);
    for frame in [0u64, 5, 3, 1000, u64::MAX, 0] {
        b.tick(frame);
        assert_eq!(*b.observable_value(), RED);
        assert!(b.is_idle());
    }
}

#[test]
fn later_schedule_does_not_cancel_earlier() {
    let mut b = Body::new(0u32);
    b.schedule_at(1, 10);
    b.schedule_at(2, 5);
    b.tick(6);
    assert_eq!(*b.observable_value(), 0);
    b.tick(10);
    assert_eq!(*b.observable_value(), 1);
    b.tick(10);
    assert_eq!(*b.observable_value(), 2);
}

#[test]
fn queue_is_first_in_first_out() {
    let mut q: TransitionQueue<u32> = TransitionQueue::new();
    assert!(q.is_empty());
    assert!(q.peek_oldest().is_none());
    assert!(q.pop_oldest().is_none());
    q.push(Transition::Immediate(1));
    q.push(Transition::Scheduled(2, 9));
    q.push(Transition::Immediate(3));
    assert_eq!(q.len(), 3);
    assert!(matches!(q.peek_oldest(), Some(Transition::Immediate(1))));
    assert!(matches!(q.pop_oldest(), Some(Transition::Immediate(1))));
    assert!(matches!(q.pop_oldest(), Some(Transition::Scheduled(2, 9))));
    assert!(matches!(q.pop_oldest(), Some(Transition::Immediate(3))));
    assert!(q.pop_oldest().is_none());
}

#[test]
fn requeue_front_restores_head() {
    let mut q: TransitionQueue<u32> = TransitionQueue::new();
    q.push(Transition::Scheduled(1, 4));
    q.push(Transition::Immediate(2));
    let head = q.pop_oldest().unwrap();
    q.requeue_front(head);
    assert_eq!(q.len(), 2);
    assert!(matches!(q.pop_oldest(), Some(Transition::Scheduled(1, 4))));
    assert!(matches!(q.pop_oldest(), Some(Transition::Immediate(2))));
}

#[test]
fn transition_due_and_value() {
    let now: Transition<u32> = Transition::Immediate(7);
    assert!(now.due_at(0));
    let later: Transition<u32> = Transition::Scheduled(8, 12);
    assert!(!later.due_at(11));
    assert!(later.due_at(12));
    assert!(later.due_at(13));
    assert_eq!(later.into_value(), 8);
    assert_eq!(now.into_value(), 7);
}

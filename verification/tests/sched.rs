use nrf_play::sched::OneSlot;

#[test]
fn free_slot_accepts_and_falls_due_after_the_delay() {
    let mut slot = OneSlot::new();
    assert_eq!(slot.pending(), None);
    assert!(slot.spawn_after(100, 30));
    assert_eq!(slot.pending(), Some(130));
    assert!(!slot.dispatch(129));
    assert_eq!(slot.pending(), Some(130));
    assert!(slot.dispatch(130));
    assert_eq!(slot.pending(), None);
}

#[test]
fn taken_slot_refuses_and_keeps_its_due_time() {
    let mut slot = OneSlot::new();
    assert!(slot.spawn_after(0, 30));
    assert!(!slot.spawn_after(2, 30));
    assert!(!slot.spawn_after(5, 1));
    assert_eq!(slot.pending(), Some(30));
}

#[test]
fn dispatch_of_a_free_slot_runs_nothing() {
    let mut slot = OneSlot::new();
    assert!(!slot.dispatch(0));
    assert!(!slot.dispatch(u64::MAX));
    assert_eq!(slot.pending(), None);
}

#[test]
fn late_dispatch_still_runs_the_callback_once() {
    let mut slot = OneSlot::new();
    assert!(slot.spawn_after(10, 5));
    assert!(slot.dispatch(1_000));
    assert!(!slot.dispatch(1_001));
}

#[test]
fn zero_delay_falls_due_at_once() {
    let mut slot = OneSlot::new();
    assert!(slot.spawn_after(7, 0));
    assert!(slot.dispatch(7));
}

#[test]
fn due_time_holds_at_the_end_of_time() {
    let mut slot = OneSlot::new();
    assert!(slot.spawn_after(u64::MAX - 3, 30));
    assert_eq!(slot.pending(), Some(u64::MAX));
    assert!(!slot.dispatch(u64::MAX - 1));
    assert!(slot.dispatch(u64::MAX));
}

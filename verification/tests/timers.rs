use kas_wgpu::timer::{reschedule, Timeout, Timeouts};

fn once(callback: usize, at: u64) -> Timeout {
    Timeout { callback, at, repeat: None }
}

fn every(callback: usize, at: u64, period: u64) -> Timeout {
    Timeout { callback, at, repeat: Some(period) }
}

fn list(t: &Timeouts) -> Vec<Timeout> {
    (0..t.len()).map(|i| t.get(i)).collect()
}

#[test]
fn empty_list_never_resumes() {
    let t = Timeouts::new();
    assert_eq!(t.len(), 0);
    assert_eq!(t.next_resume(), None);
    assert_eq!(t.due(0, 0), None);
}

#[test]
fn next_resume_is_the_earliest_instant() {
    let mut t = Timeouts::new();
    t.add(every(0, 50, 10));
    assert_eq!(t.next_resume(), Some(50));
    t.add(once(1, 20));
    t.add(every(2, 70, 1));
    t.add(once(3, 20));
    assert_eq!(t.next_resume(), Some(20));
    assert_eq!(t.len(), 4);
    assert_eq!(t.get(1), once(1, 20));
}

#[test]
fn due_finds_callbacks_in_order() {
    let mut t = Timeouts::new();
    t.add(once(7, 20));
    t.add(every(8, 30, 5));
    t.add(once(9, 20));
    assert_eq!(t.due(20, 0), Some(0));
    assert_eq!(t.due(20, 1), Some(2));
    assert_eq!(t.due(20, 3), None);
    assert_eq!(t.due(30, 0), Some(1));
    assert_eq!(t.due(25, 0), None);
    assert_eq!(t.due(20, 100), None);
}

#[test]
fn fired_removes_a_callback_that_does_not_repeat() {
    let mut t = Timeouts::new();
    t.add(once(7, 20));
    t.add(every(8, 30, 5));
    t.add(once(9, 20));
    // the next callback moves up to the same position
    assert_eq!(t.fired(0, 21), 0);
    assert_eq!(list(&t), vec![every(8, 30, 5), once(9, 20)]);
    assert_eq!(t.due(20, 0), Some(1));
    assert_eq!(t.fired(1, 22), 1);
    assert_eq!(list(&t), vec![every(8, 30, 5)]);
    assert_eq!(t.next_resume(), Some(30));
}

#[test]
fn fired_puts_off_a_callback_that_repeats() {
    let mut t = Timeouts::new();
    t.add(every(8, 30, 5));
    t.add(every(9, 30, 7));
    assert_eq!(t.fired(0, 30), 1);
    assert_eq!(t.fired(1, 51), 2);
    assert_eq!(list(&t), vec![every(8, 35, 5), every(9, 58, 7)]);
    assert_eq!(t.next_resume(), Some(35));
}

#[test]
fn reschedule_steps_past_now() {
    // already in the future: stays
    assert_eq!(reschedule(100, 10, 99), 100);
    // due now: one period
    assert_eq!(reschedule(100, 10, 100), 110);
    assert_eq!(reschedule(100, 10, 109), 110);
    assert_eq!(reschedule(100, 10, 110), 120);
    assert_eq!(reschedule(0, 1, 0), 1);
    assert_eq!(reschedule(3, 1000, 5), 1003);
    assert_eq!(reschedule(0, 7, 700), 707);
}

#[test]
fn reschedule_stops_at_the_end_of_the_clock() {
    assert_eq!(reschedule(u64::MAX - 5, 10, u64::MAX - 5), u64::MAX);
    assert_eq!(reschedule(0, u64::MAX, 0), u64::MAX);
    assert_eq!(reschedule(1, u64::MAX, 1), u64::MAX);
    assert_eq!(reschedule(u64::MAX, 1, u64::MAX), u64::MAX);
    assert_eq!(reschedule(u64::MAX - 10, 10, u64::MAX - 1), u64::MAX);
    assert_eq!(reschedule(u64::MAX - 10, 10, u64::MAX - 10), u64::MAX);
    assert_eq!(reschedule(u64::MAX - 11, 10, u64::MAX - 11), u64::MAX - 1);
}

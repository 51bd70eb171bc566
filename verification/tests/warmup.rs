use devinsight::warmup::WarmUp;

#[test]
fn warm_up_ends_after_fifty_entries() {
    let mut warm = WarmUp::new();
    let mut polls = 0;
    while warm.in_progress() {
        warm.record_poll(polls % 2 == 0);
        polls += 1;
    }
    assert_eq!(warm.collected, 50);
    assert_eq!(polls, 99);
}

#[test]
fn warm_up_ends_after_twenty_idle_polls() {
    let mut warm = WarmUp::new();
    for _ in 0..19 {
        warm.record_poll(false);
    }
    assert!(warm.in_progress());
    warm.record_poll(true);
    assert_eq!(warm.idle_polls, 0);
    assert_eq!(warm.collected, 1);
    let mut polls = 0;
    while warm.in_progress() {
        warm.record_poll(false);
        polls += 1;
    }
    assert_eq!(polls, 20);
    assert_eq!(warm.collected, 1);
}

#[test]
fn spinner_turns_with_every_poll() {
    let mut warm = WarmUp::new();
    assert_eq!(warm.spinner_frame(), "⠋");
    assert_eq!(warm.loading_text(), "⠋ Waiting for logs...");
    warm.record_poll(true);
    assert_eq!(warm.loading_text(), "⠙ Collecting logs 1/50");
    for _ in 0..8 {
        warm.record_poll(true);
    }
    assert_eq!(warm.spinner_frame(), "⠏");
    warm.record_poll(true);
    assert_eq!(warm.spinner, 0);
    assert_eq!(warm.loading_text(), "⠋ Collecting logs 10/50");
}

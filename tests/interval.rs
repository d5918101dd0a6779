use zebar_providers::SyncInterval;

#[test]
fn first_tick_fires_immediately() {
    let mut interval = SyncInterval::new(1000, 250);
    assert_eq!(interval.tick(250), 0);
    assert!(!interval.is_first);
    assert_eq!(interval.next_tick_ms, 250);
}

#[test]
fn ticks_follow_the_grid() {
    let mut interval = SyncInterval::new(1000, 0);
    assert_eq!(interval.tick(0), 0);
    assert_eq!(interval.tick(10), 990);
    assert_eq!(interval.next_tick_ms, 1000);
    assert_eq!(interval.tick(1000), 0);
    assert_eq!(interval.next_tick_ms, 2000);
    assert_eq!(interval.tick(1200), 800);
    assert_eq!(interval.next_tick_ms, 3000);
}

#[test]
fn delayed_tick_catches_up_with_one_tick() {
    let mut interval = SyncInterval::new(1000, 0);
    assert_eq!(interval.tick(0), 0);
    assert_eq!(interval.tick(10), 990);
    // The sample taken at 1000 ms took 3500 ms.
    let wait = interval.tick(4500);
    assert_eq!(wait, 500);
    assert_eq!(interval.next_tick_ms, 5000);
    // The next tick after that one waits a full interval again: no backlog.
    assert_eq!(interval.tick(5000), 0);
    assert_eq!(interval.tick(5010), 990);
}

#[test]
fn catch_up_on_exact_boundary_moves_past_it() {
    let mut interval = SyncInterval::new(1000, 0);
    assert_eq!(interval.tick(0), 0);
    assert_eq!(interval.tick(3000), 1000);
    assert_eq!(interval.next_tick_ms, 4000);
}

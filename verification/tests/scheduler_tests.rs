use game_of_rust::scheduler::Scheduler;

fn drain(s: &mut Scheduler, dt: u64) -> u64 {
    let mut ticks = 0;
    while s.consume(dt) {
        ticks += 1;
    }
    ticks
}

#[test]
fn one_large_delta_fires_floor_of_quotient() {
    let mut s = Scheduler::new();
    s.accumulate(100);
    assert_eq!(drain(&mut s, 16), 6);
    assert_eq!(s.accumulator, 4);
}

#[test]
fn chunked_deltas_fire_the_same_ticks() {
    // Ten deltas of 10 ms against one delta of 100 ms, fixed step 16 ms.
    let mut chunked = Scheduler::new();
    let mut total = 0;
    for _ in 0..10 {
        chunked.accumulate(10);
        total += drain(&mut chunked, 16);
    }
    let mut whole = Scheduler::new();
    whole.accumulate(100);
    let at_once = drain(&mut whole, 16);
    assert_eq!(total, at_once);
    assert_eq!(total, 6);
    assert_eq!(chunked.accumulator, whole.accumulator);
}

#[test]
fn uneven_chunking_still_agrees() {
    let deltas = [1u64, 37, 0, 16, 3, 43];
    let sum: u64 = deltas.iter().sum();
    let mut chunked = Scheduler::new();
    let mut total = 0;
    for d in deltas {
        chunked.accumulate(d);
        total += drain(&mut chunked, 16);
    }
    let mut whole = Scheduler::new();
    whole.accumulate(sum);
    assert_eq!(total, drain(&mut whole, 16));
    assert_eq!(chunked.accumulator, whole.accumulator);
}

#[test]
fn delta_below_step_fires_nothing() {
    let mut s = Scheduler::new();
    s.accumulate(15);
    assert_eq!(drain(&mut s, 16), 0);
    assert_eq!(s.accumulator, 15);
}

#[test]
fn negative_seed_defers_the_first_tick() {
    let mut s = Scheduler::seeded(-50);
    s.accumulate(40);
    assert_eq!(drain(&mut s, 16), 0);
    assert_eq!(s.accumulator, -10);
    s.accumulate(40);
    assert_eq!(drain(&mut s, 16), 1);
    assert_eq!(s.accumulator, 14);
}

#[test]
fn consume_reports_whether_it_fired() {
    let mut s = Scheduler::seeded(20);
    assert!(s.consume(16));
    assert_eq!(s.accumulator, 4);
    assert!(!s.consume(16));
    assert_eq!(s.accumulator, 4);
}

use pomodoro::engine::Action;
use pomodoro::engine::Engine;
use pomodoro::phase::PhaseKind;
use pomodoro::service::StartRequest;
use pomodoro::service::handle_start;

fn expect_show(a: Action) -> (String, String) {
    match a {
        Action::Show { title, body } => (title, body),
        Action::SleepUpdate { .. } => panic!("expected a show, got an update"),
    }
}

fn expect_update(a: Action) -> String {
    match a {
        Action::SleepUpdate { body } => body,
        Action::Show { .. } => panic!("expected an update, got a show"),
    }
}

#[test]
fn work_phase_counts_down() {
    // A work phase of N minutes emits N + 1 bodies: N, N - 1, ..., 0.
    let mut e = Engine::new(3);
    let (title, body) = expect_show(e.step());
    assert_eq!(title, "Break Over");
    assert_eq!(body, "3 minutes left...");
    assert_eq!(expect_update(e.step()), "2 minutes left...");
    assert_eq!(expect_update(e.step()), "1 minutes left...");
    assert_eq!(expect_update(e.step()), "0 minutes left...");
}

#[test]
fn break_of_two_follows_any_work() {
    // After work(N) completes, a break of fixed duration 2 follows, and then
    // a new work phase of the original N: the cycle never drifts.
    let mut e = Engine::new(5);
    for _ in 0..6 {
        e.step();
    }
    let (title, body) = expect_show(e.step());
    assert_eq!(title, "Work Time Over");
    assert_eq!(body, "2 minutes left...");
    assert_eq!(expect_update(e.step()), "1 minutes left...");
    assert_eq!(expect_update(e.step()), "0 minutes left...");
    let (title, body) = expect_show(e.step());
    assert_eq!(title, "Break Over");
    assert_eq!(body, "5 minutes left...");
}

#[test]
fn two_starts_make_independent_engines() {
    // Two "Start" calls in rapid succession yield two independent engines
    // that progress separately; the second is never serialized or rejected.
    let req = StartRequest { minutes: 25 };
    let mut first = handle_start(&req);
    let mut second = handle_start(&req);
    assert_eq!(expect_show(first.step()).1, "25 minutes left...");
    assert_eq!(expect_update(first.step()), "24 minutes left...");
    assert_eq!(expect_update(first.step()), "23 minutes left...");
    // The second instance starts from the beginning, wherever the first is.
    assert_eq!(expect_show(second.step()).1, "25 minutes left...");
    assert_eq!(expect_update(second.step()), "24 minutes left...");
    // And stepping the second has not advanced the first.
    assert_eq!(expect_update(first.step()), "22 minutes left...");
}

#[test]
fn zero_minutes_is_instant() {
    // A zero-duration work phase is accepted and completes instantly: one
    // "0 minutes left" show with no delay, then straight into the break.
    let mut e = Engine::new(0);
    let (title, body) = expect_show(e.step());
    assert_eq!(title, "Break Over");
    assert_eq!(body, "0 minutes left...");
    let (title, body) = expect_show(e.step());
    assert_eq!(title, "Work Time Over");
    assert_eq!(body, "2 minutes left...");
}

#[test]
fn one_minute_end_to_end() {
    // Start(minutes = 1): a work-phase show with body "1 minutes left...",
    // one update to "0 minutes left...", then a break-phase show with body
    // "2 minutes left..." proceeding into its own countdown.
    let req = StartRequest { minutes: 1 };
    let mut e = handle_start(&req);
    let (title, body) = expect_show(e.step());
    assert_eq!(title, "Break Over");
    assert_eq!(body, "1 minutes left...");
    assert_eq!(expect_update(e.step()), "0 minutes left...");
    let (title, body) = expect_show(e.step());
    assert_eq!(title, "Work Time Over");
    assert_eq!(body, "2 minutes left...");
    assert_eq!(expect_update(e.step()), "1 minutes left...");
    assert_eq!(expect_update(e.step()), "0 minutes left...");
    let (_, body) = expect_show(e.step());
    assert_eq!(body, "1 minutes left...");
}

#[test]
fn current_phase_tracks_the_cycle() {
    let mut e = Engine::new(0);
    let p = e.current_phase();
    assert_eq!(p.kind, PhaseKind::Work);
    assert_eq!(p.duration_minutes, 0);
    e.step();
    e.step();
    let p = e.current_phase();
    assert_eq!(p.kind, PhaseKind::Break);
    assert_eq!(p.duration_minutes, 2);
    assert_eq!(p.title, "Work Time Over");
}

#[test]
fn large_duration_counts_down_from_the_top() {
    // No upper bound is applied to the requested minutes.
    let mut e = Engine::new(u64::MAX);
    let (_, body) = expect_show(e.step());
    assert_eq!(body, "18446744073709551615 minutes left...");
    assert_eq!(expect_update(e.step()), "18446744073709551614 minutes left...");
}

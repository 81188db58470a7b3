use mini_fisher::clock::{day_start, next_midnight, DAY};

#[test]
fn day_is_86400_seconds() {
    assert_eq!(DAY, 86_400);
}

#[test]
fn day_start_floors_to_midnight() {
    assert_eq!(day_start(0), 0);
    assert_eq!(day_start(1), 0);
    assert_eq!(day_start(86_399), 0);
    assert_eq!(day_start(86_400), 86_400);
    assert_eq!(day_start(1_700_000_000), 1_699_920_000);
}

#[test]
fn day_start_floors_before_the_epoch() {
    assert_eq!(day_start(-1), -86_400);
    assert_eq!(day_start(-86_400), -86_400);
    assert_eq!(day_start(-86_401), -172_800);
}

#[test]
fn day_start_at_the_limits() {
    assert_eq!(day_start(i64::MIN), i64::MIN);
    assert_eq!(day_start(i64::MIN + DAY - 1), i64::MIN);
    let first = i64::MIN + DAY;
    assert_eq!(day_start(first).rem_euclid(DAY), 0);
    assert!(day_start(first) <= first && first - day_start(first) < DAY);
    assert_eq!(day_start(i64::MAX).rem_euclid(DAY), 0);
    assert!(i64::MAX - day_start(i64::MAX) < DAY);
}

#[test]
fn next_midnight_is_the_coming_local_midnight() {
    let before = chrono::Local::now().naive_local().and_utc().timestamp();
    let midnight = next_midnight();
    assert_eq!(midnight.rem_euclid(DAY), 0);
    assert!(midnight > before);
    assert!(midnight - before <= DAY + 2 * 3600 + 5);
}

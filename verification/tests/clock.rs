use std::time::{Duration, SystemTime};
use totpgen::clock::{seconds_since_epoch, unix_time, ClockError};

#[test]
fn the_clock_stands_after_the_epoch() {
    let time = unix_time().unwrap();
    // 2020-01-01 00:00:00 UTC.
    assert!(time > 1_577_836_800);
}

#[test]
fn the_clock_does_not_run_backwards_by_much() {
    let first = unix_time().unwrap();
    let second = unix_time().unwrap();
    assert!(second + 1 >= first);
}

#[test]
fn seconds_are_counted_from_the_epoch() {
    let epoch = SystemTime::UNIX_EPOCH;
    assert_eq!(seconds_since_epoch(&epoch), Ok(0));
    assert_eq!(seconds_since_epoch(&(epoch + Duration::from_secs(1000))), Ok(1000));
    assert_eq!(
        seconds_since_epoch(&(epoch + Duration::from_secs(1_700_000_000))),
        Ok(1_700_000_000)
    );
}

#[test]
fn fractions_of_a_second_are_dropped() {
    let epoch = SystemTime::UNIX_EPOCH;
    assert_eq!(seconds_since_epoch(&(epoch + Duration::from_millis(999))), Ok(0));
    assert_eq!(seconds_since_epoch(&(epoch + Duration::from_millis(1999))), Ok(1));
    assert_eq!(seconds_since_epoch(&(epoch + Duration::from_millis(29_500))), Ok(29));
}

#[test]
fn a_moment_before_the_epoch_is_an_error() {
    let epoch = SystemTime::UNIX_EPOCH;
    assert_eq!(
        seconds_since_epoch(&(epoch - Duration::from_secs(1))),
        Err(ClockError::BeforeEpoch)
    );
    assert_eq!(
        seconds_since_epoch(&(epoch - Duration::from_nanos(1))),
        Err(ClockError::BeforeEpoch)
    );
}

#[test]
fn the_current_time_is_that_of_the_system_clock() {
    let before = seconds_since_epoch(&SystemTime::now()).unwrap();
    let time = unix_time().unwrap();
    let after = seconds_since_epoch(&SystemTime::now()).unwrap();
    assert!(before <= time + 1 && time <= after + 1);
}

use mqtt_sn::duration::{Duration, NumericalDuration};
use std::cmp::Ordering;

#[test]
fn is_zero() {
    assert!(!(-1).nanoseconds().is_zero());
    assert!(0.seconds().is_zero());
    assert!(!1.nanoseconds().is_zero());
}

#[test]
fn is_negative() {
    assert!((-1).seconds().is_negative());
    assert!(!0.seconds().is_negative());
    assert!(!1.seconds().is_negative());
}

#[test]
fn is_positive() {
    assert!(!(-1).seconds().is_positive());
    assert!(!0.seconds().is_positive());
    assert!(1.seconds().is_positive());
}

#[test]
fn abs() {
    assert_eq!(1.seconds().abs(), 1.seconds());
    assert_eq!(0.seconds().abs(), 0.seconds());
    assert_eq!((-1).seconds().abs(), 1.seconds());
}

#[test]
fn new() {
    assert_eq!(Duration::new(1, 0), 1.seconds());
    assert_eq!(Duration::new(-1, 0), (-1).seconds());
    assert_eq!(Duration::new(1, 2_000_000_000), 3.seconds());

    assert_eq!(Duration::new(0, 0), 0.seconds());
    assert_eq!(Duration::new(0, 1_000_000_000), 1.seconds());
    assert_eq!(Duration::new(-1, 1_000_000_000), 0.seconds());
    assert_eq!(Duration::new(-2, 1_000_000_000), (-1).seconds());

    assert_eq!(Duration::new(1, -1), 999_999_999.nanoseconds());
    assert_eq!(Duration::new(-1, 1), (-999_999_999).nanoseconds());
    assert_eq!(Duration::new(1, 1), 1_000_000_001.nanoseconds());
    assert_eq!(Duration::new(-1, -1), (-1_000_000_001).nanoseconds());
    assert_eq!(Duration::new(0, 1), 1.nanoseconds());
    assert_eq!(Duration::new(0, -1), (-1).nanoseconds());

    assert_eq!(Duration::new(-1, 1_400_000_000), 400.milliseconds());
    assert_eq!(Duration::new(-2, 1_400_000_000), (-600).milliseconds());
    assert_eq!(Duration::new(-3, 1_400_000_000), (-1_600).milliseconds());
    assert_eq!(Duration::new(1, -1_400_000_000), (-400).milliseconds());
    assert_eq!(Duration::new(2, -1_400_000_000), 600.milliseconds());
    assert_eq!(Duration::new(3, -1_400_000_000), 1_600.milliseconds());
}

#[test]
fn weeks() {
    assert_eq!(Duration::weeks(1), 604_800.seconds());
    assert_eq!(Duration::weeks(2), (2 * 604_800).seconds());
    assert_eq!(Duration::weeks(-1), (-604_800).seconds());
    assert_eq!(Duration::weeks(-2), (2 * -604_800).seconds());
}

#[test]
fn whole_weeks() {
    assert_eq!(Duration::weeks(1).whole_weeks(), 1);
    assert_eq!(Duration::weeks(-1).whole_weeks(), -1);
    assert_eq!(Duration::days(6).whole_weeks(), 0);
    assert_eq!(Duration::days(-6).whole_weeks(), 0);
}

#[test]
fn days() {
    assert_eq!(Duration::days(1), 86_400.seconds());
    assert_eq!(Duration::days(2), (2 * 86_400).seconds());
    assert_eq!(Duration::days(-1), (-86_400).seconds());
    assert_eq!(Duration::days(-2), (2 * -86_400).seconds());
}

#[test]
fn whole_days() {
    assert_eq!(Duration::days(1).whole_days(), 1);
    assert_eq!(Duration::days(-1).whole_days(), -1);
    assert_eq!(Duration::hours(23).whole_days(), 0);
    assert_eq!(Duration::hours(-23).whole_days(), 0);
}

#[test]
fn hours() {
    assert_eq!(Duration::hours(1), 3_600.seconds());
    assert_eq!(Duration::hours(2), (2 * 3_600).seconds());
    assert_eq!(Duration::hours(-1), (-3_600).seconds());
    assert_eq!(Duration::hours(-2), (2 * -3_600).seconds());
}

#[test]
fn whole_hours() {
    assert_eq!(Duration::hours(1).whole_hours(), 1);
    assert_eq!(Duration::hours(-1).whole_hours(), -1);
    assert_eq!(Duration::minutes(59).whole_hours(), 0);
    assert_eq!(Duration::minutes(-59).whole_hours(), 0);
}

#[test]
fn minutes() {
    assert_eq!(Duration::minutes(1), 60.seconds());
    assert_eq!(Duration::minutes(2), (2 * 60).seconds());
    assert_eq!(Duration::minutes(-1), (-60).seconds());
    assert_eq!(Duration::minutes(-2), (2 * -60).seconds());
}

#[test]
fn whole_minutes() {
    assert_eq!(1.minutes().whole_minutes(), 1);
    assert_eq!((-1).minutes().whole_minutes(), -1);
    assert_eq!(59.seconds().whole_minutes(), 0);
    assert_eq!((-59).seconds().whole_minutes(), 0);
}

#[test]
fn seconds() {
    assert_eq!(Duration::seconds(1), 1_000.milliseconds());
    assert_eq!(Duration::seconds(2), (2 * 1_000).milliseconds());
    assert_eq!(Duration::seconds(-1), (-1_000).milliseconds());
    assert_eq!(Duration::seconds(-2), (2 * -1_000).milliseconds());
}

#[test]
fn whole_seconds() {
    assert_eq!(1.seconds().whole_seconds(), 1);
    assert_eq!((-1).seconds().whole_seconds(), -1);
    assert_eq!(1.minutes().whole_seconds(), 60);
    assert_eq!((-1).minutes().whole_seconds(), -60);
}

#[test]
fn milliseconds() {
    assert_eq!(Duration::milliseconds(1), 1_000.microseconds());
    assert_eq!(Duration::milliseconds(-1), (-1000).microseconds());
}

#[test]
fn whole_milliseconds() {
    assert_eq!(1.seconds().whole_milliseconds(), 1_000);
    assert_eq!((-1).seconds().whole_milliseconds(), -1_000);
    assert_eq!(1.milliseconds().whole_milliseconds(), 1);
    assert_eq!((-1).milliseconds().whole_milliseconds(), -1);
}

#[test]
fn microseconds() {
    assert_eq!(Duration::microseconds(1), 1_000.nanoseconds());
    assert_eq!(Duration::microseconds(-1), (-1_000).nanoseconds());
}

#[test]
fn whole_microseconds() {
    assert_eq!(1.milliseconds().whole_microseconds(), 1_000);
    assert_eq!((-1).milliseconds().whole_microseconds(), -1_000);
    assert_eq!(1.microseconds().whole_microseconds(), 1);
    assert_eq!((-1).microseconds().whole_microseconds(), -1);
}

#[test]
fn nanoseconds() {
    assert_eq!(Duration::nanoseconds(1), 1.microseconds() / 1_000);
    assert_eq!(Duration::nanoseconds(-1), (-1).microseconds() / 1_000);
}

#[test]
fn whole_nanoseconds() {
    assert_eq!(1.microseconds().whole_nanoseconds(), 1_000);
    assert_eq!((-1).microseconds().whole_nanoseconds(), -1_000);
    assert_eq!(1.nanoseconds().whole_nanoseconds(), 1);
    assert_eq!((-1).nanoseconds().whole_nanoseconds(), -1);
}

#[test]
fn checked_add() {
    assert_eq!(5.seconds().checked_add(5.seconds()), Some(10.seconds()));
    assert_eq!(Duration::max_value().checked_add(1.nanoseconds()), None);
    assert_eq!((-5).seconds().checked_add(5.seconds()), Some(0.seconds()));
}

#[test]
fn checked_sub() {
    assert_eq!(5.seconds().checked_sub(5.seconds()), Some(0.seconds()));
    assert_eq!(Duration::min_value().checked_sub(1.nanoseconds()), None);
    assert_eq!(5.seconds().checked_sub(10.seconds()), Some((-5).seconds()));
}

#[test]
fn checked_mul() {
    assert_eq!(5.seconds().checked_mul(2), Some(10.seconds()));
    assert_eq!(5.seconds().checked_mul(-2), Some((-10).seconds()));
    assert_eq!(5.seconds().checked_mul(0), Some(Duration::zero()));
    assert_eq!(Duration::max_value().checked_mul(2), None);
    assert_eq!(Duration::min_value().checked_mul(2), None);
}

#[test]
fn checked_div() {
    assert_eq!(10.seconds().checked_div(2), Some(5.seconds()));
    assert_eq!(10.seconds().checked_div(-2), Some((-5).seconds()));
    assert_eq!(1.seconds().checked_div(0), None);
    assert_eq!(Duration::min_value().checked_div(-1), None);
}

#[test]
fn saturating_add() {
    assert_eq!(5.seconds().saturating_add(5.seconds()), 10.seconds());
    assert_eq!(Duration::max_value().saturating_add(1.nanoseconds()), Duration::max_value());
    assert_eq!(Duration::max_value().saturating_add(1.seconds()), Duration::max_value());
    assert_eq!(
        Duration::min_value().saturating_add((-1).nanoseconds()),
        Duration::min_value()
    );
    assert_eq!(Duration::min_value().saturating_add((-1).seconds()), Duration::min_value());
    assert_eq!((-5).seconds().saturating_add(5.seconds()), Duration::zero());
    assert_eq!(
        1_600.milliseconds().saturating_add(1_600.milliseconds()),
        3_200.milliseconds()
    );
}

#[test]
fn saturating_sub() {
    assert_eq!(5.seconds().saturating_sub(5.seconds()), Duration::zero());
    assert_eq!(Duration::min_value().saturating_sub(1.nanoseconds()), Duration::min_value());
    assert_eq!(
        Duration::max_value().saturating_sub((-1).nanoseconds()),
        Duration::max_value()
    );
    assert_eq!(5.seconds().saturating_sub(10.seconds()), (-5).seconds());
    assert_eq!(
        (-1_600).milliseconds().saturating_sub(1_600.milliseconds()),
        (-3_200).milliseconds()
    );
}

#[test]
fn saturating_mul() {
    assert_eq!(5.seconds().saturating_mul(2), 10.seconds());
    assert_eq!(5.seconds().saturating_mul(-2), (-10).seconds());
    assert_eq!(5.seconds().saturating_mul(0), Duration::zero());
    assert_eq!(Duration::max_value().saturating_mul(2), Duration::max_value());
    assert_eq!(Duration::min_value().saturating_mul(2), Duration::min_value());
    assert_eq!(Duration::max_value().saturating_mul(-2), Duration::min_value());
    assert_eq!(Duration::min_value().saturating_mul(-2), Duration::max_value());
    assert_eq!(
        Duration::new(1_844_674_407_370_955_161, 600_000_000).saturating_mul(5),
        Duration::max_value()
    );
    assert_eq!(
        Duration::new(1_844_674_407_370_955_161, 800_000_000).saturating_mul(-5),
        Duration::min_value()
    );
}

#[test]
fn add() {
    assert_eq!(1.seconds() + 1.seconds(), 2.seconds());
    assert_eq!(500.milliseconds() + 500.milliseconds(), 1.seconds());
    assert_eq!(1.seconds() + (-1).seconds(), 0.seconds());
}

#[test]
fn add_assign() {
    let mut duration = 1.seconds();
    duration += 1.seconds();
    assert_eq!(duration, 2.seconds());

    let mut duration = 500.milliseconds();
    duration += 500.milliseconds();
    assert_eq!(duration, 1.seconds());

    let mut duration = 1.seconds();
    duration += (-1).seconds();
    assert_eq!(duration, 0.seconds());
}

#[test]
fn neg() {
    assert_eq!(-(1.seconds()), (-1).seconds());
    assert_eq!(-(-1).seconds(), 1.seconds());
    assert_eq!(-(0.seconds()), 0.seconds());
}

#[test]
fn sub() {
    assert_eq!(1.seconds() - 1.seconds(), 0.seconds());
    assert_eq!(1_500.milliseconds() - 500.milliseconds(), 1.seconds());
    assert_eq!(1.seconds() - (-1).seconds(), 2.seconds());
}

#[test]
fn sub_assign() {
    let mut duration = 1.seconds();
    duration -= 1.seconds();
    assert_eq!(duration, 0.seconds());

    let mut duration = 1_500.milliseconds();
    duration -= 500.milliseconds();
    assert_eq!(duration, 1.seconds());

    let mut duration = 1.seconds();
    duration -= (-1).seconds();
    assert_eq!(duration, 2.seconds());
}

#[test]
fn mul_int() {
    assert_eq!(1.seconds() * 2, 2.seconds());
    assert_eq!(1.seconds() * -2, (-2).seconds());
}

#[test]
fn mul_int_assign() {
    let mut duration = 1.seconds();
    duration *= 2;
    assert_eq!(duration, 2.seconds());

    let mut duration = 1.seconds();
    duration *= -2;
    assert_eq!(duration, (-2).seconds());
}

#[test]
fn int_mul() {
    assert_eq!(2 * 1.seconds(), 2.seconds());
    assert_eq!(-2 * 1.seconds(), (-2).seconds());
}

#[test]
fn div_int() {
    assert_eq!(1.seconds() / 2, 500.milliseconds());
    assert_eq!(1.seconds() / -2, (-500).milliseconds());
}

#[test]
fn div_int_assign() {
    let mut duration = 1.seconds();
    duration /= 2;
    assert_eq!(duration, 500.milliseconds());

    let mut duration = 1.seconds();
    duration /= -2;
    assert_eq!(duration, (-500).milliseconds());
}

#[test]
fn partial_eq() {
    assert_eq!(1.seconds(), 1.seconds());
    assert_eq!(0.seconds(), 0.seconds());
    assert_eq!((-1).seconds(), (-1).seconds());
    assert_ne!(1.minutes(), (-1).minutes());
    assert_ne!(40.seconds(), 1.minutes());
}

#[test]
fn partial_ord() {
    assert_eq!(0.seconds().partial_cmp(&0.seconds()), Some(Ordering::Equal));
    assert_eq!(1.seconds().partial_cmp(&0.seconds()), Some(Ordering::Greater));
    assert_eq!(1.seconds().partial_cmp(&(-1).seconds()), Some(Ordering::Greater));
    assert_eq!((-1).seconds().partial_cmp(&1.seconds()), Some(Ordering::Less));
    assert_eq!(0.seconds().partial_cmp(&(-1).seconds()), Some(Ordering::Greater));
    assert_eq!(0.seconds().partial_cmp(&1.seconds()), Some(Ordering::Less));
    assert_eq!((-1).seconds().partial_cmp(&0.seconds()), Some(Ordering::Less));
    assert_eq!(1.minutes().partial_cmp(&1.seconds()), Some(Ordering::Greater));
    assert_eq!((-1).minutes().partial_cmp(&(-1).seconds()), Some(Ordering::Less));
}

#[test]
fn ord() {
    assert_eq!(0.seconds().cmp(&0.seconds()), Ordering::Equal);
    assert_eq!(1.seconds().cmp(&0.seconds()), Ordering::Greater);
    assert_eq!(1.seconds().cmp(&(-1).seconds()), Ordering::Greater);
    assert_eq!((-1).seconds().cmp(&1.seconds()), Ordering::Less);
    assert_eq!(0.seconds().cmp(&(-1).seconds()), Ordering::Greater);
    assert_eq!(0.seconds().cmp(&1.seconds()), Ordering::Less);
    assert_eq!((-1).seconds().cmp(&0.seconds()), Ordering::Less);
    assert_eq!(1.minutes().cmp(&1.seconds()), Ordering::Greater);
    assert_eq!((-1).minutes().cmp(&(-1).seconds()), Ordering::Less);
    assert_eq!(100.nanoseconds().cmp(&200.nanoseconds()), Ordering::Less);
    assert_eq!(
        (-100).nanoseconds().cmp(&(-200).nanoseconds()),
        Ordering::Greater
    );
}

#[test]
fn default() {
    assert_eq!(Duration::default(), Duration::zero());
}

#[test]
fn add_then_sub_gives_back() {
    let a = Duration::new(5, 700_000_000);
    let b = Duration::new(-3, -900_000_000);
    assert_eq!((a + b) - b, a);
    assert_eq!((b + a) - a, b);
    assert_eq!(a + b, b + a);
}

#[test]
fn neg_twice_gives_back() {
    let a = Duration::new(-2, -5);
    assert_eq!(-(-a), a);
    assert_eq!(-Duration::zero(), Duration::zero());
}

#[test]
fn sub_is_add_of_negation() {
    let a = 7.seconds();
    let b = 1_500.milliseconds();
    assert_eq!(a - b, a + (-b));
    assert_eq!(a - b, Duration::new(5, 500_000_000));
}

#[test]
fn mul_then_div_gives_back() {
    let a = Duration::new(1, 333_333_333);
    assert_eq!((a * 3) / 3, a);
    assert_eq!((a * -7) / -7, a);
    assert_eq!((-a * 2) / 2, -a);
}

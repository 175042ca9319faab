use chrono::{Datelike, Local, NaiveTime, Timelike};
use std::time::Duration;
use week_scheduler::weektime::Weekday::Monday;
use week_scheduler::weektime::{TimeOfDay, WeekTime, Weekday, SECONDS_PER_DAY, SECONDS_PER_WEEK};

fn at(day: Weekday, hour: u32, min: u32, sec: u32) -> WeekTime {
    WeekTime::new(day, TimeOfDay::from_hms(hour, min, sec).unwrap())
}

#[test]
fn test_interval() {
    let t1 = WeekTime::new(Monday, TimeOfDay::from_hms(10, 0, 0).unwrap());
    let t2 = WeekTime::new(Monday, TimeOfDay::from_hms(10, 20, 0).unwrap());

    let interval = Duration::from_secs(t1.interval_to(&t2));
    println!("{:?}", interval);
    assert_eq!(interval, Duration::new(20 * 60, 0));
}

#[test]
fn test_interval_carry() {
    let t1 = WeekTime::new(Monday, TimeOfDay::from_hms(10, 0, 0).unwrap());
    let t2 = WeekTime::new(Monday, TimeOfDay::from_hms(10, 20, 0).unwrap());

    let interval = Duration::from_secs(t2.interval_to(&t1));
    println!("{:?}", interval);
    assert_eq!(interval, Duration::from_secs(3600 * 24 * 6 + 3600 * 23 + 60 * 40));
}

#[test]
fn weekday_numbers_count_from_monday() {
    let days = [
        Weekday::Monday,
        Weekday::Tuesday,
        Weekday::Wednesday,
        Weekday::Thursday,
        Weekday::Friday,
        Weekday::Saturday,
        Weekday::Sunday,
    ];
    for (n, day) in days.iter().enumerate() {
        assert_eq!(day.to_u32(), n as u32);
        assert_eq!(Weekday::from_u32(n as u32), Some(*day));
    }
    assert_eq!(Weekday::from_u32(7), None);
    assert_eq!(Weekday::from_u32(u32::MAX), None);
}

#[test]
fn time_of_day_from_hms() {
    assert_eq!(TimeOfDay::from_hms(0, 0, 0).unwrap().num_seconds_from_midnight(), 0);
    assert_eq!(TimeOfDay::from_hms(10, 20, 30).unwrap().num_seconds_from_midnight(), 37_230);
    assert_eq!(TimeOfDay::from_hms(23, 59, 59).unwrap().num_seconds_from_midnight(), 86_399);
    assert_eq!(TimeOfDay::from_hms(24, 0, 0), None);
    assert_eq!(TimeOfDay::from_hms(0, 60, 0), None);
    assert_eq!(TimeOfDay::from_hms(0, 0, 60), None);
    assert_eq!(TimeOfDay::from_hms(u32::MAX, u32::MAX, u32::MAX), None);
}

#[test]
fn time_of_day_from_seconds() {
    assert_eq!(TimeOfDay::from_num_seconds_from_midnight(0), TimeOfDay::from_hms(0, 0, 0));
    assert_eq!(
        TimeOfDay::from_num_seconds_from_midnight(86_399),
        TimeOfDay::from_hms(23, 59, 59)
    );
    assert_eq!(TimeOfDay::from_num_seconds_from_midnight(SECONDS_PER_DAY), None);
    assert_eq!(TimeOfDay::from_num_seconds_from_midnight(u32::MAX), None);
}

#[test]
fn time_of_day_agrees_with_chrono() {
    for (h, m, s) in [(0, 0, 0), (10, 20, 0), (12, 34, 56), (23, 59, 59), (24, 0, 0), (1, 60, 1)] {
        let ours = TimeOfDay::from_hms(h, m, s).map(|t| t.num_seconds_from_midnight());
        let theirs = NaiveTime::from_hms_opt(h, m, s).map(|t| t.num_seconds_from_midnight());
        assert_eq!(ours, theirs);
    }
}

#[test]
fn new_keeps_day_and_time() {
    let time = TimeOfDay::from_hms(7, 8, 9).unwrap();
    let t = WeekTime::new(Weekday::Thursday, time);
    assert_eq!(t.day(), Weekday::Thursday);
    assert_eq!(t.time(), time);
    assert_eq!(t.to_seconds(), 3 * 86_400 + 7 * 3600 + 8 * 60 + 9);
}

#[test]
fn to_seconds_spans_the_week() {
    assert_eq!(at(Weekday::Monday, 0, 0, 0).to_seconds(), 0);
    assert_eq!(at(Weekday::Monday, 10, 0, 0).to_seconds(), 36_000);
    assert_eq!(at(Weekday::Wednesday, 0, 0, 1).to_seconds(), 172_801);
    assert_eq!(at(Weekday::Sunday, 23, 59, 59).to_seconds(), 604_799);
}

#[test]
fn from_seconds_decomposes() {
    assert_eq!(WeekTime::from_seconds(0), at(Weekday::Monday, 0, 0, 0));
    assert_eq!(WeekTime::from_seconds(86_399), at(Weekday::Monday, 23, 59, 59));
    assert_eq!(WeekTime::from_seconds(86_400), at(Weekday::Tuesday, 0, 0, 0));
    assert_eq!(WeekTime::from_seconds(3 * 86_400 + 3661), at(Weekday::Thursday, 1, 1, 1));
    assert_eq!(WeekTime::from_seconds(604_799), at(Weekday::Sunday, 23, 59, 59));
}

#[test]
fn from_seconds_wraps_at_the_week() {
    assert_eq!(WeekTime::from_seconds(604_800), at(Weekday::Monday, 0, 0, 0));
    assert_eq!(WeekTime::from_seconds(604_800 + 90_000), at(Weekday::Tuesday, 1, 0, 0));
    assert_eq!(WeekTime::from_seconds(3 * 604_800 + 5), at(Weekday::Monday, 0, 0, 5));
    // 4294967295 = 7101 * 604800 + 282495
    assert_eq!(WeekTime::from_seconds(u32::MAX).to_seconds(), 282_495);
}

#[test]
fn from_seconds_then_to_seconds_is_modulo_week() {
    for s in [0, 1, 59, 3600, 86_399, 86_400, 604_799, 604_800, 604_801, 1_209_600, 123_456_789, u32::MAX] {
        assert_eq!(WeekTime::from_seconds(s).to_seconds(), s % 604_800);
    }
    let mut s: u32 = 0;
    while s < 2 * SECONDS_PER_WEEK {
        assert_eq!(WeekTime::from_seconds(s).to_seconds(), s % SECONDS_PER_WEEK);
        s += 4_321;
    }
}

#[test]
fn interval_to_itself_is_a_full_week() {
    for s in [0, 1, 36_000, 345_600, 604_799] {
        let a = WeekTime::from_seconds(s);
        assert_eq!(a.interval_to(&a), 604_800);
    }
}

#[test]
fn interval_there_and_back_is_a_week() {
    let points = [0, 1, 36_000, 37_200, 302_400, 604_799];
    for a in points {
        for b in points {
            let x = WeekTime::from_seconds(a);
            let y = WeekTime::from_seconds(b);
            let sum = x.interval_to(&y) + y.interval_to(&x);
            if a == b {
                assert_eq!(sum, 1_209_600);
            } else {
                assert_eq!(sum, 604_800);
            }
        }
    }
}

#[test]
fn interval_is_positive_and_at_most_a_week() {
    let mut a: u32 = 0;
    while a < SECONDS_PER_WEEK {
        let mut b: u32 = 0;
        while b < SECONDS_PER_WEEK {
            let d = WeekTime::from_seconds(a).interval_to(&WeekTime::from_seconds(b));
            assert!(0 < d && d <= 604_800);
            assert_eq!(d == 604_800, a == b);
            assert_eq!((a as u64 + d) % 604_800, b as u64);
            b += 50_411;
        }
        a += 50_411;
    }
}

#[test]
fn interval_across_the_week_boundary() {
    let sunday_night = at(Weekday::Sunday, 23, 59, 59);
    let monday_morning = at(Weekday::Monday, 0, 0, 0);
    assert_eq!(sunday_night.interval_to(&monday_morning), 1);
    assert_eq!(monday_morning.interval_to(&sunday_night), 604_799);
}

#[test]
fn add_duration_wraps() {
    let a = at(Weekday::Monday, 10, 0, 0);
    assert_eq!(a.add_duration(0), a);
    assert_eq!(a.add_duration(3), at(Weekday::Monday, 10, 0, 3));
    assert_eq!(a.add_duration(86_400), at(Weekday::Tuesday, 10, 0, 0));
    assert_eq!(a.add_duration(604_800), a);
    assert_eq!(a.add_duration(3 * 604_800 + 5), at(Weekday::Monday, 10, 0, 5));
    assert_eq!(at(Weekday::Sunday, 23, 59, 59).add_duration(1), at(Weekday::Monday, 0, 0, 0));
    // 18446744073709551615 = 30500568904943 * 604800 + 25215
    assert_eq!(at(Weekday::Monday, 0, 0, 0).add_duration(u64::MAX).to_seconds(), 25_215);
}

#[test]
fn a_later_instant_is_that_far_away() {
    let a = at(Weekday::Friday, 17, 30, 0);
    for delta in [1, 3, 60, 86_400, 604_799, 604_800] {
        assert_eq!(a.interval_to(&a.add_duration(delta)), delta);
    }
}

#[test]
fn waiting_out_an_interval_reaches_the_target() {
    let points = [0, 5, 86_400, 400_000, 604_799];
    for a in points {
        for b in points {
            let from = WeekTime::from_seconds(a);
            let to = WeekTime::from_seconds(b);
            assert_eq!(from.add_duration(from.interval_to(&to)), to);
        }
    }
}

#[test]
fn plus_week_is_the_same_instant() {
    let a = at(Weekday::Saturday, 6, 0, 0);
    assert_eq!(a.plus_week(), a);
    assert_eq!(a.plus_week().to_seconds(), (a.to_seconds() + 604_800) % 604_800);
}

fn chrono_second_of_week() -> u32 {
    let now = Local::now();
    now.weekday().num_days_from_monday() * 86_400 + now.time().num_seconds_from_midnight()
}

#[test]
fn now_is_the_local_wall_clock() {
    let before = chrono_second_of_week();
    let now = WeekTime::now();
    let after = chrono_second_of_week();
    assert!(now.to_seconds() < SECONDS_PER_WEEK);
    assert_eq!(WeekTime::from_seconds(now.to_seconds()), now);
    assert!((now.to_seconds() + SECONDS_PER_WEEK - before) % SECONDS_PER_WEEK <= 5);
    assert!((after + SECONDS_PER_WEEK - now.to_seconds()) % SECONDS_PER_WEEK <= 5);
}

#[test]
fn interval_from_now_is_the_interval_from_the_clock() {
    let target = WeekTime::now().add_duration(3);
    let wait = target.interval_from_now();
    assert!(1 <= wait && wait <= 3);

    let behind = WeekTime::from_seconds(WeekTime::now().to_seconds() + SECONDS_PER_WEEK - 10);
    let wait = behind.interval_from_now();
    assert!(604_785 <= wait && wait <= 604_790);
}

use schedule_mirror::calendar::{CalendarDate, Weekday, MAX_YEAR, MIN_YEAR};

fn date(year: i32, month: u32, day: u32) -> CalendarDate {
    CalendarDate::from_ymd(year, month, day).unwrap()
}

fn after(weekday: Weekday) -> Weekday {
    match weekday {
        Weekday::Monday => Weekday::Tuesday,
        Weekday::Tuesday => Weekday::Wednesday,
        Weekday::Wednesday => Weekday::Thursday,
        Weekday::Thursday => Weekday::Friday,
        Weekday::Friday => Weekday::Saturday,
        Weekday::Saturday => Weekday::Sunday,
        Weekday::Sunday => Weekday::Monday,
    }
}

#[test]
fn november_has_thirty_days() {
    assert!(CalendarDate::from_ymd(2024, 11, 30).is_some());
    assert!(CalendarDate::from_ymd(2024, 11, 31).is_none());
}

#[test]
fn day_and_month_start_at_one() {
    assert!(CalendarDate::from_ymd(2024, 1, 0).is_none());
    assert!(CalendarDate::from_ymd(2024, 0, 1).is_none());
    assert!(CalendarDate::from_ymd(2024, 13, 1).is_none());
    assert!(CalendarDate::from_ymd(2024, 1, 32).is_none());
    assert!(CalendarDate::from_ymd(2024, 1, 1).is_some());
    assert!(CalendarDate::from_ymd(2024, 12, 31).is_some());
}

#[test]
fn february_follows_the_leap_rule() {
    assert!(CalendarDate::from_ymd(2024, 2, 29).is_some());
    assert!(CalendarDate::from_ymd(2024, 2, 30).is_none());
    assert!(CalendarDate::from_ymd(2023, 2, 29).is_none());
    assert!(CalendarDate::from_ymd(1900, 2, 29).is_none());
    assert!(CalendarDate::from_ymd(2000, 2, 29).is_some());
    assert!(CalendarDate::from_ymd(-4, 2, 29).is_some());
    assert!(CalendarDate::from_ymd(0, 2, 29).is_some());
    assert!(CalendarDate::from_ymd(-100, 2, 29).is_none());
}

#[test]
fn years_have_a_first_and_a_last() {
    assert_eq!(MIN_YEAR, -262_143);
    assert_eq!(MAX_YEAR, 262_142);
    assert!(CalendarDate::from_ymd(MAX_YEAR, 12, 31).is_some());
    assert!(CalendarDate::from_ymd(MAX_YEAR + 1, 1, 1).is_none());
    assert!(CalendarDate::from_ymd(MIN_YEAR, 1, 1).is_some());
    assert!(CalendarDate::from_ymd(MIN_YEAR - 1, 12, 31).is_none());
    assert!(CalendarDate::from_ymd(i32::MAX, 1, 1).is_none());
    assert!(CalendarDate::from_ymd(i32::MIN, 1, 1).is_none());
}

#[test]
fn a_date_gives_back_its_parts() {
    let d = date(2024, 3, 5);
    assert_eq!((d.year(), d.month(), d.day()), (2024, 3, 5));
    assert!(d.is_same(&date(2024, 3, 5)));
    assert!(!d.is_same(&date(2024, 5, 3)));
    assert!(!d.is_same(&date(2023, 3, 5)));
    assert!(!d.is_same(&date(2024, 3, 6)));
}

#[test]
fn fifteenth_of_june_2024_is_a_saturday() {
    assert_eq!(date(2024, 6, 15).weekday(), Weekday::Saturday);
}

#[test]
fn known_dates_fall_on_known_weekdays() {
    assert_eq!(date(1, 1, 1).weekday(), Weekday::Monday);
    assert_eq!(date(1970, 1, 1).weekday(), Weekday::Thursday);
    assert_eq!(date(2000, 1, 1).weekday(), Weekday::Saturday);
    assert_eq!(date(2000, 2, 29).weekday(), Weekday::Tuesday);
    assert_eq!(date(2023, 12, 31).weekday(), Weekday::Sunday);
    assert_eq!(date(2024, 1, 17).weekday(), Weekday::Wednesday);
    assert_eq!(date(2024, 3, 5).weekday(), Weekday::Tuesday);
    assert_eq!(date(2024, 6, 14).weekday(), Weekday::Friday);
    assert_eq!(date(2024, 6, 16).weekday(), Weekday::Sunday);
    assert_eq!(date(2024, 6, 17).weekday(), Weekday::Monday);
    assert_eq!(date(-308, 3, 14).weekday(), Weekday::Friday);
    assert_eq!(date(0, 12, 31).weekday(), Weekday::Sunday);
}

#[test]
fn tomorrow_crosses_months_and_years() {
    assert!(date(2024, 6, 14).tomorrow().unwrap().is_same(&date(2024, 6, 15)));
    assert!(date(2024, 6, 30).tomorrow().unwrap().is_same(&date(2024, 7, 1)));
    assert!(date(2024, 2, 28).tomorrow().unwrap().is_same(&date(2024, 2, 29)));
    assert!(date(2024, 2, 29).tomorrow().unwrap().is_same(&date(2024, 3, 1)));
    assert!(date(2023, 2, 28).tomorrow().unwrap().is_same(&date(2023, 3, 1)));
    assert!(date(2023, 12, 31).tomorrow().unwrap().is_same(&date(2024, 1, 1)));
    assert!(date(-1, 12, 31).tomorrow().unwrap().is_same(&date(0, 1, 1)));
}

#[test]
fn the_last_date_has_no_tomorrow() {
    assert!(date(MAX_YEAR, 12, 31).tomorrow().is_none());
    assert!(date(MAX_YEAR, 12, 30).tomorrow().is_some());
}

#[test]
fn each_day_falls_one_weekday_after_the_day_before() {
    let mut day = date(1999, 12, 25);
    let mut weekday = day.weekday();
    assert_eq!(weekday, Weekday::Saturday);
    let mut count: u32 = 0;
    while !day.is_same(&date(2025, 1, 10)) {
        let next = day.tomorrow().unwrap();
        assert_eq!(next.weekday(), after(weekday));
        if next.day() != 1 {
            assert_eq!(next.day(), day.day() + 1);
            assert_eq!(next.month(), day.month());
        }
        weekday = next.weekday();
        day = next;
        count += 1;
    }
    assert_eq!(count, 9148);
}

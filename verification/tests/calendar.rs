use page_logic::calendar::{caption, weekend, Chosen, Day, DayOfWeek};

fn day(year: i32, month: u32, day: u32) -> Day {
    Day { year, month, day }
}

#[test]
fn saturday_and_sunday_are_the_weekend() {
    assert!(!weekend(DayOfWeek::Mon));
    assert!(!weekend(DayOfWeek::Tue));
    assert!(!weekend(DayOfWeek::Wed));
    assert!(!weekend(DayOfWeek::Thu));
    assert!(!weekend(DayOfWeek::Fri));
    assert!(weekend(DayOfWeek::Sat));
    assert!(weekend(DayOfWeek::Sun));
}

#[test]
fn caption_follows_the_place_in_the_week() {
    assert_eq!(caption("2023-07-22", DayOfWeek::Sat), "2023-07-22 is a weekend");
    assert_eq!(caption("2023-07-23", DayOfWeek::Sun), "2023-07-23 is a weekend");
    assert_eq!(caption("2023-07-24", DayOfWeek::Mon), "2023-07-24 is a weekday");
    assert_eq!(caption("2023-07-28", DayOfWeek::Fri), "2023-07-28 is a weekday");
    assert_eq!(caption("", DayOfWeek::Wed), " is a weekday");
}

#[test]
fn first_day_of_the_page_is_a_saturday() {
    let chosen = Chosen::new(day(2023, 7, 22)).unwrap();
    assert_eq!(chosen.day(), day(2023, 7, 22));
    assert_eq!(chosen.weekday(), DayOfWeek::Sat);
    assert_eq!(chosen.field_value(), "2023-07-22");
    assert_eq!(chosen.caption(), "2023-07-22 is a weekend");
}

#[test]
fn a_week_has_five_weekdays_and_two_weekend_days() {
    let expected = [
        (17, "2023-07-17 is a weekday"),
        (18, "2023-07-18 is a weekday"),
        (19, "2023-07-19 is a weekday"),
        (20, "2023-07-20 is a weekday"),
        (21, "2023-07-21 is a weekday"),
        (22, "2023-07-22 is a weekend"),
        (23, "2023-07-23 is a weekend"),
    ];
    for (number, text) in expected {
        let chosen = Chosen::new(day(2023, 7, number)).unwrap();
        assert_eq!(chosen.caption(), text);
    }
}

#[test]
fn numbers_that_make_no_day_are_refused() {
    assert_eq!(Chosen::new(day(2023, 2, 29)), None);
    assert_eq!(Chosen::new(day(2023, 2, 30)), None);
    assert_eq!(Chosen::new(day(2023, 0, 1)), None);
    assert_eq!(Chosen::new(day(2023, 13, 1)), None);
    assert_eq!(Chosen::new(day(2023, 4, 31)), None);
    assert_eq!(Chosen::new(day(2023, 1, 0)), None);
    assert_eq!(Chosen::new(day(400000, 1, 1)), None);
    assert!(Chosen::new(day(2024, 2, 29)).is_some());
}

#[test]
fn input_is_read_as_year_month_day() {
    let chosen = Chosen::from_input("2024-02-29").unwrap();
    assert_eq!(chosen.day(), day(2024, 2, 29));
    assert_eq!(chosen.field_value(), "2024-02-29");
    assert_eq!(chosen.caption(), "2024-02-29 is a weekday");

    let chosen = Chosen::from_input("2023-12-31").unwrap();
    assert_eq!(chosen.day(), day(2023, 12, 31));
    assert_eq!(chosen.caption(), "2023-12-31 is a weekend");
}

#[test]
fn input_that_names_no_day_is_refused() {
    assert_eq!(Chosen::from_input(""), None);
    assert_eq!(Chosen::from_input("today"), None);
    assert_eq!(Chosen::from_input("2023-02-30"), None);
    assert_eq!(Chosen::from_input("2023-13-01"), None);
    assert_eq!(Chosen::from_input("22/07/2023"), None);
    assert_eq!(Chosen::from_input("2023-07-22T10:00"), None);
}

#[test]
fn equal_days_are_equal_choices() {
    assert_eq!(Chosen::new(day(2023, 7, 22)), Chosen::from_input("2023-07-22"));
    assert_ne!(Chosen::new(day(2023, 7, 22)), Chosen::new(day(2023, 7, 23)));
}

use domain_types::birthday::Birthday;
use domain_types::birthday::CalendarDate;

#[test]
fn age_counts_completed_years() {
    let born = CalendarDate::new(2001, 8, 3).unwrap();
    let birthday = Birthday::new(born);
    let day_before = CalendarDate::new(2025, 8, 2).unwrap();
    assert_eq!(birthday.get_age(day_before), 23);
    let on_the_day = CalendarDate::new(2025, 8, 3).unwrap();
    assert_eq!(birthday.get_age(on_the_day), 24);
    let day_after = CalendarDate::new(2025, 8, 4).unwrap();
    assert_eq!(birthday.get_age(day_after), 24);
}

#[test]
fn calendar_date_rejects_out_of_range_parts() {
    assert!(CalendarDate::new(2024, 13, 1).is_none());
    assert!(CalendarDate::new(2024, 0, 1).is_none());
    assert!(CalendarDate::new(2024, 2, 32).is_none());
    assert!(CalendarDate::new(2024, 2, 0).is_none());
    assert!(CalendarDate::new(2024, 2, 29).is_some());
}

#[test]
fn birthday_hands_back_its_date() {
    let born = CalendarDate::new(1999, 12, 31).unwrap();
    assert_eq!(Birthday::new(born).get_value(), born);
}

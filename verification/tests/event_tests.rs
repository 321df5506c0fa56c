use chrono::{Datelike, Utc, Weekday};
use event_publisher::Event;

#[test]
fn test_new_event_next_sunday() {
    let image = "event_image.png".to_string();
    let event = Event::new(image.clone());

    // Check that the title is set correctly.
    assert_eq!(event.title, image);

    // Check that the image is set correctly.
    assert_eq!(event.image, image);

    // Parse the start_date and verify it is a valid date and a Sunday.
    let start_date = event.start_date.parse::<chrono::DateTime<Utc>>();
    assert!(start_date.is_ok(), "start_date should be a valid DateTime");

    let start_date = start_date.unwrap();
    assert_eq!(
        start_date.weekday(),
        Weekday::Sun,
        "start_date should be a Sunday"
    );
}

#[test]
fn test_from_str() {
    let image_str = "event_image.png";
    let event = Event::from(image_str);

    // Check that the title is set correctly.
    assert_eq!(event.title, image_str);

    // Check that the image is set correctly.
    assert_eq!(event.image, image_str);

    // Parse the start_date and verify it is a valid date and a Sunday.
    let start_date = event.start_date.parse::<chrono::DateTime<Utc>>();
    assert!(start_date.is_ok(), "start_date should be a valid DateTime");

    let start_date = start_date.unwrap();
    assert_eq!(
        start_date.weekday(),
        Weekday::Sun,
        "start_date should be a Sunday"
    );
}

#[test]
fn new_at_epoch_picks_first_sunday() {
    // 1970-01-01 was a Thursday; the first Sunday after it is 1970-01-04.
    let event = Event::new_at("a.png".to_string(), 0);
    assert_eq!(event.title, "a.png");
    assert_eq!(event.image, "a.png");
    assert_eq!(event.start_date, "1970-01-04T00:00:00Z");
}

#[test]
fn new_at_sunday_keeps_the_day() {
    // 1970-01-04T10:00:00Z is itself a Sunday; the event stays on that day.
    let event = Event::new_at("b.png".to_string(), 295_200);
    assert_eq!(event.start_date, "1970-01-04T10:00:00Z");
}

#[test]
fn new_at_crosses_a_leap_february() {
    // 2024-02-28T12:00:00Z was a Wednesday of a leap year; the next Sunday
    // is 2024-03-03, past February 29.
    let event = Event::new_at("c.png".to_string(), 1_709_121_600);
    assert_eq!(event.start_date, "2024-03-03T12:00:00Z");
}

#[test]
fn new_at_crosses_a_year_end() {
    // 2023-12-29T06:30:15Z was a Friday; the next Sunday is 2023-12-31, and
    // the time of day is kept.
    let event = Event::new_at("d.png".to_string(), 1_703_831_415);
    assert_eq!(event.start_date, "2023-12-31T06:30:15Z");
}

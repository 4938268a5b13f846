use album_notifier::album::Album;
use album_notifier::message::{announcement, get_message, today, CalendarDate};

fn ok_computer() -> Album {
    Album::new("OK Computer", "Radiohead", "1997-05-21", "https://open.spotify.com/album/XYZ").unwrap()
}

const GROUP_URL: &str = "https://1001albumsgenerator.com/groups/abc";

#[test]
fn announcement_is_the_fixed_text_around_its_parts() {
    let date = CalendarDate::new(2024, 3, 15).unwrap();
    let text = announcement(&ok_computer(), date, GROUP_URL);
    assert_eq!(
        text,
        "1001albumsgenerator 3/15/2024\n\nOK Computer by Radiohead (1997-05-21)\n\n\
         https://open.spotify.com/album/XYZ\n\nGroup: https://1001albumsgenerator.com/groups/abc\n"
    );
}

#[test]
fn announcement_is_the_same_on_every_call() {
    let album = ok_computer();
    let date = CalendarDate::new(2024, 3, 15).unwrap();
    let first = announcement(&album, date, GROUP_URL);
    let second = announcement(&album, date, GROUP_URL);
    assert_eq!(first.as_bytes(), second.as_bytes());
    for part in [
        "OK Computer",
        "Radiohead",
        "1997-05-21",
        "https://open.spotify.com/album/XYZ",
        GROUP_URL,
        "3/15/2024",
    ] {
        assert!(first.contains(part));
    }
}

#[test]
fn dates_are_written_without_padding() {
    assert_eq!(CalendarDate::new(2024, 3, 15).unwrap().render(), "3/15/2024");
    assert_eq!(CalendarDate::new(1999, 12, 31).unwrap().render(), "12/31/1999");
    assert_eq!(CalendarDate::new(2001, 1, 1).unwrap().render(), "1/1/2001");
    assert_eq!(CalendarDate::new(-44, 3, 15).unwrap().render(), "3/15/-44");
    assert_eq!(CalendarDate::new(0, 10, 9).unwrap().render(), "10/9/0");
}

#[test]
fn a_date_keeps_its_numbers() {
    let date = CalendarDate::new(2024, 3, 15).unwrap();
    assert_eq!((date.year(), date.month(), date.day()), (2024, 3, 15));
}

#[test]
fn months_and_days_off_the_calendar_make_no_date() {
    assert_eq!(CalendarDate::new(2024, 0, 15), None);
    assert_eq!(CalendarDate::new(2024, 13, 15), None);
    assert_eq!(CalendarDate::new(2024, 3, 0), None);
    assert_eq!(CalendarDate::new(2024, 3, 32), None);
    assert_eq!(CalendarDate::new(2024, u32::MAX, u32::MAX), None);
    assert!(CalendarDate::new(i32::MIN, 1, 1).is_some());
    assert!(CalendarDate::new(i32::MAX, 12, 31).is_some());
}

#[test]
fn today_is_the_date_of_the_local_clock() {
    let before = chrono::Local::now().date_naive();
    let date = today();
    let after = chrono::Local::now().date_naive();
    assert!((1..=12).contains(&date.month()));
    assert!((1..=31).contains(&date.day()));
    let read = chrono::NaiveDate::from_ymd_opt(date.year(), date.month(), date.day()).unwrap();
    assert!(read == before || read == after);
}

#[test]
fn get_message_announces_with_todays_date() {
    let album = ok_computer();
    let before = today();
    let text = get_message(&album, GROUP_URL);
    let after = today();
    assert!(
        text == announcement(&album, before, GROUP_URL) || text == announcement(&album, after, GROUP_URL)
    );
    assert!(text.starts_with("1001albumsgenerator "));
    assert!(text.ends_with("\n\nGroup: https://1001albumsgenerator.com/groups/abc\n"));
}

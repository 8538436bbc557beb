use smart_meter_server::calendar::crosses_hour_boundary;
use smart_meter_server::calendar::date_before;
use smart_meter_server::calendar::day_number_of;
use smart_meter_server::calendar::days_between;
use smart_meter_server::calendar::days_in_month;
use smart_meter_server::calendar::next_month;
use smart_meter_server::calendar::Date;
use smart_meter_server::calendar::DateTime;
use smart_meter_server::codec::decode_frame;
use smart_meter_server::codec::encode_frame;

fn date(year: u32, month: u32, day: u32) -> Date {
    Date { year, month, day }
}

#[test]
fn test_days_in_month_leap_rules() {
    assert_eq!(days_in_month(2024, 2), 29);
    assert_eq!(days_in_month(2023, 2), 28);
    assert_eq!(days_in_month(1900, 2), 28); // century, not a leap year
    assert_eq!(days_in_month(2000, 2), 29); // divisible by 400
    assert_eq!(days_in_month(2024, 4), 30);
    assert_eq!(days_in_month(2024, 12), 31);
}

#[test]
fn test_days_between_dates() {
    assert_eq!(days_between(&date(2024, 2, 28), &date(2024, 3, 1)), 2);
    assert_eq!(days_between(&date(2023, 2, 28), &date(2023, 3, 1)), 1);
    assert_eq!(days_between(&date(2024, 1, 1), &date(2024, 12, 31)), 365);
    assert_eq!(days_between(&date(2023, 1, 1), &date(2023, 12, 31)), 364);
    assert_eq!(days_between(&date(2024, 5, 10), &date(2024, 5, 10)), 0);
    assert_eq!(days_between(&date(2024, 5, 10), &date(2024, 5, 9)), -1);
    // day 0 of the calendar
    assert_eq!(day_number_of(&date(1, 1, 1)), 0);
}

#[test]
fn test_next_month_clamps() {
    assert_eq!(next_month(&date(2024, 1, 31)), Some(date(2024, 2, 29)));
    assert_eq!(next_month(&date(2023, 1, 31)), Some(date(2023, 2, 28)));
    assert_eq!(next_month(&date(2024, 5, 10)), Some(date(2024, 6, 10)));
    assert_eq!(next_month(&date(2024, 12, 15)), Some(date(2025, 1, 15)));
    assert_eq!(next_month(&date(2024, 8, 31)), Some(date(2024, 9, 30)));
    assert_eq!(next_month(&date(u32::MAX, 12, 1)), None);
}

#[test]
fn test_date_order_and_hour_boundary() {
    assert!(date_before(&date(2024, 5, 10), &date(2024, 6, 10)));
    assert!(date_before(&date(2024, 5, 10), &date(2024, 5, 11)));
    assert!(!date_before(&date(2024, 6, 10), &date(2024, 6, 10)));
    assert!(!date_before(&date(2024, 6, 11), &date(2024, 6, 10)));

    let base = DateTime { date: date(2024, 5, 10), hour: 10, minute: 59, second: 0 };
    let same_hour = DateTime { minute: 5, ..base };
    let next_hour = DateTime { hour: 11, ..base };
    let next_day = DateTime { date: date(2024, 5, 11), hour: 10, minute: 59, second: 0 };
    assert!(!crosses_hour_boundary(&base, &same_hour));
    assert!(crosses_hour_boundary(&base, &next_hour));
    assert!(crosses_hour_boundary(&base, &next_day));
}

#[test]
fn test_frame_round_trip() {
    let payload: Vec<u8> = br#"{"id":0,"token":"0"}"#.to_vec();
    let framed = encode_frame(&payload).expect("payload fits a frame");
    assert_eq!(framed.len(), payload.len() + 2);
    assert_eq!(framed[0], 0);
    assert_eq!(framed[1], payload.len() as u8);
    let (decoded, used) = decode_frame(&framed).expect("frame did not decode");
    assert_eq!(decoded, payload);
    assert_eq!(used, framed.len());
}

#[test]
fn test_frame_length_prefix_big_endian() {
    let payload = vec![7u8; 300];
    let framed = encode_frame(&payload).expect("payload fits a frame");
    assert_eq!(framed[0], 1); // 300 = 1 * 256 + 44
    assert_eq!(framed[1], 44);

    // an incomplete buffer does not decode
    let partial = framed[..100].to_vec();
    assert!(decode_frame(&partial).is_none());
}

#[test]
fn test_frame_too_large() {
    let payload = vec![0u8; 70_000];
    assert!(encode_frame(&payload).is_none());
    let payload = vec![0u8; 65_535];
    assert!(encode_frame(&payload).is_some());
}

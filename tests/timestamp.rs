use icloud_sync::timestamp::{chrono_lite_from_secs, chrono_lite_now};

#[test]
fn test_chrono_lite_now_format() {
    let timestamp = chrono_lite_now();

    // Should match ISO 8601 format: YYYY-MM-DDTHH:MM:SSZ
    assert_eq!(timestamp.len(), 20, "Timestamp should be 20 characters");
    assert!(timestamp.ends_with('Z'), "Timestamp should end with Z");
    assert_eq!(&timestamp[4..5], "-", "Should have dash after year");
    assert_eq!(&timestamp[7..8], "-", "Should have dash after month");
    assert_eq!(&timestamp[10..11], "T", "Should have T separator");
    assert_eq!(&timestamp[13..14], ":", "Should have colon after hours");
    assert_eq!(&timestamp[16..17], ":", "Should have colon after minutes");

    // Year should be reasonable (2020-2100)
    let year: u32 = timestamp[0..4].parse().unwrap();
    assert!(year >= 2020 && year <= 2100, "Year should be reasonable");

    // Month should be 01-12
    let month: u32 = timestamp[5..7].parse().unwrap();
    assert!(month >= 1 && month <= 12, "Month should be 1-12, got {}", month);

    // Day should be 01-31
    let day: u32 = timestamp[8..10].parse().unwrap();
    assert!(day >= 1 && day <= 31, "Day should be 1-31, got {}", day);
}

#[test]
fn test_chrono_lite_known_timestamps() {
    // Unix epoch: January 1, 1970 00:00:00 UTC
    assert_eq!(
        chrono_lite_from_secs(0),
        "1970-01-01T00:00:00Z",
        "Unix epoch should be January 1, 1970"
    );

    // January 31, 1970 23:59:59 UTC (last second of January)
    assert_eq!(
        chrono_lite_from_secs(2678399),
        "1970-01-31T23:59:59Z",
        "Should be last second of January 31, 1970"
    );

    // February 1, 1970 00:00:00 UTC (first second of February)
    assert_eq!(
        chrono_lite_from_secs(2678400),
        "1970-02-01T00:00:00Z",
        "Should be first second of February 1, 1970"
    );

    // December 31, 1970 00:00:00 UTC
    assert_eq!(
        chrono_lite_from_secs(31449600),
        "1970-12-31T00:00:00Z",
        "Should be December 31, 1970"
    );

    // January 1, 1971 00:00:00 UTC
    assert_eq!(
        chrono_lite_from_secs(31536000),
        "1971-01-01T00:00:00Z",
        "Should be January 1, 1971"
    );

    // February 29, 2000 00:00:00 UTC (leap year)
    assert_eq!(
        chrono_lite_from_secs(951782400),
        "2000-02-29T00:00:00Z",
        "Should be February 29, 2000 (leap year)"
    );

    // March 1, 2000 00:00:00 UTC (day after leap day)
    assert_eq!(
        chrono_lite_from_secs(951868800),
        "2000-03-01T00:00:00Z",
        "Should be March 1, 2000 (day after leap day)"
    );

    // January 1, 2024 00:00:00 UTC
    assert_eq!(
        chrono_lite_from_secs(1704067200),
        "2024-01-01T00:00:00Z",
        "Should be January 1, 2024"
    );

    // February 28, 2023 (non-leap year) 23:59:59
    assert_eq!(
        chrono_lite_from_secs(1677628799),
        "2023-02-28T23:59:59Z",
        "Should be last second of February 28, 2023"
    );

    // March 1, 2023 00:00:00 (first second after February in non-leap year)
    assert_eq!(
        chrono_lite_from_secs(1677628800),
        "2023-03-01T00:00:00Z",
        "Should be first second of March 1, 2023"
    );
}

#[test]
fn century_years_are_not_leap_unless_divisible_by_400() {
    // 2100-02-28T00:00:00Z and the day after, which is March 1.
    assert_eq!(chrono_lite_from_secs(4107456000), "2100-02-28T00:00:00Z");
    assert_eq!(chrono_lite_from_secs(4107542400), "2100-03-01T00:00:00Z");
}

#[test]
fn last_second_of_a_leap_year() {
    assert_eq!(chrono_lite_from_secs(1735689599), "2024-12-31T23:59:59Z");
}

#[test]
fn five_digit_years_are_written_in_full() {
    assert_eq!(chrono_lite_from_secs(253402300800), "10000-01-01T00:00:00Z");
}

#[test]
fn time_of_day_fields_are_padded() {
    assert_eq!(chrono_lite_from_secs(3661), "1970-01-01T01:01:01Z");
}

use hm_discord_bot::text::{decimal_string, is_none, parse_u64, push_decimal, str_eq};
use hm_discord_bot::time_of_day::TimeOfDay;

#[test]
fn decimal_string_writes_numbers() {
    assert_eq!(decimal_string(0), "0");
    assert_eq!(decimal_string(7), "7");
    assert_eq!(decimal_string(10), "10");
    assert_eq!(decimal_string(1234567890), "1234567890");
    assert_eq!(decimal_string(u64::MAX), "18446744073709551615");
    for n in 0..2000u64 {
        assert_eq!(decimal_string(n), n.to_string());
    }
}

#[test]
fn push_decimal_appends() {
    let mut out = String::from("n=");
    push_decimal(&mut out, 405);
    assert_eq!(out, "n=405");
    push_decimal(&mut out, 0);
    assert_eq!(out, "n=4050");
}

#[test]
fn parse_u64_reads_numbers() {
    assert_eq!(parse_u64("0"), Some(0));
    assert_eq!(parse_u64("42"), Some(42));
    assert_eq!(parse_u64("+42"), Some(42));
    assert_eq!(parse_u64("007"), Some(7));
    assert_eq!(parse_u64("18446744073709551615"), Some(u64::MAX));
    assert_eq!(parse_u64("000018446744073709551615"), Some(u64::MAX));
}

#[test]
fn parse_u64_refuses_everything_else() {
    for text in [
        "", "+", "-1", "++1", "1+", " 1", "1 ", "1_000", "0x10", "1.0", "abc", "12a",
        "18446744073709551616", "99999999999999999999999", "١٢",
    ] {
        assert_eq!(parse_u64(text), None, "{:?}", text);
        assert_eq!(parse_u64(text), text.parse::<u64>().ok(), "{:?}", text);
    }
}

#[test]
fn parse_u64_reads_back_what_decimal_string_writes() {
    for n in [0u64, 1, 9, 10, 99, 100, 65535, 65536, u64::MAX - 1, u64::MAX] {
        assert_eq!(parse_u64(&decimal_string(n)), Some(n));
    }
}

#[test]
fn str_eq_compares_characters() {
    assert!(str_eq("", ""));
    assert!(str_eq("skip", "skip"));
    assert!(!str_eq("skip", "skip."));
    assert!(!str_eq("skip.", "skip"));
    assert!(!str_eq("skip", "skap"));
    assert!(!str_eq("", "a"));
    assert!(str_eq("grüße", "grüße"));
    assert!(!str_eq("grüße", "grusse"));
}

#[test]
fn is_none_ignores_case() {
    for word in ["none", "NONE", "None", "nONe"] {
        assert!(is_none(word));
    }
    for word in ["", "non", "nonee", "nine", "ńone", " none"] {
        assert!(!is_none(word));
    }
}

#[test]
fn time_of_day_takes_components_in_range() {
    let time = TimeOfDay::from_hms(23, 59, 58).unwrap();
    assert_eq!(time.hour(), 23);
    assert_eq!(time.minute(), 59);
    assert_eq!(time.second(), 58);
    assert_eq!(time.nanosecond(), 0);
    assert_eq!(TimeOfDay::from_hms(24, 0, 0), None);
    assert_eq!(TimeOfDay::from_hms(0, 60, 0), None);
    assert_eq!(TimeOfDay::from_hms(0, 0, 60), None);
    assert_eq!(TimeOfDay::from_hms_nano(0, 0, 0, 1_000_000_000), None);
    let fine = TimeOfDay::from_hms_nano(1, 2, 3, 999_999_999).unwrap();
    assert_eq!(fine.nanosecond(), 999_999_999);
    assert_eq!(TimeOfDay::from_hms(8, 0, 0), TimeOfDay::from_hms_nano(8, 0, 0, 0));
    assert_ne!(TimeOfDay::from_hms(8, 0, 0), TimeOfDay::from_hms(8, 0, 5));
}

#[test]
fn time_of_day_prints_like_the_time_crate() {
    assert_eq!(TimeOfDay::from_hms(8, 0, 0).unwrap().to_text(), "8:00:00.0");
    assert_eq!(TimeOfDay::from_hms(8, 0, 5).unwrap().to_text(), "8:00:05.0");
    assert_eq!(TimeOfDay::from_hms(0, 0, 0).unwrap().to_text(), "0:00:00.0");
    assert_eq!(
        TimeOfDay::from_hms_nano(23, 59, 59, 999_999_999).unwrap().to_text(),
        "23:59:59.999999999"
    );
    assert_eq!(TimeOfDay::from_hms_nano(12, 1, 2, 500_000_000).unwrap().to_text(), "12:01:02.5");
    let time = TimeOfDay::from_hms_nano(7, 8, 9, 10).unwrap();
    assert_eq!(
        time.to_text(),
        time::Time::from_hms_nano(7, 8, 9, 10).unwrap().to_string()
    );
}

/// The text of a time of day, written out by hand.
fn written(hour: u8, minute: u8, second: u8, nanosecond: u32) -> String {
    let mut digits = format!("{:09}", nanosecond);
    while digits.len() > 1 && digits.ends_with('0') {
        digits.pop();
    }
    format!("{}:{:02}:{:02}.{}", hour, minute, second, digits)
}

#[test]
fn time_of_day_text_is_hour_minute_second_fraction() {
    let nanos = [
        0u32, 1, 9, 10, 90, 100, 1_000, 10_000, 100_000, 1_000_000, 10_000_000, 100_000_000,
        120_000_000, 123_456_789, 100_000_001, 5_000, 50_500, 999_999_999, 999_999_990,
        900_000_000, 7, 70, 700_000, 1_234_000, 30_000_000,
    ];
    for hour in 0..24u8 {
        for minute in [0u8, 1, 9, 10, 30, 59] {
            for second in [0u8, 5, 9, 10, 45, 59] {
                for nano in nanos.iter() {
                    let time = TimeOfDay::from_hms_nano(hour, minute, second, *nano).unwrap();
                    assert_eq!(time.to_text(), written(hour, minute, second, *nano));
                }
            }
        }
    }
    assert_eq!(TimeOfDay::from_hms_nano(9, 5, 0, 120_000_000).unwrap().to_text(), "9:05:00.12");
    assert_eq!(TimeOfDay::from_hms_nano(10, 0, 7, 1).unwrap().to_text(), "10:00:07.000000001");
    assert_eq!(TimeOfDay::from_hms_nano(0, 59, 59, 10).unwrap().to_text(), "0:59:59.00000001");
}

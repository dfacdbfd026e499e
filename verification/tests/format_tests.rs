use ollama_cli::datetime::{format_datetime, format_datetime_from};
use ollama_cli::numfmt::{bytes_to_human, format_param_count};

/// The sizes as the float computation prints them.
fn size_by_floats(bytes: u64) -> String {
    let units = ["B", "KB", "MB", "GB", "TB"];
    let mut size = bytes as f64;
    let mut unit = 0;
    while size >= 1024.0 && unit < units.len() - 1 {
        size /= 1024.0;
        unit += 1;
    }
    if unit == 0 {
        format!("{}B", bytes)
    } else {
        let shown = format!("{:.1}", size);
        let number = shown.strip_suffix(".0").unwrap_or(&shown);
        format!("{}{}", number, units[unit])
    }
}

fn count_by_floats(count: u64) -> String {
    if count >= 1_000_000_000 {
        format!("{:.1}B", count as f64 / 1_000_000_000.0)
    } else if count >= 1_000_000 {
        format!("{:.1}M", count as f64 / 1_000_000.0)
    } else if count >= 1_000 {
        format!("{:.1}K", count as f64 / 1_000.0)
    } else {
        count.to_string()
    }
}

#[test]
fn bytes_to_human_small_values() {
    assert_eq!(bytes_to_human(0), "0B");
    assert_eq!(bytes_to_human(1), "1B");
    assert_eq!(bytes_to_human(1023), "1023B");
}

#[test]
fn bytes_to_human_units() {
    assert_eq!(bytes_to_human(1024), "1KB");
    assert_eq!(bytes_to_human(1536), "1.5KB");
    assert_eq!(bytes_to_human(1024 * 1024), "1MB");
    assert_eq!(bytes_to_human(4_500_000_000), "4.2GB");
    assert_eq!(bytes_to_human(256 * 1024 * 1024), "256MB");
    assert_eq!(bytes_to_human(1024u64.pow(4)), "1TB");
    assert_eq!(bytes_to_human(1024u64.pow(5)), "1024TB");
}

#[test]
fn bytes_to_human_documented_examples() {
    assert_eq!(bytes_to_human(4_831_838_208), "4.5GB");
    assert_eq!(bytes_to_human(268_435_456), "256MB");
}

#[test]
fn bytes_to_human_drops_a_zero_decimal_after_rounding() {
    // 1025 bytes is 1.0009... KB, which rounds to a whole kilobyte.
    assert_eq!(bytes_to_human(1025), "1KB");
    // 2047 bytes is 1.999... KB, which rounds up to 2.
    assert_eq!(bytes_to_human(2047), "2KB");
    assert_eq!(bytes_to_human(1127), "1.1KB");
}

#[test]
fn bytes_to_human_ties_round_to_even() {
    // 1280 bytes is exactly 1.25 KB: the tie goes to the even digit.
    assert_eq!(bytes_to_human(1280), "1.2KB");
    // 1.75 KB goes up.
    assert_eq!(bytes_to_human(1792), "1.8KB");
    assert_eq!(bytes_to_human(1280), size_by_floats(1280));
}

#[test]
fn bytes_to_human_matches_float_formatting() {
    let mut samples: Vec<u64> = vec![
        0, 1, 999, 1000, 1023, 1024, 1025, 1075, 1076, 1126, 1127, 2047, 2048, 10239, 10240,
        1048575, 1048576, 1572864, 3_825_205_248, 4_661_224_676, 7_365_960_935,
        1099511627775, 1099511627776, 1125899906842624, u64::MAX, u64::MAX - 1,
        (1u64 << 53) - 1, 1u64 << 53, (1u64 << 53) + 1, (1u64 << 60) + 12345,
    ];
    let mut x: u64 = 0x9E37_79B9_7F4A_7C15;
    for _ in 0..2000 {
        x ^= x << 13;
        x ^= x >> 7;
        x ^= x << 17;
        samples.push(x >> (x % 60));
    }
    for b in samples {
        assert_eq!(bytes_to_human(b), size_by_floats(b), "bytes {}", b);
    }
}

#[test]
fn format_param_count_examples() {
    assert_eq!(format_param_count(0), "0");
    assert_eq!(format_param_count(999), "999");
    assert_eq!(format_param_count(1_000), "1.0K");
    assert_eq!(format_param_count(1_500), "1.5K");
    assert_eq!(format_param_count(7_000_000), "7.0M");
    assert_eq!(format_param_count(8_030_261_248), "8.0B");
    assert_eq!(format_param_count(1_250_000_000), "1.2B");
    assert_eq!(format_param_count(1_050_000_000), "1.1B");
}

#[test]
fn format_param_count_matches_float_formatting() {
    let mut samples: Vec<u64> = vec![
        1_000, 1_049, 1_050, 1_051, 1_250, 1_350, 999_999, 1_000_000, 1_050_000, 1_250_000,
        999_999_999, 1_000_000_000, 1_050_000_000, 1_150_000_000, 1_250_000_000,
        u64::MAX, (1u64 << 53) + 1, 70_553_706_496,
    ];
    let mut x: u64 = 0x1234_5678_9ABC_DEF1;
    for _ in 0..2000 {
        x ^= x << 13;
        x ^= x >> 7;
        x ^= x << 17;
        samples.push(x >> (x % 64));
    }
    for c in samples {
        assert_eq!(format_param_count(c), count_by_floats(c), "count {}", c);
    }
}

#[test]
fn format_datetime_examples() {
    assert_eq!(format_datetime("2024-01-15T10:30:00Z"), "2024.01.15 10:30");
    assert_eq!(
        format_datetime("2024-06-01T08:05:59.123456789-07:00"),
        "2024.06.01 08:05"
    );
}

#[test]
fn format_datetime_keeps_unreadable_text() {
    assert_eq!(format_datetime("yesterday"), "yesterday");
    assert_eq!(format_datetime(""), "");
}

#[test]
fn format_datetime_from_parsed_result() {
    assert_eq!(
        format_datetime_from("2024-01-15T10:30:00Z", Some("2024.01.15 10:30".to_string())),
        "2024.01.15 10:30"
    );
    assert_eq!(format_datetime_from("soon", None), "soon");
}

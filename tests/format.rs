use sysgauge::units::format_bytes;

#[test]
fn test_format_bytes() {
    assert_eq!(format_bytes(0), "0B");
    assert_eq!(format_bytes(43), "43B");
    assert_eq!(format_bytes(999), "999B");
    assert_eq!(format_bytes(1000), "1.0kB");
    assert_eq!(format_bytes(1076), "1.1kB");
    assert_eq!(format_bytes(1048574), "1.0MB");
    assert_eq!(format_bytes(1048578), "1.0MB");
    assert_eq!(format_bytes(16043212), "15.3MB");
    assert_eq!(format_bytes(702227152896), "654.0GB");
    assert_eq!(format_bytes(1039475162591213420), "923.2PB");
    assert_eq!(format_bytes(1503947516259121342), "1335.8PB");
}

#[test]
fn format_bytes_agrees_with_float_formatting() {
    let samples: Vec<u64> = vec![
        1, 9, 10, 100, 1023, 1024, 1280, 1536, 1792, 10239, 102399, 1023999, 1024000,
        1048575, 1048576, 1073741823, 1099511627776, 999 * 1024 * 1024,
        1000 * 1024 * 1024 - 1, 1125899906842624, 1125899906842623,
        9007199254740993, 9007199254740995, 18014398509481983, 1152921504606846977,
        u64::MAX, u64::MAX - 1, 1 << 63,
    ];
    for b in samples {
        let expected = if b < 1000 {
            format!("{b}B")
        } else {
            let units = ["kB", "MB", "GB", "TB", "PB"];
            let mut val = b as f64;
            let mut out = None;
            for unit in units {
                val /= 1024.;
                if val < 1000. {
                    out = Some(format!("{val:.1}{unit}"));
                    break;
                }
            }
            out.unwrap_or_else(|| format!("{val:.1}PB"))
        };
        assert_eq!(format_bytes(b), expected, "bytes = {b}");
    }
}

#[test]
fn format_bytes_ties_round_to_even() {
    assert_eq!(format_bytes(1280), "1.2kB");
    assert_eq!(format_bytes(1792), "1.8kB");
}

#[test]
fn format_bytes_saturates_at_petabytes() {
    assert_eq!(format_bytes(u64::MAX), "16384.0PB");
}

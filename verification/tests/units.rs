use mixcore::text::{check_range, concat2, concat3, format_count, format_milli, str_eq};
use mixcore::units::{clamp, duration_to_samples, BUFFER_SIZE, SAMPLE_RATE};

#[test]
fn test_format_milli() {
    assert_eq!(format_milli(0), "0");
    assert_eq!(format_milli(1), "0.001");
    assert_eq!(format_milli(-1), "-0.001");
    assert_eq!(format_milli(10), "0.01");
    assert_eq!(format_milli(100), "0.1");
    assert_eq!(format_milli(-300), "-0.3");
    assert_eq!(format_milli(1_000), "1");
    assert_eq!(format_milli(-12_500), "-12.5");
    assert_eq!(format_milli(12_050), "12.05");
    assert_eq!(format_milli(12_005), "12.005");
    assert_eq!(format_milli(-70_000), "-70");
    assert_eq!(format_milli(20_000_000), "20000");
    assert_eq!(format_milli(i32::MAX), "2147483.647");
    assert_eq!(format_milli(i32::MIN), "-2147483.648");
}

#[test]
fn test_format_milli_reads_like_a_float() {
    for v in [-70_000, -12_500, -300, 0, 250, 5_500, 99_999, 1_000_000] {
        let as_float = v as f32 / 1000.0;
        assert_eq!(format_milli(v), format!("{}", as_float));
    }
}

#[test]
fn test_format_count() {
    assert_eq!(format_count(0), "0");
    assert_eq!(format_count(9), "9");
    assert_eq!(format_count(10), "10");
    assert_eq!(format_count(4_294_967_295), "4294967295");
    assert_eq!(format_count(u64::MAX), "18446744073709551615");
}

#[test]
fn test_clamp() {
    assert_eq!(clamp(5, 0, 10), 5);
    assert_eq!(clamp(-5, 0, 10), 0);
    assert_eq!(clamp(15, 0, 10), 10);
    assert_eq!(clamp(0, 0, 10), 0);
    assert_eq!(clamp(10, 0, 10), 10);
    assert_eq!(clamp(i32::MIN, -50_000, 10_000), -50_000);
    assert_eq!(clamp(i32::MAX, -50_000, 10_000), 10_000);
    assert_eq!(clamp(7, 3, 3), 3);
}

#[test]
fn test_duration_to_samples() {
    assert_eq!(duration_to_samples(5_000, SAMPLE_RATE), 240);
    assert_eq!(duration_to_samples(50_000, SAMPLE_RATE), 2_400);
    assert_eq!(duration_to_samples(1_000_000, SAMPLE_RATE), 48_000);
    assert_eq!(duration_to_samples(100, SAMPLE_RATE), 4);
    assert_eq!(duration_to_samples(20, SAMPLE_RATE), 0);
    assert_eq!(duration_to_samples(21, SAMPLE_RATE), 1);
    assert_eq!(duration_to_samples(0, SAMPLE_RATE), 0);
    assert_eq!(duration_to_samples(-5_000, SAMPLE_RATE), 0);
    assert_eq!(duration_to_samples(5_000, 44_100), 220);
    assert_eq!(duration_to_samples(i32::MAX, u32::MAX), 9_223_372_030_412);
    assert_eq!(BUFFER_SIZE, 256);
}

#[test]
fn test_text_helpers() {
    assert!(str_eq("A1", "A1"));
    assert!(!str_eq("A1", "A2"));
    assert!(!str_eq("A1", "A"));
    assert!(str_eq("", ""));
    assert!(str_eq("◇", "◇"));
    assert_eq!(concat2("Bus '", "X"), "Bus 'X");
    assert_eq!(concat3("Strip '", "ü", "' nicht gefunden"), "Strip 'ü' nicht gefunden");
    assert!(check_range(5, 5, 5, "a", "b").is_ok());
    assert_eq!(check_range(6, 5, 5, "a ", " b").unwrap_err(), "a 0.006 b");
    assert_eq!(check_range(4, 5, 5, "", "").unwrap_err(), "0.004");
}

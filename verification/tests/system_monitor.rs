use stellar_daemon::numbers::parse_number;
use stellar_daemon::router::handlers::plugins::{download_too_large, parse_file_mode};
use stellar_daemon::system::system_monitor::{
    device_counts, format_bytes, get_disk_io, get_disk_usage, io_rate, parse_disk_io, split_fields,
};

#[test]
fn test_format_bytes() {
    assert_eq!(format_bytes(512), "512.00B");
    assert_eq!(format_bytes(1024), "1.00KB");
    assert_eq!(format_bytes(1024 * 1024), "1.00MB");
    assert_eq!(format_bytes(1024 * 1024 * 1024), "1.00GB");
}

#[test]
fn format_bytes_rounds_to_two_decimals() {
    assert_eq!(format_bytes(0), "0.00B");
    assert_eq!(format_bytes(1023), "1023.00B");
    assert_eq!(format_bytes(1536), "1.50KB");
    assert_eq!(format_bytes(1030), "1.01KB");
    assert_eq!(format_bytes(1152), "1.12KB");
    assert_eq!(format_bytes(1048575), "1024.00KB");
    assert_eq!(format_bytes(5 * 1024 * 1024 * 1024 * 1024), "5120.00GB");
}

#[test]
fn disk_usage_is_in_mebibytes() {
    assert_eq!(get_disk_usage(4096, 256, 1024), Some((1, 4)));
    assert_eq!(get_disk_usage(u64::MAX, 2, 1), None);
}

#[test]
fn disk_io_skips_loop_and_ram_devices() {
    assert!(device_counts("sda"));
    assert!(device_counts("nvme0n1"));
    assert!(!device_counts("loop0"));
    assert!(!device_counts("ram1"));
    assert_eq!(get_disk_io((0, 0), 2, 3), Some((1024, 1536)));
    assert_eq!(get_disk_io((u64::MAX, 0), 1, 0), None);
    assert_eq!(io_rate(100, 1100, 10), Some(100));
    assert_eq!(io_rate(100, 1100, 0), None);
}

#[test]
fn disk_statistics_are_summed_over_counted_devices() {
    let text = "   8       0 sda 100 0 2 0 50 0 3 0 0 0 0 0 0 0\n\
   7       0 loop0 1 0 1000 0 0 0 1000 0 0 0 0 0 0 0\n\
   1       0 ram0 1 0 1000 0 0 0 1000 0 0 0 0 0 0 0\n\
 259       0 nvme0n1 9 0 10 0 7 0 20 0 0 0 0 0 0 0\n\
   8       1 sda1 short line\n\
   8       2 sda2 1 0 x 0 0 0 5 0 0 0 0 0 0 0\n";
    assert_eq!(parse_disk_io(text.as_bytes()), Some((12 * 512, 23 * 512)));
    assert_eq!(parse_disk_io(b""), Some((0, 0)));
    assert_eq!(parse_disk_io(b"8 0 sda 1 0 4 0 1 0 6 0 0 0 0"), Some((2048, 3072)));
    let huge = "8 0 sda 1 0 18446744073709551615 0 1 0 6 0 0 0 0";
    assert_eq!(parse_disk_io(huge.as_bytes()), None);
    let fields: Vec<Vec<u8>> = split_fields(b"  a\tbc  d\r");
    assert_eq!(fields, vec![b"a".to_vec(), b"bc".to_vec(), b"d".to_vec()]);
}

#[test]
fn numbers_are_read_as_the_standard_parser_reads_them() {
    assert_eq!(parse_number(b"0", 10, u64::MAX), Some(0));
    assert_eq!(parse_number(b"+42", 10, u64::MAX), Some(42));
    assert_eq!(parse_number(b"18446744073709551615", 10, u64::MAX), Some(u64::MAX));
    assert_eq!(parse_number(b"18446744073709551616", 10, u64::MAX), None);
    assert_eq!(parse_number(b"", 10, u64::MAX), None);
    assert_eq!(parse_number(b"+", 10, u64::MAX), None);
    assert_eq!(parse_number(b"-1", 10, u64::MAX), None);
    assert_eq!(parse_number(b"1 ", 10, u64::MAX), None);
    assert_eq!(parse_number(b"12a", 10, u64::MAX), None);
    assert_eq!(parse_number(b"0017", 10, u64::MAX), Some(17));
    for text in ["0", "+42", "18446744073709551615", "18446744073709551616", "", "+", "-1", "0017", "++1"] {
        assert_eq!(parse_number(text.as_bytes(), 10, u64::MAX), text.parse::<u64>().ok());
    }
    assert_eq!(parse_file_mode("644"), Some(0o644));
    assert_eq!(parse_file_mode("755"), Some(0o755));
    assert_eq!(parse_file_mode("8"), None);
    assert_eq!(parse_file_mode(""), None);
    assert_eq!(parse_file_mode("37777777777"), Some(u32::MAX));
    assert_eq!(parse_file_mode("40000000000"), None);
    for text in ["644", "0", "+7", "789", "37777777777", "40000000000", ""] {
        assert_eq!(parse_file_mode(text), u32::from_str_radix(text, 8).ok());
    }
    assert!(download_too_large(Some(11), 10));
    assert!(!download_too_large(Some(10), 10));
    assert!(!download_too_large(None, 10));
}

use fixtext::clock::{millis_from_parts, millis_since_epoch, monotonic_millis, secs_since_epoch, unix_time_secs};
use fixtext::paths::project_error_log_path_from;
use fixtext::utf16::{clipboard_text, startup_command, wide_null};

#[test]
fn wide_null_encodes_utf16_and_ends_with_nul() {
    assert_eq!(wide_null(""), vec![0]);
    assert_eq!(wide_null("A"), vec![0x41, 0]);
    assert_eq!(wide_null("é😀"), vec![0xE9, 0xD83D, 0xDE00, 0]);
    let s = "Texto ñ 𝄞 \u{10FFFF}";
    let mut expected: Vec<u16> = s.encode_utf16().collect();
    expected.push(0);
    assert_eq!(wide_null(s), expected);
}

#[test]
fn clipboard_text_stops_at_the_first_nul() {
    assert_eq!(clipboard_text(&[0x48, 0x69, 0, 0x41]), Ok("Hi".to_string()));
    assert_eq!(clipboard_text(&[0x48, 0x69]), Ok("Hi".to_string()));
    assert_eq!(clipboard_text(&[]), Ok(String::new()));
    assert_eq!(clipboard_text(&[0, 0xD800]), Ok(String::new()));
}

#[test]
fn clipboard_text_refuses_lone_surrogates() {
    let err = Err("invalid utf-16: lone surrogate found".to_string());
    assert_eq!(clipboard_text(&[0xD800, 0x41, 0]), err);
    assert_eq!(clipboard_text(&[0xDC00]), err);
    assert_eq!(clipboard_text(&[0x41, 0xD83D]), err);
    assert_eq!(String::from_utf16(&[0xD800, 0x41]).unwrap_err().to_string(), "invalid utf-16: lone surrogate found");
}

#[test]
fn clipboard_round_trip() {
    for s in ["", "plain", "ñandú", "emoji 😀 and 𝄞", "\u{FFFF}\u{10000}"] {
        assert_eq!(clipboard_text(&wide_null(s)), Ok(s.to_string()));
    }
    assert_eq!(clipboard_text(&wide_null("a\0b")), Ok("a".to_string()));
}

#[test]
fn startup_command_quotes_the_path() {
    assert_eq!(startup_command("C:\\Program Files\\FixText\\fixtext.exe"), "\"C:\\Program Files\\FixText\\fixtext.exe\"");
}

#[test]
fn millis_from_parts_is_total_milliseconds_cut_to_64_bits() {
    assert_eq!(millis_from_parts(0, 0), 0);
    assert_eq!(millis_from_parts(1, 500), 1500);
    assert_eq!(millis_from_parts(1_700_000_000, 123), 1_700_000_000_123);
    assert_eq!(millis_from_parts(u64::MAX, 999), u64::MAX);
    assert_eq!(millis_from_parts(u64::MAX, 0), u64::MAX - 999);
}

#[test]
fn clock_reads_the_present() {
    let ms = monotonic_millis();
    let secs = unix_time_secs();
    assert!(secs > 1_600_000_000);
    assert!(ms / 1000 >= secs - 1 && ms / 1000 <= secs + 1);
}

#[test]
fn project_error_log_needs_both_markers() {
    let p = project_error_log_path_from("/work/fixtext", true, true).unwrap();
    assert_eq!(p, std::path::Path::new("/work/fixtext").join("error.log").to_string_lossy());
    assert!(p.starts_with("/work/fixtext"));
    assert!(p.ends_with("error.log"));
    assert_ne!(p, "/work/fixtext");
    assert_eq!(project_error_log_path_from("/work/fixtext", true, false), None);
    assert_eq!(project_error_log_path_from("/work/fixtext", false, true), None);
}

#[test]
fn clock_readings_before_the_epoch_give_zero() {
    assert_eq!(millis_since_epoch(None), 0);
    assert_eq!(millis_since_epoch(Some((1_700_000_000, 250))), 1_700_000_000_250);
    assert_eq!(millis_since_epoch(Some((0, 999))), 999);
    assert_eq!(secs_since_epoch(None), 0);
    assert_eq!(secs_since_epoch(Some(1_700_000_000)), 1_700_000_000);
}

use rustfetch::colors::{format_rgb, ColorScheme};
use rustfetch::config::Config;
use rustfetch::logging::{format_log_timestamp, log_debug, log_error, log_info, log_warn};
use rustfetch::render::{create_bar, format_bytes, truncate_ansi, visible_len};
use rustfetch::json::{json_string, report_json};
use rustfetch::probes::{format_unix_timestamp, format_uptime};

#[test]
fn bytes_pick_the_right_unit() {
    assert_eq!(format_bytes(0), "0B");
    assert_eq!(format_bytes(999), "999B");
    assert_eq!(format_bytes(1024), "1K");
    assert_eq!(format_bytes(1536), "2K");
    assert_eq!(format_bytes(10 * 1024 * 1024), "10.0M");
    assert_eq!(format_bytes(1073741824), "1.0G");
    assert_eq!(format_bytes(1610612736), "1.5G");
    assert_eq!(format_bytes(1099511627776), "1.0T");
}

#[test]
fn rgb_escape_shape() {
    assert_eq!(format_rgb(70, 170, 200), "\u{1b}[38;2;70;170;200m");
    assert_eq!(format_rgb(0, 0, 0), "\u{1b}[38;2;0;0;0m");
}

#[test]
fn bar_fills_proportionally() {
    assert_eq!(create_bar(50, "", "", false, 4), "[\u{2588}\u{2588}\u{2591}\u{2591}]");
    assert_eq!(create_bar(0, "", "", false, 3), "[\u{2591}\u{2591}\u{2591}]");
    assert_eq!(create_bar(100, "", "", false, 2), "[\u{2588}\u{2588}]");
    assert_eq!(create_bar(75, "A", "B", true, 4), "[A\u{2588}\u{2588}\u{2588}B\u{2591}\u{1b}[0m]");
}

#[test]
fn visible_length_skips_escapes() {
    assert_eq!(visible_len("hello"), 5);
    assert_eq!(visible_len("\u{1b}[38;2;1;2;3mhi\u{1b}[0m"), 2);
    assert_eq!(visible_len(""), 0);
}

#[test]
fn truncation_respects_visible_width() {
    assert_eq!(truncate_ansi("hello", 3), "hel");
    assert_eq!(truncate_ansi("hello", 10), "hello");
    assert_eq!(truncate_ansi("\u{1b}[1mhello", 3), "\u{1b}[1mhel\u{1b}[0m");
    assert_eq!(truncate_ansi("", 3), "");
}

#[test]
fn timestamps_follow_the_civil_calendar() {
    assert_eq!(format_unix_timestamp(0), "1970-01-01 00:00:00");
    assert_eq!(format_unix_timestamp(86399), "1970-01-01 23:59:59");
    assert_eq!(format_unix_timestamp(1600000000), "2020-09-13 12:26:40");
    assert_eq!(format_unix_timestamp(951827696), "2000-02-29 12:34:56");
}

#[test]
fn uptime_drops_leading_zero_units() {
    assert_eq!(format_uptime(59), "0m");
    assert_eq!(format_uptime(60), "1m");
    assert_eq!(format_uptime(3660), "1h 1m");
    assert_eq!(format_uptime(90061), "1d 1h 1m");
}

#[test]
fn log_entries_have_fixed_columns() {
    assert_eq!(log_info("t", "CAT", "msg"), "[t] [INFO   ] [CAT] msg\n");
    assert_eq!(log_warn("t", "CAT", "msg"), "[t] [WARNING] [CAT] msg\n");
    assert_eq!(log_error("t", "CAT", "msg"), "[t] [ERROR  ] [CAT] msg\n");
    assert_eq!(log_debug("t", "CAT", "msg"), "[t] [DEBUG  ] [CAT] msg\n");
}

#[test]
fn log_timestamp_shape() {
    assert_eq!(format_log_timestamp(0), "1970-01-01 00:00:00");
}

#[test]
fn color_disabled_means_empty_sequences() {
    let mut c = Config::default();
    c.use_color = false;
    let cs = ColorScheme::new(&c);
    assert_eq!(cs.primary, "");
    assert_eq!(cs.reset, "");
    let on = {
        let mut c = Config::default();
        c.use_color = true;
        ColorScheme::new(&c)
    };
    assert_eq!(on.reset, "\u{1b}[0m");
    assert_eq!(on.primary, "\u{1b}[38;2;70;170;200m");
}

#[test]
fn json_escapes_and_emits_present_slots() {
    assert_eq!(json_string("plain"), "\"plain\"");
    assert_eq!(json_string("a\\b"), "\"a\\\\b\"");
    assert_eq!(json_string("say \"hi\"\n"), "\"say \\\"hi\\\"\\n\"");

    let mut c = Config::default();
    c.use_color = false;
    let report = rustfetch::report::Report::new().apply_env_and_files(
        &c,
        rustfetch::dispatch::EnvFilesOut {
            user: Some("alice".to_string()),
            hostname: Some("box".to_string()),
            os: Some("Linux".to_string()),
            kernel: None,
            uptime: None,
            shell: None,
            de: None,
            init: None,
            terminal: None,
            locale: None,
            model: None,
            motherboard: None,
            bios: None,
        },
    );
    let json = report_json(&report);
    assert!(json.starts_with("{"));
    assert!(json.ends_with("}"));
    assert!(json.contains("\"user\":\"alice\""));
    assert!(json.contains("\"hostname\":\"box\""));
    assert!(json.contains("\"os\":\"Linux\""));
    assert!(!json.contains("kernel"));
}

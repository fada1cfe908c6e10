use mc_dashboard::clock::{format_timestamp, year_text, UtcDateTime};
use mc_dashboard::labels::{
    address_text, card_status_class, default_enabled, default_healthy, default_status,
    latency_grade, latency_text, load_class, metrics_url, motd_content, player_limit_text,
    row_status_class, server_url, status_label, updated_label, LatencyGrade,
};
use mc_dashboard::text::{contains_text, decimal_text, find_text, padded_text, same_text, signed_text, text_less};

#[test]
fn timestamps_in_utc() {
    assert_eq!(format_timestamp("2024-01-15T10:30:00Z"), "2024-01-15 10:30:00 UTC");
    assert_eq!(format_timestamp("2024-01-15T10:30:00+02:00"), "2024-01-15 08:30:00 UTC");
    assert_eq!(format_timestamp("2024-01-01T00:30:00.250+01:00"), "2023-12-31 23:30:00 UTC");
    assert_eq!(format_timestamp("0005-03-04T05:06:07Z"), "0005-03-04 05:06:07 UTC");
    assert_eq!(format_timestamp("2016-12-31T23:59:60Z"), "2016-12-31 23:59:60 UTC");
    assert_eq!(format_timestamp("not a time"), "not a time");
    assert_eq!(format_timestamp(""), "");
}

#[test]
fn clock_and_years() {
    let d = UtcDateTime { year: 2024, month: 3, day: 9, hour: 7, minute: 5, second: 3, nanosecond: 0 };
    assert_eq!(d.clock_text(), "07:05:03 UTC");
    assert_eq!(d.date_time_text(), "2024-03-09 07:05:03 UTC");
    assert_eq!(year_text(5), "0005");
    assert_eq!(year_text(-1), "-0001");
    assert_eq!(year_text(10000), "+10000");
    assert_eq!(year_text(-12345), "-12345");
}

#[test]
fn numbers_as_text() {
    assert_eq!(decimal_text(0), "0");
    assert_eq!(decimal_text(18446744073709551615), "18446744073709551615");
    assert_eq!(padded_text(7, 2), "07");
    assert_eq!(padded_text(123, 2), "123");
    assert_eq!(signed_text(-42), "-42");
    assert_eq!(signed_text(i64::MIN), i64::MIN.to_string());
}

#[test]
fn text_search_and_order() {
    assert!(same_text("abc", "abc"));
    assert!(!same_text("abc", "abd"));
    assert_eq!(find_text("abcabc", "bc", 0), Some(1));
    assert_eq!(find_text("abcabc", "bc", 2), Some(4));
    assert_eq!(find_text("abc", "x", 0), None);
    assert!(contains_text("name already exists here", "already exists"));
    assert!(!contains_text("exists", "already exists"));
    assert!(text_less("a", "b"));
    assert!(text_less("a", "ab"));
    assert!(!text_less("b", "ab"));
    assert!(!text_less("a", "a"));
}

#[test]
fn player_and_latency_texts() {
    assert_eq!(player_limit_text(-1), "∞");
    assert_eq!(player_limit_text(100), "100");
    assert_eq!(player_limit_text(-5), "-5");
    assert_eq!(latency_text(-1), "N/A");
    assert_eq!(latency_text(42), "42 ms");
    assert_eq!(latency_grade(49), LatencyGrade::Good);
    assert_eq!(latency_grade(50), LatencyGrade::Okay);
    assert_eq!(latency_grade(99), LatencyGrade::Okay);
    assert_eq!(latency_grade(100), LatencyGrade::Poor);
    assert_eq!(LatencyGrade::Good.class_name(), "good");
    assert_eq!(LatencyGrade::Good.label(), "Excellent");
    assert_eq!(LatencyGrade::Okay.label(), "Good");
    assert_eq!(LatencyGrade::Poor.class_name(), "poor");
}

#[test]
fn status_and_load_classes() {
    assert_eq!(card_status_class("online"), "online");
    assert_eq!(card_status_class("disabled"), "disabled");
    assert_eq!(card_status_class("starting"), "unknown");
    assert_eq!(row_status_class("offline"), "status-offline");
    assert_eq!(row_status_class(""), "status-unknown");
    assert_eq!(load_class("medium"), "load-medium");
    assert_eq!(load_class("extreme"), "");
    assert_eq!(status_label(false, "online"), "Disabled");
    assert_eq!(status_label(true, "unknown"), "Unknown");
    assert_eq!(status_label(true, "online"), "online");
    assert_eq!(default_status(), "unknown");
    assert!(default_enabled());
    assert!(!default_healthy());
}

#[test]
fn motd_extraction() {
    assert_eq!(motd_content(r#"{text content="Welcome!" extra}"#), "Welcome!");
    assert_eq!(motd_content(r#"content="""#), "");
    assert_eq!(motd_content(r#"content="open"#), r#"content="open"#);
    assert_eq!(motd_content("A plain motd"), "A plain motd");
    assert_eq!(motd_content(r#"é content="ü" content="x""#), "ü");
}

#[test]
fn update_label_and_urls() {
    assert_eq!(updated_label(""), "Updated: Never");
    assert_eq!(updated_label("2024-01-15T10:30:45.123Z"), "Updated: 10:30:45");
    assert_eq!(server_url("lobby"), "http://localhost:8080/server/lobby");
    assert_eq!(metrics_url("10.0.0.2"), "http://localhost:8080/metrics/10.0.0.2");
    assert_eq!(address_text("mc.example.org", 25565), "mc.example.org:25565");
}

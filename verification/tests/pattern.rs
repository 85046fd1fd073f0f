use image_sync_operator::pattern::{cron_schedule_regex, destination_image_regex, source_image_regex, Pattern};

#[test]
fn invalid_patterns_are_refused() {
    assert!(Pattern::new("(unclosed").is_none());
    assert!(Pattern::new(r"\w{1000}").is_none());
}

#[test]
fn compiled_patterns_match_anywhere() {
    let p = Pattern::new("a+b").unwrap();
    assert!(p.is_match("xxaab"));
    assert!(!p.is_match("ba"));
}

#[test]
fn validation_patterns_compile() {
    assert!(cron_schedule_regex().is_some());
    assert!(source_image_regex().is_some());
    assert!(destination_image_regex().is_some());
}

#[test]
fn image_patterns_distinguish_tags_and_digests() {
    let src = source_image_regex().unwrap();
    let dest = destination_image_regex().unwrap();
    assert!(src.is_match("quay.io/skopeo/stable:latest"));
    assert!(src.is_match("quay.io/skopeo/stable@sha256:0a1b2c"));
    assert!(!src.is_match("stable:latest"));
    assert!(dest.is_match("mirror.example.com/team/app:1.0"));
    assert!(!dest.is_match("mirror.example.com/team/app@sha256:0a1b2c"));
}

#[test]
fn cron_pattern_accepts_fields_and_macros() {
    let cron = cron_schedule_regex().unwrap();
    assert!(cron.is_match("*/15 0 1,15 * 1-5"));
    assert!(cron.is_match("@weekly"));
    assert!(cron.is_match("@every 10m"));
    assert!(!cron.is_match("tomorrow"));
}

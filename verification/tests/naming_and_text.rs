use image_sync_operator::imagesync::{ImageSync, ImageSyncSpec, ImageSyncTarget};
use image_sync_operator::naming::{
    basename, cronjob_label_selector, is_basename_defined, job_label_selector, object_name,
};
use image_sync_operator::text::{chars_of, replace_all, string_of};

fn sync_named(name: &str) -> ImageSync {
    ImageSync {
        name: name.to_string(),
        namespace: "default".to_string(),
        spec: ImageSyncSpec {
            source: ImageSyncTarget { image: "a.io/x/y:1".to_string(), registry_login_secret: None },
            destination: ImageSyncTarget { image: "b.io/x/y:1".to_string(), registry_login_secret: None },
            cron_schedule: None,
            all_architectures: None,
            preserve_digests: None,
            extra_skopeo_arguments: None,
        },
        status: None,
    }
}

#[test]
fn basename_keeps_short_names() {
    assert_eq!(basename("nightly-mirror"), "nightly-mirror");
    assert_eq!(basename(""), "");
}

#[test]
fn basename_keeps_names_of_exactly_fifty_bytes() {
    let name = "a".repeat(50);
    assert_eq!(basename(&name), name);
}

#[test]
fn basename_cuts_long_names_to_fifty_bytes() {
    let name = format!("{}{}", "b".repeat(50), "-tail-that-is-dropped");
    assert_eq!(basename(&name), "b".repeat(50));
}

#[test]
fn basename_cuts_multibyte_names_on_a_character_boundary() {
    // 48 ASCII bytes then a 2-byte character ends exactly at byte 50.
    let name = format!("{}é-more", "c".repeat(48));
    assert_eq!(basename(&name), format!("{}é", "c".repeat(48)));
}

#[test]
fn basename_is_idempotent() {
    let name = "d".repeat(80);
    let once = basename(&name);
    assert_eq!(basename(&once), once);
}

#[test]
fn names_cut_inside_a_character_are_detected() {
    let bad = format!("{}é", "e".repeat(49));
    assert!(!is_basename_defined(&bad));
    assert!(is_basename_defined(&"f".repeat(70)));
    assert!(is_basename_defined(&"short".to_string()));
}

#[test]
fn object_names_and_selectors_share_the_base_name() {
    let obj = sync_named("nightly");
    assert_eq!(object_name(&obj), "imagesync-nightly");
    assert_eq!(job_label_selector(&obj), "imagesync.apexnw.dev/imagesync=nightly");
    assert_eq!(cronjob_label_selector(&obj), "imagesync.apexnw.dev/imagesync-cron=nightly");
}

#[test]
fn long_names_are_cut_in_object_names() {
    let obj = sync_named(&"g".repeat(60));
    assert_eq!(object_name(&obj), format!("imagesync-{}", "g".repeat(50)));
    assert_eq!(job_label_selector(&obj), format!("imagesync.apexnw.dev/imagesync={}", "g".repeat(50)));
}

fn replace(s: &str, pat: &str, rep: &str) -> String {
    string_of(&replace_all(&chars_of(s), &chars_of(pat), &chars_of(rep)))
}

#[test]
fn replace_all_matches_std_replace() {
    let cases = [
        ("a{x}b{x}c", "{x}", "YY"),
        ("aaaa", "aa", "b"),
        ("aaa", "aa", "b"),
        ("no match here", "{x}", "z"),
        ("{x}", "{x}", ""),
        ("", "{x}", "z"),
        ("ééé", "é", "e"),
        ("abab", "ab", "abab"),
    ];
    for (s, pat, rep) in cases {
        assert_eq!(replace(s, pat, rep), s.replace(pat, rep), "{s} {pat} {rep}");
    }
}

#[test]
fn chars_round_trip() {
    let s = "skopeo copy µs docker://a";
    assert_eq!(string_of(&chars_of(s)), s);
    assert_eq!(chars_of(s).len(), s.chars().count());
}

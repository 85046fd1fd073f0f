use image_sync_operator::imagesync::{ImageSync, ImageSyncSpec, ImageSyncStatus, ImageSyncTarget, Timestamp};
use image_sync_operator::reconciler::{
    acceptance_checks, has_config_changed, reset_to_not_accepted, update_status, SecretLookup,
};

fn spec() -> ImageSyncSpec {
    ImageSyncSpec {
        source: ImageSyncTarget {
            image: "registry.example.com/team/app:1.0".to_string(),
            registry_login_secret: Some("src-creds".to_string()),
        },
        destination: ImageSyncTarget {
            image: "mirror.example.com/team/app:1.0".to_string(),
            registry_login_secret: Some("dst-creds".to_string()),
        },
        cron_schedule: None,
        all_architectures: None,
        preserve_digests: None,
        extra_skopeo_arguments: None,
    }
}

fn obj() -> ImageSync {
    ImageSync { name: "app".to_string(), namespace: "team".to_string(), spec: spec(), status: None }
}

fn good_secret() -> Option<SecretLookup> {
    Some(SecretLookup::Found { secret_type: Some("kubernetes.io/dockerconfigjson".to_string()) })
}

#[test]
fn config_changed_without_status() {
    assert!(has_config_changed(&obj()));
}

#[test]
fn config_unchanged_after_status_update() {
    let p = update_status(obj(), true, false, "msg".to_string(), None);
    assert!(!has_config_changed(&p));
}

#[test]
fn config_changed_after_spec_edit() {
    let mut p = update_status(obj(), true, true, "ok".to_string(), None);
    p.spec.preserve_digests = Some(false);
    assert!(has_config_changed(&p));
    let mut p = update_status(obj(), true, true, "ok".to_string(), None);
    p.spec.source.image = "registry.example.com/team/app:2.0".to_string();
    assert!(has_config_changed(&p));
    let mut p = update_status(obj(), true, true, "ok".to_string(), None);
    p.spec.cron_schedule = Some("@daily".to_string());
    assert!(has_config_changed(&p));
}

#[test]
fn update_status_records_values_and_spec() {
    let t = Timestamp { second: 42, nanosecond: 7 };
    let p = update_status(obj(), true, true, "done".to_string(), Some(t));
    let st = p.status.as_ref().unwrap();
    assert!(st.accepted);
    assert!(st.ready);
    assert_eq!(st.message, "done");
    assert_eq!(st.last_completion_time.unwrap().second, 42);
    assert_eq!(st.last_applied_config.source.image, "registry.example.com/team/app:1.0");
    assert_eq!(p.name, "app");
    assert_eq!(p.namespace, "team");
}

#[test]
fn update_status_replaces_an_old_status() {
    let mut o = obj();
    o.status = Some(ImageSyncStatus {
        accepted: true,
        ready: true,
        last_applied_config: spec(),
        last_completion_time: None,
        message: "old".to_string(),
    });
    let p = update_status(o, false, false, "new".to_string(), None);
    assert_eq!(p.status.as_ref().unwrap().message, "new");
    assert!(!p.status.as_ref().unwrap().accepted);
}

#[test]
fn reset_marks_not_accepted_and_not_ready() {
    let p = reset_to_not_accepted(&obj());
    let st = p.status.as_ref().unwrap();
    assert!(!st.accepted);
    assert!(!st.ready);
    assert_eq!(st.message, "ImageSync configuration has changed");
    assert!(st.last_completion_time.is_none());
}

#[test]
fn acceptance_passes_for_a_valid_spec() {
    let a = acceptance_checks(&obj(), good_secret(), good_secret()).unwrap();
    assert!(a.accepted);
    assert_eq!(a.message, "ImageSync configuration is valid");
}

#[test]
fn acceptance_reports_missing_and_mistyped_secrets() {
    let a = acceptance_checks(
        &obj(),
        Some(SecretLookup::Missing),
        Some(SecretLookup::Found { secret_type: Some("Opaque".to_string()) }),
    )
    .unwrap();
    assert!(!a.accepted);
    assert_eq!(
        a.message,
        "ImageSync configuration is invalid: Source secret error: Source secret src-creds does not exist. Destination secret error: Destination secret dst-creds is not of type kubernetes.io/dockerconfigjson. "
    );
}

#[test]
fn acceptance_treats_an_unanswered_lookup_as_missing() {
    let a = acceptance_checks(&obj(), None, good_secret()).unwrap();
    assert!(!a.accepted);
    assert_eq!(
        a.message,
        "ImageSync configuration is invalid: Source secret error: Source secret src-creds does not exist. "
    );
}

#[test]
fn acceptance_ignores_lookups_without_named_secrets() {
    let mut o = obj();
    o.spec.source.registry_login_secret = None;
    o.spec.destination.registry_login_secret = None;
    let a = acceptance_checks(&o, Some(SecretLookup::Missing), None).unwrap();
    assert!(a.accepted);
}

#[test]
fn acceptance_checks_image_references() {
    let mut o = obj();
    o.spec.source.image = "not an image".to_string();
    o.spec.destination.image = "mirror.example.com/team/app@sha256:abcdef".to_string();
    let a = acceptance_checks(&o, good_secret(), good_secret()).unwrap();
    assert!(!a.accepted);
    assert_eq!(
        a.message,
        "ImageSync configuration is invalid: Source image URL is invalid. Destination image URL is invalid. "
    );
}

#[test]
fn acceptance_allows_source_digests() {
    let mut o = obj();
    o.spec.source.image = "registry.example.com/team/app@sha256:0123abcd".to_string();
    let a = acceptance_checks(&o, good_secret(), good_secret()).unwrap();
    assert!(a.accepted);
}

#[test]
fn acceptance_checks_cron_schedules() {
    for good in ["*/5 * * * *", "0 3 * * 1-5", "@daily", "@every 1h30m"] {
        let mut o = obj();
        o.spec.cron_schedule = Some(good.to_string());
        assert!(acceptance_checks(&o, good_secret(), good_secret()).unwrap().accepted, "{good}");
    }
    for bad in ["every day", "* * *", ""] {
        let mut o = obj();
        o.spec.cron_schedule = Some(bad.to_string());
        let a = acceptance_checks(&o, good_secret(), good_secret()).unwrap();
        assert!(!a.accepted, "{bad}");
        assert_eq!(a.message, "ImageSync configuration is invalid: Cron schedule is invalid. ");
    }
}

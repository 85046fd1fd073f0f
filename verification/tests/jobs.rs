use image_sync_operator::config::SkopeoConfig;
use image_sync_operator::error::Error;
use image_sync_operator::imagesync::{ImageSync, ImageSyncSpec, ImageSyncTarget, Timestamp};
use image_sync_operator::jobs::{
    generate_job_object, get_job_for_imagesync, is_job_complete, is_job_failed, retry_due,
};
use image_sync_operator::script::job_script;
use image_sync_operator::workload::{Job, JobCondition, JobStatus, ObjectMeta};

fn spec() -> ImageSyncSpec {
    ImageSyncSpec {
        source: ImageSyncTarget {
            image: "registry.example.com/team/app:1.0".to_string(),
            registry_login_secret: Some("src-creds".to_string()),
        },
        destination: ImageSyncTarget {
            image: "mirror.example.com/team/app:1.0".to_string(),
            registry_login_secret: None,
        },
        cron_schedule: None,
        all_architectures: None,
        preserve_digests: Some(true),
        extra_skopeo_arguments: Some("--retry-times 3".to_string()),
    }
}

fn config() -> SkopeoConfig {
    SkopeoConfig {
        image: "quay.io/skopeo/stable:latest".to_string(),
        image_pull_policy: "IfNotPresent".to_string(),
        ca_trust_bundle: None,
    }
}

fn obj() -> ImageSync {
    ImageSync { name: "app-mirror".to_string(), namespace: "team".to_string(), spec: spec(), status: None }
}

#[test]
fn job_script_fills_every_placeholder() {
    assert_eq!(
        job_script(&spec(), &config()),
        "cat >> /etc/pki/ca-trust/extracted/pem/tls-ca-bundle.pem <<EOF\n\nEOF\nskopeo copy --preserve-digests  --src-authfile /creds/src/.dockerconfigjson  --retry-times 3 docker://registry.example.com/team/app:1.0 docker://mirror.example.com/team/app:1.0"
    );
}

#[test]
fn job_script_with_all_options_and_bundle() {
    let mut s = spec();
    s.all_architectures = Some(true);
    s.preserve_digests = Some(false);
    s.destination.registry_login_secret = Some("dst".to_string());
    s.extra_skopeo_arguments = None;
    let mut c = config();
    c.ca_trust_bundle = Some("-----BEGIN CERTIFICATE-----\nabc\n-----END CERTIFICATE-----".to_string());
    assert_eq!(
        job_script(&s, &c),
        "cat >> /etc/pki/ca-trust/extracted/pem/tls-ca-bundle.pem <<EOF\n-----BEGIN CERTIFICATE-----\nabc\n-----END CERTIFICATE-----\nEOF\nskopeo copy  --all --src-authfile /creds/src/.dockerconfigjson --dest-authfile /creds/dest/.dockerconfigjson  docker://registry.example.com/team/app:1.0 docker://mirror.example.com/team/app:1.0"
    );
}

#[test]
fn job_script_replaces_placeholders_inside_earlier_values() {
    // Replacements run one after the other, so a placeholder inside the CA
    // bundle is replaced by a later step.
    let mut c = config();
    c.ca_trust_bundle = Some("{src}".to_string());
    let script = job_script(&spec(), &c);
    assert!(script.starts_with(
        "cat >> /etc/pki/ca-trust/extracted/pem/tls-ca-bundle.pem <<EOF\nregistry.example.com/team/app:1.0\nEOF\n"
    ));
}

#[test]
fn generated_job_has_expected_shape() {
    let job = generate_job_object(&obj(), &config());
    assert_eq!(job.metadata.name.as_deref(), Some("imagesync-app-mirror"));
    assert_eq!(job.metadata.namespace, None);
    let labels = job.metadata.labels.as_ref().unwrap();
    assert_eq!(labels.len(), 1);
    assert_eq!(labels[0].0, "imagesync.apexnw.dev/imagesync");
    assert_eq!(labels[0].1, "app-mirror");
    assert!(job.status.is_none());
    let js = job.spec.as_ref().unwrap();
    assert_eq!(js.backoff_limit, Some(4));
    let pod_labels = js.template.metadata.as_ref().unwrap().labels.as_ref().unwrap();
    assert_eq!(pod_labels[0].0, "imagesync.apexnw.dev/imagesync");
    assert_eq!(pod_labels[0].1, "app-mirror");
    let pod = js.template.spec.as_ref().unwrap();
    assert_eq!(pod.restart_policy.as_deref(), Some("Never"));
    assert_eq!(pod.containers.len(), 1);
    let c = &pod.containers[0];
    assert_eq!(c.name, "skopeo");
    assert_eq!(c.image.as_deref(), Some("quay.io/skopeo/stable:latest"));
    assert_eq!(c.image_pull_policy.as_deref(), Some("IfNotPresent"));
    let cmd = c.command.as_ref().unwrap();
    assert_eq!(cmd.len(), 3);
    assert_eq!(cmd[0], "/bin/bash");
    assert_eq!(cmd[1], "-c");
    assert_eq!(cmd[2], job_script(&spec(), &config()));
    let mounts = c.volume_mounts.as_ref().unwrap();
    assert_eq!(mounts.len(), 2);
    assert_eq!(mounts[0].name, "creds-src");
    assert_eq!(mounts[0].mount_path, "/creds/src");
    assert_eq!(mounts[0].read_only, Some(true));
    assert_eq!(mounts[1].name, "creds-dest");
    assert_eq!(mounts[1].mount_path, "/creds/dest");
    let vols = pod.volumes.as_ref().unwrap();
    assert_eq!(vols.len(), 2);
    assert_eq!(vols[0].name, "creds-src");
    assert_eq!(vols[0].secret.as_ref().unwrap().secret_name.as_deref(), Some("src-creds"));
    assert_eq!(vols[1].name, "creds-dest");
    assert!(vols[1].secret.is_none());
}

fn job_with(conditions: Vec<(&str, &str)>) -> Job {
    Job {
        metadata: ObjectMeta { name: Some("imagesync-app".to_string()), namespace: Some("team".to_string()), labels: None },
        spec: None,
        status: Some(JobStatus {
            conditions: Some(
                conditions
                    .into_iter()
                    .map(|(t, s)| JobCondition { type_: t.to_string(), status: s.to_string() })
                    .collect(),
            ),
            completion_time: None,
        }),
    }
}

#[test]
fn job_complete_means_finished_or_failed() {
    assert!(is_job_complete(&job_with(vec![("Complete", "True")])));
    assert!(is_job_complete(&job_with(vec![("SuccessCriteriaMet", "True"), ("Complete", "True")])));
    assert!(is_job_complete(&job_with(vec![("FailureTarget", "True"), ("Failed", "True")])));
    assert!(!is_job_complete(&job_with(vec![("Complete", "False")])));
    assert!(!is_job_complete(&job_with(vec![("Failed", "False"), ("Suspended", "True")])));
    assert!(!is_job_complete(&job_with(vec![])));
    let mut no_status = job_with(vec![]);
    no_status.status = None;
    assert!(!is_job_complete(&no_status));
}

#[test]
fn job_failed_needs_a_true_failed_condition() {
    assert!(is_job_failed(&job_with(vec![("Failed", "True")])));
    assert!(!is_job_failed(&job_with(vec![("Failed", "Unknown")])));
    assert!(!is_job_failed(&job_with(vec![("Complete", "True")])));
}

#[test]
fn job_lookup_selects_the_single_job() {
    assert!(matches!(get_job_for_imagesync(vec![]), Ok(None)));
    let found = get_job_for_imagesync(vec![job_with(vec![])]).unwrap().unwrap();
    assert_eq!(found.metadata.name.as_deref(), Some("imagesync-app"));
    assert!(matches!(
        get_job_for_imagesync(vec![job_with(vec![]), job_with(vec![])]),
        Err(Error::MultipleJobs)
    ));
}

fn at(second: i64, nanosecond: i32) -> Timestamp {
    Timestamp { second, nanosecond }
}

#[test]
fn retry_waits_more_than_ten_whole_minutes() {
    let done = at(1_700_000_000, 0);
    assert!(!retry_due(done, at(1_700_000_000 + 600, 0)));
    assert!(!retry_due(done, at(1_700_000_000 + 659, 999_999_999)));
    assert!(retry_due(done, at(1_700_000_000 + 660, 0)));
    assert!(retry_due(done, at(1_700_000_000 + 3600, 5)));
    assert!(!retry_due(done, at(1_699_000_000, 0)));
    assert!(!retry_due(at(100, 500_000_000), at(760, 400_000_000)));
    assert!(retry_due(at(100, 500_000_000), at(760, 500_000_000)));
}

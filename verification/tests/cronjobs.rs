use image_sync_operator::config::SkopeoConfig;
use image_sync_operator::cronjobs::{
    cronjob_get_last_success, generate_cronjob_object, get_cronjob_for_imagesync,
    is_cronjob_malformed, is_cronjob_spec_correct,
};
use image_sync_operator::error::Error;
use image_sync_operator::imagesync::{ImageSync, ImageSyncSpec, ImageSyncTarget, Timestamp};
use image_sync_operator::script::cron_script;
use image_sync_operator::workload::{CronJob, CronJobSpec, CronJobStatus, JobTemplateSpec, ObjectMeta};

fn obj() -> ImageSync {
    ImageSync {
        name: "nightly".to_string(),
        namespace: "team".to_string(),
        spec: ImageSyncSpec {
            source: ImageSyncTarget {
                image: "registry.example.com/team/app:1.0".to_string(),
                registry_login_secret: None,
            },
            destination: ImageSyncTarget {
                image: "mirror.example.com/team/app:1.0".to_string(),
                registry_login_secret: Some("dst-creds".to_string()),
            },
            cron_schedule: Some("0 3 * * *".to_string()),
            all_architectures: Some(true),
            preserve_digests: None,
            extra_skopeo_arguments: None,
        },
        status: None,
    }
}

fn config() -> SkopeoConfig {
    SkopeoConfig {
        image: "quay.io/skopeo/stable:latest".to_string(),
        image_pull_policy: "Always".to_string(),
        ca_trust_bundle: Some("PEM".to_string()),
    }
}

#[test]
fn cron_script_with_and_without_debug() {
    let o = obj();
    assert_eq!(
        cron_script(&o.spec, &config(), true),
        "cat >> /etc/pki/ca-trust/extracted/pem/tls-ca-bundle.pem <<EOF\nPEM\nEOF\nskopeo copy --src-cert-dir /etc/pki/ca-trust/extracted/pem --dest-cert-dir /etc/pki/ca-trust/extracted/pem --debug  --all  --dest-authfile /creds/dest/.dockerconfigjson  docker://registry.example.com/team/app:1.0 docker://mirror.example.com/team/app:1.0"
    );
    assert_eq!(
        cron_script(&o.spec, &config(), false),
        "cat >> /etc/pki/ca-trust/extracted/pem/tls-ca-bundle.pem <<EOF\nPEM\nEOF\nskopeo copy --src-cert-dir /etc/pki/ca-trust/extracted/pem --dest-cert-dir /etc/pki/ca-trust/extracted/pem   --all  --dest-authfile /creds/dest/.dockerconfigjson  docker://registry.example.com/team/app:1.0 docker://mirror.example.com/team/app:1.0"
    );
}

#[test]
fn generated_cronjob_has_expected_shape() {
    let cj = generate_cronjob_object(&obj(), false, &config());
    assert_eq!(cj.metadata.name.as_deref(), Some("imagesync-nightly"));
    let labels = cj.metadata.labels.as_ref().unwrap();
    assert_eq!(labels[0].0, "imagesync.apexnw.dev/imagesync-cron");
    assert_eq!(labels[0].1, "nightly");
    let spec = &cj.spec;
    assert_eq!(spec.schedule, "0 3 * * *");
    let tmpl_labels = spec.job_template.metadata.as_ref().unwrap().labels.as_ref().unwrap();
    assert_eq!(tmpl_labels[0].0, "imagesync.apexnw.dev/imagesync-cron");
    let js = spec.job_template.spec.as_ref().unwrap();
    assert_eq!(js.backoff_limit, Some(4));
    let pod = js.template.spec.as_ref().unwrap();
    assert_eq!(pod.containers[0].command.as_ref().unwrap()[2], cron_script(&obj().spec, &config(), false));
    let vols = pod.volumes.as_ref().unwrap();
    assert!(vols[0].secret.is_none());
    assert_eq!(vols[1].secret.as_ref().unwrap().secret_name.as_deref(), Some("dst-creds"));
    assert!(cj.status.is_none());
}

#[test]
fn generated_cronjob_is_correct() {
    for debug in [false, true] {
        let cj = generate_cronjob_object(&obj(), debug, &config());
        assert!(!is_cronjob_malformed(&obj(), &cj));
        assert!(is_cronjob_spec_correct(&obj(), &cj, &config(), debug));
    }
}

#[test]
fn debug_flag_change_makes_cronjob_incorrect() {
    let cj = generate_cronjob_object(&obj(), false, &config());
    assert!(!is_cronjob_spec_correct(&obj(), &cj, &config(), true));
}

#[test]
fn changed_fields_make_cronjob_incorrect() {
    let base = || generate_cronjob_object(&obj(), false, &config());

    let mut cj = base();
    cj.spec.schedule = "0 4 * * *".to_string();
    assert!(!is_cronjob_spec_correct(&obj(), &cj, &config(), false));

    let mut cj = base();
    cj.spec.job_template.spec.as_mut().unwrap().backoff_limit = Some(6);
    assert!(!is_cronjob_spec_correct(&obj(), &cj, &config(), false));

    let mut cj = base();
    let pod = cj.spec.job_template.spec.as_mut().unwrap().template.spec.as_mut().unwrap();
    pod.containers[0].image = Some("other:1".to_string());
    assert!(!is_cronjob_spec_correct(&obj(), &cj, &config(), false));

    let mut cj = base();
    let pod = cj.spec.job_template.spec.as_mut().unwrap().template.spec.as_mut().unwrap();
    pod.containers[0].image_pull_policy = Some("Never".to_string());
    assert!(!is_cronjob_spec_correct(&obj(), &cj, &config(), false));

    let mut cj = base();
    let pod = cj.spec.job_template.spec.as_mut().unwrap().template.spec.as_mut().unwrap();
    pod.volumes.as_mut().unwrap()[1].secret = None;
    assert!(!is_cronjob_spec_correct(&obj(), &cj, &config(), false));

    let mut cj = base();
    let pod = cj.spec.job_template.spec.as_mut().unwrap().template.spec.as_mut().unwrap();
    pod.containers[0].volume_mounts.as_mut().unwrap()[0].sub_path = Some("x".to_string());
    assert!(!is_cronjob_spec_correct(&obj(), &cj, &config(), false));

    let mut cj = base();
    cj.spec.job_template.spec = None;
    assert!(!is_cronjob_spec_correct(&obj(), &cj, &config(), false));
}

#[test]
fn fields_set_by_the_cluster_are_ignored() {
    let mut cj = generate_cronjob_object(&obj(), false, &config());
    cj.metadata.namespace = Some("team".to_string());
    cj.status = Some(CronJobStatus { last_successful_time: None });
    let pod = cj.spec.job_template.spec.as_mut().unwrap().template.spec.as_mut().unwrap();
    pod.restart_policy = Some("OnFailure".to_string());
    assert!(is_cronjob_spec_correct(&obj(), &cj, &config(), false));
}

#[test]
fn missing_volumes_or_containers_are_malformed() {
    let mut cj = generate_cronjob_object(&obj(), false, &config());
    let pod = cj.spec.job_template.spec.as_mut().unwrap().template.spec.as_mut().unwrap();
    pod.volumes = None;
    assert!(is_cronjob_malformed(&obj(), &cj));

    let mut cj = generate_cronjob_object(&obj(), false, &config());
    let pod = cj.spec.job_template.spec.as_mut().unwrap().template.spec.as_mut().unwrap();
    pod.containers.clear();
    assert!(is_cronjob_malformed(&obj(), &cj));

    // With different secrets the comparison stops before the containers.
    let mut cj = generate_cronjob_object(&obj(), false, &config());
    let pod = cj.spec.job_template.spec.as_mut().unwrap().template.spec.as_mut().unwrap();
    pod.containers.clear();
    pod.volumes.as_mut().unwrap()[1].secret = None;
    assert!(!is_cronjob_malformed(&obj(), &cj));
    assert!(!is_cronjob_spec_correct(&obj(), &cj, &config(), false));
}

fn bare_cronjob(status: Option<CronJobStatus>) -> CronJob {
    CronJob {
        metadata: ObjectMeta { name: None, namespace: None, labels: None },
        spec: CronJobSpec {
            schedule: "@hourly".to_string(),
            job_template: JobTemplateSpec { metadata: None, spec: None },
        },
        status,
    }
}

#[test]
fn cronjob_lookup_selects_the_single_cronjob() {
    assert!(matches!(get_cronjob_for_imagesync(vec![]), Ok(None)));
    assert!(matches!(get_cronjob_for_imagesync(vec![bare_cronjob(None)]), Ok(Some(_))));
    assert!(matches!(
        get_cronjob_for_imagesync(vec![bare_cronjob(None), bare_cronjob(None)]),
        Err(Error::MultipleCronJobs)
    ));
}

#[test]
fn last_success_comes_from_the_cronjob_status() {
    let t = Timestamp { second: 1_700_000_000, nanosecond: 0 };
    let found = Some(bare_cronjob(Some(CronJobStatus { last_successful_time: Some(t) })));
    let got = cronjob_get_last_success(&found).unwrap();
    assert_eq!(got.second, 1_700_000_000);
    assert!(cronjob_get_last_success(&Some(bare_cronjob(None))).is_none());
    assert!(cronjob_get_last_success(&None).is_none());
}

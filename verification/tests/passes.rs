use image_sync_operator::config::SkopeoConfig;
use image_sync_operator::controller::{reconcile_step, Action, Event, ReconcileState};
use image_sync_operator::imagesync::{ImageSync, ImageSyncSpec, ImageSyncStatus, ImageSyncTarget, Timestamp};
use image_sync_operator::cronjobs::generate_cronjob_object;
use image_sync_operator::jobs::generate_job_object;
use image_sync_operator::naming::job_label_selector;
use image_sync_operator::reconciler::{has_config_changed, SecretLookup};
use image_sync_operator::workload::{CronJob, Job, JobCondition, JobStatus};

fn config() -> SkopeoConfig {
    SkopeoConfig {
        image: "quay.io/skopeo/stable:latest".to_string(),
        image_pull_policy: "IfNotPresent".to_string(),
        ca_trust_bundle: None,
    }
}

fn spec(cron: Option<&str>) -> ImageSyncSpec {
    ImageSyncSpec {
        source: ImageSyncTarget { image: "registry.example.com/team/app:1.0".to_string(), registry_login_secret: None },
        destination: ImageSyncTarget { image: "mirror.example.com/team/app:1.0".to_string(), registry_login_secret: None },
        cron_schedule: cron.map(|c| c.to_string()),
        all_architectures: None,
        preserve_digests: None,
        extra_skopeo_arguments: None,
    }
}

/// A tiny in-memory cluster that answers the state machine's actions.
struct FakeCluster {
    obj: ImageSync,
    /// The sync Job, if any: its finished condition and completion time.
    job: Option<Option<(String, i64)>>,
    /// Whether the sync CronJob exists, and its schedule.
    cronjob: Option<String>,
    now: i64,
}

fn view_of(obj: &ImageSync) -> ImageSync {
    ImageSync {
        name: obj.name.clone(),
        namespace: obj.namespace.clone(),
        spec: obj.spec.clone(),
        status: obj.status.clone(),
    }
}

impl FakeCluster {
    fn new(obj: ImageSync, now: i64) -> FakeCluster {
        FakeCluster { obj, job: None, cronjob: None, now }
    }

    fn listed_jobs(&self) -> Vec<Job> {
        match &self.job {
            None => vec![],
            Some(finished) => {
                let mut j = generate_job_object(&self.obj, &config());
                j.status = Some(JobStatus {
                    conditions: Some(
                        finished
                            .iter()
                            .map(|(c, _)| JobCondition { type_: c.clone(), status: "True".to_string() })
                            .collect(),
                    ),
                    completion_time: finished.as_ref().map(|(_, t)| Timestamp { second: *t, nanosecond: 0 }),
                });
                vec![j]
            }
        }
    }

    fn listed_cronjobs(&self) -> Vec<CronJob> {
        match &self.cronjob {
            None => vec![],
            Some(schedule) => {
                let mut cj = generate_cronjob_object(&self.obj, false, &config());
                cj.spec.schedule = schedule.clone();
                vec![cj]
            }
        }
    }

    /// Runs one reconcile pass; returns the number of steps and the final action.
    fn pass(&mut self) -> (usize, Action) {
        let view = view_of(&self.obj);
        let mut state = ReconcileState::Start;
        let mut event = Event::Begin;
        let mut steps = 0;
        loop {
            steps += 1;
            let (next, action) = reconcile_step(&view, &config(), false, state, event);
            state = next;
            event = match action {
                Action::UpdateStatus(p) => {
                    self.obj.status = p.status;
                    Event::Applied
                }
                Action::LookupSecrets { .. } => Event::SecretsFound {
                    source: Some(SecretLookup::Missing),
                    destination: Some(SecretLookup::Missing),
                },
                Action::ListJobs { .. } => Event::JobsListed {
                    jobs: self.listed_jobs(),
                    now: Timestamp { second: self.now, nanosecond: 0 },
                },
                Action::CreateJob(_) => {
                    self.job = Some(None);
                    Event::Applied
                }
                Action::DeleteJob(_) => {
                    self.job = None;
                    Event::Applied
                }
                Action::ListCronJobs { .. } => Event::CronJobsListed { cronjobs: self.listed_cronjobs() },
                Action::CreateCronJob(cj) => {
                    self.cronjob = Some(cj.spec.schedule.clone());
                    Event::Applied
                }
                Action::DeleteCronJob(_) => {
                    self.cronjob = None;
                    Event::Applied
                }
                done => return (steps, done),
            };
        }
    }
}

fn finish_jobs(cluster: &mut FakeCluster, condition: &str, at: i64) {
    if cluster.job.is_some() {
        cluster.job = Some(Some((condition.to_string(), at)));
    }
}

#[test]
fn one_shot_sync_goes_from_new_to_ready_and_stays() {
    let mut cluster = FakeCluster::new(
        ImageSync { name: "app".to_string(), namespace: "team".to_string(), spec: spec(None), status: None },
        10_000,
    );
    // Pass 1: new spec, reset and accepted.
    let (steps, action) = cluster.pass();
    assert!(steps <= 7);
    assert!(matches!(action, Action::Requeue { seconds: 0 }));
    assert!(cluster.obj.status.as_ref().unwrap().accepted);
    assert!(!has_config_changed(&cluster.obj));
    // Pass 2: the Job is created.
    let (_, action) = cluster.pass();
    assert!(matches!(action, Action::Requeue { seconds: 5 }));
    assert!(cluster.job.is_some());
    // Pass 3: still running.
    let (_, action) = cluster.pass();
    assert!(matches!(action, Action::Requeue { seconds: 5 }));
    assert!(!cluster.obj.status.as_ref().unwrap().ready);
    // The Job completes; pass 4 marks the sync ready.
    finish_jobs(&mut cluster, "Complete", 10_100);
    let (_, action) = cluster.pass();
    assert!(matches!(action, Action::Requeue { seconds: 5 }));
    assert!(cluster.obj.status.as_ref().unwrap().ready);
    // Pass 5: nothing left to do.
    let (steps, action) = cluster.pass();
    assert_eq!(steps, 1);
    assert!(matches!(action, Action::Requeue { seconds: 3600 }));
}

#[test]
fn failed_job_is_retried_after_ten_minutes() {
    let mut cluster = FakeCluster::new(
        ImageSync { name: "app".to_string(), namespace: "team".to_string(), spec: spec(None), status: None },
        10_000,
    );
    cluster.pass();
    cluster.pass();
    finish_jobs(&mut cluster, "Failed", 10_000);
    cluster.now = 10_000 + 5 * 60;
    let (_, action) = cluster.pass();
    assert!(matches!(action, Action::Requeue { seconds: 300 }));
    assert_eq!(cluster.obj.status.as_ref().unwrap().message, "ImageSync job failed");
    cluster.now = 10_000 + 12 * 60;
    let (_, action) = cluster.pass();
    assert!(matches!(action, Action::Requeue { seconds: 5 }));
    assert!(cluster.job.is_none());
    assert_eq!(cluster.obj.status.as_ref().unwrap().message, "ImageSync job failed, retrying");
}

#[test]
fn scheduled_sync_creates_its_cronjob_after_a_recent_failure() {
    let mut cluster = FakeCluster::new(
        ImageSync { name: "nightly".to_string(), namespace: "team".to_string(), spec: spec(Some("0 3 * * *")), status: None },
        50_000,
    );
    cluster.pass();
    cluster.pass();
    finish_jobs(&mut cluster, "Failed", 50_000);
    let (steps, action) = cluster.pass();
    assert!(steps <= 7);
    assert!(matches!(action, Action::Requeue { seconds: 5 }));
    assert_eq!(cluster.cronjob.as_deref(), Some("0 3 * * *"));
    // The next pass after another recent failure finds the CronJob correct.
    let (steps, action) = cluster.pass();
    assert!(steps <= 7);
    assert!(matches!(action, Action::Requeue { seconds: 300 }));
    assert_eq!(cluster.obj.status.as_ref().unwrap().message, "ImageSync CronJob is running");
    assert!(cluster.obj.status.as_ref().unwrap().ready);
}

#[test]
fn changed_spec_is_reset_before_anything_else() {
    let mut obj = ImageSync { name: "app".to_string(), namespace: "team".to_string(), spec: spec(None), status: None };
    obj.status = Some(ImageSyncStatus {
        accepted: true,
        ready: true,
        last_applied_config: spec(Some("@daily")),
        last_completion_time: None,
        message: "old".to_string(),
    });
    let mut cluster = FakeCluster::new(obj, 0);
    let (_, action) = cluster.pass();
    assert!(matches!(action, Action::Requeue { seconds: 0 }));
    assert!(cluster.job.is_none());
    assert!(!has_config_changed(&cluster.obj));
}

#[test]
fn job_selector_finds_the_generated_job() {
    let obj = ImageSync { name: "app".to_string(), namespace: "team".to_string(), spec: spec(None), status: None };
    let job = generate_job_object(&obj, &config());
    let (key, value) = &job.metadata.labels.as_ref().unwrap()[0];
    assert_eq!(job_label_selector(&obj), format!("{}={}", key, value));
}

#[test]
fn scheduled_sync_gets_its_cronjob_after_a_successful_job() {
    let mut cluster = FakeCluster::new(
        ImageSync { name: "nightly".to_string(), namespace: "team".to_string(), spec: spec(Some("0 3 * * *")), status: None },
        50_000,
    );
    cluster.pass(); // reset and accept
    cluster.pass(); // create the one-shot Job
    finish_jobs(&mut cluster, "Complete", 50_100);
    let (_, action) = cluster.pass(); // record success
    assert!(matches!(action, Action::Requeue { seconds: 5 }));
    assert!(cluster.obj.status.as_ref().unwrap().ready);
    assert!(cluster.cronjob.is_none());
    let (steps, action) = cluster.pass(); // create the CronJob
    assert_eq!(steps, 3);
    assert!(matches!(action, Action::Requeue { seconds: 5 }));
    assert_eq!(cluster.cronjob.as_deref(), Some("0 3 * * *"));
    let (_, action) = cluster.pass(); // CronJob correct: record it as running
    assert!(matches!(action, Action::Requeue { seconds: 300 }));
    let st = cluster.obj.status.as_ref().unwrap();
    assert!(st.ready);
    assert_eq!(st.message, "ImageSync CronJob is running");
    // A changed schedule in the cluster makes the next pass recreate it.
    cluster.cronjob = Some("0 1 * * *".to_string());
    let (_, action) = cluster.pass();
    assert!(matches!(action, Action::Requeue { seconds: 30 }));
    assert_eq!(cluster.cronjob.as_deref(), Some("0 3 * * *"));
}

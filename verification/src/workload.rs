//! The parts of Kubernetes Jobs and CronJobs that the operator writes or
//! reads, and the shape of the skopeo pod that every sync runs.

use crate::config::SkopeoConfig;
use crate::imagesync::{ImageSyncSpec, Timestamp};
use vstd::prelude::*;

verus! {

/// Object metadata: name, namespace and labels (key, value).
pub struct ObjectMeta {
    pub name: Option<String>,
    pub namespace: Option<String>,
    pub labels: Option<Vec<(String, String)>>,
}

/// A volume mount of a container, with every field Kubernetes defines.
pub struct VolumeMount {
    pub name: String,
    pub mount_path: String,
    pub read_only: Option<bool>,
    pub sub_path: Option<String>,
    pub sub_path_expr: Option<String>,
    pub mount_propagation: Option<String>,
    pub recursive_read_only: Option<String>,
    pub bind_mount_options: Option<Vec<String>>,
}

/// A container of a pod.
pub struct Container {
    pub name: String,
    pub image: Option<String>,
    pub image_pull_policy: Option<String>,
    pub command: Option<Vec<String>>,
    pub volume_mounts: Option<Vec<VolumeMount>>,
}

/// A volume backed by a Secret.
pub struct SecretVolumeSource {
    pub secret_name: Option<String>,
}

/// A pod volume; only Secret volumes are modelled.
pub struct Volume {
    pub name: String,
    pub secret: Option<SecretVolumeSource>,
}

/// The spec of a pod.
pub struct PodSpec {
    pub containers: Vec<Container>,
    pub volumes: Option<Vec<Volume>>,
    pub restart_policy: Option<String>,
}

/// A pod template.
pub struct PodTemplateSpec {
    pub metadata: Option<ObjectMeta>,
    pub spec: Option<PodSpec>,
}

/// The spec of a Job.
pub struct JobSpec {
    pub template: PodTemplateSpec,
    pub backoff_limit: Option<i32>,
}

/// A condition reported in a Job's status.
pub struct JobCondition {
    pub type_: String,
    pub status: String,
}

/// The status of a Job.
pub struct JobStatus {
    pub conditions: Option<Vec<JobCondition>>,
    pub completion_time: Option<Timestamp>,
}

/// A Job.
pub struct Job {
    pub metadata: ObjectMeta,
    pub spec: Option<JobSpec>,
    pub status: Option<JobStatus>,
}

/// The Job template of a CronJob.
pub struct JobTemplateSpec {
    pub metadata: Option<ObjectMeta>,
    pub spec: Option<JobSpec>,
}

/// The spec of a CronJob.
pub struct CronJobSpec {
    pub schedule: String,
    pub job_template: JobTemplateSpec,
}

/// The status of a CronJob.
pub struct CronJobStatus {
    pub last_successful_time: Option<Timestamp>,
}

/// A CronJob.
pub struct CronJob {
    pub metadata: ObjectMeta,
    pub spec: CronJobSpec,
    pub status: Option<CronJobStatus>,
}

/// The contents of an optional string, or the empty text.
pub open spec fn text_or_empty(o: Option<String>) -> Seq<char> {
    match o {
        Some(s) => s@,
        None => Seq::empty(),
    }
}

/// The contents of an optional string.
pub open spec fn opt_view(o: Option<String>) -> Option<Seq<char>> {
    match o {
        Some(s) => Some(s@),
        None => None,
    }
}

/// Metadata with no name or namespace and the single label `key=value`.
pub open spec fn is_labelled_meta(m: ObjectMeta, key: Seq<char>, value: Seq<char>) -> bool {
    &&& m.namespace is None
    &&& m.labels matches Some(ls) && ls@.len() == 1 && ls@[0].0@ == key && ls@[0].1@ == value
}

/// A read-only mount of volume `name` at `path`, every other field unset.
pub open spec fn is_creds_mount(m: VolumeMount, name: Seq<char>, path: Seq<char>) -> bool {
    &&& m.name@ == name
    &&& m.mount_path@ == path
    &&& m.read_only == Some(true)
    &&& m.sub_path is None
    &&& m.sub_path_expr is None
    &&& m.mount_propagation is None
    &&& m.recursive_read_only is None
    &&& m.bind_mount_options is None
}

/// The two credential mounts of the skopeo container, in order.
pub open spec fn are_creds_mounts(ms: Seq<VolumeMount>) -> bool {
    &&& ms.len() == 2
    &&& is_creds_mount(ms[0], "creds-src"@, "/creds/src"@)
    &&& is_creds_mount(ms[1], "creds-dest"@, "/creds/dest"@)
}

/// The command that runs `script` in bash.
pub open spec fn bash_command(script: Seq<char>) -> Seq<Seq<char>> {
    seq!["/bin/bash"@, "-c"@, script]
}

/// The skopeo container that runs `script`.
pub open spec fn is_skopeo_container(c: Container, script: Seq<char>, config: SkopeoConfig) -> bool {
    &&& c.name@ == "skopeo"@
    &&& opt_view(c.image) == Some(config.image@)
    &&& opt_view(c.image_pull_policy) == Some(config.image_pull_policy@)
    &&& c.command matches Some(cmd) && cmd.deep_view() == bash_command(script)
    &&& c.volume_mounts matches Some(ms) && are_creds_mounts(ms@)
}

/// A volume named `name`, backed by the Secret `secret` when one is named.
pub open spec fn is_secret_volume(v: Volume, name: Seq<char>, secret: Option<String>) -> bool {
    &&& v.name@ == name
    &&& match secret {
        None => v.secret is None,
        Some(s) => v.secret matches Some(src) && opt_view(src.secret_name) == Some(s@),
    }
}

/// The pod spec that runs `script` once in the skopeo container, with the
/// credentials of `spec` mounted.
pub open spec fn is_skopeo_pod_spec(
    p: PodSpec,
    script: Seq<char>,
    spec: ImageSyncSpec,
    config: SkopeoConfig,
) -> bool {
    &&& p.containers@.len() == 1
    &&& is_skopeo_container(p.containers@[0], script, config)
    &&& p.volumes matches Some(vs) && vs@.len() == 2 && is_secret_volume(
        vs@[0],
        "creds-src"@,
        spec.source.registry_login_secret,
    ) && is_secret_volume(vs@[1], "creds-dest"@, spec.destination.registry_login_secret)
    &&& opt_view(p.restart_policy) == Some("Never"@)
}

/// The Job spec of a sync: the labelled skopeo pod, retried up to four times.
pub open spec fn is_sync_job_spec(
    js: JobSpec,
    key: Seq<char>,
    value: Seq<char>,
    script: Seq<char>,
    spec: ImageSyncSpec,
    config: SkopeoConfig,
) -> bool {
    &&& js.backoff_limit == Some(4i32)
    &&& js.template.metadata matches Some(m) && is_labelled_meta(m, key, value) && m.name is None
    &&& js.template.spec matches Some(p) && is_skopeo_pod_spec(p, script, spec, config)
}

/// A fresh string holding `s`.
pub fn string_from(s: &str) -> (r: String)
    ensures
        r@ == s@,
{
    s.to_owned()
}

/// A read-only mount of volume `name` at `path`.
fn creds_mount(name: &str, path: &str) -> (m: VolumeMount)
    ensures
        is_creds_mount(m, name@, path@),
{
    VolumeMount {
        name: string_from(name),
        mount_path: string_from(path),
        read_only: Some(true),
        sub_path: None,
        sub_path_expr: None,
        mount_propagation: None,
        recursive_read_only: None,
        bind_mount_options: None,
    }
}

/// A volume named `name`, backed by the Secret `secret` when one is named.
fn secret_volume(name: &str, secret: &Option<String>) -> (v: Volume)
    ensures
        is_secret_volume(v, name@, *secret),
{
    let source = match secret {
        Some(s) => Some(SecretVolumeSource { secret_name: Some(s.clone()) }),
        None => None,
    };
    Volume { name: string_from(name), secret: source }
}

/// Metadata with the single label `key=value`.
pub fn labelled_meta(name: Option<String>, key: String, value: String) -> (m: ObjectMeta)
    ensures
        m.namespace is None,
        m.name == name,
        m.labels matches Some(ls) && ls@.len() == 1 && ls@[0].0 == key && ls@[0].1 == value,
{
    let mut labels: Vec<(String, String)> = Vec::new();
    labels.push((key, value));
    ObjectMeta { name, namespace: None, labels: Some(labels) }
}

/// The Job spec that runs `script` in the skopeo container, with its pod
/// labelled `key=value`.
pub fn sync_job_spec(
    key: &String,
    value: &String,
    script: String,
    spec: &ImageSyncSpec,
    config: &SkopeoConfig,
) -> (js: JobSpec)
    ensures
        is_sync_job_spec(js, key@, value@, script@, *spec, *config),
{
    let mut command: Vec<String> = Vec::new();
    command.push(string_from("/bin/bash"));
    command.push(string_from("-c"));
    command.push(script);
    assert(command.deep_view() =~= bash_command(script@));
    let mut mounts: Vec<VolumeMount> = Vec::new();
    mounts.push(creds_mount("creds-src", "/creds/src"));
    mounts.push(creds_mount("creds-dest", "/creds/dest"));
    let container = Container {
        name: string_from("skopeo"),
        image: Some(config.image.clone()),
        image_pull_policy: Some(config.image_pull_policy.clone()),
        command: Some(command),
        volume_mounts: Some(mounts),
    };
    let mut containers: Vec<Container> = Vec::new();
    containers.push(container);
    let mut volumes: Vec<Volume> = Vec::new();
    volumes.push(secret_volume("creds-src", &spec.source.registry_login_secret));
    volumes.push(secret_volume("creds-dest", &spec.destination.registry_login_secret));
    let pod = PodSpec {
        containers,
        volumes: Some(volumes),
        restart_policy: Some(string_from("Never")),
    };
    JobSpec {
        template: PodTemplateSpec {
            metadata: Some(labelled_meta(None, key.clone(), value.clone())),
            spec: Some(pod),
        },
        backoff_limit: Some(4),
    }
}

} // verus!

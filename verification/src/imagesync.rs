//! The `ImageSync` custom resource: its spec, its status, and the instant
//! type used for completion times.

use vstd::prelude::*;

verus! {

/// An instant, as whole seconds since the Unix epoch and a nanosecond part
/// with the same sign as the seconds.
#[derive(Debug, Clone, Copy)]
pub struct Timestamp {
    pub second: i64,
    pub nanosecond: i32,
}

/// The `source` and `destination` sections of an ImageSync spec.
pub struct ImageSyncTarget {
    /// Image reference, such as `registry.example.com/team/app:1.0`.
    pub image: String,
    /// Name of a `kubernetes.io/dockerconfigjson` Secret holding registry credentials.
    pub registry_login_secret: Option<String>,
}

/// The `spec` section of an ImageSync.
pub struct ImageSyncSpec {
    pub source: ImageSyncTarget,
    pub destination: ImageSyncTarget,
    /// Present for a recurring sync; absent for a one-shot sync.
    pub cron_schedule: Option<String>,
    pub all_architectures: Option<bool>,
    pub preserve_digests: Option<bool>,
    pub extra_skopeo_arguments: Option<String>,
}

/// The `status` section of an ImageSync.
pub struct ImageSyncStatus {
    pub accepted: bool,
    pub ready: bool,
    /// The spec that was current when this status was written.
    pub last_applied_config: ImageSyncSpec,
    pub last_completion_time: Option<Timestamp>,
    pub message: String,
}

/// An ImageSync object as the reconciler sees it.
pub struct ImageSync {
    pub name: String,
    pub namespace: String,
    pub spec: ImageSyncSpec,
    pub status: Option<ImageSyncStatus>,
}

/// A copy of an optional string.
pub fn clone_opt_string(o: &Option<String>) -> (r: Option<String>)
    ensures
        r == *o,
{
    match o {
        Some(s) => Some(s.clone()),
        None => None,
    }
}

impl Clone for ImageSyncTarget {
    fn clone(&self) -> (r: Self)
        ensures
            r == *self,
    {
        ImageSyncTarget {
            image: self.image.clone(),
            registry_login_secret: clone_opt_string(&self.registry_login_secret),
        }
    }
}

impl Clone for ImageSyncSpec {
    fn clone(&self) -> (r: Self)
        ensures
            r == *self,
    {
        ImageSyncSpec {
            source: self.source.clone(),
            destination: self.destination.clone(),
            cron_schedule: clone_opt_string(&self.cron_schedule),
            all_architectures: self.all_architectures,
            preserve_digests: self.preserve_digests,
            extra_skopeo_arguments: clone_opt_string(&self.extra_skopeo_arguments),
        }
    }
}

impl Clone for ImageSyncStatus {
    fn clone(&self) -> (r: Self)
        ensures
            r == *self,
    {
        ImageSyncStatus {
            accepted: self.accepted,
            ready: self.ready,
            last_applied_config: self.last_applied_config.clone(),
            last_completion_time: self.last_completion_time,
            message: self.message.clone(),
        }
    }
}

impl Clone for ImageSync {
    fn clone(&self) -> (r: Self)
        ensures
            r == *self,
    {
        let status = match &self.status {
            Some(st) => Some(st.clone()),
            None => None,
        };
        ImageSync {
            name: self.name.clone(),
            namespace: self.namespace.clone(),
            spec: self.spec.clone(),
            status,
        }
    }
}

/// Optional strings with equal contents.
pub open spec fn same_opt_string(a: Option<String>, b: Option<String>) -> bool {
    match (a, b) {
        (Some(x), Some(y)) => x@ == y@,
        (None, None) => true,
        _ => false,
    }
}

/// Targets with equal contents.
pub open spec fn same_target(a: ImageSyncTarget, b: ImageSyncTarget) -> bool {
    &&& a.image@ == b.image@
    &&& same_opt_string(a.registry_login_secret, b.registry_login_secret)
}

/// Specs with equal contents: equal as JSON documents.
pub open spec fn same_spec(a: ImageSyncSpec, b: ImageSyncSpec) -> bool {
    &&& same_target(a.source, b.source)
    &&& same_target(a.destination, b.destination)
    &&& same_opt_string(a.cron_schedule, b.cron_schedule)
    &&& a.all_architectures == b.all_architectures
    &&& a.preserve_digests == b.preserve_digests
    &&& same_opt_string(a.extra_skopeo_arguments, b.extra_skopeo_arguments)
}

/// Whether two optional strings hold the same contents.
pub fn opt_string_eq(a: &Option<String>, b: &Option<String>) -> (r: bool)
    ensures
        r == same_opt_string(*a, *b),
{
    match (a, b) {
        (Some(x), Some(y)) => *x == *y,
        (None, None) => true,
        _ => false,
    }
}

/// Whether two optional flags are equal.
pub fn opt_bool_eq(a: Option<bool>, b: Option<bool>) -> (r: bool)
    ensures
        r == (a == b),
{
    match (a, b) {
        (Some(x), Some(y)) => x == y,
        (None, None) => true,
        _ => false,
    }
}

fn target_eq(a: &ImageSyncTarget, b: &ImageSyncTarget) -> (r: bool)
    ensures
        r == same_target(*a, *b),
{
    a.image == b.image && opt_string_eq(&a.registry_login_secret, &b.registry_login_secret)
}

/// Whether two specs hold the same contents.
pub fn spec_eq(a: &ImageSyncSpec, b: &ImageSyncSpec) -> (r: bool)
    ensures
        r == same_spec(*a, *b),
{
    target_eq(&a.source, &b.source) && target_eq(&a.destination, &b.destination) && opt_string_eq(
        &a.cron_schedule,
        &b.cron_schedule,
    ) && opt_bool_eq(a.all_architectures, b.all_architectures) && opt_bool_eq(
        a.preserve_digests,
        b.preserve_digests,
    ) && opt_string_eq(&a.extra_skopeo_arguments, &b.extra_skopeo_arguments)
}

} // verus!

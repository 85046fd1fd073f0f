//! One-shot sync Jobs: the Job an ImageSync runs, how its state is read,
//! and when a failed one is retried.

use crate::config::SkopeoConfig;
use crate::error::Error;
use crate::imagesync::{ImageSync, ImageSyncSpec, Timestamp};
use crate::naming::{
    basename, basename_defined, basename_spec, job_label_key, job_label_key_string,
    object_name, object_name_spec, selector_spec,
};
use crate::script::{job_script, job_script_spec};
use crate::workload::{
    is_labelled_meta, is_sync_job_spec, labelled_meta, opt_view, sync_job_spec, Job, JobCondition,
};
use vstd::prelude::*;

verus! {

/// `j` is the one-shot sync Job of an ImageSync named `name` with `spec`.
pub open spec fn is_sync_job(j: Job, name: Seq<char>, spec: ImageSyncSpec, config: SkopeoConfig) -> bool {
    let b = basename_spec(name);
    &&& opt_view(j.metadata.name) == Some(object_name_spec(name))
    &&& is_labelled_meta(j.metadata, job_label_key(), b)
    &&& j.status is None
    &&& j.spec matches Some(js) && is_sync_job_spec(js, job_label_key(), b, job_script_spec(spec, config), spec, config)
}

/// The one-shot sync Job of `obj`: named `imagesync-<base name>`, labelled
/// with the base name, running skopeo once with up to four retries.
pub fn generate_job_object(obj: &ImageSync, config: &SkopeoConfig) -> (j: Job)
    requires
        basename_defined(obj.name@),
    ensures
        is_sync_job(j, obj.name@, obj.spec, *config),
{
    let b = basename(obj.name.as_str());
    let key = job_label_key_string();
    let spec = sync_job_spec(&key, &b, job_script(&obj.spec, config), &obj.spec, config);
    Job {
        metadata: labelled_meta(Some(object_name(obj)), key, b),
        spec: Some(spec),
        status: None,
    }
}

/// The label selector of an ImageSync selects the Job generated for it:
/// the Job's only label is the selector's key with the selector's value.
pub proof fn lemma_job_found_by_selector(
    j: Job,
    name: Seq<char>,
    spec: ImageSyncSpec,
    config: SkopeoConfig,
)
    requires
        is_sync_job(j, name, spec, config),
    ensures
        j.metadata.labels matches Some(ls) && ls@.len() == 1 && selector_spec(
            job_label_key(),
            basename_spec(name),
        ) == selector_spec(ls@[0].0@, ls@[0].1@),
{
}

/// Some condition of `j` has the given type and the status `True`.
pub open spec fn has_true_condition(j: Job, kind: Seq<char>) -> bool {
    j.status matches Some(st) && st.conditions matches Some(cs) && exists|i: int|
        0 <= i < cs@.len() && (#[trigger] cs@[i]).type_@ == kind && cs@[i].status@ == "True"@
}

/// Whether `conditions` holds one of the given type with status `True`.
fn any_true_condition(conditions: &Vec<JobCondition>, kind: &str) -> (r: bool)
    ensures
        r == exists|i: int|
            0 <= i < conditions@.len() && (#[trigger] conditions@[i]).type_@ == kind@
                && conditions@[i].status@ == "True"@,
{
    let kind_s = kind.to_owned();
    let truth = "True".to_owned();
    let mut i: usize = 0;
    while i < conditions.len()
        invariant
            i <= conditions@.len(),
            kind_s@ == kind@,
            truth@ == "True"@,
            forall|k: int|
                0 <= k < i ==> !((#[trigger] conditions@[k]).type_@ == kind@ && conditions@[k].status@
                    == "True"@),
        decreases conditions@.len() - i,
    {
        if conditions[i].type_ == kind_s && conditions[i].status == truth {
            return true;
        }
        i = i + 1;
    }
    false
}

/// The Job has finished running or has failed: it reports `Complete` or
/// `Failed` as `True`.
pub open spec fn job_finished(j: Job) -> bool {
    has_true_condition(j, "Complete"@) || has_true_condition(j, "Failed"@)
}

/// Whether the Job has finished running or has failed.
pub fn is_job_complete(job: &Job) -> (r: bool)
    ensures
        r == job_finished(*job),
{
    match &job.status {
        Some(st) => match &st.conditions {
            Some(cs) => any_true_condition(cs, "Complete") || any_true_condition(cs, "Failed"),
            None => false,
        },
        None => false,
    }
}

/// Whether the Job reports the condition `Failed` as `True`.
pub fn is_job_failed(job: &Job) -> (r: bool)
    ensures
        r == has_true_condition(*job, "Failed"@),
{
    match &job.status {
        Some(st) => match &st.conditions {
            Some(cs) => any_true_condition(cs, "Failed"),
            None => false,
        },
        None => false,
    }
}

/// The only item of `items`, none for no item, `err` for several.
pub open spec fn single_item<T>(items: Seq<T>, err: Error) -> Result<Option<T>, Error> {
    if items.len() == 0 {
        Ok(None)
    } else if items.len() == 1 {
        Ok(Some(items[0]))
    } else {
        Err(err)
    }
}

/// The only item of `items`, none for no item, `err` for several.
pub fn take_single<T>(items: Vec<T>, err: Error) -> (r: Result<Option<T>, Error>)
    ensures
        r == single_item(items@, err),
{
    let mut items = items;
    if items.len() == 1 {
        Ok(items.pop())
    } else if items.len() > 1 {
        Err(err)
    } else {
        Ok(None)
    }
}

/// The Job of an ImageSync among the Jobs that carry its label: none when
/// there is none, an error when there are several.
pub fn get_job_for_imagesync(listed: Vec<Job>) -> (r: Result<Option<Job>, Error>)
    ensures
        r == single_item(listed@, Error::MultipleJobs),
{
    take_single(listed, Error::MultipleJobs)
}

/// An instant as nanoseconds since the Unix epoch.
pub open spec fn instant_nanos(t: Timestamp) -> int {
    t.second * 1_000_000_000 + t.nanosecond
}

/// Integer division rounding toward zero, for a positive divisor.
pub open spec fn div_toward_zero(a: int, b: int) -> int {
    if a >= 0 {
        a / b
    } else {
        -((-a) / b)
    }
}

/// The whole minutes from `from` to `to` (`jiff`'s
/// `from.duration_until(to).as_mins()`): the elapsed nanoseconds cut to whole
/// seconds, then to whole minutes, both toward zero.
pub open spec fn whole_minutes_between(from: Timestamp, to: Timestamp) -> int {
    div_toward_zero(div_toward_zero(instant_nanos(to) - instant_nanos(from), 1_000_000_000), 60)
}

/// A failed Job that completed at `completed` is retried at `now` once more
/// than ten whole minutes have passed.
pub open spec fn retry_due_spec(completed: Timestamp, now: Timestamp) -> bool {
    whole_minutes_between(completed, now) > 10
}

/// Whether a failed Job that completed at `completed` is due for a retry at `now`.
pub fn retry_due(completed: Timestamp, now: Timestamp) -> (r: bool)
    ensures
        r == retry_due_spec(completed, now),
{
    let elapsed: i128 = (now.second as i128 - completed.second as i128) * 1_000_000_000 + (
    now.nanosecond as i128 - completed.nanosecond as i128);
    assert(elapsed == instant_nanos(now) - instant_nanos(completed));
    if elapsed < 0 {
        assert(div_toward_zero(elapsed as int, 1_000_000_000) <= 0);
        false
    } else {
        let seconds: i128 = elapsed / 1_000_000_000;
        let minutes: i128 = seconds / 60;
        minutes > 10
    }
}

} // verus!

//! The reconcile pass as a state machine. Each call of `reconcile_step`
//! takes the answer to the previous action and decides the next action:
//! a status update, a request to the cluster, or the requeue that ends the
//! pass. The caller performs each action and reports back.

use crate::config::SkopeoConfig;
use crate::cronjobs::{
    cronjob_get_last_success, cronjob_malformed, cronjob_matches, generate_cronjob_object,
    get_cronjob_for_imagesync, is_cronjob_malformed, is_cronjob_spec_correct, is_sync_cronjob,
    last_success_spec,
};
use crate::error::Error;
use crate::imagesync::{clone_opt_string, same_spec, ImageSync, Timestamp};
use crate::jobs::{
    generate_job_object, get_job_for_imagesync, has_true_condition, is_job_complete, job_finished,
    is_job_failed, is_sync_job, retry_due, retry_due_spec, single_item, whole_minutes_between,
};
use crate::naming::{
    basename_defined, basename_spec, cronjob_label_key, cronjob_label_selector,
    is_basename_defined, job_label_key, job_label_selector, selector_spec,
};
use crate::reconciler::{
    accepted_spec, acceptance_checks, acceptance_message, acceptance_patterns_compile,
    config_changed, has_config_changed, is_status_update, reset_message, reset_to_not_accepted,
    update_status, SecretLookup,
};
use crate::workload::{string_from, CronJob, Job};
use vstd::prelude::*;
use vstd::utf8::encode_utf8;

verus! {

/// Where a reconcile pass stands: which answer it waits for.
#[derive(Debug, Clone, Copy, PartialEq, Eq, Structural)]
pub enum ReconcileState {
    /// Nothing done yet.
    Start,
    /// The status of a changed spec is being reset.
    ResettingStatus,
    /// The registry Secrets are being looked up.
    CheckingSecrets,
    /// The outcome of the acceptance checks is being recorded.
    RecordingAcceptance { accepted: bool },
    /// The sync Job is being looked up.
    FindingJob,
    /// The sync Job is being created.
    CreatingJob,
    /// A failed sync Job is being deleted for a retry.
    DeletingFailedJob,
    /// The retry of a failed Job is being recorded.
    RecordingRetry,
    /// A recent Job failure is being recorded.
    RecordingFailure,
    /// A successful Job is being recorded.
    RecordingSuccess,
    /// A running Job is being recorded.
    RecordingRunning,
    /// The CronJob is being looked up.
    FindingCronJob,
    /// The CronJob is being created.
    CreatingCronJob,
    /// An outdated CronJob is being deleted.
    DeletingCronJob,
    /// The CronJob is being created again after its deletion.
    RecreatingCronJob,
    /// The CronJob is being looked up for its last successful run.
    FetchingLastSuccess,
    /// The running CronJob is being recorded.
    RecordingCronJobRunning,
    /// The pass is over.
    Done,
}

/// The answer to the previous action.
pub enum Event {
    /// The pass begins.
    Begin,
    /// The status update, creation or deletion was applied.
    Applied,
    /// The cluster's answers for the registry Secrets that were asked for.
    SecretsFound { source: Option<SecretLookup>, destination: Option<SecretLookup> },
    /// The Jobs carrying the ImageSync's label, and the current time.
    JobsListed { jobs: Vec<Job>, now: Timestamp },
    /// The CronJobs carrying the ImageSync's label.
    CronJobsListed { cronjobs: Vec<CronJob> },
}

/// What the caller is to do next.
pub enum Action {
    /// Apply this object to the ImageSync's status subresource.
    UpdateStatus(ImageSync),
    /// Look up the named registry Secrets in the ImageSync's namespace.
    LookupSecrets { source: Option<String>, destination: Option<String> },
    /// List the Jobs of the ImageSync's namespace matching the label selector.
    ListJobs { selector: String },
    /// Create this Job in the ImageSync's namespace.
    CreateJob(Job),
    /// Delete this Job.
    DeleteJob(Job),
    /// List the CronJobs of the ImageSync's namespace matching the label selector.
    ListCronJobs { selector: String },
    /// Create this CronJob in the ImageSync's namespace.
    CreateCronJob(CronJob),
    /// Delete this CronJob.
    DeleteCronJob(CronJob),
    /// End the pass; reconcile again after this many seconds.
    Requeue { seconds: u64 },
    /// End the pass with an error.
    Abort(Error),
}

impl ReconcileState {
    /// The answer this state waits for is `event`.
    pub open spec fn expects(self, event: Event) -> bool {
        match self {
            ReconcileState::Start => event is Begin,
            ReconcileState::CheckingSecrets => event is SecretsFound,
            ReconcileState::FindingJob => event is JobsListed,
            ReconcileState::FindingCronJob | ReconcileState::FetchingLastSuccess => event is CronJobsListed,
            ReconcileState::Done => false,
            _ => event is Applied,
        }
    }

    /// The most further steps a pass can take from this state before it ends.
    pub open spec fn rank(self) -> nat {
        match self {
            ReconcileState::Start => 6,
            ReconcileState::FindingJob => 5,
            ReconcileState::RecordingFailure => 4,
            ReconcileState::ResettingStatus | ReconcileState::FindingCronJob => 3,
            ReconcileState::CheckingSecrets | ReconcileState::DeletingFailedJob
            | ReconcileState::DeletingCronJob | ReconcileState::FetchingLastSuccess => 2,
            ReconcileState::Done => 0,
            _ => 1,
        }
    }

    /// The state is one a pass over `obj` can reach: the Job and CronJob
    /// states are reached only for an accepted, unchanged spec whose name can
    /// be cut to its base name, the CronJob states only with a schedule.
    pub open spec fn consistent_with(self, obj: ImageSync) -> bool {
        let job_ready = basename_defined(obj.name@) && !config_changed(obj)
            && obj.status->0.accepted;
        match self {
            ReconcileState::FindingJob | ReconcileState::CreatingJob
            | ReconcileState::DeletingFailedJob | ReconcileState::RecordingRetry
            | ReconcileState::RecordingFailure | ReconcileState::RecordingSuccess
            | ReconcileState::RecordingRunning => job_ready,
            ReconcileState::FindingCronJob | ReconcileState::CreatingCronJob
            | ReconcileState::DeletingCronJob | ReconcileState::RecreatingCronJob
            | ReconcileState::FetchingLastSuccess | ReconcileState::RecordingCronJobRunning => job_ready
                && obj.spec.cron_schedule is Some,
            _ => true,
        }
    }
}

/// `action` asks for the registry Secrets named in the spec of `obj`.
pub open spec fn is_secret_lookup(action: Action, obj: ImageSync) -> bool {
    action matches Action::LookupSecrets { source, destination } && source
        == obj.spec.source.registry_login_secret && destination
        == obj.spec.destination.registry_login_secret
}

/// `action` applies a status update of `obj` with the given values.
pub open spec fn is_update(
    action: Action,
    obj: ImageSync,
    accepted: bool,
    ready: bool,
    message: Seq<char>,
    t: Option<Timestamp>,
) -> bool {
    action matches Action::UpdateStatus(p) && is_status_update(p, obj, accepted, ready, message, t)
}

/// `action` lists the objects labelled `key` with the base name of `obj`.
pub open spec fn is_listing(action: Action, key: Seq<char>, obj: ImageSync, jobs: bool) -> bool {
    if jobs {
        action matches Action::ListJobs { selector } && selector@ == selector_spec(
            key,
            basename_spec(obj.name@),
        )
    } else {
        action matches Action::ListCronJobs { selector } && selector@ == selector_spec(
            key,
            basename_spec(obj.name@),
        )
    }
}

/// `action` creates the sync Job of `obj`.
pub open spec fn is_job_creation(action: Action, obj: ImageSync, config: SkopeoConfig) -> bool {
    action matches Action::CreateJob(j) && is_sync_job(j, obj.name@, obj.spec, config)
}

/// `action` creates the sync CronJob of `obj`.
pub open spec fn is_cronjob_creation(
    action: Action,
    obj: ImageSync,
    config: SkopeoConfig,
    debug: bool,
) -> bool {
    action matches Action::CreateCronJob(cj) && is_sync_cronjob(cj, obj.name@, obj.spec, config, debug)
}

/// The step taken on the Jobs found for `obj` at time `now`.
pub open spec fn job_step(
    obj: ImageSync,
    config: SkopeoConfig,
    jobs: Seq<Job>,
    now: Timestamp,
    next: ReconcileState,
    action: Action,
) -> bool {
    match single_item(jobs, Error::MultipleJobs) {
        Err(e) => next == ReconcileState::Done && action == Action::Abort(e),
        Ok(None) => next == ReconcileState::CreatingJob && is_job_creation(action, obj, config),
        Ok(Some(job)) => if job_finished(job) {
            match job.status->0.completion_time {
                None => next == ReconcileState::Done && action == Action::Abort(
                    Error::MissingCompletionTime,
                ),
                Some(ct) => if has_true_condition(job, "Failed"@) {
                    if retry_due_spec(ct, now) {
                        next == ReconcileState::DeletingFailedJob && action == Action::DeleteJob(job)
                    } else {
                        next == ReconcileState::RecordingFailure && is_update(
                            action,
                            obj,
                            true,
                            false,
                            "ImageSync job failed"@,
                            None,
                        )
                    }
                } else {
                    next == ReconcileState::RecordingSuccess && is_update(
                        action,
                        obj,
                        true,
                        true,
                        "ImageSync job completed successfully"@,
                        Some(ct),
                    )
                },
            }
        } else {
            next == ReconcileState::RecordingRunning && is_update(
                action,
                obj,
                true,
                false,
                "ImageSync job is running"@,
                None,
            )
        },
    }
}

/// The step taken on the CronJobs found for `obj`.
pub open spec fn cronjob_step(
    obj: ImageSync,
    config: SkopeoConfig,
    debug: bool,
    cronjobs: Seq<CronJob>,
    next: ReconcileState,
    action: Action,
) -> bool {
    match single_item(cronjobs, Error::MultipleCronJobs) {
        Err(e) => next == ReconcileState::Done && action == Action::Abort(e),
        Ok(None) => next == ReconcileState::CreatingCronJob && is_cronjob_creation(
            action,
            obj,
            config,
            debug,
        ),
        Ok(Some(cj)) => if cronjob_malformed(obj.spec, cj) {
            next == ReconcileState::Done && action == Action::Abort(Error::MalformedCronJob)
        } else if !cronjob_matches(obj.spec, cj, config, debug) {
            next == ReconcileState::DeletingCronJob && action == Action::DeleteCronJob(cj)
        } else {
            next == ReconcileState::FetchingLastSuccess && is_listing(
                action,
                cronjob_label_key(),
                obj,
                false,
            )
        },
    }
}

/// One step of a reconcile pass over `obj`: from `state`, on `event`, the
/// pass moves to `next` and asks for `action`.
pub open spec fn step_spec(
    obj: ImageSync,
    config: SkopeoConfig,
    debug: bool,
    state: ReconcileState,
    event: Event,
    next: ReconcileState,
    action: Action,
) -> bool {
    match state {
        ReconcileState::Start => if config_changed(obj) {
            next == ReconcileState::ResettingStatus && is_update(
                action,
                obj,
                false,
                false,
                reset_message(),
                None,
            )
        } else if !obj.status->0.accepted {
            next == ReconcileState::CheckingSecrets && is_secret_lookup(action, obj)
        } else if obj.status->0.ready && obj.spec.cron_schedule is None {
            next == ReconcileState::Done && action == Action::Requeue { seconds: 3600 }
        } else if !basename_defined(obj.name@) {
            next == ReconcileState::Done && action == Action::Abort(Error::NameSplitsCharacter)
        } else if obj.status->0.ready {
            next == ReconcileState::FindingCronJob && is_listing(
                action,
                cronjob_label_key(),
                obj,
                false,
            )
        } else {
            next == ReconcileState::FindingJob && is_listing(action, job_label_key(), obj, true)
        },
        ReconcileState::ResettingStatus => next == ReconcileState::CheckingSecrets
            && is_secret_lookup(action, obj),
        ReconcileState::CheckingSecrets => match event {
            Event::SecretsFound { source, destination } => if !acceptance_patterns_compile(
                obj.spec,
            ) {
                next == ReconcileState::Done && action == Action::Abort(Error::InvalidPattern)
            } else {
                let accepted = accepted_spec(obj.spec, source, destination);
                next == (ReconcileState::RecordingAcceptance { accepted }) && is_update(
                    action,
                    obj,
                    accepted,
                    false,
                    acceptance_message(obj.spec, source, destination),
                    None,
                )
            },
            _ => false,
        },
        ReconcileState::RecordingAcceptance { accepted } => next == ReconcileState::Done && action
            == Action::Requeue {
            seconds: if accepted {
                0
            } else {
                30
            },
        },
        ReconcileState::FindingJob => match event {
            Event::JobsListed { jobs, now } => job_step(obj, config, jobs@, now, next, action),
            _ => false,
        },
        ReconcileState::CreatingJob | ReconcileState::RecordingRetry
        | ReconcileState::RecordingSuccess | ReconcileState::RecordingRunning
        | ReconcileState::CreatingCronJob => next == ReconcileState::Done && action
            == Action::Requeue { seconds: 5 },
        ReconcileState::DeletingFailedJob => next == ReconcileState::RecordingRetry && is_update(
            action,
            obj,
            true,
            false,
            "ImageSync job failed, retrying"@,
            None,
        ),
        ReconcileState::RecordingFailure => if obj.spec.cron_schedule is Some {
            next == ReconcileState::FindingCronJob && is_listing(
                action,
                cronjob_label_key(),
                obj,
                false,
            )
        } else {
            next == ReconcileState::Done && action == Action::Requeue { seconds: 300 }
        },
        ReconcileState::FindingCronJob => match event {
            Event::CronJobsListed { cronjobs } => cronjob_step(
                obj,
                config,
                debug,
                cronjobs@,
                next,
                action,
            ),
            _ => false,
        },
        ReconcileState::DeletingCronJob => next == ReconcileState::RecreatingCronJob
            && is_cronjob_creation(action, obj, config, debug),
        ReconcileState::RecreatingCronJob => next == ReconcileState::Done && action
            == Action::Requeue { seconds: 30 },
        ReconcileState::FetchingLastSuccess => match event {
            Event::CronJobsListed { cronjobs } => match single_item(
                cronjobs@,
                Error::MultipleCronJobs,
            ) {
                Err(e) => next == ReconcileState::Done && action == Action::Abort(e),
                Ok(found) => next == ReconcileState::RecordingCronJobRunning && is_update(
                    action,
                    obj,
                    true,
                    true,
                    "ImageSync CronJob is running"@,
                    last_success_spec(found),
                ),
            },
            _ => false,
        },
        ReconcileState::RecordingCronJobRunning => next == ReconcileState::Done && action
            == Action::Requeue { seconds: 300 },
        ReconcileState::Done => false,
    }
}

/// The action that asks for the registry Secrets named in the spec of `obj`.
fn secret_lookup(obj: &ImageSync) -> (a: Action)
    ensures
        is_secret_lookup(a, *obj),
{
    Action::LookupSecrets {
        source: clone_opt_string(&obj.spec.source.registry_login_secret),
        destination: clone_opt_string(&obj.spec.destination.registry_login_secret),
    }
}

/// The status update action for `obj` with the given values.
fn status_action(
    obj: &ImageSync,
    accepted: bool,
    ready: bool,
    message: &str,
    t: Option<Timestamp>,
) -> (a: Action)
    ensures
        is_update(a, *obj, accepted, ready, message@, t),
{
    Action::UpdateStatus(update_status(obj.clone(), accepted, ready, string_from(message), t))
}

/// The step taken on the Jobs found.
fn on_jobs(obj: &ImageSync, config: &SkopeoConfig, jobs: Vec<Job>, now: Timestamp) -> (r: (
    ReconcileState,
    Action,
))
    requires
        basename_defined(obj.name@),
    ensures
        job_step(*obj, *config, jobs@, now, r.0, r.1),
{
    match get_job_for_imagesync(jobs) {
        Err(e) => (ReconcileState::Done, Action::Abort(e)),
        Ok(None) => (ReconcileState::CreatingJob, Action::CreateJob(generate_job_object(obj, config))),
        Ok(Some(job)) => {
            if is_job_complete(&job) {
                let completed = match &job.status {
                    Some(st) => st.completion_time,
                    None => None,
                };
                match completed {
                    None => (ReconcileState::Done, Action::Abort(Error::MissingCompletionTime)),
                    Some(ct) => {
                        if is_job_failed(&job) {
                            if retry_due(ct, now) {
                                (ReconcileState::DeletingFailedJob, Action::DeleteJob(job))
                            } else {
                                (
                                    ReconcileState::RecordingFailure,
                                    status_action(obj, true, false, "ImageSync job failed", None),
                                )
                            }
                        } else {
                            (
                                ReconcileState::RecordingSuccess,
                                status_action(
                                    obj,
                                    true,
                                    true,
                                    "ImageSync job completed successfully",
                                    Some(ct),
                                ),
                            )
                        }
                    },
                }
            } else {
                (
                    ReconcileState::RecordingRunning,
                    status_action(obj, true, false, "ImageSync job is running", None),
                )
            }
        },
    }
}

/// The step taken on the CronJobs found.
fn on_cronjobs(obj: &ImageSync, config: &SkopeoConfig, debug: bool, cronjobs: Vec<CronJob>) -> (r: (
    ReconcileState,
    Action,
))
    requires
        basename_defined(obj.name@),
        obj.spec.cron_schedule is Some,
    ensures
        cronjob_step(*obj, *config, debug, cronjobs@, r.0, r.1),
        r.1 matches Action::ListCronJobs { selector } ==> selector@ == selector_spec(
            "imagesync.apexnw.dev/imagesync-cron"@,
            basename_spec(obj.name@),
        ),
{
    match get_cronjob_for_imagesync(cronjobs) {
        Err(e) => (ReconcileState::Done, Action::Abort(e)),
        Ok(None) => (
            ReconcileState::CreatingCronJob,
            Action::CreateCronJob(generate_cronjob_object(obj, debug, config)),
        ),
        Ok(Some(cj)) => {
            if is_cronjob_malformed(obj, &cj) {
                (ReconcileState::Done, Action::Abort(Error::MalformedCronJob))
            } else if !is_cronjob_spec_correct(obj, &cj, config, debug) {
                (ReconcileState::DeletingCronJob, Action::DeleteCronJob(cj))
            } else {
                (
                    ReconcileState::FetchingLastSuccess,
                    Action::ListCronJobs { selector: cronjob_label_selector(obj) },
                )
            }
        },
    }
}

/// One step of a reconcile pass over `obj`. `debug` selects skopeo's debug
/// output in CronJobs. Every pass starts in `Start` with `Begin` and ends
/// when the action is a requeue or an abort.
pub fn reconcile_step(
    obj: &ImageSync,
    config: &SkopeoConfig,
    debug: bool,
    state: ReconcileState,
    event: Event,
) -> (r: (ReconcileState, Action))
    requires
        encode_utf8(obj.name@).len() <= usize::MAX,
        state.expects(event),
        state.consistent_with(*obj),
    ensures
        step_spec(*obj, *config, debug, state, event, r.0, r.1),
        r.0.consistent_with(*obj),
        r.1 matches Action::ListCronJobs { selector } ==> selector@ == selector_spec(
            "imagesync.apexnw.dev/imagesync-cron"@,
            basename_spec(obj.name@),
        ),
        r.1 matches Action::ListJobs { selector } ==> selector@ == selector_spec(
            "imagesync.apexnw.dev/imagesync"@,
            basename_spec(obj.name@),
        ),
{
    match state {
        ReconcileState::Start => {
            if has_config_changed(obj) {
                return (ReconcileState::ResettingStatus, Action::UpdateStatus(reset_to_not_accepted(obj)));
            }
            let (accepted, ready) = match &obj.status {
                Some(st) => (st.accepted, st.ready),
                None => (false, false),
            };
            if !accepted {
                (ReconcileState::CheckingSecrets, secret_lookup(obj))
            } else if ready && obj.spec.cron_schedule.is_none() {
                (ReconcileState::Done, Action::Requeue { seconds: 3600 })
            } else if !is_basename_defined(&obj.name) {
                (ReconcileState::Done, Action::Abort(Error::NameSplitsCharacter))
            } else if ready {
                (
                    ReconcileState::FindingCronJob,
                    Action::ListCronJobs { selector: cronjob_label_selector(obj) },
                )
            } else {
                (ReconcileState::FindingJob, Action::ListJobs { selector: job_label_selector(obj) })
            }
        },
        ReconcileState::ResettingStatus => (ReconcileState::CheckingSecrets, secret_lookup(obj)),
        ReconcileState::CheckingSecrets => match event {
            Event::SecretsFound { source, destination } => {
                match acceptance_checks(obj, source, destination) {
                    Err(e) => (ReconcileState::Done, Action::Abort(e)),
                    Ok(a) => {
                        let accepted = a.accepted;
                        (
                            ReconcileState::RecordingAcceptance { accepted },
                            Action::UpdateStatus(
                                update_status(obj.clone(), accepted, false, a.message, None),
                            ),
                        )
                    },
                }
            },
            _ => unreached(),
        },
        ReconcileState::RecordingAcceptance { accepted } => {
            let seconds: u64 = if accepted {
                0
            } else {
                30
            };
            (ReconcileState::Done, Action::Requeue { seconds })
        },
        ReconcileState::FindingJob => match event {
            Event::JobsListed { jobs, now } => on_jobs(obj, config, jobs, now),
            _ => unreached(),
        },
        ReconcileState::CreatingJob | ReconcileState::RecordingRetry
        | ReconcileState::RecordingSuccess | ReconcileState::RecordingRunning
        | ReconcileState::CreatingCronJob => (ReconcileState::Done, Action::Requeue { seconds: 5 }),
        ReconcileState::DeletingFailedJob => (
            ReconcileState::RecordingRetry,
            status_action(obj, true, false, "ImageSync job failed, retrying", None),
        ),
        ReconcileState::RecordingFailure => {
            if obj.spec.cron_schedule.is_some() {
                (
                    ReconcileState::FindingCronJob,
                    Action::ListCronJobs { selector: cronjob_label_selector(obj) },
                )
            } else {
                (ReconcileState::Done, Action::Requeue { seconds: 300 })
            }
        },
        ReconcileState::FindingCronJob => match event {
            Event::CronJobsListed { cronjobs } => on_cronjobs(obj, config, debug, cronjobs),
            _ => unreached(),
        },
        ReconcileState::DeletingCronJob => (
            ReconcileState::RecreatingCronJob,
            Action::CreateCronJob(generate_cronjob_object(obj, debug, config)),
        ),
        ReconcileState::RecreatingCronJob => (ReconcileState::Done, Action::Requeue { seconds: 30 }),
        ReconcileState::FetchingLastSuccess => match event {
            Event::CronJobsListed { cronjobs } => match get_cronjob_for_imagesync(cronjobs) {
                Err(e) => (ReconcileState::Done, Action::Abort(e)),
                Ok(found) => (
                    ReconcileState::RecordingCronJobRunning,
                    status_action(
                        obj,
                        true,
                        true,
                        "ImageSync CronJob is running",
                        cronjob_get_last_success(&found),
                    ),
                ),
            },
            _ => unreached(),
        },
        ReconcileState::RecordingCronJobRunning => (
            ReconcileState::Done,
            Action::Requeue { seconds: 300 },
        ),
        ReconcileState::Done => unreached(),
    }
}

/// `event` lists exactly one Job, complete and not failed.
pub open spec fn reports_successful_job(event: Event) -> bool {
    match event {
        Event::JobsListed { jobs, now } => jobs@.len() == 1 && has_true_condition(
            jobs@[0],
            "Complete"@,
        ) && !has_true_condition(jobs@[0], "Failed"@),
        _ => false,
    }
}

/// `event` reports Secrets with which the ImageSync passes every acceptance check.
pub open spec fn reports_passing_checks(obj: ImageSync, event: Event) -> bool {
    match event {
        Event::SecretsFound { source, destination } => accepted_spec(obj.spec, source, destination),
        _ => false,
    }
}

/// Every step either ends the pass with a requeue or an abort, or moves to
/// a state of lower rank: a pass ends after at most six steps.
pub proof fn lemma_pass_ends(
    obj: ImageSync,
    config: SkopeoConfig,
    debug: bool,
    state: ReconcileState,
    event: Event,
    next: ReconcileState,
    action: Action,
)
    requires
        state.expects(event),
        step_spec(obj, config, debug, state, event, next, action),
    ensures
        (action is Requeue || action is Abort) <==> next == ReconcileState::Done,
        next != ReconcileState::Done ==> next.rank() < state.rank(),
        state.rank() <= 6,
{
}

/// Only a Job that completed without failing, or a CronJob that matches its
/// ImageSync, is reported as ready.
pub proof fn lemma_ready_only_after_success(
    obj: ImageSync,
    config: SkopeoConfig,
    debug: bool,
    state: ReconcileState,
    event: Event,
    next: ReconcileState,
    action: Action,
)
    requires
        state.expects(event),
        step_spec(obj, config, debug, state, event, next, action),
        action matches Action::UpdateStatus(p) && p.status->0.ready,
    ensures
        (state == ReconcileState::FindingJob && reports_successful_job(event)) || state
            == ReconcileState::FetchingLastSuccess,
{
}

/// A status is written as accepted only when the acceptance checks pass in
/// this pass, or the ImageSync was already accepted for its current spec.
pub proof fn lemma_accepted_only_after_checks(
    obj: ImageSync,
    config: SkopeoConfig,
    debug: bool,
    state: ReconcileState,
    event: Event,
    next: ReconcileState,
    action: Action,
)
    requires
        state.expects(event),
        state.consistent_with(obj),
        step_spec(obj, config, debug, state, event, next, action),
        action matches Action::UpdateStatus(p) && p.status->0.accepted,
    ensures
        (state == ReconcileState::CheckingSecrets && reports_passing_checks(obj, event)) || (
        obj.status matches Some(st) && st.accepted && same_spec(st.last_applied_config, obj.spec)),
{
}

/// Every status written records the current spec as the last applied one,
/// so the next pass does not see the spec as changed.
pub proof fn lemma_status_update_records_spec(
    obj: ImageSync,
    config: SkopeoConfig,
    debug: bool,
    state: ReconcileState,
    event: Event,
    next: ReconcileState,
    action: Action,
)
    requires
        state.expects(event),
        step_spec(obj, config, debug, state, event, next, action),
        action is UpdateStatus,
    ensures
        action matches Action::UpdateStatus(p) && p.spec == obj.spec && p.status->0.last_applied_config
            == obj.spec && !config_changed(p),
{
}

/// A one-shot ImageSync that is accepted and ready for its current spec is
/// left alone: the pass only requeues, an hour later.
pub proof fn lemma_ready_one_shot_is_left_alone(
    obj: ImageSync,
    config: SkopeoConfig,
    debug: bool,
    next: ReconcileState,
    action: Action,
)
    requires
        obj.status matches Some(st) && st.accepted && st.ready && same_spec(
            st.last_applied_config,
            obj.spec,
        ),
        obj.spec.cron_schedule is None,
        step_spec(obj, config, debug, ReconcileState::Start, Event::Begin, next, action),
    ensures
        next == ReconcileState::Done,
        action == (Action::Requeue { seconds: 3600 }),
{
}

/// `event` lists no CronJob.
pub open spec fn reports_no_cronjob(event: Event) -> bool {
    match event {
        Event::CronJobsListed { cronjobs } => cronjobs@.len() == 0,
        _ => false,
    }
}

/// A scheduled ImageSync whose sync Job succeeded gets its CronJob: the
/// success is recorded as ready, the next pass over the updated object goes
/// straight to CronJob management, and there, with no CronJob found, the
/// CronJob is created. So it is created within two passes of the success.
pub proof fn lemma_scheduled_sync_gets_cronjob(
    obj: ImageSync,
    config: SkopeoConfig,
    debug: bool,
    jobs_event: Event,
    recorded: ReconcileState,
    record: Action,
    first: ReconcileState,
    list: Action,
    cron_event: Event,
    second: ReconcileState,
    create: Action,
)
    requires
        ReconcileState::FindingJob.consistent_with(obj),
        obj.spec.cron_schedule is Some,
        reports_successful_job(jobs_event),
        step_spec(obj, config, debug, ReconcileState::FindingJob, jobs_event, recorded, record),
        record matches Action::UpdateStatus(p) && step_spec(
            p,
            config,
            debug,
            ReconcileState::Start,
            Event::Begin,
            first,
            list,
        ) && reports_no_cronjob(cron_event) && step_spec(
            p,
            config,
            debug,
            first,
            cron_event,
            second,
            create,
        ),
    ensures
        recorded == ReconcileState::RecordingSuccess,
        first == ReconcileState::FindingCronJob,
        second == ReconcileState::CreatingCronJob,
        record matches Action::UpdateStatus(p) && is_cronjob_creation(create, p, config, debug),
{
}

/// Jobs and CronJobs are created or deleted only for an ImageSync that is
/// accepted for its current spec; CronJobs only for one with a schedule.
pub proof fn lemma_workloads_only_when_accepted(
    obj: ImageSync,
    config: SkopeoConfig,
    debug: bool,
    state: ReconcileState,
    event: Event,
    next: ReconcileState,
    action: Action,
)
    requires
        state.expects(event),
        state.consistent_with(obj),
        step_spec(obj, config, debug, state, event, next, action),
        action is CreateJob || action is DeleteJob || action is CreateCronJob || action is DeleteCronJob,
    ensures
        !config_changed(obj),
        obj.status->0.accepted,
        (action is CreateCronJob || action is DeleteCronJob) ==> obj.spec.cron_schedule is Some,
{
}

/// Every listing a pass asks for selects by the label of what it lists:
/// CronJobs by `imagesync.apexnw.dev/imagesync-cron`, Jobs by
/// `imagesync.apexnw.dev/imagesync`, each with the base name of the ImageSync.
pub proof fn lemma_listings_use_their_label(
    obj: ImageSync,
    config: SkopeoConfig,
    debug: bool,
    state: ReconcileState,
    event: Event,
    next: ReconcileState,
    action: Action,
)
    requires
        step_spec(obj, config, debug, state, event, next, action),
    ensures
        action matches Action::ListCronJobs { selector } ==> selector@ == selector_spec(
            "imagesync.apexnw.dev/imagesync-cron"@,
            basename_spec(obj.name@),
        ),
        action matches Action::ListJobs { selector } ==> selector@ == selector_spec(
            "imagesync.apexnw.dev/imagesync"@,
            basename_spec(obj.name@),
        ),
{
}

/// After the acceptance checks, the outcome recorded in the status decides
/// the requeue: at once when accepted, after thirty seconds when refused.
/// The status is never marked ready there.
pub proof fn lemma_acceptance_outcome_sets_requeue(
    obj: ImageSync,
    config: SkopeoConfig,
    debug: bool,
    event: Event,
    recorded: ReconcileState,
    record: Action,
    next: ReconcileState,
    action: Action,
)
    requires
        step_spec(obj, config, debug, ReconcileState::CheckingSecrets, event, recorded, record),
        record is UpdateStatus,
        step_spec(obj, config, debug, recorded, Event::Applied, next, action),
    ensures
        next == ReconcileState::Done,
        record matches Action::UpdateStatus(p) && !p.status->0.ready && action == (Action::Requeue {
            seconds: if p.status->0.accepted {
                0
            } else {
                30
            },
        }),
{
}

/// A sync Job is deleted for a retry only when it is the only Job found, it
/// failed, and more than ten whole minutes have passed since it completed.
pub proof fn lemma_failed_job_deleted_after_ten_minutes(
    obj: ImageSync,
    config: SkopeoConfig,
    debug: bool,
    event: Event,
    next: ReconcileState,
    action: Action,
)
    requires
        step_spec(obj, config, debug, ReconcileState::FindingJob, event, next, action),
        action is DeleteJob,
    ensures
        match event {
            Event::JobsListed { jobs, now } => {
                &&& jobs@.len() == 1
                &&& action == Action::DeleteJob(jobs@[0])
                &&& has_true_condition(jobs@[0], "Failed"@)
                &&& match jobs@[0].status->0.completion_time {
                    Some(ct) => whole_minutes_between(ct, now) > 10,
                    None => false,
                }
            },
            _ => false,
        },
{
}

} // verus!

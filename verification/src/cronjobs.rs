//! Scheduled sync CronJobs: the CronJob an ImageSync with a schedule runs,
//! and the comparison of a CronJob found in the cluster with it.

use crate::config::SkopeoConfig;
use crate::error::Error;
use crate::imagesync::{opt_string_eq, ImageSync, ImageSyncSpec, Timestamp};
use crate::jobs::{single_item, take_single};
use crate::naming::{
    basename, basename_defined, basename_spec, cronjob_label_key, cronjob_label_key_string,
    object_name, object_name_spec, selector_spec,
};
use crate::script::{cron_script, cron_script_spec, lemma_debug_changes_cron_script};
use crate::workload::{
    are_creds_mounts, bash_command, is_creds_mount, is_labelled_meta, is_sync_job_spec,
    labelled_meta, opt_view, string_from, sync_job_spec, CronJob, CronJobSpec, JobTemplateSpec,
    PodSpec, Volume, VolumeMount,
};
use vstd::prelude::*;

verus! {

/// `cj` is the scheduled sync CronJob of an ImageSync named `name` with
/// `spec`, whose cron schedule is present.
pub open spec fn is_sync_cronjob(
    cj: CronJob,
    name: Seq<char>,
    spec: ImageSyncSpec,
    config: SkopeoConfig,
    debug: bool,
) -> bool {
    let b = basename_spec(name);
    &&& opt_view(cj.metadata.name) == Some(object_name_spec(name))
    &&& is_labelled_meta(cj.metadata, cronjob_label_key(), b)
    &&& cj.status is None
    &&& cj.spec.schedule@ == spec.cron_schedule->0@
    &&& cj.spec.job_template.metadata matches Some(m) && is_labelled_meta(
        m,
        cronjob_label_key(),
        b,
    ) && m.name is None
    &&& cj.spec.job_template.spec matches Some(js) && is_sync_job_spec(
        js,
        cronjob_label_key(),
        b,
        cron_script_spec(spec, config, debug),
        spec,
        config,
    )
}

/// The scheduled sync CronJob of `obj`: named `imagesync-<base name>`,
/// labelled with the base name, running skopeo on the ImageSync's schedule.
pub fn generate_cronjob_object(obj: &ImageSync, debug: bool, config: &SkopeoConfig) -> (cj: CronJob)
    requires
        basename_defined(obj.name@),
        obj.spec.cron_schedule is Some,
    ensures
        is_sync_cronjob(cj, obj.name@, obj.spec, *config, debug),
{
    let b = basename(obj.name.as_str());
    let key = cronjob_label_key_string();
    let schedule = match &obj.spec.cron_schedule {
        Some(s) => s.clone(),
        None => String::new(),
    };
    let job_spec = sync_job_spec(&key, &b, cron_script(&obj.spec, config, debug), &obj.spec, config);
    let template = JobTemplateSpec {
        metadata: Some(labelled_meta(None, key.clone(), b.clone())),
        spec: Some(job_spec),
    };
    CronJob {
        metadata: labelled_meta(Some(object_name(obj)), key, b),
        spec: CronJobSpec { schedule, job_template: template },
        status: None,
    }
}

/// The label selector of an ImageSync selects the CronJob generated for it.
pub proof fn lemma_cronjob_found_by_selector(
    cj: CronJob,
    name: Seq<char>,
    spec: ImageSyncSpec,
    config: SkopeoConfig,
    debug: bool,
)
    requires
        is_sync_cronjob(cj, name, spec, config, debug),
    ensures
        cj.metadata.labels matches Some(ls) && ls@.len() == 1 && selector_spec(
            cronjob_label_key(),
            basename_spec(name),
        ) == selector_spec(ls@[0].0@, ls@[0].1@),
{
}

/// The Secret name of the first volume named `name`, if it is a Secret
/// volume with a Secret name.
pub open spec fn first_secret_name(vols: Seq<Volume>, name: Seq<char>) -> Option<Seq<char>>
    decreases vols.len(),
{
    if vols.len() == 0 {
        None
    } else if vols[0].name@ == name {
        match vols[0].secret {
            Some(s) => opt_view(s.secret_name),
            None => None,
        }
    } else {
        first_secret_name(vols.subrange(1, vols.len() as int), name)
    }
}

/// The pod spec `p` of a CronJob found in the cluster matches the expected
/// one in the fields the operator controls: credential Secrets, container
/// image, command, pull policy and mounts.
pub open spec fn pod_matches(
    p: PodSpec,
    spec: ImageSyncSpec,
    config: SkopeoConfig,
    script: Seq<char>,
) -> bool {
    let vols = p.volumes->0@;
    let c = p.containers@[0];
    &&& first_secret_name(vols, "creds-src"@) == opt_view(spec.source.registry_login_secret)
    &&& first_secret_name(vols, "creds-dest"@) == opt_view(spec.destination.registry_login_secret)
    &&& opt_view(c.image) == Some(config.image@)
    &&& c.command matches Some(cmd) && cmd.deep_view() == bash_command(script)
    &&& opt_view(c.image_pull_policy) == Some(config.image_pull_policy@)
    &&& c.volume_mounts matches Some(ms) && are_creds_mounts(ms@)
}

/// The CronJob `actual` matches the CronJob expected for `spec`: same
/// schedule, backoff limit, credential Secrets, and container image,
/// command, pull policy and mounts.
pub open spec fn cronjob_matches(
    spec: ImageSyncSpec,
    actual: CronJob,
    config: SkopeoConfig,
    debug: bool,
) -> bool {
    actual.spec.schedule@ == spec.cron_schedule->0@ && match actual.spec.job_template.spec {
        None => false,
        Some(js) => js.backoff_limit == Some(4i32) && match js.template.spec {
            None => false,
            Some(p) => pod_matches(p, spec, config, cron_script_spec(spec, config, debug)),
        },
    }
}

/// The pod spec of the Jobs that `cj` runs, if it has one.
pub open spec fn cronjob_pod(cj: CronJob) -> Option<PodSpec> {
    match cj.spec.job_template.spec {
        Some(js) => js.template.spec,
        None => None,
    }
}

/// The comparison of `actual` with the expected CronJob reaches a pod spec
/// without volumes, or with matching volumes but no container.
pub open spec fn cronjob_malformed(spec: ImageSyncSpec, actual: CronJob) -> bool {
    actual.spec.schedule@ == spec.cron_schedule->0@ && match actual.spec.job_template.spec {
        None => false,
        Some(js) => js.backoff_limit == Some(4i32) && match js.template.spec {
            None => false,
            Some(p) => match p.volumes {
                None => true,
                Some(vs) => first_secret_name(vs@, "creds-src"@) == opt_view(
                    spec.source.registry_login_secret,
                ) && first_secret_name(vs@, "creds-dest"@) == opt_view(
                    spec.destination.registry_login_secret,
                ) && p.containers@.len() == 0,
            },
        },
    }
}

/// The Secret name of the first volume named `name`.
fn find_secret_name(vols: &Vec<Volume>, name: &str) -> (r: Option<String>)
    ensures
        opt_view(r) == first_secret_name(vols@, name@),
{
    let target = string_from(name);
    let mut i: usize = 0;
    assert(vols@.subrange(0, vols@.len() as int) =~= vols@);
    while i < vols.len()
        invariant
            i <= vols@.len(),
            target@ == name@,
            first_secret_name(vols@.subrange(i as int, vols@.len() as int), name@)
                == first_secret_name(vols@, name@),
        decreases vols@.len() - i,
    {
        let ghost rest = vols@.subrange(i as int, vols@.len() as int);
        assert(rest.subrange(1, rest.len() as int) =~= vols@.subrange(i + 1, vols@.len() as int));
        if vols[i].name == target {
            return match &vols[i].secret {
                Some(s) => match &s.secret_name {
                    Some(n) => Some(n.clone()),
                    None => None,
                },
                None => None,
            };
        }
        i = i + 1;
    }
    None
}

/// Whether `m` is the read-only mount of volume `name` at `path` with every
/// other field unset.
fn check_creds_mount(m: &VolumeMount, name: &str, path: &str) -> (r: bool)
    ensures
        r == is_creds_mount(*m, name@, path@),
{
    m.name == string_from(name) && m.mount_path == string_from(path) && match m.read_only {
        Some(b) => b,
        None => false,
    } && m.sub_path.is_none() && m.sub_path_expr.is_none() && m.mount_propagation.is_none()
        && m.recursive_read_only.is_none() && m.bind_mount_options.is_none()
}

/// Whether `cmd` runs `script` in bash.
fn check_command(cmd: &Vec<String>, script: &String) -> (r: bool)
    ensures
        r == (cmd.deep_view() == bash_command(script@)),
{
    if cmd.len() != 3 {
        assert(cmd.deep_view().len() != bash_command(script@).len());
        return false;
    }
    let r = cmd[0] == string_from("/bin/bash") && cmd[1] == string_from("-c") && cmd[2] == *script;
    proof {
        if r {
            assert(cmd.deep_view() =~= bash_command(script@));
        } else {
            assert(cmd.deep_view()[0] != bash_command(script@)[0] || cmd.deep_view()[1]
                != bash_command(script@)[1] || cmd.deep_view()[2] != bash_command(script@)[2]);
        }
    }
    r
}

/// Whether the pod spec of a found CronJob matches the expected one.
fn check_pod(p: &PodSpec, spec: &ImageSyncSpec, config: &SkopeoConfig, script: &String) -> (r: bool)
    requires
        p.volumes is Some,
        first_secret_name(p.volumes->0@, "creds-src"@) == opt_view(spec.source.registry_login_secret)
            && first_secret_name(p.volumes->0@, "creds-dest"@) == opt_view(
            spec.destination.registry_login_secret,
        ) ==> p.containers@.len() > 0,
    ensures
        r == pod_matches(*p, *spec, *config, script@),
{
    let vols = match &p.volumes {
        Some(v) => v,
        None => {
            return false;
        },
    };
    let src = find_secret_name(vols, "creds-src");
    if !opt_string_eq(&src, &spec.source.registry_login_secret) {
        return false;
    }
    let dest = find_secret_name(vols, "creds-dest");
    if !opt_string_eq(&dest, &spec.destination.registry_login_secret) {
        return false;
    }
    let c = &p.containers[0];
    let image_ok = match &c.image {
        Some(i) => *i == config.image,
        None => false,
    };
    if !image_ok {
        return false;
    }
    let command_ok = match &c.command {
        Some(cmd) => check_command(cmd, script),
        None => false,
    };
    if !command_ok {
        return false;
    }
    let policy_ok = match &c.image_pull_policy {
        Some(i) => *i == config.image_pull_policy,
        None => false,
    };
    if !policy_ok {
        return false;
    }
    match &c.volume_mounts {
        Some(ms) => ms.len() == 2 && check_creds_mount(&ms[0], "creds-src", "/creds/src")
            && check_creds_mount(&ms[1], "creds-dest", "/creds/dest"),
        None => false,
    }
}

/// Whether the CronJob found in the cluster matches the one expected for
/// `obj`: its schedule, backoff limit, credential Secrets, and container
/// image, command, pull policy and mounts.
pub fn is_cronjob_spec_correct(
    obj: &ImageSync,
    cronjob: &CronJob,
    config: &SkopeoConfig,
    debug: bool,
) -> (r: bool)
    requires
        obj.spec.cron_schedule is Some,
        !cronjob_malformed(obj.spec, *cronjob),
    ensures
        r == cronjob_matches(obj.spec, *cronjob, *config, debug),
        r ==> (cronjob_pod(*cronjob) matches Some(p) && p.volumes matches Some(vs)
            && first_secret_name(vs@, "creds-src"@) == opt_view(obj.spec.source.registry_login_secret)
            && first_secret_name(vs@, "creds-dest"@) == opt_view(
            obj.spec.destination.registry_login_secret,
        )),
{
    let actual = &cronjob.spec;
    let schedule_ok = match &obj.spec.cron_schedule {
        Some(s) => actual.schedule == *s,
        None => false,
    };
    if !schedule_ok {
        return false;
    }
    let js = match &actual.job_template.spec {
        Some(js) => js,
        None => {
            return false;
        },
    };
    let backoff_ok = match js.backoff_limit {
        Some(n) => n == 4,
        None => false,
    };
    if !backoff_ok {
        return false;
    }
    match &js.template.spec {
        Some(p) => {
            let script = cron_script(&obj.spec, config, debug);
            check_pod(p, &obj.spec, config, &script)
        },
        None => false,
    }
}

/// Whether comparing `cronjob` with the expected CronJob for `obj` would
/// read a missing volume list or container.
pub fn is_cronjob_malformed(obj: &ImageSync, cronjob: &CronJob) -> (r: bool)
    requires
        obj.spec.cron_schedule is Some,
    ensures
        r == cronjob_malformed(obj.spec, *cronjob),
{
    let actual = &cronjob.spec;
    let schedule_ok = match &obj.spec.cron_schedule {
        Some(s) => actual.schedule == *s,
        None => false,
    };
    if !schedule_ok {
        return false;
    }
    let js = match &actual.job_template.spec {
        Some(js) => js,
        None => {
            return false;
        },
    };
    let backoff_ok = match js.backoff_limit {
        Some(n) => n == 4,
        None => false,
    };
    if !backoff_ok {
        return false;
    }
    match &js.template.spec {
        Some(p) => match &p.volumes {
            None => true,
            Some(vols) => {
                let src = find_secret_name(vols, "creds-src");
                let dest = find_secret_name(vols, "creds-dest");
                opt_string_eq(&src, &obj.spec.source.registry_login_secret) && opt_string_eq(
                    &dest,
                    &obj.spec.destination.registry_login_secret,
                ) && p.containers.len() == 0
            },
        },
        None => false,
    }
}

/// The CronJob of an ImageSync among the CronJobs that carry its label: none
/// when there is none, an error when there are several.
pub fn get_cronjob_for_imagesync(listed: Vec<CronJob>) -> (r: Result<Option<CronJob>, Error>)
    ensures
        r == single_item(listed@, Error::MultipleCronJobs),
{
    take_single(listed, Error::MultipleCronJobs)
}

/// The last successful run reported by the CronJob found, if any.
pub open spec fn last_success_spec(found: Option<CronJob>) -> Option<Timestamp> {
    match found {
        Some(cj) => match cj.status {
            Some(st) => st.last_successful_time,
            None => None,
        },
        None => None,
    }
}

/// The time of the last successful run of the CronJob found, if it reports one.
pub fn cronjob_get_last_success(found: &Option<CronJob>) -> (r: Option<Timestamp>)
    ensures
        r == last_success_spec(*found),
{
    match found {
        Some(cj) => match &cj.status {
            Some(st) => st.last_successful_time,
            None => None,
        },
        None => None,
    }
}

/// The CronJob generated for an ImageSync passes the comparison with the
/// expected CronJob, and the comparison reads no missing part of it.
pub proof fn lemma_generated_cronjob_is_correct(
    cj: CronJob,
    name: Seq<char>,
    spec: ImageSyncSpec,
    config: SkopeoConfig,
    debug: bool,
)
    requires
        spec.cron_schedule is Some,
        is_sync_cronjob(cj, name, spec, config, debug),
    ensures
        cronjob_matches(spec, cj, config, debug),
        !cronjob_malformed(spec, cj),
{
    reveal_strlit("creds-src");
    reveal_strlit("creds-dest");
    let p = cj.spec.job_template.spec->0.template.spec->0;
    let vols = p.volumes->0@;
    assert(vols[0].name@ == "creds-src"@);
    assert("creds-src"@.len() != "creds-dest"@.len());
    assert(vols[0].name@ != "creds-dest"@);
    assert(vols.subrange(1, vols.len() as int)[0] == vols[1]);
    assert(first_secret_name(vols.subrange(1, vols.len() as int), "creds-dest"@) == first_secret_name(
        vols,
        "creds-dest"@,
    ));
}

/// A CronJob generated with the opposite debug flag fails the comparison:
/// its script differs by skopeo's `--debug`.
pub proof fn lemma_other_debug_flag_is_incorrect(
    cj: CronJob,
    name: Seq<char>,
    spec: ImageSyncSpec,
    config: SkopeoConfig,
    debug: bool,
)
    requires
        spec.cron_schedule is Some,
        is_sync_cronjob(cj, name, spec, config, !debug),
    ensures
        !cronjob_matches(spec, cj, config, debug),
{
    lemma_debug_changes_cron_script(spec, config);
    let p = cj.spec.job_template.spec->0.template.spec->0;
    let cmd = p.containers@[0].command->0.deep_view();
    assert(cmd[2] == cron_script_spec(spec, config, !debug));
    assert(bash_command(cron_script_spec(spec, config, debug))[2] == cron_script_spec(
        spec,
        config,
        debug,
    ));
}

/// A CronJob counts as matching only if it runs on the spec's schedule with
/// a backoff limit of four, its pod mounts, as `creds-src` and `creds-dest`,
/// exactly the registry Secrets the spec names, and its first container runs
/// the expected script in bash, from the configured image with the
/// configured pull policy, with the two credential mounts.
pub proof fn lemma_matching_cronjob_mounts_spec_secrets(
    spec: ImageSyncSpec,
    cj: CronJob,
    config: SkopeoConfig,
    debug: bool,
)
    requires
        cronjob_matches(spec, cj, config, debug),
        !cronjob_malformed(spec, cj),
    ensures
        cj.spec.schedule@ == spec.cron_schedule->0@,
        cj.spec.job_template.spec matches Some(js) && js.backoff_limit == Some(4i32),
        match cronjob_pod(cj) {
            Some(p) => {
                &&& p.volumes matches Some(vs) && first_secret_name(vs@, "creds-src"@) == opt_view(
                    spec.source.registry_login_secret,
                ) && first_secret_name(vs@, "creds-dest"@) == opt_view(
                    spec.destination.registry_login_secret,
                )
                &&& p.containers@.len() > 0
                &&& opt_view(p.containers@[0].image) == Some(config.image@)
                &&& opt_view(p.containers@[0].image_pull_policy) == Some(config.image_pull_policy@)
                &&& p.containers@[0].command matches Some(cmd) && cmd.deep_view() == bash_command(
                    cron_script_spec(spec, config, debug),
                )
                &&& p.containers@[0].volume_mounts matches Some(ms) && are_creds_mounts(ms@)
            },
            None => false,
        },
{
}

/// A CronJob generated for a spec that names another source registry Secret
/// fails the comparison: it mounts the wrong credentials.
pub proof fn lemma_other_source_secret_is_incorrect(
    cj: CronJob,
    name: Seq<char>,
    generated_for: ImageSyncSpec,
    spec: ImageSyncSpec,
    config: SkopeoConfig,
    debug: bool,
    generated_debug: bool,
)
    requires
        spec.cron_schedule is Some,
        generated_for.cron_schedule is Some,
        is_sync_cronjob(cj, name, generated_for, config, generated_debug),
        opt_view(generated_for.source.registry_login_secret) != opt_view(
            spec.source.registry_login_secret,
        ),
    ensures
        !cronjob_matches(spec, cj, config, debug),
{
    reveal_strlit("creds-src");
    let p = cj.spec.job_template.spec->0.template.spec->0;
    let vols = p.volumes->0@;
    assert(vols[0].name@ == "creds-src"@);
    assert(first_secret_name(vols, "creds-src"@) == opt_view(
        generated_for.source.registry_login_secret,
    ));
}

} // verus!

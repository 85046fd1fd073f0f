//! Status bookkeeping and acceptance checks of an ImageSync.

use crate::error::Error;
use crate::imagesync::{
    same_spec, spec_eq, ImageSync, ImageSyncSpec, ImageSyncStatus, Timestamp,
};
use crate::pattern::{
    cron_pattern, cron_schedule_regex, destination_image_pattern, destination_image_regex,
    regex_compiles, regex_is_match, source_image_pattern, source_image_regex,
};
use crate::workload::{opt_view, string_from};
use vstd::prelude::*;
use vstd::string::*;

verus! {

/// The spec of `obj` differs from the spec its status was last written for,
/// or it has no status yet.
pub open spec fn config_changed(obj: ImageSync) -> bool {
    match obj.status {
        None => true,
        Some(st) => !same_spec(st.last_applied_config, obj.spec),
    }
}

/// Whether the spec of `obj` has changed since its status was last written.
pub fn has_config_changed(obj: &ImageSync) -> (r: bool)
    ensures
        r == config_changed(*obj),
        obj.status is None ==> r,
        obj.status matches Some(st) ==> (r <==> !fields_equal(st.last_applied_config, obj.spec)),
{
    match &obj.status {
        Some(st) => {
            proof {
                lemma_same_spec_is_fields_equal(st.last_applied_config, obj.spec);
            }
            !spec_eq(&st.last_applied_config, &obj.spec)
        },
        None => true,
    }
}

/// Every field of `a` holds the same contents as that of `b`.
pub open spec fn fields_equal(a: ImageSyncSpec, b: ImageSyncSpec) -> bool {
    &&& a.source.image@ == b.source.image@
    &&& opt_view(a.source.registry_login_secret) == opt_view(b.source.registry_login_secret)
    &&& a.destination.image@ == b.destination.image@
    &&& opt_view(a.destination.registry_login_secret) == opt_view(
        b.destination.registry_login_secret,
    )
    &&& opt_view(a.cron_schedule) == opt_view(b.cron_schedule)
    &&& a.all_architectures == b.all_architectures
    &&& a.preserve_digests == b.preserve_digests
    &&& opt_view(a.extra_skopeo_arguments) == opt_view(b.extra_skopeo_arguments)
}

/// The spec counts as changed exactly when there is no status yet, or when
/// some field of the spec (an image reference, a registry Secret, the
/// schedule, a flag or the extra arguments) differs from the one recorded as
/// last applied.
pub proof fn lemma_config_changed_fields(obj: ImageSync)
    ensures
        config_changed(obj) <==> match obj.status {
            None => true,
            Some(st) => {
                let prev = st.last_applied_config;
                let cur = obj.spec;
                ||| prev.source.image@ != cur.source.image@
                ||| opt_view(prev.source.registry_login_secret) != opt_view(
                    cur.source.registry_login_secret,
                )
                ||| prev.destination.image@ != cur.destination.image@
                ||| opt_view(prev.destination.registry_login_secret) != opt_view(
                    cur.destination.registry_login_secret,
                )
                ||| opt_view(prev.cron_schedule) != opt_view(cur.cron_schedule)
                ||| prev.all_architectures != cur.all_architectures
                ||| prev.preserve_digests != cur.preserve_digests
                ||| opt_view(prev.extra_skopeo_arguments) != opt_view(cur.extra_skopeo_arguments)
            },
        },
{
    if let Some(st) = obj.status {
        lemma_same_spec_is_fields_equal(st.last_applied_config, obj.spec);
    }
}

/// Two specs count as the same exactly when every field holds the same contents.
pub proof fn lemma_same_spec_is_fields_equal(a: ImageSyncSpec, b: ImageSyncSpec)
    ensures
        same_spec(a, b) <==> fields_equal(a, b),
{
}

/// `p` is `obj` with its status replaced by the given values, recording the
/// current spec as the last applied one.
pub open spec fn is_status_update(
    p: ImageSync,
    obj: ImageSync,
    accepted: bool,
    ready: bool,
    message: Seq<char>,
    last_completion_time: Option<Timestamp>,
) -> bool {
    &&& p.name == obj.name
    &&& p.namespace == obj.namespace
    &&& p.spec == obj.spec
    &&& p.status matches Some(st) && st.accepted == accepted && st.ready == ready
        && st.last_applied_config == obj.spec && st.last_completion_time == last_completion_time
        && st.message@ == message
}

/// The object to apply to the status subresource of `obj`: its status holds
/// the given values and the current spec as the last applied one.
pub fn update_status(
    obj: ImageSync,
    accepted: bool,
    ready: bool,
    accepted_message: String,
    last_completion_time: Option<Timestamp>,
) -> (patched: ImageSync)
    ensures
        is_status_update(patched, obj, accepted, ready, accepted_message@, last_completion_time),
        patched.status->0.message == accepted_message,
{
    let last_applied_config = obj.spec.clone();
    ImageSync {
        name: obj.name,
        namespace: obj.namespace,
        spec: obj.spec,
        status: Some(
            ImageSyncStatus {
                accepted,
                ready,
                last_applied_config,
                last_completion_time,
                message: accepted_message,
            },
        ),
    }
}

/// The message written when a changed spec resets the status.
pub open spec fn reset_message() -> Seq<char> {
    "ImageSync configuration has changed"@
}

/// The status update that marks `obj` as neither accepted nor ready after
/// its spec changed.
pub fn reset_to_not_accepted(obj: &ImageSync) -> (patched: ImageSync)
    ensures
        is_status_update(patched, *obj, false, false, reset_message(), None),
{
    update_status(obj.clone(), false, false, string_from("ImageSync configuration has changed"), None)
}

/// A status update records the current spec, so the spec no longer counts as
/// changed.
pub proof fn lemma_status_update_settles_config(
    p: ImageSync,
    obj: ImageSync,
    accepted: bool,
    ready: bool,
    message: Seq<char>,
    t: Option<Timestamp>,
)
    requires
        is_status_update(p, obj, accepted, ready, message, t),
    ensures
        !config_changed(p),
{
}

/// The answer of the cluster to a request for a Secret.
pub enum SecretLookup {
    /// No Secret of that name exists, or it could not be read.
    Missing,
    /// The Secret exists and has this `type`.
    Found { secret_type: Option<String> },
}

/// The outcome of the acceptance checks.
pub struct Acceptance {
    pub accepted: bool,
    pub message: String,
}

/// The Secret type that holds registry credentials.
pub open spec fn dockerconfigjson_type() -> Seq<char> {
    "kubernetes.io/dockerconfigjson"@
}

/// What is wrong with the registry Secret `name` given the cluster's
/// answer, if anything. `role` is `Source` or `Destination`. No answer counts
/// as a missing Secret.
pub open spec fn secret_problem(
    role: Seq<char>,
    name: Option<String>,
    lookup: Option<SecretLookup>,
) -> Option<Seq<char>> {
    match name {
        None => None,
        Some(n) => match lookup {
            Some(SecretLookup::Found { secret_type }) => if opt_view(secret_type) == Some(
                dockerconfigjson_type(),
            ) {
                None
            } else {
                Some(
                    role + " secret "@ + n@ + " is not of type kubernetes.io/dockerconfigjson"@,
                )
            },
            _ => Some(role + " secret "@ + n@ + " does not exist"@),
        },
    }
}

/// The cron schedule, if any, is one the cron pattern accepts.
pub open spec fn cron_schedule_ok(spec: ImageSyncSpec) -> bool {
    match spec.cron_schedule {
        None => true,
        Some(s) => regex_is_match(cron_pattern(), s@),
    }
}

/// The regex engine accepts every pattern the checks of `spec` compile.
pub open spec fn acceptance_patterns_compile(spec: ImageSyncSpec) -> bool {
    &&& spec.cron_schedule is Some ==> regex_compiles(cron_pattern())
    &&& regex_compiles(source_image_pattern())
    &&& regex_compiles(destination_image_pattern())
}

/// Every acceptance check passes.
pub open spec fn accepted_spec(
    spec: ImageSyncSpec,
    source: Option<SecretLookup>,
    destination: Option<SecretLookup>,
) -> bool {
    &&& secret_problem("Source"@, spec.source.registry_login_secret, source) is None
    &&& secret_problem("Destination"@, spec.destination.registry_login_secret, destination) is None
    &&& cron_schedule_ok(spec)
    &&& regex_is_match(source_image_pattern(), spec.source.image@)
    &&& regex_is_match(destination_image_pattern(), spec.destination.image@)
}

/// `text` when `failed`, the empty text otherwise.
pub open spec fn note_if(failed: bool, text: Seq<char>) -> Seq<char> {
    if failed {
        text
    } else {
        Seq::empty()
    }
}

/// The sentence that reports a Secret problem under `heading`.
pub open spec fn secret_note_spec(heading: Seq<char>, problem: Option<Seq<char>>) -> Seq<char> {
    match problem {
        Some(m) => heading + " secret error: "@ + m + ". "@,
        None => Seq::empty(),
    }
}

/// The status message written after the acceptance checks.
pub open spec fn acceptance_message(
    spec: ImageSyncSpec,
    source: Option<SecretLookup>,
    destination: Option<SecretLookup>,
) -> Seq<char> {
    if accepted_spec(spec, source, destination) {
        "ImageSync configuration is valid"@
    } else {
        "ImageSync configuration is invalid: "@ + secret_note_spec(
            "Source"@,
            secret_problem("Source"@, spec.source.registry_login_secret, source),
        ) + secret_note_spec(
            "Destination"@,
            secret_problem("Destination"@, spec.destination.registry_login_secret, destination),
        ) + note_if(!cron_schedule_ok(spec), "Cron schedule is invalid. "@) + note_if(
            !regex_is_match(source_image_pattern(), spec.source.image@),
            "Source image URL is invalid. "@,
        ) + note_if(
            !regex_is_match(destination_image_pattern(), spec.destination.image@),
            "Destination image URL is invalid. "@,
        )
    }
}

/// The registry Secret `name` passes its check: none is named, or the
/// cluster reports a Secret of type `kubernetes.io/dockerconfigjson`.
pub open spec fn secret_usable(name: Option<String>, lookup: Option<SecretLookup>) -> bool {
    ||| name is None
    ||| (lookup matches Some(SecretLookup::Found { secret_type }) && opt_view(secret_type) == Some(
        "kubernetes.io/dockerconfigjson"@,
    ))
}

/// An ImageSync is accepted exactly when both registry Secrets are usable,
/// the cron schedule, if any, matches the cron pattern, and the source and
/// destination image references match their patterns.
pub proof fn lemma_accepted_conditions(
    spec: ImageSyncSpec,
    source: Option<SecretLookup>,
    destination: Option<SecretLookup>,
)
    ensures
        accepted_spec(spec, source, destination) <==> {
            &&& secret_usable(spec.source.registry_login_secret, source)
            &&& secret_usable(spec.destination.registry_login_secret, destination)
            &&& (spec.cron_schedule matches Some(c) ==> regex_is_match(cron_pattern(), c@))
            &&& regex_is_match(source_image_pattern(), spec.source.image@)
            &&& regex_is_match(destination_image_pattern(), spec.destination.image@)
        },
{
}

/// The status message says the configuration is valid exactly when it is
/// accepted. Otherwise it starts with `ImageSync configuration is invalid: `,
/// and when the destination image reference fails its pattern it ends with
/// `Destination image URL is invalid. `.
pub proof fn lemma_acceptance_message_reports(
    spec: ImageSyncSpec,
    source: Option<SecretLookup>,
    destination: Option<SecretLookup>,
)
    ensures
        accepted_spec(spec, source, destination) ==> acceptance_message(spec, source, destination)
            == "ImageSync configuration is valid"@,
        !accepted_spec(spec, source, destination) ==> "ImageSync configuration is invalid: "@.is_prefix_of(
            acceptance_message(spec, source, destination),
        ),
        !regex_is_match(destination_image_pattern(), spec.destination.image@)
            ==> "Destination image URL is invalid. "@.is_suffix_of(
            acceptance_message(spec, source, destination),
        ),
{
    let m = acceptance_message(spec, source, destination);
    if !accepted_spec(spec, source, destination) {
        let head = "ImageSync configuration is invalid: "@;
        let rest = secret_note_spec(
            "Source"@,
            secret_problem("Source"@, spec.source.registry_login_secret, source),
        ) + secret_note_spec(
            "Destination"@,
            secret_problem("Destination"@, spec.destination.registry_login_secret, destination),
        ) + note_if(!cron_schedule_ok(spec), "Cron schedule is invalid. "@) + note_if(
            !regex_is_match(source_image_pattern(), spec.source.image@),
            "Source image URL is invalid. "@,
        );
        let tail = note_if(
            !regex_is_match(destination_image_pattern(), spec.destination.image@),
            "Destination image URL is invalid. "@,
        );
        assert(m =~= head + (rest + tail));
        assert((head + (rest + tail)).subrange(0, head.len() as int) =~= head);
        assert(m =~= (head + rest) + tail);
        let front = head + rest;
        assert((front + tail).subrange(front.len() as int, (front + tail).len() as int) =~= tail);
    }
}

/// `t` occurs in `s` as a contiguous part.
pub open spec fn occurs_in(t: Seq<char>, s: Seq<char>) -> bool {
    exists|i: int| 0 <= i <= s.len() - t.len() && #[trigger] s.skip(i).take(t.len() as int) == t
}

/// Every failed acceptance check is reported in the status message: an
/// unusable registry Secret under its role, an invalid cron schedule, and an
/// image reference that fails its pattern.
pub proof fn lemma_acceptance_message_notes(
    spec: ImageSyncSpec,
    source: Option<SecretLookup>,
    destination: Option<SecretLookup>,
)
    ensures
        ({
            let m = acceptance_message(spec, source, destination);
            &&& !secret_usable(spec.source.registry_login_secret, source) ==> occurs_in(
                "Source secret error: "@,
                m,
            )
            &&& !secret_usable(spec.destination.registry_login_secret, destination) ==> occurs_in(
                "Destination secret error: "@,
                m,
            )
            &&& (spec.cron_schedule matches Some(c) && !regex_is_match(cron_pattern(), c@))
                ==> occurs_in("Cron schedule is invalid. "@, m)
            &&& !regex_is_match(source_image_pattern(), spec.source.image@) ==> occurs_in(
                "Source image URL is invalid. "@,
                m,
            )
            &&& !regex_is_match(destination_image_pattern(), spec.destination.image@) ==> occurs_in(
                "Destination image URL is invalid. "@,
                m,
            )
        }),
{
    reveal_strlit("Source");
    reveal_strlit("Destination");
    reveal_strlit(" secret error: ");
    reveal_strlit("Source secret error: ");
    reveal_strlit("Destination secret error: ");
    let m = acceptance_message(spec, source, destination);
    lemma_accepted_conditions(spec, source, destination);
    if !accepted_spec(spec, source, destination) {
        let head = "ImageSync configuration is invalid: "@;
        let sp = secret_problem("Source"@, spec.source.registry_login_secret, source);
        let dp = secret_problem("Destination"@, spec.destination.registry_login_secret, destination);
        let sn = secret_note_spec("Source"@, sp);
        let dn = secret_note_spec("Destination"@, dp);
        let cn = note_if(!cron_schedule_ok(spec), "Cron schedule is invalid. "@);
        let si = note_if(
            !regex_is_match(source_image_pattern(), spec.source.image@),
            "Source image URL is invalid. "@,
        );
        let di = note_if(
            !regex_is_match(destination_image_pattern(), spec.destination.image@),
            "Destination image URL is invalid. "@,
        );
        assert(m == head + sn + dn + cn + si + di);
        if !secret_usable(spec.source.registry_login_secret, source) {
            let t = "Source secret error: "@;
            assert(sp is Some);
            assert(m.skip(head.len() as int).take(t.len() as int) =~= t);
        }
        if !secret_usable(spec.destination.registry_login_secret, destination) {
            let t = "Destination secret error: "@;
            assert(dp is Some);
            assert(m.skip((head + sn).len() as int).take(t.len() as int) =~= t);
        }
        if !cron_schedule_ok(spec) {
            let t = "Cron schedule is invalid. "@;
            assert(m.skip((head + sn + dn).len() as int).take(t.len() as int) =~= t);
        }
        if !regex_is_match(source_image_pattern(), spec.source.image@) {
            let t = "Source image URL is invalid. "@;
            assert(m.skip((head + sn + dn + cn).len() as int).take(t.len() as int) =~= t);
        }
        if !regex_is_match(destination_image_pattern(), spec.destination.image@) {
            let t = "Destination image URL is invalid. "@;
            assert(m.skip((head + sn + dn + cn + si).len() as int).take(t.len() as int) =~= t);
        }
    }
}

/// The sentence that reports `problem` under `heading`.
fn secret_note(heading: &str, problem: &Option<String>) -> (r: String)
    ensures
        r@ == secret_note_spec(heading@, opt_view(*problem)),
{
    match problem {
        Some(m) => string_from(heading).concat(" secret error: ").concat(m.as_str()).concat(". "),
        None => String::new(),
    }
}

/// Checks one registry Secret: the problem message, if any.
fn check_secret(role: &str, name: &Option<String>, lookup: &Option<SecretLookup>) -> (r: Option<
    String,
>)
    ensures
        opt_view(r) == secret_problem(role@, *name, *lookup),
{
    match name {
        None => None,
        Some(n) => match lookup {
            Some(SecretLookup::Found { secret_type }) => {
                let ok = match secret_type {
                    Some(t) => *t == string_from("kubernetes.io/dockerconfigjson"),
                    None => false,
                };
                if ok {
                    None
                } else {
                    Some(
                        string_from(role).concat(" secret ").concat(n.as_str()).concat(
                            " is not of type kubernetes.io/dockerconfigjson",
                        ),
                    )
                }
            },
            _ => Some(string_from(role).concat(" secret ").concat(n.as_str()).concat(" does not exist")),
        },
    }
}

/// Runs the acceptance checks of `obj`: its registry Secrets, given the
/// cluster's answers `source` and `destination` (consulted only for a named
/// Secret), its cron schedule and its two image references.
///
/// Fails with `InvalidPattern` only when the regex engine refuses one of the
/// validation patterns.
pub fn acceptance_checks(
    obj: &ImageSync,
    source: Option<SecretLookup>,
    destination: Option<SecretLookup>,
) -> (r: Result<Acceptance, Error>)
    ensures
        r is Ok <==> acceptance_patterns_compile(obj.spec),
        r is Err ==> r == Err::<Acceptance, Error>(Error::InvalidPattern),
        r matches Ok(a) ==> a.accepted == accepted_spec(obj.spec, source, destination)
            && a.message@ == acceptance_message(obj.spec, source, destination),
        r matches Ok(a) ==> (a.accepted <==> {
            &&& secret_usable(obj.spec.source.registry_login_secret, source)
            &&& secret_usable(obj.spec.destination.registry_login_secret, destination)
            &&& (obj.spec.cron_schedule matches Some(c) ==> regex_is_match(cron_pattern(), c@))
            &&& regex_is_match(source_image_pattern(), obj.spec.source.image@)
            &&& regex_is_match(destination_image_pattern(), obj.spec.destination.image@)
        }),
        r matches Ok(a) ==> (a.accepted ==> a.message@ == "ImageSync configuration is valid"@),
        r matches Ok(a) ==> (!regex_is_match(destination_image_pattern(), obj.spec.destination.image@)
            ==> !a.accepted && "Destination image URL is invalid. "@.is_suffix_of(a.message@)),
{
    proof {
        lemma_accepted_conditions(obj.spec, source, destination);
        lemma_acceptance_message_reports(obj.spec, source, destination);
    }
    let source_problem = check_secret("Source", &obj.spec.source.registry_login_secret, &source);
    let dest_problem = check_secret(
        "Destination",
        &obj.spec.destination.registry_login_secret,
        &destination,
    );
    let cron_ok = match &obj.spec.cron_schedule {
        Some(schedule) => match cron_schedule_regex() {
            Some(re) => re.is_match(schedule.as_str()),
            None => {
                return Err(Error::InvalidPattern);
            },
        },
        None => true,
    };
    let source_image_ok = match source_image_regex() {
        Some(re) => re.is_match(obj.spec.source.image.as_str()),
        None => {
            return Err(Error::InvalidPattern);
        },
    };
    let dest_image_ok = match destination_image_regex() {
        Some(re) => re.is_match(obj.spec.destination.image.as_str()),
        None => {
            return Err(Error::InvalidPattern);
        },
    };
    let accepted = source_problem.is_none() && dest_problem.is_none() && cron_ok && source_image_ok
        && dest_image_ok;
    if accepted {
        return Ok(Acceptance { accepted, message: string_from("ImageSync configuration is valid") });
    }
    let message = string_from("ImageSync configuration is invalid: ").concat(
        secret_note("Source", &source_problem).as_str(),
    ).concat(secret_note("Destination", &dest_problem).as_str()).concat(
        if !cron_ok {
            "Cron schedule is invalid. "
        } else {
            ""
        },
    ).concat(
        if !source_image_ok {
            "Source image URL is invalid. "
        } else {
            ""
        },
    ).concat(
        if !dest_image_ok {
            "Destination image URL is invalid. "
        } else {
            ""
        },
    );
    proof {
        reveal_strlit("");
    }
    Ok(Acceptance { accepted, message })
}

} // verus!

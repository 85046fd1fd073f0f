//! The bash script that a sync container runs: a template whose
//! placeholders are replaced, one after the other, by values of the
//! ImageSync spec and of the skopeo configuration.

use crate::config::SkopeoConfig;
use crate::imagesync::ImageSyncSpec;
use crate::text::{
    brace_free, chars_of, lemma_replaced_brace_free, lemma_replaced_other_placeholder,
    lemma_replaced_split, opens_with_brace, replace_all, replaced, string_of,
};
use crate::workload::text_or_empty;
use vstd::prelude::*;

verus! {

/// The script template of one-shot sync Jobs.
pub open spec fn job_template() -> Seq<char> {
    "cat >> /etc/pki/ca-trust/extracted/pem/tls-ca-bundle.pem <<EOF\n{ca_trust_bundle}\nEOF\nskopeo copy {preserve_digests} {all_architectures} {src_options} {dest_options} {extra_arguments} docker://{src} docker://{dest}"@
}

/// The script template of scheduled sync CronJobs.
pub open spec fn cron_template() -> Seq<char> {
    "cat >> /etc/pki/ca-trust/extracted/pem/tls-ca-bundle.pem <<EOF\n{ca_trust_bundle}\nEOF\nskopeo copy --src-cert-dir /etc/pki/ca-trust/extracted/pem --dest-cert-dir /etc/pki/ca-trust/extracted/pem {debug} {preserve_digests} {all_architectures} {src_options} {dest_options} {extra_arguments} docker://{src} docker://{dest}"@
}

/// `text` when `on`, the empty text otherwise.
pub open spec fn flag_text(on: bool, text: Seq<char>) -> Seq<char> {
    if on {
        text
    } else {
        Seq::empty()
    }
}

/// The replacements common to both templates, in the order they are made:
/// the skopeo options, the two image references, then the extra arguments.
pub open spec fn fill_spec_placeholders(t: Seq<char>, spec: ImageSyncSpec) -> Seq<char> {
    let t1 = replaced(
        t,
        "{preserve_digests}"@,
        flag_text(spec.preserve_digests == Some(true), "--preserve-digests"@),
    );
    let t2 = replaced(
        t1,
        "{all_architectures}"@,
        flag_text(spec.all_architectures == Some(true), "--all"@),
    );
    let t3 = replaced(
        t2,
        "{src_options}"@,
        flag_text(
            spec.source.registry_login_secret is Some,
            "--src-authfile /creds/src/.dockerconfigjson"@,
        ),
    );
    let t4 = replaced(
        t3,
        "{dest_options}"@,
        flag_text(
            spec.destination.registry_login_secret is Some,
            "--dest-authfile /creds/dest/.dockerconfigjson"@,
        ),
    );
    let t5 = replaced(t4, "{src}"@, spec.source.image@);
    let t6 = replaced(t5, "{dest}"@, spec.destination.image@);
    replaced(t6, "{extra_arguments}"@, text_or_empty(spec.extra_skopeo_arguments))
}

/// The script of the one-shot sync Job.
pub open spec fn job_script_spec(spec: ImageSyncSpec, config: SkopeoConfig) -> Seq<char> {
    fill_spec_placeholders(
        replaced(job_template(), "{ca_trust_bundle}"@, text_or_empty(config.ca_trust_bundle)),
        spec,
    )
}

/// The script of the scheduled sync CronJob, with skopeo's `--debug` when
/// `debug` holds.
pub open spec fn cron_script_spec(spec: ImageSyncSpec, config: SkopeoConfig, debug: bool) -> Seq<
    char,
> {
    fill_after_debug(replaced(cron_template(), "{debug}"@, flag_text(debug, "--debug"@)), spec, config)
}

/// The replacements made after `{debug}`: the CA bundle, then the spec
/// placeholders.
pub open spec fn fill_after_debug(t: Seq<char>, spec: ImageSyncSpec, config: SkopeoConfig) -> Seq<
    char,
> {
    fill_spec_placeholders(
        replaced(t, "{ca_trust_bundle}"@, text_or_empty(config.ca_trust_bundle)),
        spec,
    )
}

/// `s` with every `pat` replaced by `rep`.
fn substitute(s: &Vec<char>, pat: &str, rep: &str) -> (r: Vec<char>)
    requires
        pat@.len() > 0,
    ensures
        r@ == replaced(s@, pat@, rep@),
{
    let p = chars_of(pat);
    let x = chars_of(rep);
    replace_all(s, &p, &x)
}

/// `text` when `on`, the empty string otherwise.
fn flag(on: bool, text: &'static str) -> (r: &'static str)
    ensures
        r@ == flag_text(on, text@),
{
    proof {
        reveal_strlit("");
    }
    if on {
        text
    } else {
        ""
    }
}

/// The contents of an optional string, or the empty string.
fn str_or_empty(o: &Option<String>) -> (r: &str)
    ensures
        r@ == text_or_empty(*o),
{
    proof {
        reveal_strlit("");
    }
    match o {
        Some(s) => s.as_str(),
        None => "",
    }
}

/// Replaces the spec placeholders of `t`.
fn fill_spec(t: Vec<char>, spec: &ImageSyncSpec) -> (r: Vec<char>)
    ensures
        r@ == fill_spec_placeholders(t@, *spec),
{
    proof {
        reveal_strlit("{preserve_digests}");
        reveal_strlit("{all_architectures}");
        reveal_strlit("{src_options}");
        reveal_strlit("{dest_options}");
        reveal_strlit("{src}");
        reveal_strlit("{dest}");
        reveal_strlit("{extra_arguments}");
    }
    let preserve = match spec.preserve_digests {
        Some(b) => b,
        None => false,
    };
    let all = match spec.all_architectures {
        Some(b) => b,
        None => false,
    };
    let t1 = substitute(&t, "{preserve_digests}", flag(preserve, "--preserve-digests"));
    let t2 = substitute(&t1, "{all_architectures}", flag(all, "--all"));
    let t3 = substitute(
        &t2,
        "{src_options}",
        flag(
            spec.source.registry_login_secret.is_some(),
            "--src-authfile /creds/src/.dockerconfigjson",
        ),
    );
    let t4 = substitute(
        &t3,
        "{dest_options}",
        flag(
            spec.destination.registry_login_secret.is_some(),
            "--dest-authfile /creds/dest/.dockerconfigjson",
        ),
    );
    let t5 = substitute(&t4, "{src}", spec.source.image.as_str());
    let t6 = substitute(&t5, "{dest}", spec.destination.image.as_str());
    substitute(&t6, "{extra_arguments}", str_or_empty(&spec.extra_skopeo_arguments))
}

/// The script of the one-shot sync Job for `spec`.
pub fn job_script(spec: &ImageSyncSpec, config: &SkopeoConfig) -> (s: String)
    ensures
        s@ == job_script_spec(*spec, *config),
{
    proof {
        reveal_strlit("{ca_trust_bundle}");
    }
    let t = chars_of(
        "cat >> /etc/pki/ca-trust/extracted/pem/tls-ca-bundle.pem <<EOF\n{ca_trust_bundle}\nEOF\nskopeo copy {preserve_digests} {all_architectures} {src_options} {dest_options} {extra_arguments} docker://{src} docker://{dest}",
    );
    let t0 = substitute(&t, "{ca_trust_bundle}", str_or_empty(&config.ca_trust_bundle));
    string_of(&fill_spec(t0, spec))
}

/// The script of the scheduled sync CronJob for `spec`.
pub fn cron_script(spec: &ImageSyncSpec, config: &SkopeoConfig, debug: bool) -> (s: String)
    ensures
        s@ == cron_script_spec(*spec, *config, debug),
{
    proof {
        reveal_strlit("{debug}");
        reveal_strlit("{ca_trust_bundle}");
    }
    let t = chars_of(
        "cat >> /etc/pki/ca-trust/extracted/pem/tls-ca-bundle.pem <<EOF\n{ca_trust_bundle}\nEOF\nskopeo copy --src-cert-dir /etc/pki/ca-trust/extracted/pem --dest-cert-dir /etc/pki/ca-trust/extracted/pem {debug} {preserve_digests} {all_architectures} {src_options} {dest_options} {extra_arguments} docker://{src} docker://{dest}",
    );
    let t0 = substitute(&t, "{debug}", flag(debug, "--debug"));
    let t1 = substitute(&t0, "{ca_trust_bundle}", str_or_empty(&config.ca_trust_bundle));
    string_of(&fill_spec(t1, spec))
}

/// A single space.
pub open spec fn space() -> Seq<char> {
    seq![' ']
}

/// The cron template up to the space before `{debug}`.
pub open spec fn cron_prefix() -> Seq<char> {
    "cat >> /etc/pki/ca-trust/extracted/pem/tls-ca-bundle.pem <<EOF"@ + seq!['\n'] + (
    "{ca_trust_bundle}"@ + seq!['\n']
        + "EOF\nskopeo copy --src-cert-dir /etc/pki/ca-trust/extracted/pem --dest-cert-dir /etc/pki/ca-trust/extracted/pem"@)
}

/// The placeholders that follow `{debug}` in the cron template.
pub open spec fn placeholders_part() -> Seq<char> {
    "{preserve_digests}"@ + space() + ("{all_architectures}"@ + space() + ("{src_options}"@ + space()
        + ("{dest_options}"@ + space() + ("{extra_arguments}"@ + space() + ("docker:/"@ + seq!['/']
        + "{src}"@ + space() + ("docker:/"@ + seq!['/'] + "{dest}"@))))))
}

proof fn lemma_cron_template_parts()
    ensures
        cron_template() == cron_prefix() + space() + "{debug}"@ + space() + placeholders_part(),
{
    reveal_strlit(
        "cat >> /etc/pki/ca-trust/extracted/pem/tls-ca-bundle.pem <<EOF\n{ca_trust_bundle}\nEOF\nskopeo copy --src-cert-dir /etc/pki/ca-trust/extracted/pem --dest-cert-dir /etc/pki/ca-trust/extracted/pem {debug} {preserve_digests} {all_architectures} {src_options} {dest_options} {extra_arguments} docker://{src} docker://{dest}",
    );
    reveal_strlit("cat >> /etc/pki/ca-trust/extracted/pem/tls-ca-bundle.pem <<EOF");
    reveal_strlit("{ca_trust_bundle}");
    reveal_strlit(
        "EOF\nskopeo copy --src-cert-dir /etc/pki/ca-trust/extracted/pem --dest-cert-dir /etc/pki/ca-trust/extracted/pem",
    );
    reveal_strlit("{debug}");
    reveal_strlit("{preserve_digests}");
    reveal_strlit("{all_architectures}");
    reveal_strlit("{src_options}");
    reveal_strlit("{dest_options}");
    reveal_strlit("{extra_arguments}");
    reveal_strlit("docker:/");
    reveal_strlit("{src}");
    reveal_strlit("{dest}");
    assert(cron_template() =~= cron_prefix() + space() + "{debug}"@ + space() + placeholders_part());
}

/// No character of `p` is `c`.
pub open spec fn lacks(p: Seq<char>, c: char) -> bool {
    forall|i: int| 0 <= i < p.len() ==> p[i] != c
}

/// Replacing `{debug}` leaves the cron template around it alone.
proof fn lemma_debug_only_at_its_place(d: Seq<char>)
    ensures
        replaced(cron_template(), "{debug}"@, d) == cron_prefix() + space() + d + space()
            + placeholders_part(),
{
    let p = "{debug}"@;
    reveal_strlit("{debug}");
    reveal_strlit("cat >> /etc/pki/ca-trust/extracted/pem/tls-ca-bundle.pem <<EOF");
    reveal_strlit("{ca_trust_bundle}");
    reveal_strlit(
        "EOF\nskopeo copy --src-cert-dir /etc/pki/ca-trust/extracted/pem --dest-cert-dir /etc/pki/ca-trust/extracted/pem",
    );
    reveal_strlit("{preserve_digests}");
    reveal_strlit("{all_architectures}");
    reveal_strlit("{src_options}");
    reveal_strlit("{dest_options}");
    reveal_strlit("{extra_arguments}");
    reveal_strlit("docker:/");
    reveal_strlit("{src}");
    reveal_strlit("{dest}");
    assert(opens_with_brace(p));
    assert(lacks(p, ' '));
    assert(lacks(p, '\n'));
    assert(lacks(p, '/'));
    lemma_cron_template_parts();
    // The prefix.
    let a = "cat >> /etc/pki/ca-trust/extracted/pem/tls-ca-bundle.pem <<EOF"@;
    let b = "{ca_trust_bundle}"@;
    let c = "EOF\nskopeo copy --src-cert-dir /etc/pki/ca-trust/extracted/pem --dest-cert-dir /etc/pki/ca-trust/extracted/pem"@;
    assert(brace_free(a));
    assert(brace_free(c));
    assert(brace_free(b.subrange(1, b.len() as int)));
    lemma_replaced_brace_free(a, p, d);
    lemma_replaced_brace_free(c, p, d);
    assert(b.subrange(0, p.len() as int)[1] != p[1]);
    lemma_replaced_other_placeholder(b, p, d);
    lemma_replaced_split(b, '\n', c, p, d);
    lemma_replaced_split(a, '\n', b + seq!['\n'] + c, p, d);
    assert(replaced(cron_prefix(), p, d) == cron_prefix());
    // The placeholders after it.
    let dk = "docker:/"@;
    assert(brace_free(dk));
    lemma_replaced_brace_free(dk, p, d);
    let t5 = "{dest}"@;
    assert(brace_free(t5.subrange(1, t5.len() as int)));
    lemma_replaced_other_placeholder(t5, p, d);
    lemma_replaced_split(dk, '/', t5, p, d);
    let r5 = dk + seq!['/'] + t5;
    let t4 = "{src}"@;
    assert(brace_free(t4.subrange(1, t4.len() as int)));
    lemma_replaced_other_placeholder(t4, p, d);
    lemma_replaced_split(dk, '/', t4, p, d);
    lemma_replaced_split(dk + seq!['/'] + t4, ' ', r5, p, d);
    let r4 = dk + seq!['/'] + t4 + space() + r5;
    let t3 = "{extra_arguments}"@;
    assert(brace_free(t3.subrange(1, t3.len() as int)));
    assert(t3.subrange(0, p.len() as int)[1] != p[1]);
    lemma_replaced_other_placeholder(t3, p, d);
    lemma_replaced_split(t3, ' ', r4, p, d);
    let r3 = t3 + space() + r4;
    let t2 = "{dest_options}"@;
    assert(brace_free(t2.subrange(1, t2.len() as int)));
    assert(t2.subrange(0, p.len() as int)[3] != p[3]);
    lemma_replaced_other_placeholder(t2, p, d);
    lemma_replaced_split(t2, ' ', r3, p, d);
    let r2 = t2 + space() + r3;
    let t1 = "{src_options}"@;
    assert(brace_free(t1.subrange(1, t1.len() as int)));
    assert(t1.subrange(0, p.len() as int)[1] != p[1]);
    lemma_replaced_other_placeholder(t1, p, d);
    lemma_replaced_split(t1, ' ', r2, p, d);
    let r1 = t1 + space() + r2;
    let t0 = "{all_architectures}"@;
    assert(brace_free(t0.subrange(1, t0.len() as int)));
    assert(t0.subrange(0, p.len() as int)[1] != p[1]);
    lemma_replaced_other_placeholder(t0, p, d);
    lemma_replaced_split(t0, ' ', r1, p, d);
    let r0 = t0 + space() + r1;
    let tp = "{preserve_digests}"@;
    assert(brace_free(tp.subrange(1, tp.len() as int)));
    assert(tp.subrange(0, p.len() as int)[1] != p[1]);
    lemma_replaced_other_placeholder(tp, p, d);
    lemma_replaced_split(tp, ' ', r0, p, d);
    assert(replaced(placeholders_part(), p, d) == placeholders_part());
    // The template as a whole.
    let pre = cron_prefix();
    let post = placeholders_part();
    assert(replaced(p, p, d) == d) by {
        assert(p.subrange(0, p.len() as int) =~= p);
        assert(p.subrange(p.len() as int, p.len() as int) =~= Seq::<char>::empty());
        assert(replaced(Seq::<char>::empty(), p, d) == Seq::<char>::empty());
        assert(d + Seq::<char>::empty() =~= d);
    }
    lemma_replaced_split(p, ' ', post, p, d);
    lemma_replaced_split(pre, ' ', p + space() + post, p, d);
    assert(pre + space() + p + space() + post =~= pre + seq![' '] + (p + seq![' '] + post));
    assert(pre + space() + d + space() + post =~= pre + seq![' '] + (d + seq![' '] + post));
}

/// Replacing a placeholder keeps a `{`-free part between two spaces as it is
/// and acts on each side independently.
proof fn lemma_gap_kept(pr: Seq<char>, d: Seq<char>, q: Seq<char>, p: Seq<char>, r: Seq<char>)
    requires
        opens_with_brace(p),
        lacks(p, ' '),
        brace_free(d),
    ensures
        replaced(pr + space() + d + space() + q, p, r) == replaced(pr, p, r) + space() + d + space()
            + replaced(q, p, r),
{
    lemma_replaced_split(pr + space() + d, ' ', q, p, r);
    lemma_replaced_split(pr, ' ', d, p, r);
    lemma_replaced_brace_free(d, p, r);
}

/// The replacements after `{debug}` keep a `{`-free part between two spaces
/// as it is.
proof fn lemma_fill_keeps_gap(
    pr: Seq<char>,
    d: Seq<char>,
    q: Seq<char>,
    spec: ImageSyncSpec,
    config: SkopeoConfig,
)
    requires
        brace_free(d),
    ensures
        fill_after_debug(pr + space() + d + space() + q, spec, config) == fill_after_debug(
            pr,
            spec,
            config,
        ) + space() + d + space() + fill_after_debug(q, spec, config),
{
    reveal_strlit("{ca_trust_bundle}");
    reveal_strlit("{preserve_digests}");
    reveal_strlit("{all_architectures}");
    reveal_strlit("{src_options}");
    reveal_strlit("{dest_options}");
    reveal_strlit("{src}");
    reveal_strlit("{dest}");
    reveal_strlit("{extra_arguments}");
    let p0 = "{ca_trust_bundle}"@;
    let v0 = text_or_empty(config.ca_trust_bundle);
    let p1 = "{preserve_digests}"@;
    let v1 = flag_text(spec.preserve_digests == Some(true), "--preserve-digests"@);
    let p2 = "{all_architectures}"@;
    let v2 = flag_text(spec.all_architectures == Some(true), "--all"@);
    let p3 = "{src_options}"@;
    let v3 = flag_text(
        spec.source.registry_login_secret is Some,
        "--src-authfile /creds/src/.dockerconfigjson"@,
    );
    let p4 = "{dest_options}"@;
    let v4 = flag_text(
        spec.destination.registry_login_secret is Some,
        "--dest-authfile /creds/dest/.dockerconfigjson"@,
    );
    let p5 = "{src}"@;
    let v5 = spec.source.image@;
    let p6 = "{dest}"@;
    let v6 = spec.destination.image@;
    let p7 = "{extra_arguments}"@;
    let v7 = text_or_empty(spec.extra_skopeo_arguments);
    assert(opens_with_brace(p0) && lacks(p0, ' '));
    assert(opens_with_brace(p1) && lacks(p1, ' '));
    assert(opens_with_brace(p2) && lacks(p2, ' '));
    assert(opens_with_brace(p3) && lacks(p3, ' '));
    assert(opens_with_brace(p4) && lacks(p4, ' '));
    assert(opens_with_brace(p5) && lacks(p5, ' '));
    assert(opens_with_brace(p6) && lacks(p6, ' '));
    assert(opens_with_brace(p7) && lacks(p7, ' '));
    lemma_gap_kept(pr, d, q, p0, v0);
    let pr1 = replaced(pr, p0, v0);
    let q1 = replaced(q, p0, v0);
    lemma_gap_kept(pr1, d, q1, p1, v1);
    let pr2 = replaced(pr1, p1, v1);
    let q2 = replaced(q1, p1, v1);
    lemma_gap_kept(pr2, d, q2, p2, v2);
    let pr3 = replaced(pr2, p2, v2);
    let q3 = replaced(q2, p2, v2);
    lemma_gap_kept(pr3, d, q3, p3, v3);
    let pr4 = replaced(pr3, p3, v3);
    let q4 = replaced(q3, p3, v3);
    lemma_gap_kept(pr4, d, q4, p4, v4);
    let pr5 = replaced(pr4, p4, v4);
    let q5 = replaced(q4, p4, v4);
    lemma_gap_kept(pr5, d, q5, p5, v5);
    let pr6 = replaced(pr5, p5, v5);
    let q6 = replaced(q5, p5, v5);
    lemma_gap_kept(pr6, d, q6, p6, v6);
    let pr7 = replaced(pr6, p6, v6);
    let q7 = replaced(q6, p6, v6);
    lemma_gap_kept(pr7, d, q7, p7, v7);
}

/// The CronJob script with skopeo's `--debug` differs from the one without.
pub proof fn lemma_debug_changes_cron_script(spec: ImageSyncSpec, config: SkopeoConfig)
    ensures
        cron_script_spec(spec, config, true) != cron_script_spec(spec, config, false),
{
    reveal_strlit("--debug");
    let on = flag_text(true, "--debug"@);
    let off = flag_text(false, "--debug"@);
    assert(brace_free(on));
    assert(brace_free(off));
    lemma_debug_only_at_its_place(on);
    lemma_debug_only_at_its_place(off);
    lemma_fill_keeps_gap(cron_prefix(), on, placeholders_part(), spec, config);
    lemma_fill_keeps_gap(cron_prefix(), off, placeholders_part(), spec, config);
    assert(cron_script_spec(spec, config, true).len() == cron_script_spec(spec, config, false).len()
        + 7);
}

/// The replacements after `{debug}` act on each side of a space or a slash
/// on its own.
proof fn lemma_fill_split(
    x: Seq<char>,
    c: char,
    y: Seq<char>,
    spec: ImageSyncSpec,
    config: SkopeoConfig,
)
    requires
        c == ' ' || c == '/',
    ensures
        fill_after_debug(x + seq![c] + y, spec, config) == fill_after_debug(x, spec, config)
            + seq![c] + fill_after_debug(y, spec, config),
{
    reveal_strlit("{ca_trust_bundle}");
    reveal_strlit("{preserve_digests}");
    reveal_strlit("{all_architectures}");
    reveal_strlit("{src_options}");
    reveal_strlit("{dest_options}");
    reveal_strlit("{src}");
    reveal_strlit("{dest}");
    reveal_strlit("{extra_arguments}");
    let p0 = "{ca_trust_bundle}"@;
    let v0 = text_or_empty(config.ca_trust_bundle);
    let p1 = "{preserve_digests}"@;
    let v1 = flag_text(spec.preserve_digests == Some(true), "--preserve-digests"@);
    let p2 = "{all_architectures}"@;
    let v2 = flag_text(spec.all_architectures == Some(true), "--all"@);
    let p3 = "{src_options}"@;
    let v3 = flag_text(
        spec.source.registry_login_secret is Some,
        "--src-authfile /creds/src/.dockerconfigjson"@,
    );
    let p4 = "{dest_options}"@;
    let v4 = flag_text(
        spec.destination.registry_login_secret is Some,
        "--dest-authfile /creds/dest/.dockerconfigjson"@,
    );
    let p5 = "{src}"@;
    let v5 = spec.source.image@;
    let p6 = "{dest}"@;
    let v6 = spec.destination.image@;
    let p7 = "{extra_arguments}"@;
    let v7 = text_or_empty(spec.extra_skopeo_arguments);
    assert(opens_with_brace(p0) && lacks(p0, c));
    assert(opens_with_brace(p1) && lacks(p1, c));
    assert(opens_with_brace(p2) && lacks(p2, c));
    assert(opens_with_brace(p3) && lacks(p3, c));
    assert(opens_with_brace(p4) && lacks(p4, c));
    assert(opens_with_brace(p5) && lacks(p5, c));
    assert(opens_with_brace(p6) && lacks(p6, c));
    assert(opens_with_brace(p7) && lacks(p7, c));
    lemma_replaced_split(x, c, y, p0, v0);
    let x1 = replaced(x, p0, v0);
    let y1 = replaced(y, p0, v0);
    lemma_replaced_split(x1, c, y1, p1, v1);
    let x2 = replaced(x1, p1, v1);
    let y2 = replaced(y1, p1, v1);
    lemma_replaced_split(x2, c, y2, p2, v2);
    let x3 = replaced(x2, p2, v2);
    let y3 = replaced(y2, p2, v2);
    lemma_replaced_split(x3, c, y3, p3, v3);
    let x4 = replaced(x3, p3, v3);
    let y4 = replaced(y3, p3, v3);
    lemma_replaced_split(x4, c, y4, p4, v4);
    let x5 = replaced(x4, p4, v4);
    let y5 = replaced(y4, p4, v4);
    lemma_replaced_split(x5, c, y5, p5, v5);
    let x6 = replaced(x5, p5, v5);
    let y6 = replaced(y5, p5, v5);
    lemma_replaced_split(x6, c, y6, p6, v6);
    let x7 = replaced(x6, p6, v6);
    let y7 = replaced(y6, p6, v6);
    lemma_replaced_split(x7, c, y7, p7, v7);
}

/// Replacing a placeholder in the placeholder itself gives the replacement.
proof fn lemma_replaced_whole(p: Seq<char>, r: Seq<char>)
    requires
        p.len() > 0,
    ensures
        replaced(p, p, r) == r,
{
    assert(p.subrange(0, p.len() as int) =~= p);
    assert(p.subrange(p.len() as int, p.len() as int) =~= Seq::<char>::empty());
    assert(replaced(Seq::<char>::empty(), p, r) == Seq::<char>::empty());
    assert(r + Seq::<char>::empty() =~= r);
}

/// The replacements after `{debug}` turn text without `{` into itself, and
/// the two flag placeholders into their flags.
proof fn lemma_fill_values(t: Seq<char>, spec: ImageSyncSpec, config: SkopeoConfig)
    requires
        brace_free(t),
    ensures
        fill_after_debug(t, spec, config) == t,
        fill_after_debug("{preserve_digests}"@, spec, config) == flag_text(
            spec.preserve_digests == Some(true),
            "--preserve-digests"@,
        ),
        fill_after_debug("{all_architectures}"@, spec, config) == flag_text(
            spec.all_architectures == Some(true),
            "--all"@,
        ),
{
    reveal_strlit("{ca_trust_bundle}");
    reveal_strlit("{preserve_digests}");
    reveal_strlit("{all_architectures}");
    reveal_strlit("{src_options}");
    reveal_strlit("{dest_options}");
    reveal_strlit("{src}");
    reveal_strlit("{dest}");
    reveal_strlit("{extra_arguments}");
    reveal_strlit("--preserve-digests");
    reveal_strlit("--all");
    let p0 = "{ca_trust_bundle}"@;
    let v0 = text_or_empty(config.ca_trust_bundle);
    let p1 = "{preserve_digests}"@;
    let v1 = flag_text(spec.preserve_digests == Some(true), "--preserve-digests"@);
    let p2 = "{all_architectures}"@;
    let v2 = flag_text(spec.all_architectures == Some(true), "--all"@);
    let p3 = "{src_options}"@;
    let v3 = flag_text(
        spec.source.registry_login_secret is Some,
        "--src-authfile /creds/src/.dockerconfigjson"@,
    );
    let p4 = "{dest_options}"@;
    let v4 = flag_text(
        spec.destination.registry_login_secret is Some,
        "--dest-authfile /creds/dest/.dockerconfigjson"@,
    );
    let p5 = "{src}"@;
    let v5 = spec.source.image@;
    let p6 = "{dest}"@;
    let v6 = spec.destination.image@;
    let p7 = "{extra_arguments}"@;
    let v7 = text_or_empty(spec.extra_skopeo_arguments);
    assert(opens_with_brace(p0) && opens_with_brace(p1) && opens_with_brace(p2) && opens_with_brace(
        p3,
    ) && opens_with_brace(p4) && opens_with_brace(p5) && opens_with_brace(p6) && opens_with_brace(
        p7,
    ));
    // Text without `{`.
    lemma_replaced_brace_free(t, p0, v0);
    lemma_replaced_brace_free(t, p1, v1);
    lemma_replaced_brace_free(t, p2, v2);
    lemma_replaced_brace_free(t, p3, v3);
    lemma_replaced_brace_free(t, p4, v4);
    lemma_replaced_brace_free(t, p5, v5);
    lemma_replaced_brace_free(t, p6, v6);
    lemma_replaced_brace_free(t, p7, v7);
    // The flags hold no `{`.
    assert(brace_free(v1));
    assert(brace_free(v2));
    // `{preserve_digests}`.
    assert(brace_free(p1.subrange(1, p1.len() as int)));
    assert(p1.subrange(0, p0.len() as int)[1] != p0[1]);
    lemma_replaced_other_placeholder(p1, p0, v0);
    lemma_replaced_whole(p1, v1);
    lemma_replaced_brace_free(v1, p2, v2);
    lemma_replaced_brace_free(v1, p3, v3);
    lemma_replaced_brace_free(v1, p4, v4);
    lemma_replaced_brace_free(v1, p5, v5);
    lemma_replaced_brace_free(v1, p6, v6);
    lemma_replaced_brace_free(v1, p7, v7);
    // `{all_architectures}`.
    assert(brace_free(p2.subrange(1, p2.len() as int)));
    assert(p2.subrange(0, p0.len() as int)[1] != p0[1]);
    lemma_replaced_other_placeholder(p2, p0, v0);
    assert(p2.subrange(0, p1.len() as int)[1] != p1[1]);
    lemma_replaced_other_placeholder(p2, p1, v1);
    lemma_replaced_whole(p2, v2);
    lemma_replaced_brace_free(v2, p3, v3);
    lemma_replaced_brace_free(v2, p4, v4);
    lemma_replaced_brace_free(v2, p5, v5);
    lemma_replaced_brace_free(v2, p6, v6);
    lemma_replaced_brace_free(v2, p7, v7);
}

/// The Job template up to `skopeo`.
spec fn job_head() -> Seq<char> {
    "cat >> /etc/pki/ca-trust/extracted/pem/tls-ca-bundle.pem <<EOF\n{ca_trust_bundle}\nEOF\nskopeo"@
}

/// The Job template from `{src_options}` on.
spec fn job_tail() -> Seq<char> {
    "{src_options} {dest_options} {extra_arguments} docker://{src} docker://{dest}"@
}

proof fn lemma_job_template_parts()
    ensures
        job_template() == job_head() + space() + "copy"@ + space() + "{preserve_digests}"@
            + space() + "{all_architectures}"@ + space() + job_tail(),
{
    reveal_strlit(
        "cat >> /etc/pki/ca-trust/extracted/pem/tls-ca-bundle.pem <<EOF\n{ca_trust_bundle}\nEOF\nskopeo copy {preserve_digests} {all_architectures} {src_options} {dest_options} {extra_arguments} docker://{src} docker://{dest}",
    );
    reveal_strlit(
        "cat >> /etc/pki/ca-trust/extracted/pem/tls-ca-bundle.pem <<EOF\n{ca_trust_bundle}\nEOF\nskopeo",
    );
    reveal_strlit("copy");
    reveal_strlit("{preserve_digests}");
    reveal_strlit("{all_architectures}");
    reveal_strlit("{src_options} {dest_options} {extra_arguments} docker://{src} docker://{dest}");
    assert(job_template() =~= job_head() + space() + "copy"@ + space() + "{preserve_digests}"@
        + space() + "{all_architectures}"@ + space() + job_tail());
}

/// The placeholders of the template's end, filled one by one.
proof fn lemma_fill_option_values(spec: ImageSyncSpec, config: SkopeoConfig)
    ensures
        fill_after_debug("{src_options}"@, spec, config) == flag_text(
            spec.source.registry_login_secret is Some,
            "--src-authfile /creds/src/.dockerconfigjson"@,
        ),
        fill_after_debug("{dest_options}"@, spec, config) == flag_text(
            spec.destination.registry_login_secret is Some,
            "--dest-authfile /creds/dest/.dockerconfigjson"@,
        ),
        fill_after_debug("{extra_arguments}"@, spec, config) == text_or_empty(
            spec.extra_skopeo_arguments,
        ),
        fill_after_debug("{src}"@, spec, config) == replaced(
            replaced(spec.source.image@, "{dest}"@, spec.destination.image@),
            "{extra_arguments}"@,
            text_or_empty(spec.extra_skopeo_arguments),
        ),
        fill_after_debug("{dest}"@, spec, config) == replaced(
            spec.destination.image@,
            "{extra_arguments}"@,
            text_or_empty(spec.extra_skopeo_arguments),
        ),
{
    reveal_strlit("{ca_trust_bundle}");
    reveal_strlit("{preserve_digests}");
    reveal_strlit("{all_architectures}");
    reveal_strlit("{src_options}");
    reveal_strlit("{dest_options}");
    reveal_strlit("{src}");
    reveal_strlit("{dest}");
    reveal_strlit("{extra_arguments}");
    reveal_strlit("--src-authfile /creds/src/.dockerconfigjson");
    reveal_strlit("--dest-authfile /creds/dest/.dockerconfigjson");
    let p0 = "{ca_trust_bundle}"@;
    let v0 = text_or_empty(config.ca_trust_bundle);
    let p1 = "{preserve_digests}"@;
    let v1 = flag_text(spec.preserve_digests == Some(true), "--preserve-digests"@);
    let p2 = "{all_architectures}"@;
    let v2 = flag_text(spec.all_architectures == Some(true), "--all"@);
    let p3 = "{src_options}"@;
    let v3 = flag_text(
        spec.source.registry_login_secret is Some,
        "--src-authfile /creds/src/.dockerconfigjson"@,
    );
    let p4 = "{dest_options}"@;
    let v4 = flag_text(
        spec.destination.registry_login_secret is Some,
        "--dest-authfile /creds/dest/.dockerconfigjson"@,
    );
    let p5 = "{src}"@;
    let v5 = spec.source.image@;
    let p6 = "{dest}"@;
    let v6 = spec.destination.image@;
    let p7 = "{extra_arguments}"@;
    let v7 = text_or_empty(spec.extra_skopeo_arguments);
    assert(opens_with_brace(p0) && opens_with_brace(p1) && opens_with_brace(p2) && opens_with_brace(
        p3,
    ) && opens_with_brace(p4) && opens_with_brace(p5) && opens_with_brace(p6) && opens_with_brace(
        p7,
    ));
    assert(brace_free(v3));
    assert(brace_free(v4));
    // `{src_options}`: shorter than the first three patterns.
    assert(brace_free(p3.subrange(1, p3.len() as int)));
    lemma_replaced_other_placeholder(p3, p0, v0);
    lemma_replaced_other_placeholder(p3, p1, v1);
    lemma_replaced_other_placeholder(p3, p2, v2);
    lemma_replaced_whole(p3, v3);
    lemma_replaced_brace_free(v3, p4, v4);
    lemma_replaced_brace_free(v3, p5, v5);
    lemma_replaced_brace_free(v3, p6, v6);
    lemma_replaced_brace_free(v3, p7, v7);
    // `{dest_options}`.
    assert(brace_free(p4.subrange(1, p4.len() as int)));
    lemma_replaced_other_placeholder(p4, p0, v0);
    lemma_replaced_other_placeholder(p4, p1, v1);
    lemma_replaced_other_placeholder(p4, p2, v2);
    assert(p4.subrange(0, p3.len() as int)[1] != p3[1]);
    lemma_replaced_other_placeholder(p4, p3, v3);
    lemma_replaced_whole(p4, v4);
    lemma_replaced_brace_free(v4, p5, v5);
    lemma_replaced_brace_free(v4, p6, v6);
    lemma_replaced_brace_free(v4, p7, v7);
    // `{extra_arguments}`.
    assert(brace_free(p7.subrange(1, p7.len() as int)));
    assert(p7.subrange(0, p0.len() as int)[1] != p0[1]);
    lemma_replaced_other_placeholder(p7, p0, v0);
    lemma_replaced_other_placeholder(p7, p1, v1);
    lemma_replaced_other_placeholder(p7, p2, v2);
    assert(p7.subrange(0, p3.len() as int)[1] != p3[1]);
    lemma_replaced_other_placeholder(p7, p3, v3);
    assert(p7.subrange(0, p4.len() as int)[1] != p4[1]);
    lemma_replaced_other_placeholder(p7, p4, v4);
    assert(p7.subrange(0, p5.len() as int)[1] != p5[1]);
    lemma_replaced_other_placeholder(p7, p5, v5);
    assert(p7.subrange(0, p6.len() as int)[1] != p6[1]);
    lemma_replaced_other_placeholder(p7, p6, v6);
    lemma_replaced_whole(p7, v7);
    // `{src}`.
    assert(brace_free(p5.subrange(1, p5.len() as int)));
    lemma_replaced_other_placeholder(p5, p0, v0);
    lemma_replaced_other_placeholder(p5, p1, v1);
    lemma_replaced_other_placeholder(p5, p2, v2);
    lemma_replaced_other_placeholder(p5, p3, v3);
    lemma_replaced_other_placeholder(p5, p4, v4);
    lemma_replaced_whole(p5, v5);
    // `{dest}`.
    assert(brace_free(p6.subrange(1, p6.len() as int)));
    lemma_replaced_other_placeholder(p6, p0, v0);
    lemma_replaced_other_placeholder(p6, p1, v1);
    lemma_replaced_other_placeholder(p6, p2, v2);
    lemma_replaced_other_placeholder(p6, p3, v3);
    lemma_replaced_other_placeholder(p6, p4, v4);
    assert(p6.subrange(0, p5.len() as int)[1] != p5[1]);
    lemma_replaced_other_placeholder(p6, p5, v5);
    lemma_replaced_whole(p6, v6);
}

/// What the replacements after `{debug}` make of the template's end: the
/// two authentication options, the extra arguments, then the source and
/// destination references, into which the later replacements still reach.
proof fn lemma_fill_tail(spec: ImageSyncSpec, config: SkopeoConfig)
    ensures
        fill_after_debug(job_tail(), spec, config) == flag_text(
            spec.source.registry_login_secret is Some,
            "--src-authfile /creds/src/.dockerconfigjson"@,
        ) + " "@ + flag_text(
            spec.destination.registry_login_secret is Some,
            "--dest-authfile /creds/dest/.dockerconfigjson"@,
        ) + " "@ + text_or_empty(spec.extra_skopeo_arguments) + " docker://"@ + replaced(
            replaced(spec.source.image@, "{dest}"@, spec.destination.image@),
            "{extra_arguments}"@,
            text_or_empty(spec.extra_skopeo_arguments),
        ) + " docker://"@ + replaced(
            spec.destination.image@,
            "{extra_arguments}"@,
            text_or_empty(spec.extra_skopeo_arguments),
        ),
{
    reveal_strlit("{src_options} {dest_options} {extra_arguments} docker://{src} docker://{dest}");
    reveal_strlit("{src_options}");
    reveal_strlit("{dest_options}");
    reveal_strlit("{extra_arguments}");
    reveal_strlit("{src}");
    reveal_strlit("{dest}");
    reveal_strlit("docker:/");
    reveal_strlit(" docker://");
    reveal_strlit(" ");
    let sp = seq![' '];
    let sl = seq!['/'];
    let a1 = "{src_options}"@;
    let a2 = "{dest_options}"@;
    let a3 = "{extra_arguments}"@;
    let dk = "docker:/"@;
    let s5 = "{src}"@;
    let d6 = "{dest}"@;
    assert(job_tail() =~= a1 + sp + a2 + sp + a3 + sp + dk + sl + s5 + sp + dk + sl + d6);
    lemma_fill_split(a1 + sp + a2 + sp + a3 + sp + dk + sl + s5 + sp + dk, '/', d6, spec, config);
    lemma_fill_split(a1 + sp + a2 + sp + a3 + sp + dk + sl + s5, ' ', dk, spec, config);
    lemma_fill_split(a1 + sp + a2 + sp + a3 + sp + dk, '/', s5, spec, config);
    lemma_fill_split(a1 + sp + a2 + sp + a3, ' ', dk, spec, config);
    lemma_fill_split(a1 + sp + a2, ' ', a3, spec, config);
    lemma_fill_split(a1, ' ', a2, spec, config);
    assert(brace_free(dk));
    lemma_fill_values(dk, spec, config);
    lemma_fill_option_values(spec, config);
    let f1 = fill_after_debug(a1, spec, config);
    let f2 = fill_after_debug(a2, spec, config);
    let f3 = fill_after_debug(a3, spec, config);
    let f5 = fill_after_debug(s5, spec, config);
    let f6 = fill_after_debug(d6, spec, config);
    lemma_tail_regroup(f1, f2, f3, f5, f6);
}

/// The end of the template, regrouped around its literal separators.
proof fn lemma_tail_regroup(f1: Seq<char>, f2: Seq<char>, f3: Seq<char>, f5: Seq<char>, f6: Seq<char>)
    ensures
        f1 + seq![' '] + f2 + seq![' '] + f3 + seq![' '] + "docker:/"@ + seq!['/'] + f5 + seq![' ']
            + "docker:/"@ + seq!['/'] + f6 == f1 + " "@ + f2 + " "@ + f3 + " docker://"@ + f5
            + " docker://"@ + f6,
{
    reveal_strlit("docker:/");
    reveal_strlit(" docker://");
    reveal_strlit(" ");
    assert(f1 + seq![' '] + f2 + seq![' '] + f3 + seq![' '] + "docker:/"@ + seq!['/'] + f5 + seq![
        ' ',
    ] + "docker:/"@ + seq!['/'] + f6 =~= f1 + " "@ + f2 + " "@ + f3 + " docker://"@ + f5
        + " docker://"@ + f6);
}

/// The Job script ends in `copy`, then `--preserve-digests` exactly when
/// `preserve_digests` is `Some(true)`, `--all` exactly when
/// `all_architectures` is `Some(true)`, the authentication options of the
/// registry Secrets that are named, the extra arguments, and the source and
/// destination references (the destination and the extra arguments put in
/// for their placeholders where these occur in them). Each option is set by
/// its own field alone.
pub proof fn lemma_job_script_command(spec: ImageSyncSpec, config: SkopeoConfig) -> (head: Seq<
    char,
>)
    ensures
        job_script_spec(spec, config) == {
            let extra = text_or_empty(spec.extra_skopeo_arguments);
            head + " copy "@ + (if spec.preserve_digests == Some(true) {
                "--preserve-digests"@
            } else {
                Seq::<char>::empty()
            }) + " "@ + (if spec.all_architectures == Some(true) {
                "--all"@
            } else {
                Seq::<char>::empty()
            }) + " "@ + (if (spec.source.registry_login_secret is Some) {
                "--src-authfile /creds/src/.dockerconfigjson"@
            } else {
                Seq::<char>::empty()
            }) + " "@ + (if (spec.destination.registry_login_secret is Some) {
                "--dest-authfile /creds/dest/.dockerconfigjson"@
            } else {
                Seq::<char>::empty()
            }) + " "@ + extra + " docker://"@ + replaced(
                replaced(spec.source.image@, "{dest}"@, spec.destination.image@),
                "{extra_arguments}"@,
                extra,
            ) + " docker://"@ + replaced(spec.destination.image@, "{extra_arguments}"@, extra)
        },
{
    reveal_strlit("copy");
    reveal_strlit(" copy ");
    reveal_strlit(" ");
    let sp = space();
    let pd = "{preserve_digests}"@;
    let aa = "{all_architectures}"@;
    let cp = "copy"@;
    let h = job_head();
    let t = job_tail();
    lemma_job_template_parts();
    assert(brace_free(cp));
    lemma_fill_values(cp, spec, config);
    lemma_fill_split(h + sp + cp + sp + pd + sp + aa, ' ', t, spec, config);
    lemma_fill_split(h + sp + cp + sp + pd, ' ', aa, spec, config);
    lemma_fill_split(h + sp + cp, ' ', pd, spec, config);
    lemma_fill_split(h, ' ', cp, spec, config);
    lemma_fill_tail(spec, config);
    assert(job_script_spec(spec, config) == fill_after_debug(job_template(), spec, config));
    let fh = fill_after_debug(h, spec, config);
    let ft = fill_after_debug(t, spec, config);
    let fpd = flag_text(spec.preserve_digests == Some(true), "--preserve-digests"@);
    let faa = flag_text(spec.all_architectures == Some(true), "--all"@);
    lemma_copy_regroup(fh, fpd, faa, ft);
    lemma_append_tail(fh + " copy "@ + fpd + " "@ + faa + " "@, spec);
    fh
}

/// The start of the command line, regrouped around its literal separators.
proof fn lemma_copy_regroup(h: Seq<char>, x: Seq<char>, y: Seq<char>, t: Seq<char>)
    ensures
        h + space() + "copy"@ + space() + x + space() + y + space() + t == h + " copy "@ + x + " "@
            + y + " "@ + t,
{
    reveal_strlit("copy");
    reveal_strlit(" copy ");
    reveal_strlit(" ");
    assert(h + space() + "copy"@ + space() + x + space() + y + space() + t =~= h + " copy "@ + x
        + " "@ + y + " "@ + t);
}

/// Text followed by the filled end of the template, as one flat sequence.
proof fn lemma_append_tail(x: Seq<char>, spec: ImageSyncSpec)
    ensures
        ({
            let extra = text_or_empty(spec.extra_skopeo_arguments);
            let so = flag_text(
                spec.source.registry_login_secret is Some,
                "--src-authfile /creds/src/.dockerconfigjson"@,
            );
            let dso = flag_text(
                spec.destination.registry_login_secret is Some,
                "--dest-authfile /creds/dest/.dockerconfigjson"@,
            );
            let s = replaced(
                replaced(spec.source.image@, "{dest}"@, spec.destination.image@),
                "{extra_arguments}"@,
                extra,
            );
            let d = replaced(spec.destination.image@, "{extra_arguments}"@, extra);
            x + (so + " "@ + dso + " "@ + extra + " docker://"@ + s + " docker://"@ + d) == x + so
                + " "@ + dso + " "@ + extra + " docker://"@ + s + " docker://"@ + d
        }),
{
    let extra = text_or_empty(spec.extra_skopeo_arguments);
    let so = flag_text(
        spec.source.registry_login_secret is Some,
        "--src-authfile /creds/src/.dockerconfigjson"@,
    );
    let dso = flag_text(
        spec.destination.registry_login_secret is Some,
        "--dest-authfile /creds/dest/.dockerconfigjson"@,
    );
    let s = replaced(
        replaced(spec.source.image@, "{dest}"@, spec.destination.image@),
        "{extra_arguments}"@,
        extra,
    );
    let d = replaced(spec.destination.image@, "{extra_arguments}"@, extra);
    assert(x + (so + " "@ + dso + " "@ + extra + " docker://"@ + s + " docker://"@ + d) =~= x + so
        + " "@ + dso + " "@ + extra + " docker://"@ + s + " docker://"@ + d);
}

/// The CronJob script ends in `--debug` exactly when `debug` holds, then
/// `--preserve-digests` exactly when `preserve_digests` is `Some(true)`,
/// `--all` exactly when `all_architectures` is `Some(true)`, the
/// authentication options of the registry Secrets that are named, the extra
/// arguments, and the source and destination references (the destination
/// and the extra arguments put in for their placeholders where these occur
/// in them). Each option is set by its own input alone.
pub proof fn lemma_cron_script_command(spec: ImageSyncSpec, config: SkopeoConfig, debug: bool) -> (head: Seq<
    char,
>)
    ensures
        cron_script_spec(spec, config, debug) == {
            let extra = text_or_empty(spec.extra_skopeo_arguments);
            head + " "@ + (if debug {
                "--debug"@
            } else {
                Seq::<char>::empty()
            }) + " "@ + (if spec.preserve_digests == Some(true) {
                "--preserve-digests"@
            } else {
                Seq::<char>::empty()
            }) + " "@ + (if spec.all_architectures == Some(true) {
                "--all"@
            } else {
                Seq::<char>::empty()
            }) + " "@ + (if (spec.source.registry_login_secret is Some) {
                "--src-authfile /creds/src/.dockerconfigjson"@
            } else {
                Seq::<char>::empty()
            }) + " "@ + (if (spec.destination.registry_login_secret is Some) {
                "--dest-authfile /creds/dest/.dockerconfigjson"@
            } else {
                Seq::<char>::empty()
            }) + " "@ + extra + " docker://"@ + replaced(
                replaced(spec.source.image@, "{dest}"@, spec.destination.image@),
                "{extra_arguments}"@,
                extra,
            ) + " docker://"@ + replaced(spec.destination.image@, "{extra_arguments}"@, extra)
        },
{
    reveal_strlit(" ");
    reveal_strlit("--debug");
    reveal_strlit("{src_options} {dest_options} {extra_arguments} docker://{src} docker://{dest}");
    reveal_strlit("{src_options}");
    reveal_strlit("{dest_options}");
    reveal_strlit("{extra_arguments}");
    reveal_strlit("{src}");
    reveal_strlit("{dest}");
    reveal_strlit("docker:/");
    let sp = space();
    let d = flag_text(debug, "--debug"@);
    assert(brace_free(d));
    lemma_debug_only_at_its_place(d);
    lemma_fill_keeps_gap(cron_prefix(), d, placeholders_part(), spec, config);
    let pd = "{preserve_digests}"@;
    let aa = "{all_architectures}"@;
    let rest = "{src_options}"@ + space() + ("{dest_options}"@ + space() + ("{extra_arguments}"@
        + space() + ("docker:/"@ + seq!['/'] + "{src}"@ + space() + ("docker:/"@ + seq!['/']
        + "{dest}"@))));
    assert(placeholders_part() == pd + sp + (aa + sp + rest));
    assert(rest =~= job_tail());
    lemma_fill_split(pd, ' ', aa + sp + rest, spec, config);
    lemma_fill_split(aa, ' ', rest, spec, config);
    assert(brace_free(Seq::<char>::empty()));
    lemma_fill_values(Seq::<char>::empty(), spec, config);
    lemma_fill_tail(spec, config);
    let fh = fill_after_debug(cron_prefix(), spec, config);
    let fr = fill_after_debug(rest, spec, config);
    let fpd = flag_text(spec.preserve_digests == Some(true), "--preserve-digests"@);
    let faa = flag_text(spec.all_architectures == Some(true), "--all"@);
    lemma_debug_regroup(fh, d, fpd, faa, fr);
    lemma_append_tail(fh + " "@ + d + " "@ + fpd + " "@ + faa + " "@, spec);
    fh
}

/// The CronJob command line from `{debug}` on, regrouped around its spaces.
proof fn lemma_debug_regroup(h: Seq<char>, d: Seq<char>, x: Seq<char>, y: Seq<char>, t: Seq<char>)
    ensures
        h + space() + d + space() + (x + space() + (y + space() + t)) == h + " "@ + d + " "@ + x
            + " "@ + y + " "@ + t,
{
    reveal_strlit(" ");
    assert(h + space() + d + space() + (x + space() + (y + space() + t)) =~= h + " "@ + d + " "@ + x
        + " "@ + y + " "@ + t);
}

} // verus!

//! Regular expressions, compiled and matched by the `regex` crate.

use vstd::prelude::*;

verus! {

#[verifier::external_type_specification]
#[verifier::external_body]
pub struct ExRegex(regex::Regex);

/// Whether `regex::Regex::new` accepts `pattern` (a valid pattern within the
/// default size limit).
pub uninterp spec fn regex_compiles(pattern: Seq<char>) -> bool;

/// Whether the regex compiled from `pattern` matches anywhere in `haystack`
/// (`regex::Regex::is_match`).
pub uninterp spec fn regex_is_match(pattern: Seq<char>, haystack: Seq<char>) -> bool;

/// Trusted: wraps `regex::Regex::new`, which returns an error exactly when
/// the pattern is invalid or too big for the default size limit; the error
/// becomes `None`. Nothing is said of the compiled value itself; `Pattern`
/// keeps it with its source.
#[verifier::external_body]
fn compile(pattern: &str) -> (r: Option<regex::Regex>)
    ensures
        r is Some <==> regex_compiles(pattern@),
{
    regex::Regex::new(pattern).ok()
}

/// A compiled regular expression together with the pattern it was compiled
/// from. Only `Pattern::new` builds one, so the two always belong together.
pub struct Pattern {
    source: String,
    compiled: regex::Regex,
}

impl Pattern {
    /// The pattern this expression was compiled from.
    pub closed spec fn source(&self) -> Seq<char> {
        self.source@
    }

    /// Compiles `pattern`; `None` when the regex engine refuses it.
    pub fn new(pattern: &str) -> (r: Option<Pattern>)
        ensures
            r is Some <==> regex_compiles(pattern@),
            r matches Some(p) ==> p.source() == pattern@,
    {
        match compile(pattern) {
            Some(compiled) => Some(Pattern { source: pattern.to_owned(), compiled }),
            None => None,
        }
    }

    /// Trusted: wraps `regex::Regex::is_match`, true exactly when the regex
    /// matches somewhere in `haystack`. The regex is the one compiled from
    /// `self.source()`.
    #[verifier::external_body]
    pub fn is_match(&self, haystack: &str) -> (b: bool)
        ensures
            b == regex_is_match(self.source(), haystack@),
    {
        self.compiled.is_match(haystack)
    }
}

/// The accepted forms of a cron schedule.
pub open spec fn cron_pattern() -> Seq<char> {
    r"^((((\d+,)+\d+|(\d+(/|-|#)\d+)|\d+L?|\*(/\d+)?|L(-\d+)?|\?|[A-Z]{3}(-[A-Z]{3})?) ?){5,7})$|(@(annually|yearly|monthly|weekly|daily|hourly|reboot))|(@every (\d+(ns|us|µs|ms|s|m|h))+)$"@
}

/// The accepted forms of a source image reference: a tag or a digest.
pub open spec fn source_image_pattern() -> Seq<char> {
    r"^(([a-zA-Z0-9]|[a-zA-Z0-9][a-zA-Z0-9\-]*[a-zA-Z0-9])\.)*([A-Za-z0-9]|[A-Za-z0-9][A-Za-z0-9\-]*[A-Za-z0-9])/[a-zA-Z0-9_\-\.]+/[a-zA-Z0-9_\-\.]+(:[a-zA-Z0-9_\-\.]{1,128}|@sha256:[a-f0-9]+)"@
}

/// The accepted forms of a destination image reference: a tag only.
pub open spec fn destination_image_pattern() -> Seq<char> {
    r"^(([a-zA-Z0-9]|[a-zA-Z0-9][a-zA-Z0-9\-]*[a-zA-Z0-9])\.)*([A-Za-z0-9]|[A-Za-z0-9][A-Za-z0-9\-]*[A-Za-z0-9])/[a-zA-Z0-9_\-\.]+/[a-zA-Z0-9_\-\.]+(:[a-zA-Z0-9_\-\.]{1,128})"@
}

/// Compiles the cron schedule pattern.
pub fn cron_schedule_regex() -> (r: Option<Pattern>)
    ensures
        r is Some <==> regex_compiles(cron_pattern()),
        r matches Some(p) ==> p.source() == cron_pattern(),
{
    Pattern::new(
        r"^((((\d+,)+\d+|(\d+(/|-|#)\d+)|\d+L?|\*(/\d+)?|L(-\d+)?|\?|[A-Z]{3}(-[A-Z]{3})?) ?){5,7})$|(@(annually|yearly|monthly|weekly|daily|hourly|reboot))|(@every (\d+(ns|us|µs|ms|s|m|h))+)$",
    )
}

/// Compiles the source image pattern.
pub fn source_image_regex() -> (r: Option<Pattern>)
    ensures
        r is Some <==> regex_compiles(source_image_pattern()),
        r matches Some(p) ==> p.source() == source_image_pattern(),
{
    Pattern::new(
        r"^(([a-zA-Z0-9]|[a-zA-Z0-9][a-zA-Z0-9\-]*[a-zA-Z0-9])\.)*([A-Za-z0-9]|[A-Za-z0-9][A-Za-z0-9\-]*[A-Za-z0-9])/[a-zA-Z0-9_\-\.]+/[a-zA-Z0-9_\-\.]+(:[a-zA-Z0-9_\-\.]{1,128}|@sha256:[a-f0-9]+)",
    )
}

/// Compiles the destination image pattern.
pub fn destination_image_regex() -> (r: Option<Pattern>)
    ensures
        r is Some <==> regex_compiles(destination_image_pattern()),
        r matches Some(p) ==> p.source() == destination_image_pattern(),
{
    Pattern::new(
        r"^(([a-zA-Z0-9]|[a-zA-Z0-9][a-zA-Z0-9\-]*[a-zA-Z0-9])\.)*([A-Za-z0-9]|[A-Za-z0-9][A-Za-z0-9\-]*[A-Za-z0-9])/[a-zA-Z0-9_\-\.]+/[a-zA-Z0-9_\-\.]+(:[a-zA-Z0-9_\-\.]{1,128})",
    )
}

} // verus!

//! Names and labels shared by the Jobs and CronJobs of an ImageSync.

use crate::imagesync::ImageSync;
use vstd::prelude::*;
use vstd::string::*;
use vstd::utf8::*;

verus! {

broadcast use {encode_utf8_valid_utf8, encode_utf8_decode_utf8, decode_utf8_encode_utf8};

/// Longest name prefix, in bytes, that the generated objects carry.
pub const BASENAME_MAX_BYTES: usize = 50;

/// The name of an ImageSync cut to its first 50 bytes, when it is longer.
pub open spec fn basename_spec(name: Seq<char>) -> Seq<char> {
    if encode_utf8(name).len() > 50 {
        decode_utf8(encode_utf8(name).subrange(0, 50))
    } else {
        name
    }
}

/// The encoding of `name` has a byte length that `usize` holds, and
/// cutting it after 50 bytes does not split a character.
pub open spec fn basename_defined(name: Seq<char>) -> bool {
    &&& encode_utf8(name).len() <= usize::MAX
    &&& encode_utf8(name).len() > 50 ==> is_char_boundary(encode_utf8(name), 50)
}

/// The name of an ImageSync, cut to its first 50 bytes when it is longer.
pub fn basename(name: &str) -> (b: String)
    requires
        basename_defined(name@),
    ensures
        b@ == basename_spec(name@),
{
    if name.len() > BASENAME_MAX_BYTES {
        let (head, _tail) = name.split_at(BASENAME_MAX_BYTES);
        proof {
            assert(encode_utf8(head@) == encode_utf8(name@).subrange(0, 50));
            assert(decode_utf8(encode_utf8(head@)) == head@);
        }
        head.to_owned()
    } else {
        name.to_owned()
    }
}

/// Whether the name can be cut after 50 bytes without splitting a character.
pub fn is_basename_defined(name: &String) -> (r: bool)
    requires
        encode_utf8(name@).len() <= usize::MAX,
    ensures
        r == basename_defined(name@),
{
    let s = name.as_str();
    s.len() <= BASENAME_MAX_BYTES || s.is_char_boundary(BASENAME_MAX_BYTES)
}

/// The base name is a prefix of the name, encodes to at most 50 bytes, and
/// is its own base name.
pub proof fn lemma_basename_prefix_idempotent(name: Seq<char>)
    requires
        basename_defined(name),
    ensures
        basename_spec(name) == name.subrange(0, basename_spec(name).len() as int),
        encode_utf8(basename_spec(name)).len() <= 50,
        basename_defined(basename_spec(name)),
        basename_spec(basename_spec(name)) == basename_spec(name),
{
    let bytes = encode_utf8(name);
    if bytes.len() > 50 {
        valid_utf8_split(bytes, 50);
        decode_utf8_split(bytes, 50);
        let head = bytes.subrange(0, 50);
        let b = decode_utf8(head);
        let rest = decode_utf8(bytes.subrange(50, bytes.len() as int));
        assert(name == b + rest);
        assert(name.subrange(0, b.len() as int) =~= b);
        assert(encode_utf8(b) == head);
    } else {
        assert(name.subrange(0, name.len() as int) =~= name);
    }
}

/// The label key of one-shot sync Jobs.
pub open spec fn job_label_key() -> Seq<char> {
    "imagesync.apexnw.dev/imagesync"@
}

/// The label key of scheduled sync CronJobs and their Jobs.
pub open spec fn cronjob_label_key() -> Seq<char> {
    "imagesync.apexnw.dev/imagesync-cron"@
}

/// The name given to a Job or CronJob of an ImageSync named `name`.
pub open spec fn object_name_spec(name: Seq<char>) -> Seq<char> {
    "imagesync-"@ + basename_spec(name)
}

/// The label selector `key=value`.
pub open spec fn selector_spec(key: Seq<char>, value: Seq<char>) -> Seq<char> {
    key + "="@ + value
}

/// The label key of one-shot sync Jobs.
pub fn job_label_key_string() -> (s: String)
    ensures
        s@ == job_label_key(),
{
    String::from_str("imagesync.apexnw.dev/imagesync")
}

/// The label key of scheduled sync CronJobs.
pub fn cronjob_label_key_string() -> (s: String)
    ensures
        s@ == cronjob_label_key(),
{
    String::from_str("imagesync.apexnw.dev/imagesync-cron")
}

/// The name of the Job or CronJob of `obj`.
pub fn object_name(obj: &ImageSync) -> (s: String)
    requires
        basename_defined(obj.name@),
    ensures
        s@ == object_name_spec(obj.name@),
{
    let b = basename(obj.name.as_str());
    String::from_str("imagesync-").concat(b.as_str())
}

/// The label selector that finds the one-shot Job of `obj`.
pub fn job_label_selector(obj: &ImageSync) -> (s: String)
    requires
        basename_defined(obj.name@),
    ensures
        s@ == selector_spec(job_label_key(), basename_spec(obj.name@)),
{
    let b = basename(obj.name.as_str());
    job_label_key_string().concat("=").concat(b.as_str())
}

/// The label selector that finds the CronJob of `obj`.
pub fn cronjob_label_selector(obj: &ImageSync) -> (s: String)
    requires
        basename_defined(obj.name@),
    ensures
        s@ == selector_spec(cronjob_label_key(), basename_spec(obj.name@)),
{
    let b = basename(obj.name.as_str());
    cronjob_label_key_string().concat("=").concat(b.as_str())
}

} // verus!

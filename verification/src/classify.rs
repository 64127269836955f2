//! Context-sensitive classification of filesystem entries.
//!
//! A directory's *context* is inferred from its lower-cased path by
//! substring tests in a fixed priority order; the context then selects
//! which deletion rule family applies to an entry's file name.
//!
//! **Caution — default-delete policy.**  Every context except `Downloads`
//! answers "delete" for at least some names it cannot positively identify,
//! and the `Generic` context (a path matching no known keyword) answers
//! "delete" for *every* name.  That is deliberate: the catalog only hands
//! the cleaner top-level temp and cache directories, whose whole content
//! is disposable.  Pointing the cleaner at any other directory deletes its
//! contents wholesale.

use vstd::prelude::*;
use crate::text::{lower, contains_seq, starts_with, ends_with, contains_fold, starts_with_fold,
    ends_with_fold};

verus! {

/// The rule family a candidate directory selects, inferred from its path.
#[derive(Clone, Copy, Debug, PartialEq, Eq, Structural)]
pub enum Context {
    /// The user's downloads folder: only known temp/cache names are deleted.
    Downloads,
    /// A browser profile store: cache- and temp-named entries are deleted.
    FirefoxProfiles,
    /// The recently-used shortcuts folder: only `.lnk` files are deleted.
    Recent,
    /// A cache or temp directory: everything is deleted.
    CacheTemp,
    /// A crash-dump or error-report directory: everything is deleted.
    CrashReports,
    /// No known keyword in the path: everything is deleted by default.
    Generic,
}

/// Context inference over the lower-cased directory path, in the fixed
/// priority order: downloads, then firefox profiles, then recent, then
/// cache/temp, then crash/report dumps, otherwise generic.
pub open spec fn context_of(dir: Seq<char>) -> Context {
    let d = lower(dir);
    if contains_seq(d, "downloads"@) {
        Context::Downloads
    } else if contains_seq(d, "firefox"@) && contains_seq(d, "profiles"@) {
        Context::FirefoxProfiles
    } else if contains_seq(d, "recent"@) {
        Context::Recent
    } else if contains_seq(d, "cache"@) || contains_seq(d, "temp"@) {
        Context::CacheTemp
    } else if contains_seq(d, "crashdumps"@) || contains_seq(d, "reportqueue"@)
        || contains_seq(d, "minidump"@) || contains_seq(d, "livekernelreports"@) {
        Context::CrashReports
    } else {
        Context::Generic
    }
}

/// The downloads rule over the lower-cased file name: delete only names
/// with a known temporary extension, a known temporary prefix, or a
/// temp/cache marker anywhere in the name.
pub open spec fn download_rule(name: Seq<char>) -> bool {
    let n = lower(name);
    ||| ends_with(n, ".tmp"@)
    ||| ends_with(n, ".temp"@)
    ||| ends_with(n, ".cache"@)
    ||| ends_with(n, ".crdownload"@)
    ||| ends_with(n, ".part"@)
    ||| ends_with(n, ".partial"@)
    ||| ends_with(n, ".download"@)
    ||| ends_with(n, ".!ut"@)
    ||| ends_with(n, ".bc!"@)
    ||| ends_with(n, ".crx"@)
    ||| starts_with(n, "~"@)
    ||| starts_with(n, "tmp"@)
    ||| starts_with(n, "temp"@)
    ||| starts_with(n, "cache"@)
    ||| contains_seq(n, "temp"@)
    ||| contains_seq(n, "cache"@)
    ||| contains_seq(n, "tmp"@)
}

/// The firefox-profile rule over the lower-cased file name.
pub open spec fn firefox_rule(name: Seq<char>) -> bool {
    let n = lower(name);
    contains_seq(n, "cache"@) || contains_seq(n, "temp"@) || ends_with(n, ".tmp"@)
}

/// The recent-files rule over the lower-cased file name: shortcuts only.
pub open spec fn recent_rule(name: Seq<char>) -> bool {
    ends_with(lower(name), ".lnk"@)
}

/// The full classification: which rule family the context selects, and
/// what it answers for this file name.  Every context except `Downloads`
/// and `Recent` that reaches the generic branch answers true by default.
pub open spec fn should_delete_spec(dir: Seq<char>, name: Seq<char>) -> bool {
    match context_of(dir) {
        Context::Downloads => download_rule(name),
        Context::FirefoxProfiles => firefox_rule(name),
        Context::Recent => recent_rule(name),
        Context::CacheTemp => true,
        Context::CrashReports => true,
        Context::Generic => true,
    }
}

/// Infers the context of one candidate directory from its path.
pub fn infer_context(dir: &str) -> (c: Context)
    ensures
        c == context_of(dir@),
{
    if contains_fold(dir, "downloads") {
        Context::Downloads
    } else if contains_fold(dir, "firefox") && contains_fold(dir, "profiles") {
        Context::FirefoxProfiles
    } else if contains_fold(dir, "recent") {
        Context::Recent
    } else if contains_fold(dir, "cache") || contains_fold(dir, "temp") {
        Context::CacheTemp
    } else if contains_fold(dir, "crashdumps") || contains_fold(dir, "reportqueue")
        || contains_fold(dir, "minidump") || contains_fold(dir, "livekernelreports") {
        Context::CrashReports
    } else {
        Context::Generic
    }
}

/// The downloads rule: deletes only recognisably temporary names, and
/// keeps everything else.
pub fn should_delete_download(name: &str) -> (r: bool)
    ensures
        r == download_rule(name@),
{
    if ends_with_fold(name, ".tmp") || ends_with_fold(name, ".temp")
        || ends_with_fold(name, ".cache") || ends_with_fold(name, ".crdownload")
        || ends_with_fold(name, ".part") || ends_with_fold(name, ".partial")
        || ends_with_fold(name, ".download") || ends_with_fold(name, ".!ut")
        || ends_with_fold(name, ".bc!") || ends_with_fold(name, ".crx") {
        return true;
    }
    if starts_with_fold(name, "~") || starts_with_fold(name, "tmp")
        || starts_with_fold(name, "temp") || starts_with_fold(name, "cache") {
        return true;
    }
    contains_fold(name, "temp") || contains_fold(name, "cache") || contains_fold(name, "tmp")
}

/// Classifies one named entry of a candidate directory.
///
/// **Caution:** in every context but `Downloads` and `Recent`, and for
/// every name in the `CacheTemp`, `CrashReports` and `Generic` contexts,
/// the answer is "delete"; see the module documentation.
pub fn should_delete(dir: &str, name: &str) -> (r: bool)
    ensures
        r == should_delete_spec(dir@, name@),
{
    match infer_context(dir) {
        Context::Downloads => should_delete_download(name),
        Context::FirefoxProfiles => {
            contains_fold(name, "cache") || contains_fold(name, "temp")
                || ends_with_fold(name, ".tmp")
        },
        Context::Recent => ends_with_fold(name, ".lnk"),
        Context::CacheTemp => true,
        Context::CrashReports => true,
        Context::Generic => true,
    }
}

/// The human label a `Deleted` event carries for a file removed from a
/// directory, chosen by substring tests on the lower-cased directory path.
pub open spec fn file_type_label_spec(dir: Seq<char>) -> Seq<char> {
    let d = lower(dir);
    if contains_seq(d, "downloads"@) {
        "download temp file"@
    } else if contains_seq(d, "cache"@) {
        "cache file"@
    } else if contains_seq(d, "temp"@) {
        "temp file"@
    } else if contains_seq(d, "crashdumps"@) {
        "crash dump file"@
    } else if contains_seq(d, "recent"@) {
        "recent-file shortcut"@
    } else if contains_seq(d, "prefetch"@) {
        "prefetch file"@
    } else if contains_seq(d, "logs"@) {
        "log file"@
    } else if contains_seq(d, "reportqueue"@) {
        "error report"@
    } else {
        "system file"@
    }
}

/// The human label for a file deleted from `dir`.
pub fn file_type_label(dir: &str) -> (r: &'static str)
    ensures
        r@ == file_type_label_spec(dir@),
{
    if contains_fold(dir, "downloads") {
        "download temp file"
    } else if contains_fold(dir, "cache") {
        "cache file"
    } else if contains_fold(dir, "temp") {
        "temp file"
    } else if contains_fold(dir, "crashdumps") {
        "crash dump file"
    } else if contains_fold(dir, "recent") {
        "recent-file shortcut"
    } else if contains_fold(dir, "prefetch") {
        "prefetch file"
    } else if contains_fold(dir, "logs") {
        "log file"
    } else if contains_fold(dir, "reportqueue") {
        "error report"
    } else {
        "system file"
    }
}

/// Classification depends only on the lower-cased directory path: two
/// directory paths with the same lower-cased form select the same context.
pub proof fn lemma_context_lowercase_only(d1: Seq<char>, d2: Seq<char>)
    requires
        lower(d1) == lower(d2),
    ensures
        context_of(d1) == context_of(d2),
{
}

/// Determinism across directories: whenever two directory paths select the
/// same context, the deletion decision for any file name is the same — the
/// decision is a pure function of (context, file name).
pub proof fn lemma_decision_by_context(d1: Seq<char>, d2: Seq<char>, name: Seq<char>)
    requires
        context_of(d1) == context_of(d2),
    ensures
        should_delete_spec(d1, name) == should_delete_spec(d2, name),
{
}

/// Determinism in full: the decision is a pure function of the
/// lower-cased owning-directory path and the file name.
pub proof fn lemma_decision_lowercase_only(d1: Seq<char>, d2: Seq<char>, name: Seq<char>)
    requires
        lower(d1) == lower(d2),
    ensures
        should_delete_spec(d1, name) == should_delete_spec(d2, name),
{
    lemma_context_lowercase_only(d1, d2);
    lemma_decision_by_context(d1, d2, name);
}

/// The default-delete law: in the generic context — a directory path that
/// matches no known keyword — every file name is deleted, whatever its
/// extension.
pub proof fn lemma_generic_default_delete(dir: Seq<char>, name: Seq<char>)
    requires
        context_of(dir) == Context::Generic,
    ensures
        should_delete_spec(dir, name),
{
}

/// In the recent-files context, a name is deleted if and only if it is a
/// `.lnk` shortcut.
pub proof fn lemma_recent_only_shortcuts(dir: Seq<char>, name: Seq<char>)
    requires
        context_of(dir) == Context::Recent,
    ensures
        should_delete_spec(dir, name) == ends_with(lower(name), ".lnk"@),
{
}

/// In the cache/temp and crash-report contexts every name is deleted.
pub proof fn lemma_cache_temp_deletes_all(dir: Seq<char>, name: Seq<char>)
    requires
        context_of(dir) == Context::CacheTemp || context_of(dir) == Context::CrashReports,
    ensures
        should_delete_spec(dir, name),
{
}

} // verus!

//! The aged-log sweep: which files a recursive scan of the well-known log
//! locations deletes, and which directories it descends into.
//!
//! A file is deleted only when three independent gates all pass: its name
//! matches a log-name pattern, its size reaches the configured minimum,
//! and its age reaches the configured maximum.  The scan descends into
//! every subdirectory except hidden ones and the system-reserved
//! volume-information directory.

use vstd::prelude::*;
use crate::text::{lower, contains_seq, starts_with, ends_with, win_join, contains_fold,
    ends_with_fold, starts_with_exact, str_eq_exact, join_path};

verus! {

pub const BYTES_PER_MB: u64 = 1048576;

pub const SECS_PER_DAY: u64 = 86400;

/// The log sweep's configuration: whether it runs at all, which drive
/// roots it scans, and the two gate thresholds.
pub struct LogConfig {
    /// When false, the sweep is disabled entirely and removes nothing.
    pub enabled: bool,
    /// The drive roots to scan.
    pub drives: Vec<String>,
    /// A file below this size in whole megabytes is kept.
    pub min_size_mb: u64,
    /// A file younger than this in whole days is kept.
    pub max_age_days: u64,
}

impl LogConfig {
    /// The default configuration: enabled, drives `C:`, `D:` and `E:`,
    /// minimum size one megabyte, minimum age thirty days.
    pub fn new() -> (cfg: Self)
        ensures
            cfg.enabled,
            cfg.drives.deep_view() == seq!["C:"@, "D:"@, "E:"@],
            cfg.min_size_mb == 1,
            cfg.max_age_days == 30,
    {
        let mut drives: Vec<String> = Vec::new();
        drives.push(String::from_str("C:"));
        drives.push(String::from_str("D:"));
        drives.push(String::from_str("E:"));
        proof {
            assert(drives.deep_view() =~~= seq!["C:"@, "D:"@, "E:"@]);
        }
        LogConfig { enabled: true, drives, min_size_mb: 1, max_age_days: 30 }
    }
}

/// The log-name pattern over the lower-cased file name: a `.log` file or
/// a rotation of one (`.log.old`, `.log.1` … `.log.5`, or `.log.`
/// anywhere in the name), or a `log`-named text/output/error file.
pub open spec fn log_name_matches(name: Seq<char>) -> bool {
    let n = lower(name);
    ||| ends_with(n, ".log"@)
    ||| ends_with(n, ".log.old"@)
    ||| ends_with(n, ".log.1"@)
    ||| ends_with(n, ".log.2"@)
    ||| ends_with(n, ".log.3"@)
    ||| ends_with(n, ".log.4"@)
    ||| ends_with(n, ".log.5"@)
    ||| contains_seq(n, ".log."@)
    ||| (contains_seq(n, "log"@) && (ends_with(n, ".txt"@) || ends_with(n, ".out"@)
        || ends_with(n, ".err"@)))
}

/// The size gate: the file's size in whole megabytes reaches the minimum.
pub open spec fn size_gate(size_bytes: u64, min_size_mb: u64) -> bool {
    size_bytes / BYTES_PER_MB >= min_size_mb
}

/// The age gate: the file's age in whole days reaches the maximum.
pub open spec fn age_gate(age_secs: u64, max_age_days: u64) -> bool {
    age_secs / SECS_PER_DAY >= max_age_days
}

/// Does this file name match the log-name pattern?
pub fn is_log_name(name: &str) -> (r: bool)
    ensures
        r == log_name_matches(name@),
{
    if ends_with_fold(name, ".log") || ends_with_fold(name, ".log.old")
        || ends_with_fold(name, ".log.1") || ends_with_fold(name, ".log.2")
        || ends_with_fold(name, ".log.3") || ends_with_fold(name, ".log.4")
        || ends_with_fold(name, ".log.5") {
        return true;
    }
    contains_fold(name, ".log.") || (contains_fold(name, "log") && (ends_with_fold(name, ".txt")
        || ends_with_fold(name, ".out") || ends_with_fold(name, ".err")))
}

/// Does the sweep delete this file?  True exactly when all three gates
/// pass: the name matches the log-name pattern, AND the size reaches the
/// configured minimum, AND the age reaches the configured maximum.  The
/// gates are independent; failing any one keeps the file.
pub fn should_sweep_file(name: &str, size_bytes: u64, age_secs: u64, cfg: &LogConfig) -> (r: bool)
    ensures
        r == (log_name_matches(name@) && size_gate(size_bytes, cfg.min_size_mb) && age_gate(
            age_secs,
            cfg.max_age_days,
        )),
{
    if !is_log_name(name) {
        return false;
    }
    if size_bytes / BYTES_PER_MB < cfg.min_size_mb {
        return false;
    }
    age_secs / SECS_PER_DAY >= cfg.max_age_days
}

/// Does the scan descend into a subdirectory of this name?  Hidden
/// directories and the system-reserved volume-information directory are
/// the only exclusions.
pub open spec fn descend_spec(name: Seq<char>) -> bool {
    !starts_with(name, "."@) && name != "System Volume Information"@
}

/// Should the recursive scan descend into this subdirectory?
pub fn should_descend(name: &str) -> (r: bool)
    ensures
        r == descend_spec(name@),
{
    !starts_with_exact(name, ".") && !str_eq_exact(name, "System Volume Information")
}

/// The two per-user log locations of each user profile directory.
pub open spec fn user_log_part(users: Seq<Seq<char>>) -> Seq<Seq<char>>
    decreases users.len(),
{
    if users.len() == 0 {
        Seq::<Seq<char>>::empty()
    } else {
        seq![
            win_join(users[0], "AppData\\Local\\Temp"@),
            win_join(users[0], "AppData\\Roaming"@),
        ] + user_log_part(users.drop_first())
    }
}

proof fn lemma_user_log_part_push(users: Seq<Seq<char>>, u: Seq<char>)
    ensures
        user_log_part(users.push(u)) == user_log_part(users) + seq![
            win_join(u, "AppData\\Local\\Temp"@),
            win_join(u, "AppData\\Roaming"@),
        ],
    decreases users.len(),
{
    if users.len() == 0 {
        assert(users.push(u)[0] == u);
        assert(users.push(u).drop_first() =~= Seq::<Seq<char>>::empty());
        assert(user_log_part(Seq::<Seq<char>>::empty()) =~= Seq::<Seq<char>>::empty());
        assert(user_log_part(users.push(u)) =~= user_log_part(users) + seq![
            win_join(u, "AppData\\Local\\Temp"@),
            win_join(u, "AppData\\Roaming"@),
        ]);
    } else {
        assert(users.push(u)[0] == users[0]);
        assert(users.push(u).drop_first() =~= users.drop_first().push(u));
        lemma_user_log_part_push(users.drop_first(), u);
        assert(user_log_part(users.push(u)) =~= user_log_part(users) + seq![
            win_join(u, "AppData\\Local\\Temp"@),
            win_join(u, "AppData\\Roaming"@),
        ]);
    }
}

/// One file a sweep considers: its name, its size in bytes, and its age
/// in seconds since last write.
pub struct LogCandidate {
    pub name: String,
    pub size_bytes: u64,
    pub age_secs: u64,
}

/// Does the sweep delete this candidate?
pub open spec fn candidate_swept(c: LogCandidate, min_size_mb: u64, max_age_days: u64) -> bool {
    log_name_matches(c.name@) && size_gate(c.size_bytes, min_size_mb) && age_gate(
        c.age_secs,
        max_age_days,
    )
}

/// How many candidates of one location a sweep deletes when every removal
/// succeeds.
pub open spec fn sweep_count_spec(
    files: Seq<LogCandidate>,
    min_size_mb: u64,
    max_age_days: u64,
) -> int
    decreases files.len(),
{
    if files.len() == 0 {
        0
    } else {
        (if candidate_swept(files[0], min_size_mb, max_age_days) {
            1int
        } else {
            0int
        }) + sweep_count_spec(files.drop_first(), min_size_mb, max_age_days)
    }
}

proof fn lemma_sweep_count_push(
    files: Seq<LogCandidate>,
    c: LogCandidate,
    min_size_mb: u64,
    max_age_days: u64,
)
    ensures
        sweep_count_spec(files.push(c), min_size_mb, max_age_days) == sweep_count_spec(
            files,
            min_size_mb,
            max_age_days,
        ) + (if candidate_swept(c, min_size_mb, max_age_days) {
            1int
        } else {
            0int
        }),
    decreases files.len(),
{
    if files.len() == 0 {
        assert(files.push(c)[0] == c);
        assert(files.push(c).drop_first() =~= Seq::<LogCandidate>::empty());
        assert(sweep_count_spec(Seq::<LogCandidate>::empty(), min_size_mb, max_age_days) == 0);
    } else {
        assert(files.push(c)[0] == files[0]);
        assert(files.push(c).drop_first() =~= files.drop_first().push(c));
        lemma_sweep_count_push(files.drop_first(), c, min_size_mb, max_age_days);
    }
}

/// One sweep pass over the files of one location, in the case every
/// removal succeeds: the count of deleted files is exactly the number of
/// candidates that pass all three gates.
pub fn sweep_count(files: &Vec<LogCandidate>, cfg: &LogConfig) -> (count: usize)
    ensures
        count == sweep_count_spec(files@, cfg.min_size_mb, cfg.max_age_days),
        count <= files@.len(),
{
    let n = files.len();
    let mut count: usize = 0;
    let mut i: usize = 0;
    proof {
        assert(files@.take(0) =~= Seq::<LogCandidate>::empty());
    }
    while i < n
        invariant
            n == files@.len(),
            0 <= i <= n,
            count == sweep_count_spec(files@.take(i as int), cfg.min_size_mb, cfg.max_age_days),
            count <= i,
        decreases n - i,
    {
        let c = &files[i];
        proof {
            assert(files@.take(i as int + 1) =~= files@.take(i as int).push(files@[i as int]));
            lemma_sweep_count_push(
                files@.take(i as int),
                files@[i as int],
                cfg.min_size_mb,
                cfg.max_age_days,
            );
        }
        if should_sweep_file(c.name.as_str(), c.size_bytes, c.age_secs, cfg) {
            count = count + 1;
        }
        i += 1;
    }
    proof {
        assert(files@.take(n as int) =~= files@);
    }
    count
}

fn push_path(paths: &mut Vec<String>, p: String)
    ensures
        final(paths).deep_view() == old(paths).deep_view().push(p@),
{
    let ghost pv = p@;
    paths.push(p);
    proof {
        assert(paths.deep_view() =~~= old(paths).deep_view().push(pv));
    }
}

/// The fixed list of well-known log locations under one drive root: the
/// OS log directories, the web-server log directories, each user
/// profile's temp and roaming-data directories, and the generic log and
/// temp children of the root.
pub open spec fn log_paths_spec(drive: Seq<char>, users: Seq<Seq<char>>) -> Seq<Seq<char>> {
    seq![
        win_join(drive, "Windows\\Logs"@),
        win_join(drive, "Windows\\System32\\LogFiles"@),
        win_join(drive, "Windows\\Temp"@),
        win_join(drive, "ProgramData\\Microsoft\\Windows\\WER\\ReportQueue"@),
        win_join(drive, "Program Files\\Common Files\\Microsoft Shared\\Web Server Extensions\\14\\Logs"@),
        win_join(drive, "inetpub\\logs"@),
    ] + user_log_part(users) + seq![
        win_join(drive, "logs"@),
        win_join(drive, "log"@),
        win_join(drive, "var\\log"@),
        win_join(drive, "tmp"@),
    ]
}

/// Builds the list of well-known log locations under `drive`.  `users`
/// holds the user profile directories the driver found under the drive's
/// users directory, in the order it found them.
pub fn common_log_paths(drive: &str, users: &Vec<String>) -> (paths: Vec<String>)
    ensures
        paths.deep_view() == log_paths_spec(drive@, users.deep_view()),
{
    let mut paths: Vec<String> = Vec::new();
    push_path(&mut paths, join_path(drive, "Windows\\Logs"));
    push_path(&mut paths, join_path(drive, "Windows\\System32\\LogFiles"));
    push_path(&mut paths, join_path(drive, "Windows\\Temp"));
    push_path(&mut paths, join_path(drive, "ProgramData\\Microsoft\\Windows\\WER\\ReportQueue"));
    push_path(&mut paths, join_path(
        drive,
        "Program Files\\Common Files\\Microsoft Shared\\Web Server Extensions\\14\\Logs",
    ));
    push_path(&mut paths, join_path(drive, "inetpub\\logs"));
    let ghost head: Seq<Seq<char>> = paths.deep_view();
    proof {
        assert(users.deep_view().take(0) =~= Seq::<Seq<char>>::empty());
        assert(head + user_log_part(users.deep_view().take(0)) =~= head);
    }
    let n = users.len();
    let mut i: usize = 0;
    while i < n
        invariant
            n == users@.len(),
            0 <= i <= n,
            users.deep_view().len() == users@.len(),
            paths.deep_view() == head + user_log_part(users.deep_view().take(i as int)),
        decreases n - i,
    {
        let u = &users[i];
        push_path(&mut paths, join_path(u.as_str(), "AppData\\Local\\Temp"));
        push_path(&mut paths, join_path(u.as_str(), "AppData\\Roaming"));
        proof {
            let uv = users.deep_view();
            assert(uv.take(i as int + 1) =~= uv.take(i as int).push(uv[i as int]));
            lemma_user_log_part_push(uv.take(i as int), uv[i as int]);
            assert(u@ == uv[i as int]);
            assert(paths.deep_view() =~~= head + user_log_part(uv.take(i as int + 1)));
        }
        i += 1;
    }
    proof {
        assert(users.deep_view().take(n as int) =~= users.deep_view());
    }
    push_path(&mut paths, join_path(drive, "logs"));
    push_path(&mut paths, join_path(drive, "log"));
    push_path(&mut paths, join_path(drive, "var\\log"));
    push_path(&mut paths, join_path(drive, "tmp"));
    proof {
        assert(paths.deep_view() =~~= log_paths_spec(drive@, users.deep_view()));
    }
    paths
}

} // verus!

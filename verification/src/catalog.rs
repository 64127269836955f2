//! Discovery of the candidate top-level directories to clean.
//!
//! The catalog is a pure function of the resolved environment locations
//! and the elevation flag: system temp locations (deduplicated), OS
//! log/prefetch/update-cache directories, the user's downloads folder
//! (only when it exists on disk), browser caches, the recent-files
//! directory, crash-dump directories, and — only when elevated —
//! system-wide locations.  The driver resolves the environment variables
//! and checks the downloads folder on disk; discovery itself touches
//! nothing.
//!
//! Order matters only for presentation.  Candidates other than the
//! downloads folder are included whether or not they exist on disk; the
//! cleaner checks existence lazily.

use vstd::prelude::*;
use crate::text::{join_path, win_join};

verus! {

/// The resolved environment a discovery works from: the values of the
/// temp, tmp, windir and user-profile locations, when set, and whether
/// the user's downloads folder exists on disk.
pub struct EnvPaths {
    pub temp: Option<String>,
    pub tmp: Option<String>,
    pub windir: Option<String>,
    pub user_profile: Option<String>,
    pub downloads_exists: bool,
}

/// The system temp locations: the temp value, then the tmp value unless
/// it repeats the temp value.
pub open spec fn temp_part(env: EnvPaths) -> Seq<Seq<char>> {
    (match env.temp {
        Option::Some(t) => seq![t@],
        Option::None => Seq::<Seq<char>>::empty(),
    }) + (match env.tmp {
        Option::Some(t) => {
            if env.temp matches Option::Some(u) && u@ == t@ {
                Seq::<Seq<char>>::empty()
            } else {
                seq![t@]
            }
        },
        Option::None => Seq::<Seq<char>>::empty(),
    })
}

/// The system-level cache directories under the OS directory.
pub open spec fn windir_part(env: EnvPaths) -> Seq<Seq<char>> {
    match env.windir {
        Option::Some(w) => seq![
            win_join(w@, "Prefetch"@),
            win_join(w@, "Logs"@),
            win_join(w@, "SoftwareDistribution\\Download"@),
            win_join(w@, "Temp"@),
        ],
        Option::None => Seq::<Seq<char>>::empty(),
    }
}

/// The per-user cache and temp directories: the downloads folder only
/// when it exists on disk, then thumbnail, browser and store caches, the
/// crash-dump folder, and the recent-files folder.
pub open spec fn user_part(env: EnvPaths) -> Seq<Seq<char>> {
    match env.user_profile {
        Option::Some(u) => (if env.downloads_exists {
            seq![win_join(u@, "Downloads"@)]
        } else {
            Seq::<Seq<char>>::empty()
        }) + seq![
            win_join(u@, "AppData\\Local\\Microsoft\\Windows\\Explorer\\ThumbCacheToDelete"@),
            win_join(u@, "AppData\\Local\\Microsoft\\Edge\\User Data\\Default\\Cache"@),
            win_join(u@, "AppData\\Local\\Google\\Chrome\\User Data\\Default\\Cache"@),
            win_join(u@, "AppData\\Local\\Mozilla\\Firefox\\Profiles"@),
            win_join(u@, "AppData\\Local\\Packages\\Microsoft.WindowsStore_8wekyb3d8bbwe\\LocalCache"@),
            win_join(u@, "AppData\\Local\\CrashDumps"@),
            win_join(u@, "AppData\\Roaming\\Microsoft\\Windows\\Recent"@),
        ],
        Option::None => Seq::<Seq<char>>::empty(),
    }
}

/// The system-wide locations that need elevated access.
pub open spec fn elevated_part(elevated: bool) -> Seq<Seq<char>> {
    if elevated {
        seq![
            "C:\\Windows\\SoftwareDistribution\\Download"@,
            "C:\\ProgramData\\Microsoft\\Windows\\WER\\ReportQueue"@,
            "C:\\Windows\\LiveKernelReports"@,
            "C:\\Windows\\Minidump"@,
        ]
    } else {
        Seq::<Seq<char>>::empty()
    }
}

/// The full ordered catalog for the Windows environment.
pub open spec fn windows_catalog(env: EnvPaths, elevated: bool) -> Seq<Seq<char>> {
    temp_part(env) + windir_part(env) + user_part(env) + elevated_part(elevated)
}

fn add_temp_paths(paths: &mut Vec<String>, env: &EnvPaths)
    ensures
        final(paths).deep_view() == old(paths).deep_view() + temp_part(*env),
{
    match &env.temp {
        Option::Some(t) => {
            paths.push(t.clone());
        },
        Option::None => {},
    }
    match &env.tmp {
        Option::Some(t) => {
            let duplicate = match &env.temp {
                Option::Some(u) => t.eq(u),
                Option::None => false,
            };
            if !duplicate {
                paths.push(t.clone());
            }
        },
        Option::None => {},
    }
    proof {
        assert(paths.deep_view() =~~= old(paths).deep_view() + temp_part(*env));
    }
}

fn add_windir_paths(paths: &mut Vec<String>, env: &EnvPaths)
    ensures
        final(paths).deep_view() == old(paths).deep_view() + windir_part(*env),
{
    match &env.windir {
        Option::Some(w) => {
            paths.push(join_path(w.as_str(), "Prefetch"));
            paths.push(join_path(w.as_str(), "Logs"));
            paths.push(join_path(w.as_str(), "SoftwareDistribution\\Download"));
            paths.push(join_path(w.as_str(), "Temp"));
        },
        Option::None => {},
    }
    proof {
        assert(paths.deep_view() =~~= old(paths).deep_view() + windir_part(*env));
    }
}

fn add_user_paths(paths: &mut Vec<String>, env: &EnvPaths)
    ensures
        final(paths).deep_view() == old(paths).deep_view() + user_part(*env),
{
    match &env.user_profile {
        Option::Some(u) => {
            if env.downloads_exists {
                paths.push(join_path(u.as_str(), "Downloads"));
            }
            paths.push(join_path(
                u.as_str(),
                "AppData\\Local\\Microsoft\\Windows\\Explorer\\ThumbCacheToDelete",
            ));
            paths.push(join_path(
                u.as_str(),
                "AppData\\Local\\Microsoft\\Edge\\User Data\\Default\\Cache",
            ));
            paths.push(join_path(
                u.as_str(),
                "AppData\\Local\\Google\\Chrome\\User Data\\Default\\Cache",
            ));
            paths.push(join_path(u.as_str(), "AppData\\Local\\Mozilla\\Firefox\\Profiles"));
            paths.push(join_path(
                u.as_str(),
                "AppData\\Local\\Packages\\Microsoft.WindowsStore_8wekyb3d8bbwe\\LocalCache",
            ));
            paths.push(join_path(u.as_str(), "AppData\\Local\\CrashDumps"));
            paths.push(join_path(u.as_str(), "AppData\\Roaming\\Microsoft\\Windows\\Recent"));
        },
        Option::None => {},
    }
    proof {
        assert(paths.deep_view() =~~= old(paths).deep_view() + user_part(*env));
    }
}

fn add_elevated_paths(paths: &mut Vec<String>, elevated: bool)
    ensures
        final(paths).deep_view() == old(paths).deep_view() + elevated_part(elevated),
{
    if elevated {
        paths.push(String::from_str("C:\\Windows\\SoftwareDistribution\\Download"));
        paths.push(String::from_str("C:\\ProgramData\\Microsoft\\Windows\\WER\\ReportQueue"));
        paths.push(String::from_str("C:\\Windows\\LiveKernelReports"));
        paths.push(String::from_str("C:\\Windows\\Minidump"));
    }
    proof {
        assert(paths.deep_view() =~~= old(paths).deep_view() + elevated_part(elevated));
    }
}

/// Produces the ordered catalog of candidate directories for the Windows
/// environment `env`, widened by the system-wide locations when
/// `elevated` is set.  Deterministic, no side effects.
pub fn discover_windows(env: &EnvPaths, elevated: bool) -> (paths: Vec<String>)
    ensures
        paths.deep_view() == windows_catalog(*env, elevated),
{
    let mut paths: Vec<String> = Vec::new();
    add_temp_paths(&mut paths, env);
    add_windir_paths(&mut paths, env);
    add_user_paths(&mut paths, env);
    add_elevated_paths(&mut paths, elevated);
    proof {
        assert(paths.deep_view() =~~= windows_catalog(*env, elevated));
    }
    paths
}

/// The fixed catalog for a Unix environment: the system log directory and
/// the shared temp directory.
pub open spec fn unix_catalog() -> Seq<Seq<char>> {
    seq!["/var/log"@, "/tmp"@]
}

/// Produces the catalog of candidate directories for a Unix environment.
pub fn discover_unix() -> (paths: Vec<String>)
    ensures
        paths.deep_view() == unix_catalog(),
{
    let mut paths: Vec<String> = Vec::new();
    paths.push(String::from_str("/var/log"));
    paths.push(String::from_str("/tmp"));
    proof {
        assert(paths.deep_view() =~~= unix_catalog());
    }
    paths
}

} // verus!

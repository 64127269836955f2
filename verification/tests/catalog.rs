use cleanup_engine::catalog::{EnvPaths, discover_windows, discover_unix};
use cleanup_engine::classify::{infer_context, Context};

fn full_env() -> EnvPaths {
    EnvPaths {
        temp: Some("C:\\Users\\u\\AppData\\Local\\Temp".to_string()),
        tmp: Some("C:\\Users\\u\\AppData\\Local\\Tmp".to_string()),
        windir: Some("C:\\Windows".to_string()),
        user_profile: Some("C:\\Users\\u".to_string()),
        downloads_exists: true,
    }
}

#[test]
fn windows_catalog_full() {
    let paths = discover_windows(&full_env(), false);
    let expected = vec![
        "C:\\Users\\u\\AppData\\Local\\Temp".to_string(),
        "C:\\Users\\u\\AppData\\Local\\Tmp".to_string(),
        "C:\\Windows\\Prefetch".to_string(),
        "C:\\Windows\\Logs".to_string(),
        "C:\\Windows\\SoftwareDistribution\\Download".to_string(),
        "C:\\Windows\\Temp".to_string(),
        "C:\\Users\\u\\Downloads".to_string(),
        "C:\\Users\\u\\AppData\\Local\\Microsoft\\Windows\\Explorer\\ThumbCacheToDelete"
            .to_string(),
        "C:\\Users\\u\\AppData\\Local\\Microsoft\\Edge\\User Data\\Default\\Cache".to_string(),
        "C:\\Users\\u\\AppData\\Local\\Google\\Chrome\\User Data\\Default\\Cache".to_string(),
        "C:\\Users\\u\\AppData\\Local\\Mozilla\\Firefox\\Profiles".to_string(),
        "C:\\Users\\u\\AppData\\Local\\Packages\\Microsoft.WindowsStore_8wekyb3d8bbwe\\LocalCache"
            .to_string(),
        "C:\\Users\\u\\AppData\\Local\\CrashDumps".to_string(),
        "C:\\Users\\u\\AppData\\Roaming\\Microsoft\\Windows\\Recent".to_string(),
    ];
    assert_eq!(paths, expected);
}

// The tmp location is dropped when it repeats the temp location.
#[test]
fn windows_catalog_dedups_temp() {
    let mut env = full_env();
    env.tmp = Some("C:\\Users\\u\\AppData\\Local\\Temp".to_string());
    let paths = discover_windows(&env, false);
    assert_eq!(paths.iter().filter(|p| *p == "C:\\Users\\u\\AppData\\Local\\Temp").count(), 1);
    assert_eq!(paths.len(), 13);
}

// The downloads folder is listed only when it exists on disk; the other
// candidates are listed regardless.
#[test]
fn windows_catalog_downloads_only_if_present() {
    let mut env = full_env();
    env.downloads_exists = false;
    let paths = discover_windows(&env, false);
    assert!(!paths.contains(&"C:\\Users\\u\\Downloads".to_string()));
    assert_eq!(paths.len(), 13);
}

// Elevation widens the catalog by the system-wide locations, at the end.
#[test]
fn windows_catalog_elevated() {
    let paths = discover_windows(&full_env(), true);
    assert_eq!(paths.len(), 18);
    assert_eq!(paths[14], "C:\\Windows\\SoftwareDistribution\\Download");
    assert_eq!(paths[15], "C:\\ProgramData\\Microsoft\\Windows\\WER\\ReportQueue");
    assert_eq!(paths[16], "C:\\Windows\\LiveKernelReports");
    assert_eq!(paths[17], "C:\\Windows\\Minidump");
}

// An unresolved environment yields only what can be built without it.
#[test]
fn windows_catalog_empty_env() {
    let env = EnvPaths {
        temp: None,
        tmp: None,
        windir: None,
        user_profile: None,
        downloads_exists: false,
    };
    let paths = discover_windows(&env, false);
    assert!(paths.is_empty());
}

// Discovery is deterministic: the same environment gives the same catalog.
#[test]
fn windows_catalog_deterministic() {
    assert_eq!(discover_windows(&full_env(), true), discover_windows(&full_env(), true));
}

// The catalog and the classifier are deliberately coupled: every catalog
// entry must map to the context its rules were written for.  The entries
// that map to the generic context are exactly the system locations whose
// whole content is disposable — the default-delete policy is intended
// there, and nowhere else.  A new catalog entry must be added to this
// list with its intended context.
#[test]
fn catalog_entries_map_to_intended_contexts() {
    let expected = vec![
        Context::CacheTemp,        // the TEMP location
        Context::Generic,          // the TMP location (disposable by design)
        Context::Generic,          // Prefetch (disposable by design)
        Context::Generic,          // OS logs (disposable by design)
        Context::Generic,          // update cache (disposable by design)
        Context::CacheTemp,        // OS temp
        Context::Downloads,        // downloads: selective rules
        Context::CacheTemp,        // thumbnail cache
        Context::CacheTemp,        // Edge cache
        Context::CacheTemp,        // Chrome cache
        Context::FirefoxProfiles,  // Firefox profiles: selective rules
        Context::CacheTemp,        // store cache
        Context::CrashReports,     // crash dumps
        Context::Recent,           // recent shortcuts: selective rules
        Context::Generic,          // update cache (disposable by design)
        Context::CrashReports,     // error reports
        Context::CrashReports,     // kernel reports
        Context::CrashReports,     // minidumps
    ];
    let paths = discover_windows(&full_env(), true);
    let contexts: Vec<Context> = paths.iter().map(|p| infer_context(p)).collect();
    assert_eq!(contexts, expected);
}

#[test]
fn unix_catalog_fixed() {
    let paths = discover_unix();
    assert_eq!(paths, vec!["/var/log".to_string(), "/tmp".to_string()]);
}

use cleanup_engine::classify::{should_delete, should_delete_download, file_type_label,
    infer_context, Context};

// Downloads keep by default: a regular document survives.
#[test]
fn downloads_keeps_regular_file() {
    assert_eq!(should_delete_download("report.pdf"), false);
}

// A known temporary extension is deleted.
#[test]
fn downloads_deletes_partial_download() {
    assert_eq!(should_delete_download("installer.crdownload"), true);
}

// A known temporary prefix is deleted.
#[test]
fn downloads_deletes_temp_prefix() {
    assert_eq!(should_delete_download("tmp_cache_x"), true);
}

// A temp marker anywhere in the name is deleted.
#[test]
fn downloads_deletes_temp_substring() {
    assert_eq!(should_delete_download("my_tempfile_backup.zip"), true);
}

#[test]
fn downloads_more_extensions() {
    assert!(should_delete_download("a.tmp"));
    assert!(should_delete_download("a.temp"));
    assert!(should_delete_download("a.cache"));
    assert!(should_delete_download("a.part"));
    assert!(should_delete_download("a.partial"));
    assert!(should_delete_download("a.download"));
    assert!(should_delete_download("a.!ut"));
    assert!(should_delete_download("a.bc!"));
    assert!(should_delete_download("a.crx"));
    assert!(should_delete_download("~lockfile"));
    assert!(should_delete_download("TempStuff.bin"));
    assert!(!should_delete_download("photo.jpg"));
    assert!(!should_delete_download("thesis.docx"));
}

// The default-delete law, on the example from the temp context: even a
// document name that matches no temp extension is deleted.
#[test]
fn temp_context_deletes_everything() {
    assert_eq!(should_delete("C:\\Temp", "notes.docx"), true);
}

// The default-delete law in the generic context: a directory matching no
// known keyword deletes every name by default.
#[test]
fn generic_context_deletes_by_default() {
    assert_eq!(infer_context("D:\\Stuff"), Context::Generic);
    assert_eq!(should_delete("D:\\Stuff", "notes.docx"), true);
    assert_eq!(should_delete("D:\\Stuff", "family-photos.zip"), true);
}

// Recent context: only `.lnk` shortcuts are deleted.
#[test]
fn recent_context_only_shortcuts() {
    let recent = "C:\\Users\\u\\AppData\\Roaming\\Microsoft\\Windows\\Recent";
    assert_eq!(should_delete(recent, "doc.txt"), false);
    assert_eq!(should_delete(recent, "doc.lnk"), true);
    assert_eq!(should_delete(recent, "DOC.LNK"), true);
}

#[test]
fn firefox_profiles_rules() {
    let dir = "C:\\Users\\u\\AppData\\Local\\Mozilla\\Firefox\\Profiles";
    assert_eq!(infer_context(dir), Context::FirefoxProfiles);
    assert!(should_delete(dir, "cache2"));
    assert!(should_delete(dir, "TempData"));
    assert!(should_delete(dir, "upload.tmp"));
    assert!(!should_delete(dir, "places.sqlite"));
}

#[test]
fn crash_report_context_deletes_everything() {
    assert_eq!(infer_context("C:\\Users\\u\\AppData\\Local\\CrashDumps"), Context::CrashReports);
    assert!(should_delete("C:\\Users\\u\\AppData\\Local\\CrashDumps", "app.dmp"));
    assert!(should_delete("C:\\Windows\\Minidump", "readme.txt"));
    assert!(should_delete("C:\\ProgramData\\Microsoft\\Windows\\WER\\ReportQueue", "x"));
    assert!(should_delete("C:\\Windows\\LiveKernelReports", "y.bin"));
}

// Context priority: a path that holds both a downloads and a temp keyword
// selects the downloads rules, so unknown names survive.
#[test]
fn downloads_priority_over_temp() {
    let dir = "C:\\temp\\Downloads";
    assert_eq!(infer_context(dir), Context::Downloads);
    assert_eq!(should_delete(dir, "movie.mkv"), false);
}

// Determinism: the decision is a pure function of the lower-cased
// directory path and the file name.
#[test]
fn decision_is_deterministic() {
    assert_eq!(should_delete("C:\\TEMP", "a.xyz"), should_delete("c:\\temp", "a.xyz"));
    assert_eq!(
        should_delete("C:\\Users\\U\\DOWNLOADS", "setup.exe"),
        should_delete("c:\\users\\u\\downloads", "setup.exe"),
    );
    assert_eq!(should_delete("C:\\Temp", "notes.docx"), should_delete("C:\\Temp", "notes.docx"));
}

#[test]
fn context_inference_priority_order() {
    assert_eq!(infer_context("C:\\Users\\u\\Downloads"), Context::Downloads);
    assert_eq!(infer_context("C:\\Windows\\Temp"), Context::CacheTemp);
    assert_eq!(infer_context("C:\\x\\Cache"), Context::CacheTemp);
    assert_eq!(infer_context("C:\\Users\\u\\AppData\\Roaming\\Microsoft\\Windows\\Recent"),
        Context::Recent);
    assert_eq!(infer_context("C:\\Windows\\Prefetch"), Context::Generic);
}

#[test]
fn file_type_labels() {
    assert_eq!(file_type_label("C:\\Users\\u\\Downloads"), "download temp file");
    assert_eq!(file_type_label("C:\\x\\Cache"), "cache file");
    assert_eq!(file_type_label("C:\\Windows\\Temp"), "temp file");
    assert_eq!(file_type_label("C:\\Users\\u\\AppData\\Local\\CrashDumps"), "crash dump file");
    assert_eq!(
        file_type_label("C:\\Users\\u\\AppData\\Roaming\\Microsoft\\Windows\\Recent"),
        "recent-file shortcut",
    );
    assert_eq!(file_type_label("C:\\Windows\\Prefetch"), "prefetch file");
    assert_eq!(file_type_label("C:\\Windows\\Logs"), "log file");
    assert_eq!(
        file_type_label("C:\\ProgramData\\Microsoft\\Windows\\WER\\ReportQueue"),
        "error report",
    );
    assert_eq!(file_type_label("C:\\Windows\\SoftwareDistribution\\Download"), "system file");
}

use cleanup_engine::logsweep::{LogConfig, LogCandidate, is_log_name, should_sweep_file,
    should_descend, sweep_count, common_log_paths};

const MB: u64 = 1048576;
const DAY: u64 = 86400;

#[test]
fn default_config() {
    let cfg = LogConfig::new();
    assert!(cfg.enabled);
    assert_eq!(cfg.drives, vec!["C:".to_string(), "D:".to_string(), "E:".to_string()]);
    assert_eq!(cfg.min_size_mb, 1);
    assert_eq!(cfg.max_age_days, 30);
}

#[test]
fn log_name_patterns() {
    assert!(is_log_name("app.log"));
    assert!(is_log_name("APP.LOG"));
    assert!(is_log_name("app.log.old"));
    assert!(is_log_name("app.log.1"));
    assert!(is_log_name("app.log.5"));
    assert!(is_log_name("app.log.gz"));
    assert!(is_log_name("mylog.txt"));
    assert!(is_log_name("catalog.out"));
    assert!(is_log_name("dialog.err"));
    assert!(!is_log_name("data.txt"));
    assert!(!is_log_name("app.logx"));
    assert!(!is_log_name("notes.docx"));
    // a rotation index past 5 still matches, through the ".log." rule
    assert!(is_log_name("app.log.6"));
}

// The three gates are a conjunction: a half-megabyte file forty days old
// is kept (fails the size gate) even though it passes the age gate.
#[test]
fn sweep_keeps_small_old_file() {
    let cfg = LogConfig::new();
    assert!(!should_sweep_file("app.log", MB / 2, 40 * DAY, &cfg));
}

// A two-megabyte file ten days old is kept (fails the age gate).
#[test]
fn sweep_keeps_large_young_file() {
    let cfg = LogConfig::new();
    assert!(!should_sweep_file("app.log", 2 * MB, 10 * DAY, &cfg));
}

// A file passing all three gates is deleted; one failing the name gate is
// kept whatever its size and age.
#[test]
fn sweep_deletes_only_when_all_gates_pass() {
    let cfg = LogConfig::new();
    assert!(should_sweep_file("app.log", 2 * MB, 40 * DAY, &cfg));
    assert!(!should_sweep_file("archive.zip", 2 * MB, 40 * DAY, &cfg));
}

// Boundary values: exactly one megabyte and exactly thirty days pass.
#[test]
fn sweep_gate_boundaries() {
    let cfg = LogConfig::new();
    assert!(should_sweep_file("app.log", MB, 30 * DAY, &cfg));
    assert!(!should_sweep_file("app.log", MB - 1, 30 * DAY, &cfg));
    assert!(!should_sweep_file("app.log", MB, 30 * DAY - 1, &cfg));
}

// One location's pass deletes exactly the candidates that pass all three
// gates.
#[test]
fn sweep_pass_counts_gate_passers() {
    let cfg = LogConfig::new();
    let files = vec![
        LogCandidate { name: "app.log".to_string(), size_bytes: 2 * MB, age_secs: 40 * DAY },
        LogCandidate { name: "app.log".to_string(), size_bytes: MB / 2, age_secs: 40 * DAY },
        LogCandidate { name: "app.log".to_string(), size_bytes: 2 * MB, age_secs: 10 * DAY },
        LogCandidate { name: "archive.zip".to_string(), size_bytes: 9 * MB, age_secs: 90 * DAY },
        LogCandidate { name: "iis.log.old".to_string(), size_bytes: 3 * MB, age_secs: 31 * DAY },
    ];
    assert_eq!(sweep_count(&files, &cfg), 2);
    assert_eq!(sweep_count(&Vec::new(), &cfg), 0);
}

#[test]
fn descend_rules() {
    assert!(should_descend("Users"));
    assert!(should_descend("logs"));
    assert!(!should_descend(".git"));
    assert!(!should_descend(".hidden"));
    assert!(!should_descend("System Volume Information"));
    assert!(should_descend("system volume information"));
}

#[test]
fn log_locations_under_drive() {
    let users = vec!["C:\\Users\\alice".to_string(), "C:\\Users\\bob".to_string()];
    let paths = common_log_paths("C:", &users);
    let expected = vec![
        "C:\\Windows\\Logs".to_string(),
        "C:\\Windows\\System32\\LogFiles".to_string(),
        "C:\\Windows\\Temp".to_string(),
        "C:\\ProgramData\\Microsoft\\Windows\\WER\\ReportQueue".to_string(),
        "C:\\Program Files\\Common Files\\Microsoft Shared\\Web Server Extensions\\14\\Logs"
            .to_string(),
        "C:\\inetpub\\logs".to_string(),
        "C:\\Users\\alice\\AppData\\Local\\Temp".to_string(),
        "C:\\Users\\alice\\AppData\\Roaming".to_string(),
        "C:\\Users\\bob\\AppData\\Local\\Temp".to_string(),
        "C:\\Users\\bob\\AppData\\Roaming".to_string(),
        "C:\\logs".to_string(),
        "C:\\log".to_string(),
        "C:\\var\\log".to_string(),
        "C:\\tmp".to_string(),
    ];
    assert_eq!(paths, expected);
}

#[test]
fn log_locations_without_users() {
    let users: Vec<String> = Vec::new();
    let paths = common_log_paths("D:", &users);
    assert_eq!(paths.len(), 10);
    assert_eq!(paths[0], "D:\\Windows\\Logs");
    assert_eq!(paths[9], "D:\\tmp");
}

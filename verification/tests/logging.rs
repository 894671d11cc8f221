use dsh_installer::logging::log_file_line;
use dsh_installer::logging::{
    LogFileInfo, RecentLines, compare_text, is_log_file_name, newest_first, retention_removals,
};
use dsh_installer::model::LogLine;

fn file(name: &str, modified: i64, bytes: u64) -> LogFileInfo {
    LogFileInfo {
        path: format!("/logs/{name}"),
        name: name.to_owned(),
        modified,
        bytes,
    }
}

#[test]
fn log_retention_removes_older_files_over_the_quota() {
    let files = vec![
        file("harness-20260101.log", 1_000, 4),
        file("harness-20260102.log", 2_000, 4),
    ];
    let sorted = newest_first(&files);
    let removed = retention_removals(&sorted, 3_000, u128::MAX, 5);
    assert_eq!(removed, vec!["/logs/harness-20260101.log".to_owned()]);
}

#[test]
fn expired_logs_are_removed_whatever_the_quota() {
    let files = vec![
        file("harness-20260101.log", 0, 1),
        file("harness-20260108.log", 900, 1),
        file("harness-future.log", 5_000, 1),
    ];
    let sorted = newest_first(&files);
    let names: Vec<&str> = sorted.iter().map(|f| f.name.as_str()).collect();
    assert_eq!(
        names,
        vec!["harness-future.log", "harness-20260108.log", "harness-20260101.log"]
    );
    let removed = retention_removals(&sorted, 1_000, 500, u64::MAX);
    assert_eq!(removed, vec!["/logs/harness-20260101.log".to_owned()]);
}

#[test]
fn equally_old_logs_are_ordered_by_name() {
    let files = vec![file("harness-a.log", 7, 1), file("harness-b.log", 7, 1)];
    let sorted = newest_first(&files);
    assert_eq!(sorted[0].name, "harness-b.log");
    assert!(compare_text("harness-b.log", "harness-a.log") > 0);
    assert_eq!(compare_text("abc", "abc"), 0);
    assert!(compare_text("ab", "abc") < 0);
}

#[test]
fn only_harness_logs_are_considered() {
    assert!(is_log_file_name("harness-20260101.log"));
    assert!(!is_log_file_name("harness-20260101.txt"));
    assert!(!is_log_file_name("other-20260101.log"));
}

#[test]
fn recent_lines_keep_the_last_entries() {
    let mut lines = RecentLines::new(2);
    for (index, text) in ["one", "two", "three"].iter().enumerate() {
        lines.push(LogLine {
            timestamp: format!("{index}"),
            source: "app".to_owned(),
            line: (*text).to_owned(),
        });
    }
    let recent = lines.recent();
    assert_eq!(recent.len(), 2);
    assert_eq!(recent[0].line, "two");
    assert_eq!(recent[1].line, "three");

    let mut tail = RecentLines::new(40);
    for index in 0..45 {
        tail.push(format!("line {index}"));
    }
    assert_eq!(tail.len(), 40);
    assert!(tail.joined().starts_with("line 5\nline 6"));
}

#[test]
fn log_file_lines_carry_time_and_source() {
    let line = LogLine {
        timestamp: "2026-01-02T03:04:05Z".to_owned(),
        source: "stderr".to_owned(),
        line: "boom".to_owned(),
    };
    assert_eq!(log_file_line(&line), "[2026-01-02T03:04:05Z] [stderr] boom");
}

use std::time::Duration;
use std::time::SystemTime;

use ftail::format::format_line;
use ftail::format::level_label;
use ftail::retention::FileEntry;
use ftail::Config;
use ftail::DailyFileLogger;
use ftail::Formatter;
use ftail::FtailError;
use ftail::Level;
use ftail::LevelFilter;
use ftail::LogEvent;
use ftail::SingleLogger;

fn event(level: Level, target: &str, message: &str) -> LogEvent {
    LogEvent::new(
        level,
        target.to_string(),
        message.to_string(),
        Some("main.rs".to_string()),
        Some(3),
    )
}

fn config() -> Config {
    Config::new()
}

#[test]
fn read_only_target_is_a_permission_error() {
    let r = SingleLogger::new("logs/demo.log", true, true, config());
    match r {
        Err(FtailError::PermissionsError(p)) => assert_eq!(p, "logs/demo.log"),
        _ => panic!("expected a permission error"),
    }
}

#[test]
fn writable_target_constructs_the_sink() {
    let s = SingleLogger::new("logs/demo.log", true, false, config()).unwrap();
    assert_eq!(s.path, "logs/demo.log");
    assert!(s.append);
}

#[test]
fn single_sink_rotates_by_size_too() {
    let mut c = config();
    c.max_file_size = Some(10);
    let s = SingleLogger::new("demo.log", true, false, c).unwrap();
    let plan = s.plan_write(&event(Level::Warn, "app", "hi"), 10, 1);
    let rotation = plan.size_rotation.expect("file at threshold must rotate");
    assert_eq!(rotation.renames.len(), 2);
    assert_eq!(rotation.renames[0].from, "demo.log.old1");
    assert_eq!(rotation.renames[0].to, "demo.log.old2");
    assert_eq!(rotation.renames[1].from, "demo.log");
    assert_eq!(rotation.renames[1].to, "demo.log.old1");
    assert!(plan.open_path.is_none());
    assert!(plan.deletes.is_empty());
    assert!(plan.line.expect("an admitted event is written").ends_with(" WARN app hi"));
}

#[test]
fn single_sink_rejects_below_its_level() {
    let mut c = config();
    c.level_filter = LevelFilter::Error;
    c.max_file_size = Some(10);
    let s = SingleLogger::new("demo.log", true, false, c).unwrap();
    let plan = s.plan_write(&event(Level::Info, "app", "hi"), 10, 0);
    assert!(plan.size_rotation.is_none());
    assert!(plan.line.is_none());
}

#[test]
fn daily_sink_for_a_given_date_names_its_file() {
    let s = DailyFileLogger::for_date("logs", "2024-01-01", false, config()).unwrap();
    assert_eq!(s.current_date, "2024-01-01");
    assert_eq!(s.file_path, "logs/2024-01-01.log");
}

#[test]
fn read_only_directory_is_a_permission_error_for_daily_sink() {
    let r = DailyFileLogger::new("logs", true, config());
    match r {
        Err(FtailError::PermissionsError(p)) => assert_eq!(p, "logs"),
        _ => panic!("expected a permission error"),
    }
}

#[test]
fn daily_sink_opens_todays_file() {
    let s = DailyFileLogger::new("logs", false, config()).unwrap();
    assert_eq!(s.dir, "logs");
    assert_eq!(s.file_path, format!("logs/{}.log", s.current_date));
    let today = chrono::Local::now().format("%Y-%m-%d").to_string();
    assert_eq!(s.current_date, today);
}

#[test]
fn default_formatter_uses_the_configured_datetime_format() {
    let mut c = config();
    c.datetime_format = "%Y".to_string();
    let ev = event(Level::Info, "t", "m");
    let formatter = ftail::DefaultFormatter::new(&ev, &c);
    let year = chrono::Local::now().format("%Y").to_string();
    assert_eq!(formatter.format(), format!("{} INFO t m", year));
}

fn daily_sink_with_date(date: &str, config: Config) -> DailyFileLogger {
    DailyFileLogger {
        dir: "logs".to_string(),
        file_path: format!("logs/{}.log", date),
        current_date: date.to_string(),
        config,
    }
}

#[test]
fn date_change_switches_to_the_new_days_file() {
    let mut s = daily_sink_with_date("2024-01-01", config());
    let opened = s.switch_for_date(&"2024-01-02".to_string());
    assert_eq!(opened.as_deref(), Some("logs/2024-01-02.log"));
    assert_eq!(s.current_date, "2024-01-02");
    assert_eq!(s.file_path, "logs/2024-01-02.log");
}

#[test]
fn unchanged_date_switches_nothing() {
    let mut s = daily_sink_with_date("2024-01-01", config());
    let opened = s.switch_for_date(&"2024-01-01".to_string());
    assert!(opened.is_none());
    assert_eq!(s.current_date, "2024-01-01");
    assert_eq!(s.file_path, "logs/2024-01-01.log");
}

#[test]
fn write_plan_rotates_by_size_and_prunes_old_files() {
    let mut c = config();
    c.max_file_size = Some(10);
    c.retention_days = Some(7);
    let mut s = daily_sink_with_date("2024-01-01", c);
    let eight_days_ago = SystemTime::now() - Duration::from_secs(8 * 24 * 60 * 60);
    let six_days_ago = SystemTime::now() - Duration::from_secs(6 * 24 * 60 * 60);
    let entries = vec![
        FileEntry { name: "2023-12-20.log".to_string(), modified: eight_days_ago },
        FileEntry { name: "2023-12-22.log".to_string(), modified: six_days_ago },
    ];
    let plan = s.plan_write(&event(Level::Warn, "app", "hi"), 10, 0, &entries);
    let rotation = plan.size_rotation.expect("file at threshold must rotate");
    assert_eq!(rotation.renames.len(), 1);
    assert_eq!(rotation.renames[0].from, "logs/2024-01-01.log");
    assert_eq!(rotation.renames[0].to, "logs/2024-01-01.log.old1");
    let opened = plan.open_path.expect("stored date is long past");
    assert_eq!(opened, format!("logs/{}.log", s.current_date));
    assert_eq!(plan.deletes, vec![0]);
    let line = plan.line.expect("an admitted event is written");
    assert!(line.ends_with(" WARN app hi"));
}

#[test]
fn write_plan_below_threshold_keeps_the_file() {
    let mut c = config();
    c.max_file_size = Some(100);
    let mut s = daily_sink_with_date("2024-01-01", c);
    let plan = s.plan_write(&event(Level::Info, "app", "hi"), 99, 0, &Vec::new());
    assert!(plan.size_rotation.is_none());
    assert!(plan.deletes.is_empty());
    assert!(plan.line.is_some());
}

#[test]
fn rejected_event_produces_an_empty_plan() {
    let mut c = config();
    c.level_filter = LevelFilter::Error;
    c.max_file_size = Some(10);
    let mut s = daily_sink_with_date("2024-01-01", c);
    let plan = s.plan_write(&event(Level::Debug, "app", "hi"), 10, 0, &Vec::new());
    assert!(plan.size_rotation.is_none());
    assert!(plan.open_path.is_none());
    assert!(plan.deletes.is_empty());
    assert!(plan.line.is_none());
    assert_eq!(s.current_date, "2024-01-01");
}

#[test]
fn sink_level_check_follows_its_configuration() {
    let mut c = config();
    c.level_filter = LevelFilter::Warn;
    let s = daily_sink_with_date("2024-01-01", c);
    assert!(s.enabled(Level::Error));
    assert!(s.enabled(Level::Warn));
    assert!(!s.enabled(Level::Info));
}

#[test]
fn line_layout_is_datetime_level_target_message() {
    let line = format_line("2024-01-02 10:00:00", Level::Warn, "app", "hello there");
    assert_eq!(line, "2024-01-02 10:00:00 WARN app hello there");
}

#[test]
fn level_labels_are_upper_case() {
    assert_eq!(level_label(Level::Trace), "TRACE");
    assert_eq!(level_label(Level::Debug), "DEBUG");
    assert_eq!(level_label(Level::Info), "INFO");
    assert_eq!(level_label(Level::Warn), "WARN");
    assert_eq!(level_label(Level::Error), "ERROR");
}

#[test]
fn io_and_facade_errors_carry_their_text() {
    let io = FtailError::IoError("disk full".to_string());
    let facade = FtailError::SetLoggerError("already installed".to_string());
    assert_eq!(io, FtailError::IoError("disk full".to_string()));
    assert_ne!(io, facade);
}
